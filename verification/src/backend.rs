use std::fmt::Display;
use vstd::prelude::*;

use crate::error::{Fault, TxError};
use crate::model::{Model, NewModel, VersionType};

pub mod hashmap;

verus! {

/// What a store holds, as contracts speak of it: the records by their ids.
pub type Records<IdType, Data> = Map<IdType, Model<IdType, Data>>;

/// Every record stands under its own id.
pub open spec fn keyed_by_id<IdType, Data>(records: Records<IdType, Data>) -> bool {
    forall|id: IdType| #[trigger] records.contains_key(id) ==> records[id].id == id
}

/// The version of the record under `id`, if there is one.
pub open spec fn version_in<IdType, Data>(records: Records<IdType, Data>, id: IdType) -> Option<
    VersionType,
> {
    if records.contains_key(id) {
        Some(records[id].version)
    } else {
        None
    }
}

/// What saving `model` makes of `records`: the record enters at version 0,
/// unless its id is taken.
pub open spec fn saved<IdType, Data>(
    records: Records<IdType, Data>,
    model: NewModel<IdType, Data>,
) -> Result<Records<IdType, Data>, Fault<IdType>> {
    if records.contains_key(model.id) {
        Err(Fault::IdInUse { id: model.id })
    } else {
        Ok(records.insert(model.id, Model::first(model)))
    }
}

/// What updating with `model` makes of `records`: where the id is held at the
/// version that `model` carries, the record takes the payload of `model` and
/// the next version.
pub open spec fn updated<IdType, Data>(
    records: Records<IdType, Data>,
    model: Model<IdType, Data>,
) -> Result<Records<IdType, Data>, Fault<IdType>> {
    if !records.contains_key(model.id) {
        Err(Fault::UpdateOfMissing { id: model.id })
    } else if records[model.id].version != model.version {
        Err(
            Fault::UpdateOfStale {
                id: model.id,
                expected: model.version,
                found: records[model.id].version,
            },
        )
    } else {
        Ok(records.insert(model.id, model.next()))
    }
}

/// What deleting `id` makes of `records`: the record leaves, and it is a
/// fault if there was none.
pub open spec fn deleted<IdType, Data>(records: Records<IdType, Data>, id: IdType) -> Result<
    Records<IdType, Data>,
    Fault<IdType>,
> {
    if records.contains_key(id) {
        Ok(records.remove(id))
    } else {
        Err(Fault::DeleteOfMissing { id })
    }
}

/// A store of versioned records, addressed by id.
///
/// The contracts are those that a transaction relies on. A read changes
/// nothing. A write either takes effect as a whole and returns `Ok`, or
/// returns an error and leaves the records as they were. A store for which
/// [`Backend::may_fail`] is false answers every call as the records alone
/// decide; one for which it is true may in addition give up on any call, on
/// a read with [`TxError::FetchError`].
pub trait Backend<Data: Clone> {
    type IdType: Display + Clone;

    /// The records that the store holds.
    spec fn records(&self) -> Records<Self::IdType, Data>;

    /// The store is in a state in which its operations may be called.
    spec fn valid(&self) -> bool;

    /// The store may give up on a call for a reason of its own.
    spec fn may_fail(&self) -> bool;

    /// A copy of the record under `id`.
    fn fetch_one(&self, id: &Self::IdType) -> (r: Result<Model<Self::IdType, Data>, TxError>)
        requires
            self.valid(),
        ensures
            match r {
                Ok(model) => self.records().contains_key(*id) && model.is_copy_of(
                    self.records()[*id],
                ),
                Err(e) => if e is FetchError {
                    self.may_fail()
                } else {
                    !self.records().contains_key(*id) && e.reports(Fault::NotFound { id: *id })
                },
            },
    ;

    /// A copy of the record under `id`, or `None` where there is none.
    fn fetch_option_one(&self, id: &Self::IdType) -> (r: Result<
        Option<Model<Self::IdType, Data>>,
        TxError,
    >)
        requires
            self.valid(),
        ensures
            match r {
                Ok(Some(model)) => self.records().contains_key(*id) && model.is_copy_of(
                    self.records()[*id],
                ),
                Ok(None) => !self.records().contains_key(*id),
                Err(e) => e is FetchError && self.may_fail(),
            },
    ;

    /// The version of the record under `id`.
    fn fetch_version(&self, id: &Self::IdType) -> (r: Result<VersionType, TxError>)
        requires
            self.valid(),
        ensures
            match r {
                Ok(version) => version_in(self.records(), *id) == Some(version),
                Err(e) => if e is FetchError {
                    self.may_fail()
                } else {
                    !self.records().contains_key(*id) && e.reports(Fault::NotFound { id: *id })
                },
            },
    ;

    /// The version of the record under `id`, or `None` where there is none.
    fn fetch_option_version(&self, id: &Self::IdType) -> (r: Result<Option<VersionType>, TxError>)
        requires
            self.valid(),
        ensures
            match r {
                Ok(version) => version == version_in(self.records(), *id),
                Err(e) => e is FetchError && self.may_fail(),
            },
    ;

    /// Replaces the record under the id of `model`, see [`updated`].
    fn update(&mut self, model: Model<Self::IdType, Data>) -> (r: Result<(), TxError>)
        requires
            old(self).valid(),
        ensures
            final(self).valid(),
            final(self).may_fail() == old(self).may_fail(),
            match r {
                Ok(_) => updated(old(self).records(), model) == Ok::<_, Fault<Self::IdType>>(
                    final(self).records(),
                ),
                Err(e) => {
                    &&& final(self).records() == old(self).records()
                    &&& old(self).may_fail() || (updated(old(self).records(), model) matches Err(
                        fault,
                    ) && e.reports(fault))
                },
            },
    ;

    /// Removes the record under `id`, see [`deleted`].
    fn delete(&mut self, id: &Self::IdType) -> (r: Result<(), TxError>)
        requires
            old(self).valid(),
        ensures
            final(self).valid(),
            final(self).may_fail() == old(self).may_fail(),
            match r {
                Ok(_) => deleted(old(self).records(), *id) == Ok::<_, Fault<Self::IdType>>(
                    final(self).records(),
                ),
                Err(e) => {
                    &&& final(self).records() == old(self).records()
                    &&& old(self).may_fail() || (deleted(old(self).records(), *id) matches Err(
                        fault,
                    ) && e.reports(fault))
                },
            },
    ;

    /// Removes the record under `id` if there is one, and says whether there
    /// was.
    fn delete_option(&mut self, id: &Self::IdType) -> (r: Result<bool, TxError>)
        requires
            old(self).valid(),
        ensures
            final(self).valid(),
            final(self).may_fail() == old(self).may_fail(),
            match r {
                Ok(removed) => {
                    &&& removed == old(self).records().contains_key(*id)
                    &&& final(self).records() == old(self).records().remove(*id)
                },
                Err(_) => final(self).records() == old(self).records() && old(self).may_fail(),
            },
    ;

    /// Adds `model` as a record of version 0, see [`saved`].
    fn save(&mut self, model: NewModel<Self::IdType, Data>) -> (r: Result<(), TxError>)
        requires
            old(self).valid(),
        ensures
            final(self).valid(),
            final(self).may_fail() == old(self).may_fail(),
            match r {
                Ok(_) => saved(old(self).records(), model) == Ok::<_, Fault<Self::IdType>>(
                    final(self).records(),
                ),
                Err(e) => {
                    &&& final(self).records() == old(self).records()
                    &&& old(self).may_fail() || (saved(old(self).records(), model) matches Err(
                        fault,
                    ) && e.reports(fault))
                },
            },
    ;
}

} // verus!
