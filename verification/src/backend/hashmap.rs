use std::collections::HashMap;
use std::fmt::Display;
use std::hash::Hash;
use vstd::prelude::*;
use vstd::std_specs::hash::obeys_key_model;

use crate::backend::{keyed_by_id, Backend, Records};
use crate::error::TxError;
use crate::model::{Model, NewModel, VersionType};

verus! {

broadcast use vstd::std_specs::hash::group_hash_axioms;

/// The records of `map`, each under its key and with its key for an id: a
/// record keeps its id in the key alone, since what the map holds beside it
/// is a clone.
spec fn rekeyed<IdType, Data>(map: Map<IdType, Model<IdType, Data>>) -> Records<IdType, Data> {
    Map::new(
        |id: IdType| map.contains_key(id),
        |id: IdType| Model { id, version: map[id].version, data: map[id].data },
    )
}

/// A store that keeps its records in memory, in a hash map.
///
/// It never gives up on a call: what comes back is decided by the records
/// alone.
pub struct HashmapBackend<IdType: Eq + Hash + Clone, Data: Clone> {
    map: HashMap<IdType, Model<IdType, Data>>,
}

impl<IdType: Eq + Hash + Clone, Data: Clone> HashmapBackend<IdType, Data> {
    /// The records held.
    pub closed spec fn held(&self) -> Records<IdType, Data> {
        rekeyed(self.map@)
    }

    /// A store that holds nothing.
    pub fn new() -> (r: Self)
        ensures
            r.held() == Records::<IdType, Data>::empty(),
    {
        let r = HashmapBackend { map: HashMap::new() };
        assert(r.held() =~= Records::<IdType, Data>::empty());
        r
    }

    /// A store that holds the records of `map`, each of which stands under
    /// its own id.
    pub fn with_map(map: HashMap<IdType, Model<IdType, Data>>) -> (r: Self)
        requires
            keyed_by_id(map@),
        ensures
            r.held() == map@,
    {
        let r = HashmapBackend { map };
        assert(r.held() =~= map@);
        r
    }

    /// Every record that the store holds stands under its own id.
    pub proof fn lemma_held_keyed_by_id(&self)
        ensures
            keyed_by_id(self.held()),
    {
    }
}

impl<IdType: Eq + Hash + Clone + Display, Data: Clone> Backend<Data> for HashmapBackend<
    IdType,
    Data,
> {
    type IdType = IdType;

    open spec fn records(&self) -> Records<IdType, Data> {
        self.held()
    }

    open spec fn valid(&self) -> bool {
        obeys_key_model::<IdType>()
    }

    open spec fn may_fail(&self) -> bool {
        false
    }

    fn fetch_one(&self, id: &IdType) -> (r: Result<Model<IdType, Data>, TxError>) {
        match self.fetch_option_one(id) {
            Ok(Some(model)) => Ok(model),
            Ok(None) => Err(TxError::not_found(id)),
            Err(e) => Err(e),
        }
    }

    fn fetch_option_one(&self, id: &IdType) -> (r: Result<Option<Model<IdType, Data>>, TxError>) {
        match self.map.get(id) {
            Some(held) => Ok(
                Some(Model { id: id.clone(), version: held.version, data: held.data.clone() }),
            ),
            None => Ok(None),
        }
    }

    fn fetch_version(&self, id: &IdType) -> (r: Result<VersionType, TxError>) {
        match self.fetch_option_version(id) {
            Ok(Some(version)) => Ok(version),
            Ok(None) => Err(TxError::not_found(id)),
            Err(e) => Err(e),
        }
    }

    fn fetch_option_version(&self, id: &IdType) -> (r: Result<Option<VersionType>, TxError>) {
        match self.map.get(id) {
            Some(held) => Ok(Some(held.version)),
            None => Ok(None),
        }
    }

    fn update(&mut self, model: Model<IdType, Data>) -> (r: Result<(), TxError>) {
        let found = match self.map.get(&model.id) {
            Some(held) => Some(held.version),
            None => None,
        };
        match found {
            Some(version) => {
                if version == model.version {
                    let ghost before = self.map@;
                    let held = Model { id: model.id.clone(), version, data: model.data };
                    self.map.insert(model.id, held.into_new_version());
                    assert(self.held() =~= rekeyed(before).insert(model.id, model.next()));
                    Ok(())
                } else {
                    Err(TxError::update_of_stale(&model.id, model.version, version))
                }
            },
            None => Err(TxError::update_of_missing(&model.id)),
        }
    }

    fn delete(&mut self, id: &IdType) -> (r: Result<(), TxError>) {
        match self.delete_option(id) {
            Ok(removed) => {
                if removed {
                    Ok(())
                } else {
                    Err(TxError::delete_of_missing(id))
                }
            },
            Err(e) => Err(e),
        }
    }

    fn delete_option(&mut self, id: &IdType) -> (r: Result<bool, TxError>) {
        let ghost before = self.map@;
        let removed = self.map.remove(id);
        assert(self.held() =~= rekeyed(before).remove(*id));
        Ok(removed.is_some())
    }

    fn save(&mut self, model: NewModel<IdType, Data>) -> (r: Result<(), TxError>) {
        if self.map.contains_key(&model.id) {
            Err(TxError::id_in_use(&model.id))
        } else {
            let ghost before = self.map@;
            let held = Model { id: model.id.clone(), version: 0, data: model.data };
            self.map.insert(model.id, held);
            assert(self.held() =~= rekeyed(before).insert(model.id, Model::first(model)));
            Ok(())
        }
    }
}

} // verus!
