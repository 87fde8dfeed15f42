use vstd::prelude::*;
use vstd::std_specs::convert::FromSpecImpl;

verus! {

/// The counter that tells one state of a record from the next.
pub type VersionType = u32;

/// The version that follows `version`: one more, and the same once the
/// counter has reached its maximum.
pub open spec fn version_after(version: VersionType) -> VersionType {
    if version < VersionType::MAX {
        (version + 1) as VersionType
    } else {
        version
    }
}

/// A record that is not in a store yet: an identifier and a payload.
#[derive(Clone, Debug, PartialEq)]
pub struct NewModel<IdType, Data> {
    pub id: IdType,
    pub data: Data,
}

impl<IdType, Data> NewModel<IdType, Data> {
    pub fn new(id: IdType, data: Data) -> (r: Self)
        ensures
            r == (NewModel { id, data }),
    {
        Self { id, data }
    }
}

/// A record as a store holds it: an identifier, the version it has reached
/// and a payload.
///
/// A store gives a record version 0 when it is saved and the next version at
/// each update; a caller hands the version back as it was read, which is how a
/// store tells that the record has not changed in between.
#[derive(Clone, Debug, PartialEq)]
pub struct Model<IdType, Data> {
    pub id: IdType,
    pub version: VersionType,
    pub data: Data,
}

impl<IdType, Data> Model<IdType, Data> {
    /// The record that a new record becomes when it is saved.
    pub open spec fn first(model: NewModel<IdType, Data>) -> Self {
        Model { id: model.id, version: 0, data: model.data }
    }

    /// The record that replaces this one when it is updated.
    pub open spec fn next(self) -> Self {
        Model { id: self.id, version: version_after(self.version), data: self.data }
    }

    pub fn from_new(model: NewModel<IdType, Data>) -> (r: Self)
        ensures
            r == Self::first(model),
    {
        Model { id: model.id, version: 0, data: model.data }
    }

    pub fn into_new_version(self) -> (r: Self)
        ensures
            r == self.next(),
    {
        let version: VersionType = if self.version < VersionType::MAX {
            self.version + 1
        } else {
            self.version
        };
        Model { id: self.id, version, data: self.data }
    }

    pub fn version(&self) -> (v: VersionType)
        ensures
            v == self.version,
    {
        self.version
    }
}

impl<IdType: Clone, Data: Clone> Model<IdType, Data> {
    /// `self` is what cloning `held` field by field may give: the same
    /// version, and an id and a payload that `clone` made of those of `held`.
    pub open spec fn is_copy_of(self, held: Self) -> bool {
        &&& cloned(held.id, self.id)
        &&& self.version == held.version
        &&& cloned(held.data, self.data)
    }
}

impl<IdType, Data> From<NewModel<IdType, Data>> for Model<IdType, Data> {
    fn from(new_model: NewModel<IdType, Data>) -> (r: Self) {
        Model { id: new_model.id, version: 0, data: new_model.data }
    }
}

impl<IdType, Data> FromSpecImpl<NewModel<IdType, Data>> for Model<IdType, Data> {
    open spec fn obeys_from_spec() -> bool {
        true
    }

    open spec fn from_spec(new_model: NewModel<IdType, Data>) -> Self {
        Self::first(new_model)
    }
}

impl<IdType, Data> From<(IdType, Data)> for Model<IdType, Data> {
    fn from(pair: (IdType, Data)) -> (r: Self) {
        Model { id: pair.0, version: 0, data: pair.1 }
    }
}

impl<IdType, Data> FromSpecImpl<(IdType, Data)> for Model<IdType, Data> {
    open spec fn obeys_from_spec() -> bool {
        true
    }

    open spec fn from_spec(pair: (IdType, Data)) -> Self {
        Model { id: pair.0, version: 0, data: pair.1 }
    }
}

impl<IdType, Data> From<(IdType, VersionType, Data)> for Model<IdType, Data> {
    fn from(triple: (IdType, VersionType, Data)) -> (r: Self) {
        Model { id: triple.0, version: triple.1, data: triple.2 }
    }
}

impl<IdType, Data> FromSpecImpl<(IdType, VersionType, Data)> for Model<IdType, Data> {
    open spec fn obeys_from_spec() -> bool {
        true
    }

    open spec fn from_spec(triple: (IdType, VersionType, Data)) -> Self {
        Model { id: triple.0, version: triple.1, data: triple.2 }
    }
}

impl<IdType, Data> From<(IdType, Data)> for NewModel<IdType, Data> {
    fn from(pair: (IdType, Data)) -> (r: Self) {
        NewModel { id: pair.0, data: pair.1 }
    }
}

impl<IdType, Data> FromSpecImpl<(IdType, Data)> for NewModel<IdType, Data> {
    open spec fn obeys_from_spec() -> bool {
        true
    }

    open spec fn from_spec(pair: (IdType, Data)) -> Self {
        NewModel { id: pair.0, data: pair.1 }
    }
}

} // verus!
