use std::marker::PhantomData;
use vstd::prelude::*;

use crate::backend::{Backend, Records};
use crate::error::{Fault, TxError};
use crate::model::Model;
use crate::tx::Tx;

verus! {

/// The front door to a store: reads go straight to the store, writes go
/// through a transaction that is committed on the handle.
pub struct IcTx<Data: Clone, B: Backend<Data>> {
    pub backend: B,
    pub phantom_data: PhantomData<Data>,
}

impl<Data: Clone, B: Backend<Data>> IcTx<Data, B> {
    /// The records that the store behind the handle holds.
    pub open spec fn records(&self) -> Records<B::IdType, Data> {
        self.backend.records()
    }

    /// The store behind the handle is valid.
    pub open spec fn valid(&self) -> bool {
        self.backend.valid()
    }

    /// The store behind the handle may give up on a call.
    pub open spec fn may_fail(&self) -> bool {
        self.backend.may_fail()
    }

    pub fn new(backend: B) -> (r: Self)
        ensures
            r.backend == backend,
    {
        Self { backend, phantom_data: PhantomData }
    }

    /// Starts a new atomic transaction: one that is open and has nothing
    /// staged.
    pub fn tx(&self) -> (r: Tx<Data, B>)
        ensures
            r@ == Seq::<crate::protocol::Action<B::IdType, Data>>::empty(),
            !r.completed(),
    {
        Tx::new()
    }

    /// A copy of the record under `id`, as the store holds it now.
    pub fn fetch_one(&self, id: &B::IdType) -> (r: Result<Model<B::IdType, Data>, TxError>)
        requires
            self.valid(),
        ensures
            match r {
                Ok(model) => self.records().contains_key(*id) && model.is_copy_of(
                    self.records()[*id],
                ),
                Err(e) => if e is FetchError {
                    self.may_fail()
                } else {
                    !self.records().contains_key(*id) && e.reports(Fault::NotFound { id: *id })
                },
            },
    {
        self.backend.fetch_one(id)
    }

    /// A copy of the record under `id`, as the store holds it now, or `None`
    /// where it holds none.
    pub fn fetch_option_one(&self, id: &B::IdType) -> (r: Result<
        Option<Model<B::IdType, Data>>,
        TxError,
    >)
        requires
            self.valid(),
        ensures
            match r {
                Ok(Some(model)) => self.records().contains_key(*id) && model.is_copy_of(
                    self.records()[*id],
                ),
                Ok(None) => !self.records().contains_key(*id),
                Err(e) => e is FetchError && self.may_fail(),
            },
    {
        self.backend.fetch_option_one(id)
    }
}

} // verus!
