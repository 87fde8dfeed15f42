use vstd::prelude::*;

use crate::backend::{version_in, Backend};
use crate::db::IcTx;
use crate::error::{Fault, TxError};
use crate::model::{Model, NewModel, VersionType};
use crate::protocol::{
    applied, committed, first_objection, left_by_commit, lemma_failure_in_prefix,
    lemma_objection_to_prefix, lemma_what_a_commit_leaves, objection, Action,
};

verus! {

/// A unit of work on a store: writes are staged in a log, in the order in
/// which they are made, and reach the store together when the transaction is
/// committed, or never.
pub struct Tx<Data: Clone, B: Backend<Data>> {
    actions: Vec<Action<B::IdType, Data>>,
    completed: bool,
}

impl<Data: Clone, B: Backend<Data>> View for Tx<Data, B> {
    type V = Seq<Action<B::IdType, Data>>;

    /// The log: what has been staged, oldest first.
    closed spec fn view(&self) -> Seq<Action<B::IdType, Data>> {
        self.actions@
    }
}

impl<Data: Clone, B: Backend<Data>> Tx<Data, B> {
    /// The transaction has been committed, with or without success. From then
    /// on it changes no store.
    pub closed spec fn completed(&self) -> bool {
        self.completed
    }

    /// Whether the transaction has been committed.
    pub fn is_completed(&self) -> (r: bool)
        ensures
            r == self.completed(),
    {
        self.completed
    }

    /// An open transaction with nothing staged.
    pub fn new() -> (r: Self)
        ensures
            r@ == Seq::<Action<B::IdType, Data>>::empty(),
            !r.completed(),
    {
        Self { actions: Vec::new(), completed: false }
    }

    /// Stages the creation of `model`.
    pub fn save(&mut self, model: NewModel<B::IdType, Data>) -> (r: Result<(), TxError>)
        ensures
            r is Ok,
            final(self)@ == old(self)@.push(Action::Create { model }),
            final(self).completed() == old(self).completed(),
    {
        self.actions.push(Action::Create { model });
        Ok(())
    }

    /// Stages the replacement of the record under the id of `model`.
    pub fn update(&mut self, model: Model<B::IdType, Data>) -> (r: Result<(), TxError>)
        ensures
            r is Ok,
            final(self)@ == old(self)@.push(Action::Update { model }),
            final(self).completed() == old(self).completed(),
    {
        self.actions.push(Action::Update { model });
        Ok(())
    }

    /// A copy of the record under `id`, as the store holds it now: what the
    /// transaction has staged is not seen, and the read is not staged.
    pub fn fetch_one(&mut self, db: &IcTx<Data, B>, id: &B::IdType) -> (r: Result<
        Model<B::IdType, Data>,
        TxError,
    >)
        requires
            db.valid(),
        ensures
            *final(self) == *old(self),
            match r {
                Ok(model) => db.records().contains_key(*id) && model.is_copy_of(db.records()[*id]),
                Err(e) => if e is FetchError {
                    db.may_fail()
                } else {
                    !db.records().contains_key(*id) && e.reports(Fault::NotFound { id: *id })
                },
            },
    {
        db.backend.fetch_one(id)
    }

    /// A copy of the record under `id`, as the store holds it now, or `None`
    /// where it holds none: what the transaction has staged is not seen, and
    /// the read is not staged.
    pub fn fetch_option_one(&mut self, db: &IcTx<Data, B>, id: &B::IdType) -> (r: Result<
        Option<Model<B::IdType, Data>>,
        TxError,
    >)
        requires
            db.valid(),
        ensures
            *final(self) == *old(self),
            match r {
                Ok(Some(model)) => db.records().contains_key(*id) && model.is_copy_of(
                    db.records()[*id],
                ),
                Ok(None) => !db.records().contains_key(*id),
                Err(e) => e is FetchError && db.may_fail(),
            },
    {
        db.backend.fetch_option_one(id)
    }

    /// Stages the removal of the record under `id`, at the version that the
    /// store holds now. Where the store holds no such record, nothing is
    /// staged; where the store gives up on the read, its error is handed on.
    ///
    /// What is made of the store's answer is [`Tx::delete_seen`].
    pub fn delete(&mut self, db: &IcTx<Data, B>, id: &B::IdType) -> (r: Result<(), TxError>)
        requires
            db.valid(),
        ensures
            final(self).completed() == old(self).completed(),
            match r {
                Ok(_) => match version_in(db.records(), *id) {
                    Some(version) => {
                        &&& final(self)@.len() == old(self)@.len() + 1
                        &&& final(self)@.drop_last() == old(self)@
                        &&& final(self)@.last() matches Action::Delete { id: copy, version: seen }
                        &&& cloned(*id, copy)
                        &&& seen == version
                    },
                    None => final(self)@ == old(self)@,
                },
                Err(e) => e is FetchError && db.may_fail() && final(self)@ == old(self)@,
            },
    {
        let read = db.backend.fetch_version(id);
        self.delete_seen(id, read)
    }

    /// Stages the removal of the record under `id` as the read of its
    /// version went: at the version read; not at all where the read found no
    /// record; and where the store gave up on the read, nothing is staged and
    /// the error of the read is the error returned.
    pub fn delete_seen(&mut self, id: &B::IdType, read: Result<VersionType, TxError>) -> (r: Result<
        (),
        TxError,
    >)
        ensures
            final(self).completed() == old(self).completed(),
            match read {
                Ok(version) => {
                    &&& r is Ok
                    &&& final(self)@.len() == old(self)@.len() + 1
                    &&& final(self)@.drop_last() == old(self)@
                    &&& final(self)@.last() matches Action::Delete { id: copy, version: seen }
                    &&& cloned(*id, copy)
                    &&& seen == version
                },
                Err(e) => {
                    &&& final(self)@ == old(self)@
                    &&& r == if e is FetchError {
                        Err::<(), TxError>(e)
                    } else {
                        Ok::<(), TxError>(())
                    }
                },
            },
    {
        match read {
            Ok(version) => {
                self.actions.push(Action::Delete { id: id.clone(), version });
                Ok(())
            },
            Err(e) => match e {
                TxError::FetchError { .. } => Err(e),
                _ => Ok(()),
            },
        }
    }

    /// Stages the removal of the record under `id`, at the version that the
    /// store holds now, for a commit that does not mind if the record is gone
    /// by then. Where the store holds no such record, nothing is staged;
    /// where the store gives up on the read, its error is handed on.
    ///
    /// What is made of the store's answer is [`Tx::delete_option_seen`].
    pub fn delete_option(&mut self, db: &IcTx<Data, B>, id: &B::IdType) -> (r: Result<
        (),
        TxError,
    >)
        requires
            db.valid(),
        ensures
            final(self).completed() == old(self).completed(),
            match r {
                Ok(_) => match version_in(db.records(), *id) {
                    Some(version) => {
                        &&& final(self)@.len() == old(self)@.len() + 1
                        &&& final(self)@.drop_last() == old(self)@
                        &&& final(self)@.last() matches Action::DeleteOption { id: copy, version: seen }
                        &&& cloned(*id, copy)
                        &&& seen == version
                    },
                    None => final(self)@ == old(self)@,
                },
                Err(e) => e is FetchError && db.may_fail() && final(self)@ == old(self)@,
            },
    {
        let read = db.backend.fetch_option_version(id);
        self.delete_option_seen(id, read)
    }

    /// Stages the removal of the record under `id`, for a commit that does
    /// not mind if the record is gone by then, as the read of its version
    /// went: at the version read; not at all where the read found no record;
    /// and where the store gave up on the read, nothing is staged and the
    /// error of the read is the error returned.
    pub fn delete_option_seen(
        &mut self,
        id: &B::IdType,
        read: Result<Option<VersionType>, TxError>,
    ) -> (r: Result<(), TxError>)
        ensures
            final(self).completed() == old(self).completed(),
            match read {
                Ok(Some(version)) => {
                    &&& r is Ok
                    &&& final(self)@.len() == old(self)@.len() + 1
                    &&& final(self)@.drop_last() == old(self)@
                    &&& final(self)@.last() matches Action::DeleteOption { id: copy, version: seen }
                    &&& cloned(*id, copy)
                    &&& seen == version
                },
                Ok(None) => r is Ok && final(self)@ == old(self)@,
                Err(e) => r == Err::<(), TxError>(e) && final(self)@ == old(self)@,
            },
    {
        match read {
            Ok(Some(version)) => {
                self.actions.push(Action::DeleteOption { id: id.clone(), version });
                Ok(())
            },
            Ok(None) => Ok(()),
            Err(e) => Err(e),
        }
    }

    /// Commits the transaction where the commit is known to succeed: on a
    /// store that does not fail, with a log that the check lets pass and that
    /// can be carried out to its end. Called otherwise, it panics; a caller
    /// that wants the error has [`Tx::inner_commit`].
    pub fn commit(self, db: &mut IcTx<Data, B>)
        requires
            old(db).valid(),
            !old(db).may_fail(),
            !self.completed() ==> committed(old(db).records(), self@).1 is None,
        ensures
            final(db).valid(),
            !final(db).may_fail(),
            final(db).records() == if self.completed() {
                old(db).records()
            } else {
                committed(old(db).records(), self@).0
            },
            !self.completed() ==> left_by_commit(old(db).records(), self@, final(db).records()),
    {
        let mut tx = self;
        match tx.inner_commit(db) {
            Ok(_) => {},
            Err(_) => unreached(),
        }
    }

    /// Gives the transaction up. It is handed no store and so changes none:
    /// what was staged is dropped with the transaction, as it is when a
    /// transaction goes out of scope without a commit.
    pub fn rollback(self) {
        let mut tx = self;
        tx.completed = true;
    }

    /// Commits the transaction and says how it went.
    ///
    /// The commit has two parts. The check holds every staged action, in the
    /// order of the log, against the records as they stand before the commit;
    /// the first objection ends the commit and is the error, and no record
    /// has changed. Where there is none, the actions are carried out in the
    /// same order, each on what the one before left; the first that the store
    /// refuses ends the commit and is the error, and what was carried out
    /// before it stays. On a store that may fail, either part can also end on
    /// a failure of the store, which is then the error.
    ///
    /// Either way the transaction is completed and its log is empty. A commit
    /// of a completed transaction does nothing and returns `Ok`.
    pub fn inner_commit(&mut self, db: &mut IcTx<Data, B>) -> (r: Result<(), TxError>)
        requires
            old(db).valid(),
        ensures
            final(db).valid(),
            final(db).may_fail() == old(db).may_fail(),
            final(self).completed(),
            old(self).completed() ==> {
                &&& r is Ok
                &&& final(db).records() == old(db).records()
                &&& final(self)@ == old(self)@
            },
            !old(self).completed() ==> final(self)@ == Seq::<Action<B::IdType, Data>>::empty(),
            first_objection(old(db).records(), old(self)@) is Some ==> final(db).records() == old(
                db,
            ).records(),
            !old(self).completed() ==> match r {
                Ok(_) => {
                    &&& committed(old(db).records(), old(self)@) == (
                        final(db).records(),
                        None::<Fault<B::IdType>>,
                    )
                    &&& left_by_commit(old(db).records(), old(self)@, final(db).records())
                },
                Err(e) => {
                    ||| {
                        &&& committed(old(db).records(), old(self)@).1 matches Some(fault)
                        &&& e.reports(fault)
                        &&& final(db).records() == committed(old(db).records(), old(self)@).0
                    }
                    ||| {
                        &&& old(db).may_fail()
                        &&& exists|n: int|
                            0 <= n <= old(self)@.len() && #[trigger] applied(
                                old(db).records(),
                                old(self)@.take(n),
                            ) == (final(db).records(), None::<Fault<B::IdType>>) && (n == 0
                                || first_objection(old(db).records(), old(self)@) is None)
                    }
                },
            },
    {
        if self.completed {
            return Ok(());
        }
        self.completed = true;

        let ghost log = self.actions@;
        let ghost start = db.records();
        let n = self.actions.len();
        let mut i: usize = 0;
        assert(log.take(0) =~= Seq::empty());
        assert(applied(start, log.take(0)) == (start, None::<Fault<B::IdType>>));
        while i < n
            invariant
                i <= n,
                n == self.actions.len(),
                log == self.actions@,
                self.completed,
                db.valid(),
                db.records() == start,
                db.may_fail() == old(db).may_fail(),
                log == old(self)@,
                start == old(db).records(),
                !old(self).completed(),
                first_objection(start, log.take(i as int)) is None,
                applied(start, log.take(0)) == (start, None::<Fault<B::IdType>>),
            decreases n - i,
        {
            assert(log.take(i + 1).drop_last() =~= log.take(i as int));
            assert(log.take(i + 1).last() == log[i as int]);
            let checked = match &self.actions[i] {
                Action::Create { model } => match db.backend.fetch_option_version(&model.id) {
                    Err(e) => Err(e),
                    Ok(Some(_)) => Err(TxError::id_in_use(&model.id)),
                    Ok(None) => Ok(()),
                },
                Action::Update { model } => match db.backend.fetch_option_version(&model.id) {
                    Err(e) => Err(e),
                    Ok(Some(found)) => if found == model.version {
                        Ok(())
                    } else {
                        Err(TxError::update_of_stale(&model.id, model.version, found))
                    },
                    Ok(None) => Err(TxError::update_of_missing(&model.id)),
                },
                Action::Delete { id, version } => match db.backend.fetch_option_version(id) {
                    Err(e) => Err(e),
                    Ok(Some(found)) => if found == *version {
                        Ok(())
                    } else {
                        Err(TxError::delete_of_stale(id, *version, found))
                    },
                    Ok(None) => Err(TxError::delete_of_missing(id)),
                },
                Action::DeleteOption { id, version } => match db.backend.fetch_option_version(id) {
                    Err(e) => Err(e),
                    Ok(Some(found)) => if found == *version {
                        Ok(())
                    } else {
                        Err(TxError::delete_of_stale(id, *version, found))
                    },
                    Ok(None) => Ok(()),
                },
            };
            match checked {
                Err(e) => {
                    proof {
                        if !(e is FetchError && db.may_fail()) {
                            assert(objection(start, log[i as int]) matches Some(fault)
                                && e.reports(fault));
                            lemma_objection_to_prefix(start, log, i + 1);
                        }
                    }
                    self.actions.clear();
                    return Err(e);
                },
                Ok(_) => {},
            }
            i += 1;
        }
        assert(log.take(n as int) =~= log);

        let mut actions: Vec<Action<B::IdType, Data>> = Vec::new();
        core::mem::swap(&mut self.actions, &mut actions);
        for action in it: actions
            invariant
                log == old(self)@,
                start == old(db).records(),
                !old(self).completed(),
                self.completed,
                first_objection(start, log) is None,
                it.seq() == log,
                self@ == Seq::<Action<B::IdType, Data>>::empty(),
                db.valid(),
                db.may_fail() == old(db).may_fail(),
                applied(start, log.take(it.index() as int)) == (
                    db.records(),
                    None::<Fault<B::IdType>>,
                ),
        {
            let ghost done = it.index() as int;
            assert(log.take(done + 1).drop_last() =~= log.take(done));
            assert(log.take(done + 1).last() == action);
            let carried = match action {
                Action::Create { model } => db.backend.save(model),
                Action::Update { model } => db.backend.update(model),
                Action::Delete { id, version: _ } => db.backend.delete(&id),
                Action::DeleteOption { id, version: _ } => match db.backend.delete_option(&id) {
                    Ok(_) => Ok(()),
                    Err(e) => Err(e),
                },
            };
            match carried {
                Err(e) => {
                    proof {
                        if applied(start, log.take(done + 1)).1 is Some {
                            lemma_failure_in_prefix(start, log, done + 1);
                        }
                    }
                    return Err(e);
                },
                Ok(_) => {},
            }
        }
        assert(log.take(log.len() as int) =~= log);
        proof {
            lemma_what_a_commit_leaves(start, log);
        }
        Ok(())
    }
}

} // verus!
