use vstd::prelude::*;

use crate::backend::{deleted, keyed_by_id, saved, updated, version_in, Records};
use crate::error::Fault;
use crate::model::{Model, NewModel, VersionType};

verus! {

/// One write that a transaction has staged.
#[allow(inconsistent_fields)]
pub enum Action<IdType, Data> {
    /// Add a record.
    Create { model: NewModel<IdType, Data> },
    /// Replace a record; `model` carries the version that the caller saw.
    Update { model: Model<IdType, Data> },
    /// Remove the record under `id`, seen at `version` when this was staged.
    /// The commit fails where the record is gone.
    Delete { id: IdType, version: VersionType },
    /// Remove the record under `id`, seen at `version` when this was staged.
    /// The commit goes on where the record is gone.
    DeleteOption { id: IdType, version: VersionType },
}

impl<IdType, Data> Action<IdType, Data> {
    /// The id of the record that the action is about.
    pub open spec fn id(self) -> IdType {
        match self {
            Action::Create { model } => model.id,
            Action::Update { model } => model.id,
            Action::Delete { id, .. } => id,
            Action::DeleteOption { id, .. } => id,
        }
    }
}

/// What the check before a commit has against `action`, given the records
/// as they stand: `None` where the action may go ahead.
pub open spec fn objection<IdType, Data>(
    records: Records<IdType, Data>,
    action: Action<IdType, Data>,
) -> Option<Fault<IdType>> {
    match action {
        Action::Create { model } => if records.contains_key(model.id) {
            Some(Fault::IdInUse { id: model.id })
        } else {
            None
        },
        Action::Update { model } => match version_in(records, model.id) {
            None => Some(Fault::UpdateOfMissing { id: model.id }),
            Some(found) => if found != model.version {
                Some(Fault::UpdateOfStale { id: model.id, expected: model.version, found })
            } else {
                None
            },
        },
        Action::Delete { id, version } => match version_in(records, id) {
            None => Some(Fault::DeleteOfMissing { id }),
            Some(found) => if found != version {
                Some(Fault::DeleteOfStale { id, expected: version, found })
            } else {
                None
            },
        },
        Action::DeleteOption { id, version } => match version_in(records, id) {
            None => None,
            Some(found) => if found != version {
                Some(Fault::DeleteOfStale { id, expected: version, found })
            } else {
                None
            },
        },
    }
}

/// The objection to the first action of `log`, in the order of the log, that
/// has one against `records`. Every action is held against the same records:
/// those from before the commit.
pub open spec fn first_objection<IdType, Data>(
    records: Records<IdType, Data>,
    log: Seq<Action<IdType, Data>>,
) -> Option<Fault<IdType>>
    decreases log.len(),
{
    if log.len() == 0 {
        None
    } else {
        match first_objection(records, log.drop_last()) {
            Some(fault) => Some(fault),
            None => objection(records, log.last()),
        }
    }
}

/// What carrying out `action` makes of `records`.
pub open spec fn effect<IdType, Data>(
    records: Records<IdType, Data>,
    action: Action<IdType, Data>,
) -> Result<Records<IdType, Data>, Fault<IdType>> {
    match action {
        Action::Create { model } => saved(records, model),
        Action::Update { model } => updated(records, model),
        Action::Delete { id, .. } => deleted(records, id),
        Action::DeleteOption { id, .. } => Ok(records.remove(id)),
    }
}

/// What carrying out `log` makes of `records`, one action after the other in
/// the order of the log, each on what the one before left. It stops at the
/// first action that cannot be carried out: the result is then the records as
/// they stood before that action, and its fault.
pub open spec fn applied<IdType, Data>(
    records: Records<IdType, Data>,
    log: Seq<Action<IdType, Data>>,
) -> (Records<IdType, Data>, Option<Fault<IdType>>)
    decreases log.len(),
{
    if log.len() == 0 {
        (records, None)
    } else {
        let (before, fault) = applied(records, log.drop_last());
        match fault {
            Some(_) => (before, fault),
            None => match effect(before, log.last()) {
                Ok(after) => (after, None),
                Err(fault) => (before, Some(fault)),
            },
        }
    }
}

/// What committing `log` makes of `records`: nothing where the check has an
/// objection, which is then the fault; else what carrying out the log makes
/// of them.
pub open spec fn committed<IdType, Data>(
    records: Records<IdType, Data>,
    log: Seq<Action<IdType, Data>>,
) -> (Records<IdType, Data>, Option<Fault<IdType>>) {
    match first_objection(records, log) {
        Some(fault) => (records, Some(fault)),
        None => applied(records, log),
    }
}

/// No action of `log` is about `id`.
pub open spec fn leaves_alone<IdType, Data>(log: Seq<Action<IdType, Data>>, id: IdType) -> bool {
    forall|i: int| 0 <= i < log.len() ==> (#[trigger] log[i]).id() != id
}

/// No two actions of `log` are about the same id.
pub open spec fn one_action_per_id<IdType, Data>(log: Seq<Action<IdType, Data>>) -> bool {
    forall|i: int, j: int|
        0 <= i < j < log.len() ==> (#[trigger] log[i]).id() != (#[trigger] log[j]).id()
}

/// `a` and `b` agree on `id`: both hold no record under it, or both the same.
pub open spec fn same_at<IdType, Data>(
    a: Records<IdType, Data>,
    b: Records<IdType, Data>,
    id: IdType,
) -> bool {
    a.contains_key(id) == b.contains_key(id) && (a.contains_key(id) ==> a[id] == b[id])
}

/// `records` show what `action` asked for: the new record at version 0 after
/// a creation, the record at its next version and with its new payload after
/// an update, no record after a delete.
pub open spec fn reflects<IdType, Data>(
    records: Records<IdType, Data>,
    action: Action<IdType, Data>,
) -> bool {
    match action {
        Action::Create { model } => records.contains_key(model.id) && records[model.id]
            == Model::first(model),
        Action::Update { model } => records.contains_key(model.id) && records[model.id]
            == model.next(),
        Action::Delete { id, .. } => !records.contains_key(id),
        Action::DeleteOption { id, .. } => !records.contains_key(id),
    }
}

/// No record that is in `before` and in `after` has a lower version in
/// `after`, and one that is not the same in both has a higher one there,
/// unless its version in `before` is the maximum.
pub open spec fn versions_grow<IdType, Data>(
    before: Records<IdType, Data>,
    after: Records<IdType, Data>,
) -> bool {
    forall|id: IdType|
        before.contains_key(id) && #[trigger] after.contains_key(id) ==> {
            &&& after[id].version >= before[id].version
            &&& before[id].version < VersionType::MAX && after[id] != before[id]
                ==> after[id].version > before[id].version
        }
}

/// What a commit that succeeds leaves, next to the records before it: no
/// version is lower; no record has changed under an id that no action of the
/// log is about; and where the log names each id once, every action of it is
/// reflected.
pub open spec fn left_by_commit<IdType, Data>(
    before: Records<IdType, Data>,
    log: Seq<Action<IdType, Data>>,
    after: Records<IdType, Data>,
) -> bool {
    &&& versions_grow(before, after)
    &&& forall|id: IdType| leaves_alone(log, id) ==> #[trigger] same_at(after, before, id)
    &&& one_action_per_id(log) ==> forall|i: int|
        0 <= i < log.len() ==> reflects(after, #[trigger] log[i])
}

/// An objection to a part of the log from its start is the objection to the
/// whole log.
pub proof fn lemma_objection_to_prefix<IdType, Data>(
    records: Records<IdType, Data>,
    log: Seq<Action<IdType, Data>>,
    n: int,
)
    requires
        0 <= n <= log.len(),
        first_objection(records, log.take(n)) is Some,
    ensures
        first_objection(records, log) == first_objection(records, log.take(n)),
    decreases log.len(),
{
    if n == log.len() {
        assert(log.take(n) =~= log);
    } else {
        assert(log.drop_last().take(n) =~= log.take(n));
        lemma_objection_to_prefix(records, log.drop_last(), n);
    }
}

/// A failure in carrying out a part of the log from its start is the failure
/// in carrying out the whole log.
pub proof fn lemma_failure_in_prefix<IdType, Data>(
    records: Records<IdType, Data>,
    log: Seq<Action<IdType, Data>>,
    n: int,
)
    requires
        0 <= n <= log.len(),
        applied(records, log.take(n)).1 is Some,
    ensures
        applied(records, log) == applied(records, log.take(n)),
    decreases log.len(),
{
    if n == log.len() {
        assert(log.take(n) =~= log);
    } else {
        assert(log.drop_last().take(n) =~= log.take(n));
        lemma_failure_in_prefix(records, log.drop_last(), n);
    }
}

/// Where the check has no objection to a log, it has none to any of its
/// actions.
pub proof fn lemma_no_objection_to_any_action<IdType, Data>(
    records: Records<IdType, Data>,
    log: Seq<Action<IdType, Data>>,
    i: int,
)
    requires
        first_objection(records, log) is None,
        0 <= i < log.len(),
    ensures
        objection(records, log[i]) is None,
    decreases log.len(),
{
    if i < log.len() - 1 {
        lemma_no_objection_to_any_action(records, log.drop_last(), i);
    }
}

/// Carrying out a log changes no record under an id that none of its actions
/// is about.
pub proof fn lemma_applied_is_local<IdType, Data>(
    records: Records<IdType, Data>,
    log: Seq<Action<IdType, Data>>,
    id: IdType,
)
    requires
        leaves_alone(log, id),
    ensures
        same_at(applied(records, log).0, records, id),
    decreases log.len(),
{
    if log.len() > 0 {
        let rest = log.drop_last();
        assert forall|i: int| 0 <= i < rest.len() implies (#[trigger] rest[i]).id() != id by {
            assert(rest[i] == log[i]);
        }
        lemma_applied_is_local(records, rest, id);
        assert(log.last() == log[log.len() - 1]);
    }
}

/// A log that names each id once and passes the check can be carried out to
/// its end.
pub proof fn lemma_checked_log_can_be_carried_out<IdType, Data>(
    records: Records<IdType, Data>,
    log: Seq<Action<IdType, Data>>,
)
    requires
        one_action_per_id(log),
        first_objection(records, log) is None,
    ensures
        applied(records, log).1 is None,
    decreases log.len(),
{
    if log.len() > 0 {
        let rest = log.drop_last();
        let last = log.last();
        assert forall|i: int, j: int| 0 <= i < j < rest.len() implies (#[trigger] rest[i]).id()
            != (#[trigger] rest[j]).id() by {
            assert(rest[i] == log[i] && rest[j] == log[j]);
        }
        lemma_checked_log_can_be_carried_out(records, rest);
        assert forall|i: int| 0 <= i < rest.len() implies (#[trigger] rest[i]).id() != last.id() by {
            assert(rest[i] == log[i] && last == log[log.len() - 1]);
        }
        lemma_applied_is_local(records, rest, last.id());
    }
}

/// A commit that the check refuses leaves the records as they were, and its
/// fault is the first objection.
pub proof fn lemma_refused_commit_changes_nothing<IdType, Data>(
    records: Records<IdType, Data>,
    log: Seq<Action<IdType, Data>>,
)
    requires
        first_objection(records, log) is Some,
    ensures
        committed(records, log) == (records, first_objection(records, log)),
{
}

/// A commit of a log that names each id once is all or nothing: it fails
/// only where the check has an objection, and then the records are as they
/// were.
pub proof fn lemma_commit_is_all_or_nothing<IdType, Data>(
    records: Records<IdType, Data>,
    log: Seq<Action<IdType, Data>>,
)
    requires
        one_action_per_id(log),
    ensures
        committed(records, log).1 is Some <==> first_objection(records, log) is Some,
        committed(records, log).1 is Some ==> committed(records, log).0 == records,
{
    if first_objection(records, log) is None {
        lemma_checked_log_can_be_carried_out(records, log);
    }
}

/// A commit that succeeds has carried out every action of the log, once and
/// in the order of the log: the action at `n` on what the `n` actions before
/// it left, and the last one leaves what the commit leaves.
pub proof fn lemma_commit_carries_out_each_action_in_turn<IdType, Data>(
    records: Records<IdType, Data>,
    log: Seq<Action<IdType, Data>>,
    n: int,
)
    requires
        committed(records, log).1 is None,
        0 <= n < log.len(),
    ensures
        applied(records, log.take(n)).1 is None,
        effect(applied(records, log.take(n)).0, log[n]) == Ok::<_, Fault<IdType>>(
            applied(records, log.take(n + 1)).0,
        ),
        applied(records, log.take(log.len() as int)).0 == committed(records, log).0,
{
    assert(log.take(log.len() as int) =~= log);
    assert(log.take(n + 1).drop_last() =~= log.take(n));
    assert(log.take(n + 1).last() == log[n]);
    if applied(records, log.take(n + 1)).1 is Some {
        lemma_failure_in_prefix(records, log, n + 1);
    }
}

/// Carrying out a log is carrying out its first `n` actions and then, on
/// what they left, the others.
pub proof fn lemma_applied_in_two_parts<IdType, Data>(
    records: Records<IdType, Data>,
    log: Seq<Action<IdType, Data>>,
    n: int,
)
    requires
        0 <= n <= log.len(),
        applied(records, log.take(n)).1 is None,
    ensures
        applied(records, log) == applied(applied(records, log.take(n)).0, log.skip(n)),
    decreases log.len(),
{
    if n == log.len() {
        assert(log.take(n) =~= log);
        assert(log.skip(n) =~= Seq::empty());
    } else {
        assert(log.drop_last().take(n) =~= log.take(n));
        assert(log.drop_last().skip(n) =~= log.skip(n).drop_last());
        assert(log.skip(n).last() == log.last());
        lemma_applied_in_two_parts(records, log.drop_last(), n);
    }
}

/// After a commit that succeeds, of a log that names each id once, the
/// records hold what each action asked for: the new record at version 0
/// after a creation, the record at its next version and with its new payload
/// after an update, none after a delete.
pub proof fn lemma_commit_leaves_what_each_action_asks<IdType, Data>(
    records: Records<IdType, Data>,
    log: Seq<Action<IdType, Data>>,
    i: int,
)
    requires
        one_action_per_id(log),
        committed(records, log).1 is None,
        0 <= i < log.len(),
    ensures
        reflects(committed(records, log).0, log[i]),
{
    lemma_commit_carries_out_each_action_in_turn(records, log, i);
    let reached = applied(records, log.take(i + 1)).0;
    assert(applied(records, log.take(i + 1)).1 is None) by {
        assert(log.take(i + 1).drop_last() =~= log.take(i));
        assert(log.take(i + 1).last() == log[i]);
    }
    lemma_applied_in_two_parts(records, log, i + 1);
    let others = log.skip(i + 1);
    assert forall|j: int| 0 <= j < others.len() implies (#[trigger] others[j]).id()
        != log[i].id() by {
        assert(others[j] == log[i + 1 + j]);
    }
    lemma_applied_is_local(reached, others, log[i].id());
}

/// A commit changes no record under an id that none of its actions is
/// about.
pub proof fn lemma_commit_is_local<IdType, Data>(
    records: Records<IdType, Data>,
    log: Seq<Action<IdType, Data>>,
    id: IdType,
)
    requires
        leaves_alone(log, id),
    ensures
        same_at(committed(records, log).0, records, id),
{
    lemma_applied_is_local(records, log, id);
}

/// Where every record stands under its own id before a commit, every record
/// does so after it.
pub proof fn lemma_commit_keeps_records_keyed_by_id<IdType, Data>(
    records: Records<IdType, Data>,
    log: Seq<Action<IdType, Data>>,
)
    requires
        keyed_by_id(records),
    ensures
        keyed_by_id(committed(records, log).0),
{
    lemma_applied_keeps_records_keyed_by_id(records, log);
}

/// The statement of [`lemma_commit_keeps_records_keyed_by_id`] for carrying
/// out a log.
proof fn lemma_applied_keeps_records_keyed_by_id<IdType, Data>(
    records: Records<IdType, Data>,
    log: Seq<Action<IdType, Data>>,
)
    requires
        keyed_by_id(records),
    ensures
        keyed_by_id(applied(records, log).0),
    decreases log.len(),
{
    if log.len() > 0 {
        lemma_applied_keeps_records_keyed_by_id(records, log.drop_last());
    }
}

/// A commit that succeeds lowers the version of no record: a record that is
/// there before and after has its version from before or a later one, and a
/// later one if anything of it has changed, as long as the version from
/// before is not the maximum.
pub proof fn lemma_commit_never_lowers_a_version<IdType, Data>(
    records: Records<IdType, Data>,
    log: Seq<Action<IdType, Data>>,
    id: IdType,
)
    requires
        committed(records, log).1 is None,
        records.contains_key(id),
        committed(records, log).0.contains_key(id),
    ensures
        committed(records, log).0[id].version >= records[id].version,
        records[id].version < VersionType::MAX && committed(records, log).0[id] != records[id]
            ==> committed(records, log).0[id].version > records[id].version,
{
    assert(log.take(log.len() as int) =~= log);
    lemma_versions_through_prefix(records, log, id, log.len() as int);
}

/// The statement of [`lemma_commit_never_lowers_a_version`] for what the
/// first `n` actions of the log leave.
proof fn lemma_versions_through_prefix<IdType, Data>(
    records: Records<IdType, Data>,
    log: Seq<Action<IdType, Data>>,
    id: IdType,
    n: int,
)
    requires
        first_objection(records, log) is None,
        records.contains_key(id),
        0 <= n <= log.len(),
        applied(records, log.take(n)).1 is None,
    ensures
        ({
            let reached = applied(records, log.take(n)).0;
            reached.contains_key(id) ==> {
                &&& reached[id].version >= records[id].version
                &&& records[id].version < VersionType::MAX && reached[id] != records[id]
                    ==> reached[id].version > records[id].version
            }
        }),
    decreases n,
{
    if n > 0 {
        assert(log.take(n).drop_last() =~= log.take(n - 1));
        assert(log.take(n).last() == log[n - 1]);
        lemma_versions_through_prefix(records, log, id, n - 1);
        lemma_no_objection_to_any_action(records, log, n - 1);
    } else {
        assert(log.take(0) =~= Seq::empty());
    }
}

/// A commit that succeeds leaves what [`left_by_commit`] says.
pub proof fn lemma_what_a_commit_leaves<IdType, Data>(
    records: Records<IdType, Data>,
    log: Seq<Action<IdType, Data>>,
)
    requires
        committed(records, log).1 is None,
    ensures
        left_by_commit(records, log, committed(records, log).0),
{
    let after = committed(records, log).0;
    assert forall|id: IdType| records.contains_key(id) && #[trigger] after.contains_key(id) implies {
        &&& after[id].version >= records[id].version
        &&& records[id].version < VersionType::MAX && after[id] != records[id]
            ==> after[id].version > records[id].version
    } by {
        lemma_commit_never_lowers_a_version(records, log, id);
    }
    assert forall|id: IdType| leaves_alone(log, id) implies #[trigger] same_at(
        after,
        records,
        id,
    ) by {
        lemma_commit_is_local(records, log, id);
    }
    if one_action_per_id(log) {
        assert forall|i: int| 0 <= i < log.len() implies reflects(after, #[trigger] log[i]) by {
            lemma_commit_leaves_what_each_action_asks(records, log, i);
        }
    }
}

/// Committing the creation of a record under an id that is free puts the
/// record there at version 0, with the payload it was given, and changes
/// nothing else.
pub proof fn lemma_created_record_is_held_at_version_zero<IdType, Data>(
    records: Records<IdType, Data>,
    model: NewModel<IdType, Data>,
)
    requires
        !records.contains_key(model.id),
    ensures
        committed(records, seq![Action::Create { model }]) == (
            records.insert(model.id, Model { id: model.id, version: 0, data: model.data }),
            None::<Fault<IdType>>,
        ),
{
    let log = seq![Action::Create { model }];
    assert(log.drop_last() =~= Seq::empty());
    assert(log.last() == Action::Create { model });
    assert(applied(records, log.drop_last()) == (records, None::<Fault<IdType>>));
    assert(first_objection(records, log.drop_last()) is None);
}

/// Two commits in turn, each of one update that carries the version that the
/// commit before it left, both succeed, and the record ends two versions
/// later with the payload of the second.
pub proof fn lemma_updates_in_turn_add_up<IdType, Data>(
    records: Records<IdType, Data>,
    id: IdType,
    first: Data,
    second: Data,
)
    requires
        records.contains_key(id),
        records[id].version + 2 <= VersionType::MAX,
    ensures
        ({
            let seen = records[id].version;
            let once = committed(
                records,
                seq![Action::Update { model: Model { id, version: seen, data: first } }],
            );
            let twice = committed(
                once.0,
                seq![
                    Action::Update {
                        model: Model { id, version: (seen + 1) as VersionType, data: second },
                    },
                ],
            );
            &&& once.1 is None
            &&& once.0 == records.insert(
                id,
                Model { id, version: (seen + 1) as VersionType, data: first },
            )
            &&& twice.1 is None
            &&& twice.0 == records.insert(
                id,
                Model { id, version: (seen + 2) as VersionType, data: second },
            )
        }),
{
    let seen = records[id].version;
    let one = Model { id, version: seen, data: first };
    let two = Model { id, version: (seen + 1) as VersionType, data: second };
    lemma_single_update(records, one);
    let once = committed(records, seq![Action::Update { model: one }]);
    lemma_single_update(once.0, two);
    assert(once.0.insert(id, two.next()) =~= records.insert(id, two.next()));
}

/// What the commit of a single update makes of records that hold the id at
/// the version that the update carries.
proof fn lemma_single_update<IdType, Data>(
    records: Records<IdType, Data>,
    model: Model<IdType, Data>,
)
    requires
        version_in(records, model.id) == Some(model.version),
    ensures
        committed(records, seq![Action::Update { model }]) == (
            records.insert(model.id, model.next()),
            None::<Fault<IdType>>,
        ),
{
    let log = seq![Action::Update { model }];
    assert(log.drop_last() =~= Seq::empty());
    assert(log.last() == Action::Update { model });
    assert(applied(records, log.drop_last()) == (records, None::<Fault<IdType>>));
    assert(first_objection(records, log.drop_last()) is None);
}

} // verus!
