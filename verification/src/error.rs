use std::fmt::Display;
use vstd::prelude::*;
use vstd::string::to_string_from_display_ensures;

use crate::model::VersionType;

verus! {

/// What an operation on a store reports when it does not succeed.
///
/// Every variant carries a message for a human reader. Which variant comes
/// back on which input is part of each operation's contract; the message is
/// tied to the cause by [`TxError::reports`].
#[derive(Debug, PartialEq)]
pub enum TxError {
    /// The store could not answer a read.
    FetchError { message: String },
    /// A record was asked for by an id that the store does not hold.
    FetchNotFoundError { message: String },
    /// An update carries a version other than the one stored.
    UpdateOptimisticLockError { message: String },
    /// An update names an id that the store does not hold.
    UpdateError { message: String },
    /// A new record names an id that the store holds already.
    SaveError { message: String },
    /// A delete names an id that the store does not hold.
    DeleteError { message: String },
    /// Kept for stores that tell a missing record from other delete failures.
    DeleteNotFoundError { message: String },
    /// A delete was staged at a version other than the one stored.
    DeleteOptimisticLockError { message: String },
}

/// The cause of an error, as contracts speak of it: which rule was broken,
/// for which id, and with which versions.
pub enum Fault<IdType> {
    /// A read by an id that the store does not hold.
    NotFound { id: IdType },
    /// A new record for an id that the store holds already.
    IdInUse { id: IdType },
    /// An update of an id that the store does not hold.
    UpdateOfMissing { id: IdType },
    /// An update that expects one version where the store holds another.
    UpdateOfStale { id: IdType, expected: VersionType, found: VersionType },
    /// A delete of an id that the store does not hold.
    DeleteOfMissing { id: IdType },
    /// A delete that expects one version where the store holds another.
    DeleteOfStale { id: IdType, expected: VersionType, found: VersionType },
}

/// `text` is what `value` prints as.
pub open spec fn shown<T: Display>(value: T, text: Seq<char>) -> bool {
    exists|s: String| #[trigger] to_string_from_display_ensures::<T>(&value, s) && s@ == text
}

/// `message` is `head`, then the id as it prints, then `tail`.
pub open spec fn names_id<IdType: Display>(
    message: Seq<char>,
    head: Seq<char>,
    id: IdType,
    tail: Seq<char>,
) -> bool {
    exists|i: Seq<char>| #[trigger] shown(id, i) && message == head + i + tail
}

/// `message` names the id, the version that was expected and the one that
/// was found, each as it prints, between the four fixed parts.
pub open spec fn names_id_and_versions<IdType: Display>(
    message: Seq<char>,
    head: Seq<char>,
    id: IdType,
    expected: VersionType,
    found: VersionType,
) -> bool {
    exists|i: Seq<char>, e: Seq<char>, f: Seq<char>|
        #![trigger shown(id, i), shown(expected, e), shown(found, f)]
        shown(id, i) && shown(expected, e) && shown(found, f) && message == head + i
            + "]. Expected version ["@ + e + "], version found ["@ + f + "]"@
}

impl TxError {
    /// The message that the error carries, whatever its variant.
    pub open spec fn text(self) -> Seq<char> {
        match self {
            TxError::FetchError { message } => message@,
            TxError::FetchNotFoundError { message } => message@,
            TxError::UpdateOptimisticLockError { message } => message@,
            TxError::UpdateError { message } => message@,
            TxError::SaveError { message } => message@,
            TxError::DeleteError { message } => message@,
            TxError::DeleteNotFoundError { message } => message@,
            TxError::DeleteOptimisticLockError { message } => message@,
        }
    }

    /// The name of the variant.
    pub open spec fn label(self) -> Seq<char> {
        match self {
            TxError::FetchError { .. } => "FetchError"@,
            TxError::FetchNotFoundError { .. } => "FetchNotFoundError"@,
            TxError::UpdateOptimisticLockError { .. } => "UpdateOptimisticLockError"@,
            TxError::UpdateError { .. } => "UpdateError"@,
            TxError::SaveError { .. } => "SaveError"@,
            TxError::DeleteError { .. } => "DeleteError"@,
            TxError::DeleteNotFoundError { .. } => "DeleteNotFoundError"@,
            TxError::DeleteOptimisticLockError { .. } => "DeleteOptimisticLockError"@,
        }
    }

    /// The error in one line: the name of the variant, a colon and the
    /// message.
    pub fn description(&self) -> (line: String)
        ensures
            line@ == self.label() + ": "@ + self.text(),
    {
        match self {
            TxError::FetchError { message } => labelled("FetchError", message),
            TxError::FetchNotFoundError { message } => labelled("FetchNotFoundError", message),
            TxError::UpdateOptimisticLockError { message } => labelled(
                "UpdateOptimisticLockError",
                message,
            ),
            TxError::UpdateError { message } => labelled("UpdateError", message),
            TxError::SaveError { message } => labelled("SaveError", message),
            TxError::DeleteError { message } => labelled("DeleteError", message),
            TxError::DeleteNotFoundError { message } => labelled("DeleteNotFoundError", message),
            TxError::DeleteOptimisticLockError { message } => labelled(
                "DeleteOptimisticLockError",
                message,
            ),
        }
    }

    /// The error is the one owed for `fault`: it has the variant that belongs
    /// to the cause, and its message names the id and the versions involved.
    pub open spec fn reports<IdType: Display>(self, fault: Fault<IdType>) -> bool {
        match fault {
            Fault::NotFound { id } => {
                &&& self is FetchNotFoundError
                &&& names_id(self.text(), "Cannot find model with id ["@, id, "]"@)
            },
            Fault::IdInUse { id } => {
                &&& self is SaveError
                &&& names_id(
                    self.text(),
                    "Cannot save model with id ["@,
                    id,
                    "] because the id is already in use."@,
                )
            },
            Fault::UpdateOfMissing { id } => {
                &&& self is UpdateError
                &&& names_id(
                    self.text(),
                    "Cannot update model with id ["@,
                    id,
                    "] because it does not exist."@,
                )
            },
            Fault::UpdateOfStale { id, expected, found } => {
                &&& self is UpdateOptimisticLockError
                &&& names_id_and_versions(
                    self.text(),
                    "Cannot update model with id ["@,
                    id,
                    expected,
                    found,
                )
            },
            Fault::DeleteOfMissing { id } => {
                &&& self is DeleteError
                &&& names_id(
                    self.text(),
                    "Cannot delete model with id ["@,
                    id,
                    "] because it does not exist."@,
                )
            },
            Fault::DeleteOfStale { id, expected, found } => {
                &&& self is DeleteOptimisticLockError
                &&& names_id_and_versions(
                    self.text(),
                    "Cannot delete model with id ["@,
                    id,
                    expected,
                    found,
                )
            },
        }
    }

    /// The error for a read by an id that the store does not hold.
    pub fn not_found<IdType: Display>(id: &IdType) -> (e: TxError)
        ensures
            e.reports(Fault::NotFound { id: *id }),
    {
        let message = framed("Cannot find model with id [", id, "]");
        TxError::FetchNotFoundError { message }
    }

    /// The error for a new record whose id the store holds already.
    pub fn id_in_use<IdType: Display>(id: &IdType) -> (e: TxError)
        ensures
            e.reports(Fault::IdInUse { id: *id }),
    {
        let message = framed(
            "Cannot save model with id [",
            id,
            "] because the id is already in use.",
        );
        TxError::SaveError { message }
    }

    /// The error for an update of an id that the store does not hold.
    pub fn update_of_missing<IdType: Display>(id: &IdType) -> (e: TxError)
        ensures
            e.reports(Fault::UpdateOfMissing { id: *id }),
    {
        let message = framed("Cannot update model with id [", id, "] because it does not exist.");
        TxError::UpdateError { message }
    }

    /// The error for an update that expects `expected` where the store holds
    /// `found`.
    pub fn update_of_stale<IdType: Display>(
        id: &IdType,
        expected: VersionType,
        found: VersionType,
    ) -> (e: TxError)
        ensures
            e.reports(Fault::UpdateOfStale { id: *id, expected, found }),
    {
        let message = framed_with_versions("Cannot update model with id [", id, expected, found);
        TxError::UpdateOptimisticLockError { message }
    }

    /// The error for a delete of an id that the store does not hold.
    pub fn delete_of_missing<IdType: Display>(id: &IdType) -> (e: TxError)
        ensures
            e.reports(Fault::DeleteOfMissing { id: *id }),
    {
        let message = framed("Cannot delete model with id [", id, "] because it does not exist.");
        TxError::DeleteError { message }
    }

    /// The error for a delete that expects `expected` where the store holds
    /// `found`.
    pub fn delete_of_stale<IdType: Display>(
        id: &IdType,
        expected: VersionType,
        found: VersionType,
    ) -> (e: TxError)
        ensures
            e.reports(Fault::DeleteOfStale { id: *id, expected, found }),
    {
        let message = framed_with_versions("Cannot delete model with id [", id, expected, found);
        TxError::DeleteOptimisticLockError { message }
    }
}

/// `label`, a colon and a space, then `message`.
fn labelled(label: &str, message: &String) -> (line: String)
    ensures
        line@ == label@ + ": "@ + message@,
{
    let mut line = String::from_str(label);
    line.append(": ");
    line.append(message.as_str());
    line
}

/// `head`, then `id` as it prints, then `tail`.
fn framed<IdType: Display>(head: &str, id: &IdType, tail: &str) -> (message: String)
    ensures
        names_id(message@, head@, *id, tail@),
{
    let printed = id.to_string();
    let mut message = String::from_str(head);
    message.append(printed.as_str());
    message.append(tail);
    assert(shown(*id, printed@));
    message
}

/// `head`, then `id`, `expected` and `found` as they print, between the
/// fixed parts that introduce the two versions.
fn framed_with_versions<IdType: Display>(
    head: &str,
    id: &IdType,
    expected: VersionType,
    found: VersionType,
) -> (message: String)
    ensures
        names_id_and_versions(message@, head@, *id, expected, found),
{
    let printed_id = id.to_string();
    let printed_expected = expected.to_string();
    let printed_found = found.to_string();
    let mut message = String::from_str(head);
    message.append(printed_id.as_str());
    message.append("]. Expected version [");
    message.append(printed_expected.as_str());
    message.append("], version found [");
    message.append(printed_found.as_str());
    message.append("]");
    assert(shown(*id, printed_id@));
    assert(shown(expected, printed_expected@));
    assert(shown(found, printed_found@));
    message
}

} // verus!
