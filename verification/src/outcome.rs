//! What a command reports back: the outcome of a run, the store-level
//! failures that are reported rather than fatal, and the errors that end a
//! run early.

use vstd::prelude::*;

verus! {

use vstd::string::StringExecFns;
use crate::validation::ValidationError;

/// A failure at the store level. For the row-editing verbs these are
/// reported outcomes, not process failures.
#[derive(Debug, PartialEq, Eq)]
pub enum StoreError {
    /// The named index has no table in the store.
    NoIndex,
    /// An insert hit a key that the index already holds.
    DuplicateKey,
    /// Anything else the storage engine reported, as text.
    Other(String),
}

/// An error that ends the current command: a binding or validation
/// failure, an unparsable payload, a fatal store fault, or a verb this
/// tool does not serve.
#[derive(Debug, PartialEq, Eq)]
pub enum CmdError {
    /// A required parameter had no argument at its position.
    MissingParam { param: String },
    /// An argument failed its parameter's validation rule.
    InvalidParam { param: String, reason: ValidationError },
    /// The bulk-load payload was not a JSON array of objects.
    ParseFailed { detail: String },
    /// A store operation failed during a management verb.
    StoreFailed { err: StoreError },
    /// The top-level command names a verb with no handler.
    NotImplemented { command: String },
}

/// What one run of a command did.
#[derive(Debug, PartialEq, Eq)]
pub enum Outcome {
    /// The index's table was created, or reset if it already existed.
    Created { index: String, fresh: bool },
    /// The index was created and filled with `count` records.
    Initialized { index: String, count: usize },
    /// The index's table is gone, whether or not it existed before.
    Deleted { index: String },
    /// The caller asked for the whole store to be destroyed; removing the
    /// backing file is I/O and sits with the caller.
    PurgeRequested,
    /// A new entry was inserted.
    EntryAdded { index: String, key: String },
    /// An insert was refused; the store is unchanged.
    AddFailed { index: String, key: String, err: StoreError },
    /// The entry matching `key` now holds the new data.
    EntryUpdated { index: String, key: String },
    /// No entry matched `key`; nothing changed.
    NoMatchingEntry { index: String, key: String },
    /// A row-editing verb hit a store failure: a missing index, or a
    /// fault the engine reported. Nothing changed.
    EditFailed { err: StoreError },
    /// The entry matching `key` was deleted.
    EntryRemoved { key: String },
    /// No entry matched `key`; nothing was there to delete.
    EntryMissing { key: String },
    /// A help text was produced instead of a store operation.
    Help { text: String },
}

impl StoreError {
    /// What this failure means, for the reader of an error report.
    pub open spec fn message_spec(&self) -> Seq<char> {
        match self {
            StoreError::NoIndex => "no such index"@,
            StoreError::DuplicateKey => "an entry with this key already exists"@,
            StoreError::Other(s) => s@,
        }
    }

    /// The human-readable description of this failure.
    pub fn message(&self) -> (r: String)
        ensures
            r@ == self.message_spec(),
    {
        match self {
            StoreError::NoIndex => String::from_str("no such index"),
            StoreError::DuplicateKey => String::from_str("an entry with this key already exists"),
            StoreError::Other(s) => s.clone(),
        }
    }
}

impl Outcome {
    /// The one-line summary of this outcome, for the reader of a report.
    pub open spec fn message_spec(&self) -> Seq<char> {
        match self {
            Outcome::Created { index, fresh } => if *fresh {
                "Success: `"@ + index@ + "` Index Created"@
            } else {
                "Success: `"@ + index@ + "` Index Reset"@
            },
            Outcome::Initialized { index, .. } => "Success: `"@ + index@
                + "` Index Initialized"@,
            Outcome::Deleted { index } => "Success: `"@ + index@ + "` Index Deleted"@,
            Outcome::PurgeRequested => "Success: Purge requested"@,
            Outcome::EntryAdded { index, key } => "Success: Entry added for "@ + index@ + "->"@
                + key@,
            Outcome::AddFailed { err, .. } => "Error: "@ + err.message_spec(),
            Outcome::EntryUpdated { index, key } => "Success: Updated entry for "@ + index@ + "->"@
                + key@,
            Outcome::NoMatchingEntry { index, key } => "Success: No matching entry for "@ + index@
                + "->"@ + key@,
            Outcome::EditFailed { err } => "Error: "@ + err.message_spec(),
            Outcome::EntryRemoved { key } => "Success: Row removed with key '"@ + key@ + "'"@,
            Outcome::EntryMissing { key } => "Warning: Row did not exist with key '"@ + key@
                + "'"@,
            Outcome::Help { text } => text@,
        }
    }

    /// The one-line summary of this outcome.
    pub fn message(&self) -> (r: String)
        ensures
            r@ == self.message_spec(),
    {
        match self {
            Outcome::Created { index, fresh } => if *fresh {
                String::from_str("Success: `").concat(index.as_str()).concat("` Index Created")
            } else {
                String::from_str("Success: `").concat(index.as_str()).concat("` Index Reset")
            },
            Outcome::Initialized { index, .. } => String::from_str("Success: `").concat(
                index.as_str(),
            ).concat("` Index Initialized"),
            Outcome::Deleted { index } => String::from_str("Success: `").concat(
                index.as_str(),
            ).concat("` Index Deleted"),
            Outcome::PurgeRequested => String::from_str("Success: Purge requested"),
            Outcome::EntryAdded { index, key } => String::from_str("Success: Entry added for ")
                .concat(index.as_str()).concat("->").concat(key.as_str()),
            Outcome::AddFailed { err, .. } => String::from_str("Error: ").concat(
                err.message().as_str(),
            ),
            Outcome::EntryUpdated { index, key } => String::from_str(
                "Success: Updated entry for ",
            ).concat(index.as_str()).concat("->").concat(key.as_str()),
            Outcome::NoMatchingEntry { index, key } => String::from_str(
                "Success: No matching entry for ",
            ).concat(index.as_str()).concat("->").concat(key.as_str()),
            Outcome::EditFailed { err } => String::from_str("Error: ").concat(
                err.message().as_str(),
            ),
            Outcome::EntryRemoved { key } => String::from_str("Success: Row removed with key '")
                .concat(key.as_str()).concat("'"),
            Outcome::EntryMissing { key } => String::from_str(
                "Warning: Row did not exist with key '",
            ).concat(key.as_str()).concat("'"),
            Outcome::Help { text } => text.clone(),
        }
    }
}

impl CmdError {
    /// What this error means, for the reader of an error report.
    pub open spec fn message_spec(&self) -> Seq<char> {
        match self {
            CmdError::MissingParam { param } => "No value entered for the param: "@ + param@,
            CmdError::InvalidParam { param, reason } => "Invalid value for "@ + param@ + ", "@
                + reason.message_spec(),
            CmdError::ParseFailed { detail } => "Could not parse data: "@ + detail@,
            CmdError::StoreFailed { err } => "Store failure: "@ + err.message_spec(),
            CmdError::NotImplemented { command } => "Nothing implemented for "@ + command@,
        }
    }

    /// The human-readable description of this error.
    pub fn message(&self) -> (r: String)
        ensures
            r@ == self.message_spec(),
    {
        match self {
            CmdError::MissingParam { param } => String::from_str(
                "No value entered for the param: ",
            ).concat(param.as_str()),
            CmdError::InvalidParam { param, reason } => String::from_str("Invalid value for ")
                .concat(param.as_str()).concat(", ").concat(reason.message()),
            CmdError::ParseFailed { detail } => String::from_str("Could not parse data: ").concat(
                detail.as_str(),
            ),
            CmdError::StoreFailed { err } => String::from_str("Store failure: ").concat(
                err.message().as_str(),
            ),
            CmdError::NotImplemented { command } => String::from_str("Nothing implemented for ")
                .concat(command.as_str()),
        }
    }
}

} // verus!
