//! The failures that cross the bridge, and the message each one is reported with.

use vstd::prelude::*;

verus! {

/// Why a call across the bridge failed. Each variant belongs to one stage, and
/// carries what that stage knew when it gave up.
#[derive(Debug, PartialEq, Eq)]
pub enum BridgeError {
    /// No operation is registered under the requested name.
    UnknownOperation { name: String },
    /// The host could not map the logical resource path to a file.
    PathResolution { reason: String },
    /// The resolved file is missing or cannot be opened.
    Open { path: String, reason: String },
    /// Reading failed after the file had been opened.
    Read { reason: String },
    /// The content is not a well-formed document.
    Parse { reason: String },
}

/// A `BridgeError` as a mathematical value: the same variants over sequences of
/// characters.
pub enum BridgeErrorView {
    UnknownOperation { name: Seq<char> },
    PathResolution { reason: Seq<char> },
    Open { path: Seq<char>, reason: Seq<char> },
    Read { reason: Seq<char> },
    Parse { reason: Seq<char> },
}

impl View for BridgeError {
    type V = BridgeErrorView;

    open spec fn view(&self) -> BridgeErrorView {
        match *self {
            BridgeError::UnknownOperation { name } => BridgeErrorView::UnknownOperation {
                name: name@,
            },
            BridgeError::PathResolution { reason } => BridgeErrorView::PathResolution {
                reason: reason@,
            },
            BridgeError::Open { path, reason } => BridgeErrorView::Open {
                path: path@,
                reason: reason@,
            },
            BridgeError::Read { reason } => BridgeErrorView::Read { reason: reason@ },
            BridgeError::Parse { reason } => BridgeErrorView::Parse { reason: reason@ },
        }
    }
}

/// A result as a mathematical value: the payload as it is, the failure by its
/// view.
pub open spec fn result_view<T>(result: Result<T, BridgeError>) -> Result<T, BridgeErrorView> {
    match result {
        Ok(value) => Ok(value),
        Err(error) => Err(error@),
    }
}

/// A result whose failure is a text, with that text as a sequence of characters.
pub open spec fn text_failure_view<T>(result: Result<T, String>) -> Result<T, Seq<char>> {
    match result {
        Ok(value) => Ok(value),
        Err(text) => Err(text@),
    }
}

/// A result with its failure replaced by the failure's message.
pub open spec fn stringified<T>(result: Result<T, BridgeErrorView>) -> Result<T, Seq<char>> {
    match result {
        Ok(value) => Ok(value),
        Err(error) => Err(error.message()),
    }
}

impl BridgeErrorView {
    /// The human-readable message of the failure: a fixed phrase that names the
    /// stage, the failing path where the stage knows one, and the underlying cause.
    pub open spec fn message(self) -> Seq<char> {
        match self {
            BridgeErrorView::UnknownOperation { name } => "Command "@ + name + " not found"@,
            BridgeErrorView::PathResolution { reason } => "Failed to resolve config path: "@
                + reason,
            BridgeErrorView::Open { path, reason } => "Failed to open config file at "@ + path
                + ": "@ + reason,
            BridgeErrorView::Read { reason } => "Failed to read config file: "@ + reason,
            BridgeErrorView::Parse { reason } => "Failed to parse TOML file: "@ + reason,
        }
    }
}

/// Whether `part` stands in `whole` from position `at` on.
pub open spec fn occurs_at(whole: Seq<char>, at: int, part: Seq<char>) -> bool {
    0 <= at && at + part.len() <= whole.len() && whole.subrange(at, at + part.len()) == part
}

/// A message carries what the failure knew: every message but that of an
/// unknown operation ends with the underlying cause; the message of an `Open`
/// failure names the failing path right after its opening phrase; and the
/// message of an unknown operation names the operation that was asked for.
pub proof fn lemma_message_names_path_and_cause(error: BridgeErrorView)
    ensures
        match error {
            BridgeErrorView::UnknownOperation { name } => occurs_at(
                error.message(),
                "Command "@.len() as int,
                name,
            ),
            BridgeErrorView::PathResolution { reason } => occurs_at(
                error.message(),
                error.message().len() - reason.len(),
                reason,
            ),
            BridgeErrorView::Open { path, reason } => occurs_at(
                error.message(),
                "Failed to open config file at "@.len() as int,
                path,
            ) && occurs_at(error.message(), error.message().len() - reason.len(), reason),
            BridgeErrorView::Read { reason } => occurs_at(
                error.message(),
                error.message().len() - reason.len(),
                reason,
            ),
            BridgeErrorView::Parse { reason } => occurs_at(
                error.message(),
                error.message().len() - reason.len(),
                reason,
            ),
        },
{
    let message = error.message();
    match error {
        BridgeErrorView::UnknownOperation { name } => {
            let at = "Command "@.len() as int;
            assert(message.subrange(at, at + name.len()) =~= name);
        },
        BridgeErrorView::PathResolution { reason } => {
            assert(message.subrange(message.len() - reason.len(), message.len() as int)
                =~= reason);
        },
        BridgeErrorView::Open { path, reason } => {
            let at = "Failed to open config file at "@.len() as int;
            assert(message.subrange(at, at + path.len()) =~= path);
            assert(message.subrange(message.len() - reason.len(), message.len() as int)
                =~= reason);
        },
        BridgeErrorView::Read { reason } => {
            assert(message.subrange(message.len() - reason.len(), message.len() as int)
                =~= reason);
        },
        BridgeErrorView::Parse { reason } => {
            assert(message.subrange(message.len() - reason.len(), message.len() as int)
                =~= reason);
        },
    }
}

impl Clone for BridgeError {
    fn clone(&self) -> (out: Self)
        ensures
            out == *self,
    {
        match self {
            BridgeError::UnknownOperation { name } => BridgeError::UnknownOperation {
                name: name.clone(),
            },
            BridgeError::PathResolution { reason } => BridgeError::PathResolution {
                reason: reason.clone(),
            },
            BridgeError::Open { path, reason } => BridgeError::Open {
                path: path.clone(),
                reason: reason.clone(),
            },
            BridgeError::Read { reason } => BridgeError::Read { reason: reason.clone() },
            BridgeError::Parse { reason } => BridgeError::Parse { reason: reason.clone() },
        }
    }
}

impl BridgeError {
    /// The message under which the failure is reported to the caller.
    pub fn message(&self) -> (out: String)
        ensures
            out@ == self@.message(),
    {
        match self {
            BridgeError::UnknownOperation { name } => {
                let mut out = String::from_str("Command ");
                out.append(name.as_str());
                out.append(" not found");
                out
            },
            BridgeError::PathResolution { reason } => {
                let mut out = String::from_str("Failed to resolve config path: ");
                out.append(reason.as_str());
                out
            },
            BridgeError::Open { path, reason } => {
                let mut out = String::from_str("Failed to open config file at ");
                out.append(path.as_str());
                out.append(": ");
                out.append(reason.as_str());
                out
            },
            BridgeError::Read { reason } => {
                let mut out = String::from_str("Failed to read config file: ");
                out.append(reason.as_str());
                out
            },
            BridgeError::Parse { reason } => {
                let mut out = String::from_str("Failed to parse TOML file: ");
                out.append(reason.as_str());
                out
            },
        }
    }
}

} // verus!
