//! The failures of a command.

use vstd::prelude::*;
use vstd::string::*;

verus! {

/// Why an invocation of a command failed.
///
/// Every failure belongs to one invocation: it is handed back as the `Err`
/// side of that invocation's result, with no output beside it.
#[derive(Clone, Copy, Debug, PartialEq, Eq, Hash, Structural)]
pub enum CommandError {
    /// Completions were asked of a command that takes no argument.
    ArgumentNotAccepted,
    /// The workspace no longer exists.
    WorkspaceGone,
    /// The workspace has no active item.
    NoActiveTab,
    /// The active item is not a text editor over a single document.
    NotAnEditor,
    /// The document has no outline.
    NoOutline,
}

impl CommandError {
    /// The message of each failure, as a sequence of characters.
    pub open spec fn message_spec(self) -> Seq<char> {
        match self {
            CommandError::ArgumentNotAccepted => "this command does not require argument"@,
            CommandError::WorkspaceGone => "workspace no longer exists"@,
            CommandError::NoActiveTab => "no active tab"@,
            CommandError::NotAnEditor => "active tab is not an editor"@,
            CommandError::NoOutline => "no outline for active tab"@,
        }
    }

    /// The message that is shown to the user.
    pub fn message(&self) -> (text: String)
        ensures
            text@ == self.message_spec(),
    {
        match self {
            CommandError::ArgumentNotAccepted => String::from_str(
                "this command does not require argument",
            ),
            CommandError::WorkspaceGone => String::from_str("workspace no longer exists"),
            CommandError::NoActiveTab => String::from_str("no active tab"),
            CommandError::NotAnEditor => String::from_str("active tab is not an editor"),
            CommandError::NoOutline => String::from_str("no outline for active tab"),
        }
    }
}

/// The length of each message. No two messages have the same length.
proof fn lemma_message_len(error: CommandError)
    ensures
        error.message_spec().len() == match error {
            CommandError::ArgumentNotAccepted => 38nat,
            CommandError::WorkspaceGone => 26nat,
            CommandError::NoActiveTab => 13nat,
            CommandError::NotAnEditor => 27nat,
            CommandError::NoOutline => 25nat,
        },
{
    reveal_strlit("this command does not require argument");
    reveal_strlit("workspace no longer exists");
    reveal_strlit("no active tab");
    reveal_strlit("active tab is not an editor");
    reveal_strlit("no outline for active tab");
}

/// The message tells which failure it was: two failures with the same
/// message are the same failure.
pub proof fn lemma_message_tells_failure(first: CommandError, second: CommandError)
    requires
        first.message_spec() == second.message_spec(),
    ensures
        first == second,
{
    lemma_message_len(first);
    lemma_message_len(second);
}

} // verus!
