//! What every command offers, and the values that pass between a command
//! and its caller.

use crate::document::DocumentSnapshot;
use crate::error::CommandError;
use crate::workspace::Workspace;
use vstd::prelude::*;

verus! {

/// One proposal for the argument of a command.
#[derive(Clone, Debug, PartialEq, Eq)]
pub struct ArgumentCompletion {
    /// The text that is shown in the list of proposals.
    pub label: String,
    /// The text that replaces the argument when the proposal is taken.
    pub new_text: String,
    /// Whether the command is run as soon as the proposal is taken.
    pub run_command: bool,
}

/// A stretch of the output text, with the label under which it is shown.
#[derive(Clone, Debug, PartialEq, Eq)]
pub struct OutputSection {
    /// Where the stretch begins, counted in bytes of the text.
    pub start: usize,
    /// Where the stretch ends, counted in bytes of the text.
    pub end: usize,
    /// The label of the stretch.
    pub label: String,
}

/// What an [`OutputSection`] holds, as mathematical values.
pub struct SectionView {
    pub start: nat,
    pub end: nat,
    pub label: Seq<char>,
}

impl View for OutputSection {
    type V = SectionView;

    open spec fn view(&self) -> SectionView {
        SectionView { start: self.start as nat, end: self.end as nat, label: self.label@ }
    }
}

/// What a command hands back when it succeeds.
#[derive(Clone, Debug, PartialEq, Eq)]
pub struct SlashCommandOutput {
    /// The text to insert.
    pub text: String,
    /// The sections of the text, in their order.
    pub sections: Vec<OutputSection>,
    /// Whether commands that occur in the text are to be run in turn.
    pub run_commands_in_text: bool,
}

/// What a [`SlashCommandOutput`] holds, as mathematical values.
pub struct OutputView {
    pub text: Seq<char>,
    pub sections: Seq<SectionView>,
    pub run_commands_in_text: bool,
}

impl View for SlashCommandOutput {
    type V = OutputView;

    open spec fn view(&self) -> OutputView {
        OutputView {
            text: self.text@,
            sections: Seq::new(self.sections@.len(), |i: int| self.sections@[i]@),
            run_commands_in_text: self.run_commands_in_text,
        }
    }
}

/// The result of an invocation, as mathematical values: the view of the
/// output, or the failure as it is.
pub open spec fn output_view(output: Result<SlashCommandOutput, CommandError>) -> Result<
    OutputView,
    CommandError,
> {
    match output {
        Ok(output) => Ok(output@),
        Err(error) => Err(error),
    }
}

/// A named action that a caller can look up, describe and invoke.
///
/// The `*_spec` functions say what the command is and does; the executable
/// methods of the same names return exactly that. A command is not changed
/// by being asked or invoked, and what it returns depends on nothing but
/// what it is given.
pub trait SlashCommand {
    /// The identifier under which the command is registered.
    spec fn name_spec(&self) -> Seq<char>;

    /// The description that is shown to the user.
    spec fn description_spec(&self) -> Seq<char>;

    /// The label of the command in a menu.
    spec fn menu_text_spec(&self) -> Seq<char>;

    /// Whether the command needs an argument.
    spec fn requires_argument_spec(&self) -> bool;

    /// What an invocation returns, over the view of the output.
    spec fn run_spec(
        &self,
        argument: Option<&str>,
        workspace: Option<&Workspace<DocumentSnapshot>>,
    ) -> Result<OutputView, CommandError>;

    /// The identifier under which the command is registered.
    fn name(&self) -> (name: String)
        ensures
            name@ == self.name_spec(),
    ;

    /// The description that is shown to the user.
    fn description(&self) -> (description: String)
        ensures
            description@ == self.description_spec(),
    ;

    /// The label of the command in a menu.
    fn menu_text(&self) -> (menu_text: String)
        ensures
            menu_text@ == self.menu_text_spec(),
    ;

    /// Whether the command needs an argument. Where it does, it is for the
    /// caller to supply one before it invokes the command.
    fn requires_argument(&self) -> (required: bool)
        ensures
            required == self.requires_argument_spec(),
    ;

    /// Proposes completions for the argument typed so far. `cancel` is the
    /// state of the caller's cancellation flag at the time of the call; a
    /// command may give up early where it is set.
    ///
    /// A command that takes no argument proposes nothing: it fails with
    /// [`CommandError::ArgumentNotAccepted`], whatever it is asked.
    fn complete_argument(
        &self,
        query: &str,
        cancel: bool,
        workspace: Option<&Workspace<DocumentSnapshot>>,
    ) -> (completions: Result<Vec<ArgumentCompletion>, CommandError>)
        ensures
            !self.requires_argument_spec() ==> completions == Err::<
                Vec<ArgumentCompletion>,
                CommandError,
            >(CommandError::ArgumentNotAccepted),
    ;

    /// Invokes the command on what a weak reference to the workspace gave.
    /// Either the whole output comes back or a failure, never a part of the
    /// output.
    fn run(&self, argument: Option<&str>, workspace: Option<&Workspace<DocumentSnapshot>>) -> (output:
        Result<SlashCommandOutput, CommandError>)
        ensures
            output_view(output) == self.run_spec(argument, workspace),
    ;
}

} // verus!
