//! The command that inserts the outline of the active document.

use crate::command::{
    output_view, ArgumentCompletion, OutputView, SectionView, SlashCommand, SlashCommandOutput,
};
use crate::document::{DocumentSnapshot, SnapshotView};
use crate::error::CommandError;
use crate::text::{entry_lines, format_outline, lemma_header_line_untitled, outline_text};
use crate::workspace::{
    active_document, resolve_active_document, workspace_view, ActiveItem, Workspace,
};
use vstd::prelude::*;
use vstd::string::*;

verus! {

/// The command `outline`. It takes no argument.
#[derive(Clone, Copy, Debug)]
pub struct OutlineSlashCommand;

/// What the command makes of a snapshot: the outline as text, with no
/// sections and with no commands to run in it; or
/// [`CommandError::NoOutline`] where the document has no outline. An outline
/// without entries is an outline: its text is the header line alone.
pub open spec fn rendered(snapshot: SnapshotView) -> Result<OutputView, CommandError> {
    match snapshot.outline {
        None => Err(CommandError::NoOutline),
        Some(entries) => Ok(
            OutputView {
                text: outline_text(snapshot.path, entries),
                sections: Seq::empty(),
                run_commands_in_text: false,
            },
        ),
    }
}

/// What an invocation on `workspace` returns: the failure for which no
/// document is found, or else what the command makes of the document of the
/// active editor.
pub open spec fn outcome(workspace: Option<&Workspace<DocumentSnapshot>>) -> Result<
    OutputView,
    CommandError,
> {
    match active_document(workspace) {
        Err(error) => Err(error),
        Ok(snapshot) => rendered(snapshot@),
    }
}

/// Writes the outline of a snapshot. This part of an invocation reads
/// nothing but the snapshot, so it can run apart from the workspace.
pub fn render_outline(snapshot: &DocumentSnapshot) -> (output: Result<
    SlashCommandOutput,
    CommandError,
>)
    ensures
        output_view(output) == rendered(snapshot@),
        output matches Ok(written) ==> written.sections@.len() == 0,
{
    let Some(outline) = snapshot.outline() else {
        return Err(CommandError::NoOutline);
    };
    let text = format_outline(snapshot.resolve_file_path(), outline);
    let output = SlashCommandOutput { text, sections: Vec::new(), run_commands_in_text: false };
    assert(output@.sections =~= Seq::<SectionView>::empty());
    Ok(output)
}

impl SlashCommand for OutlineSlashCommand {
    open spec fn name_spec(&self) -> Seq<char> {
        "outline"@
    }

    open spec fn description_spec(&self) -> Seq<char> {
        "insert outline for active tab"@
    }

    open spec fn menu_text_spec(&self) -> Seq<char> {
        "Insert Outline for Active Tab"@
    }

    open spec fn requires_argument_spec(&self) -> bool {
        false
    }

    open spec fn run_spec(
        &self,
        argument: Option<&str>,
        workspace: Option<&Workspace<DocumentSnapshot>>,
    ) -> Result<OutputView, CommandError> {
        outcome(workspace)
    }

    fn name(&self) -> (name: String) {
        String::from_str("outline")
    }

    fn description(&self) -> (description: String) {
        String::from_str("insert outline for active tab")
    }

    fn menu_text(&self) -> (menu_text: String) {
        String::from_str("Insert Outline for Active Tab")
    }

    fn requires_argument(&self) -> (required: bool) {
        false
    }

    /// Fails at once: the command takes no argument, so there is nothing to
    /// complete. Neither the query nor the cancellation flag nor the
    /// workspace is looked at.
    fn complete_argument(
        &self,
        query: &str,
        cancel: bool,
        workspace: Option<&Workspace<DocumentSnapshot>>,
    ) -> (completions: Result<Vec<ArgumentCompletion>, CommandError>)
        ensures
            completions == Err::<Vec<ArgumentCompletion>, CommandError>(
                CommandError::ArgumentNotAccepted,
            ),
    {
        Err(CommandError::ArgumentNotAccepted)
    }

    /// Writes the outline of the document of the active editor. The
    /// argument is not looked at.
    fn run(&self, argument: Option<&str>, workspace: Option<&Workspace<DocumentSnapshot>>) -> (output:
        Result<SlashCommandOutput, CommandError>)
        ensures
            output_view(output) == outcome(workspace),
            output matches Ok(written) ==> written.sections@.len() == 0,
    {
        match resolve_active_document(workspace) {
            Err(error) => Err(error),
            Ok(snapshot) => render_outline(snapshot),
        }
    }
}

/// Without a workspace there is nothing to look at: the invocation fails
/// with [`CommandError::WorkspaceGone`].
pub proof fn lemma_workspace_gone()
    ensures
        outcome(None) == Err::<OutputView, CommandError>(CommandError::WorkspaceGone),
{
}

/// In a workspace with no active item the invocation fails with
/// [`CommandError::NoActiveTab`], and so gives no output.
pub proof fn lemma_no_active_item(workspace: &Workspace<DocumentSnapshot>)
    requires
        workspace.active_item is None,
    ensures
        outcome(Some(workspace)) == Err::<OutputView, CommandError>(CommandError::NoActiveTab),
{
}

/// Where the active item is anything but a text editor over a single
/// document, the invocation fails with [`CommandError::NotAnEditor`].
pub proof fn lemma_not_an_editor(
    workspace: &Workspace<DocumentSnapshot>,
    item: ActiveItem<DocumentSnapshot>,
)
    requires
        workspace.active_item == Some(item),
        !(item is SingleDocumentEditor),
    ensures
        outcome(Some(workspace)) == Err::<OutputView, CommandError>(CommandError::NotAnEditor),
{
}

/// Where the document of the active editor has no outline, the invocation
/// fails with [`CommandError::NoOutline`].
pub proof fn lemma_no_outline(workspace: &Workspace<DocumentSnapshot>, snapshot: DocumentSnapshot)
    requires
        workspace.active_item == Some(ActiveItem::SingleDocumentEditor(snapshot)),
        snapshot@.outline is None,
    ensures
        outcome(Some(workspace)) == Err::<OutputView, CommandError>(CommandError::NoOutline),
{
}

/// The invocation succeeds exactly where the active item is a text editor
/// over a single document that has an outline.
pub proof fn lemma_success_exactly(workspace: Option<&Workspace<DocumentSnapshot>>)
    ensures
        outcome(workspace) is Ok <==> {
            &&& workspace matches Some(workspace)
            &&& workspace.active_item matches Some(ActiveItem::SingleDocumentEditor(snapshot))
            &&& snapshot@.outline is Some
        },
{
}

/// For a document that is shown under `path` and whose outline has the
/// entries `entries`, the text is `Symbols for <path>:` and a line feed,
/// then `- <entry>` and a line feed for each entry in the order of the
/// outline. The output has no sections and asks for no commands to be run.
pub proof fn lemma_outline_of_named_document(
    workspace: &Workspace<DocumentSnapshot>,
    snapshot: DocumentSnapshot,
    path: Seq<char>,
    entries: Seq<Seq<char>>,
)
    requires
        workspace.active_item == Some(ActiveItem::SingleDocumentEditor(snapshot)),
        snapshot@.path == Some(path),
        snapshot@.outline == Some(entries),
    ensures
        outcome(Some(workspace)) matches Ok(output) && {
            &&& output.text == "Symbols for "@ + path + ":\n"@ + entry_lines(entries)
            &&& output.sections == Seq::<SectionView>::empty()
            &&& !output.run_commands_in_text
        },
{
}

/// For a document without a path the header names it `untitled`; the rest
/// is as for a document with a path.
pub proof fn lemma_outline_of_untitled_document(
    workspace: &Workspace<DocumentSnapshot>,
    snapshot: DocumentSnapshot,
    entries: Seq<Seq<char>>,
)
    requires
        workspace.active_item == Some(ActiveItem::SingleDocumentEditor(snapshot)),
        snapshot@.path is None,
        snapshot@.outline == Some(entries),
    ensures
        outcome(Some(workspace)) matches Ok(output) && {
            &&& output.text == "Symbols for untitled:\n"@ + entry_lines(entries)
            &&& output.sections == Seq::<SectionView>::empty()
            &&& !output.run_commands_in_text
        },
{
    lemma_header_line_untitled();
}

/// What an invocation returns depends on nothing but what the workspace
/// shows: two workspaces with the same view have the same outcome.
pub proof fn lemma_outcome_of_view(
    first: Option<&Workspace<DocumentSnapshot>>,
    second: Option<&Workspace<DocumentSnapshot>>,
)
    requires
        workspace_view(first) == workspace_view(second),
    ensures
        outcome(first) == outcome(second),
{
}

/// Invoking the command twice while neither the active item nor its
/// document changes gives the same result twice: the same failure, or
/// outputs with the same text, character for character.
pub proof fn lemma_run_is_repeatable(
    first: Option<&Workspace<DocumentSnapshot>>,
    second: Option<&Workspace<DocumentSnapshot>>,
    first_output: Result<SlashCommandOutput, CommandError>,
    second_output: Result<SlashCommandOutput, CommandError>,
)
    requires
        workspace_view(first) == workspace_view(second),
        output_view(first_output) == outcome(first),
        output_view(second_output) == outcome(second),
    ensures
        output_view(first_output) == output_view(second_output),
        first_output matches Ok(first_output) ==> second_output matches Ok(second_output)
            && first_output.text@ == second_output.text@,
        first_output matches Err(error) ==> second_output == Err::<SlashCommandOutput, CommandError>(
            error,
        ),
{
    lemma_outcome_of_view(first, second);
}

} // verus!
