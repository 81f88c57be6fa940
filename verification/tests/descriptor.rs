use outline_command::{
    ActiveItem, CommandError, DocumentSnapshot, OutlineSlashCommand, SlashCommand, Workspace,
};

fn described<C: SlashCommand>(command: &C) -> (String, String, String, bool) {
    (
        command.name(),
        command.description(),
        command.menu_text(),
        command.requires_argument(),
    )
}

#[test]
fn name_is_outline() {
    assert_eq!(OutlineSlashCommand.name(), "outline");
}

#[test]
fn description_is_plain_text() {
    assert_eq!(OutlineSlashCommand.description(), "insert outline for active tab");
}

#[test]
fn menu_text_is_title_case() {
    assert_eq!(OutlineSlashCommand.menu_text(), "Insert Outline for Active Tab");
}

#[test]
fn requires_no_argument() {
    assert!(!OutlineSlashCommand.requires_argument());
}

#[test]
fn identity_is_stable_across_calls() {
    let command = OutlineSlashCommand;
    assert_eq!(described(&command), described(&command));
    assert_eq!(command.name(), OutlineSlashCommand.name());
}

#[test]
fn identity_through_the_trait() {
    let (name, description, menu_text, requires_argument) = described(&OutlineSlashCommand);
    assert_eq!(name, "outline");
    assert_eq!(description, "insert outline for active tab");
    assert_eq!(menu_text, "Insert Outline for Active Tab");
    assert!(!requires_argument);
}

#[test]
fn complete_argument_fails_on_empty_query() {
    let completions = OutlineSlashCommand.complete_argument("", false, None);
    assert_eq!(completions, Err(CommandError::ArgumentNotAccepted));
}

#[test]
fn complete_argument_fails_whatever_the_query() {
    for query in ["a", "outline", "notes.md", "  ", "\n", "日本語", "- Intro"] {
        let completions = OutlineSlashCommand.complete_argument(query, false, None);
        assert_eq!(completions, Err(CommandError::ArgumentNotAccepted));
    }
}

#[test]
fn complete_argument_ignores_the_cancellation_flag() {
    let running = OutlineSlashCommand.complete_argument("sym", false, None);
    let cancelled = OutlineSlashCommand.complete_argument("sym", true, None);
    assert_eq!(running, Err(CommandError::ArgumentNotAccepted));
    assert_eq!(cancelled, Err(CommandError::ArgumentNotAccepted));
}

#[test]
fn complete_argument_ignores_the_workspace() {
    let empty: Workspace<DocumentSnapshot> = Workspace::new(None);
    let busy = Workspace::new(Some(ActiveItem::SingleDocumentEditor(DocumentSnapshot::new(
        Some(String::from("notes.md")),
        None,
    ))));
    for workspace in [None, Some(&empty), Some(&busy)] {
        let completions = OutlineSlashCommand.complete_argument("x", false, workspace);
        assert_eq!(completions, Err(CommandError::ArgumentNotAccepted));
    }
}

#[test]
fn complete_argument_leaves_the_workspace_as_it_was() {
    let workspace = Workspace::new(Some(ActiveItem::SingleDocumentEditor(DocumentSnapshot::new(
        Some(String::from("notes.md")),
        None,
    ))));
    let before = workspace.clone();
    let _ = OutlineSlashCommand.complete_argument("x", true, Some(&workspace));
    assert_eq!(workspace, before);
}
