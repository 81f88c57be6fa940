//! The active item of a workspace, and the document under it.
//!
//! A workspace shows at most one active item. The item is a text editor over
//! one document, a text editor over several documents, or a view of another
//! kind. The types are generic in `D`, what stands for the document: the
//! application puts its own handle there, and the rules below never look
//! inside it.

use crate::error::CommandError;
use vstd::prelude::*;

verus! {

/// The item that is active in a workspace.
#[derive(Clone, Debug, PartialEq, Eq)]
pub enum ActiveItem<D> {
    /// A text editor that shows exactly one document.
    SingleDocumentEditor(D),
    /// A text editor that shows several documents at once.
    MultiDocumentEditor,
    /// A view that is no text editor, such as a settings panel.
    Other,
}

impl<D> ActiveItem<D> {
    /// The document of a text editor over one document; nothing for any
    /// other item.
    pub fn as_single_document(&self) -> (document: Option<&D>)
        ensures
            match self {
                ActiveItem::SingleDocumentEditor(shown) => document == Some(shown),
                _ => document is None,
            },
    {
        match self {
            ActiveItem::SingleDocumentEditor(shown) => Some(shown),
            _ => None,
        }
    }
}

/// An item over the view of its document.
impl<D: View> View for ActiveItem<D> {
    type V = ActiveItem<D::V>;

    open spec fn view(&self) -> ActiveItem<D::V> {
        match self {
            ActiveItem::SingleDocumentEditor(document) => ActiveItem::SingleDocumentEditor(
                document@,
            ),
            ActiveItem::MultiDocumentEditor => ActiveItem::MultiDocumentEditor,
            ActiveItem::Other => ActiveItem::Other,
        }
    }
}

/// A workspace, as far as a command reads it.
#[derive(Clone, Debug, PartialEq, Eq)]
pub struct Workspace<D> {
    pub active_item: Option<ActiveItem<D>>,
}

impl<D> Workspace<D> {
    /// A workspace with the given active item, or with none.
    pub fn new(active_item: Option<ActiveItem<D>>) -> (workspace: Workspace<D>)
        ensures
            workspace.active_item == active_item,
    {
        Workspace { active_item }
    }

    /// The item that is active, if there is one.
    pub fn active_item(&self) -> (item: Option<&ActiveItem<D>>)
        ensures
            match item {
                Some(item) => self.active_item == Some(*item),
                None => self.active_item is None,
            },
    {
        self.active_item.as_ref()
    }
}

/// A workspace over the view of its document.
impl<D: View> View for Workspace<D> {
    type V = Workspace<D::V>;

    open spec fn view(&self) -> Workspace<D::V> {
        Workspace {
            active_item: match self.active_item {
                Some(item) => Some(item@),
                None => None,
            },
        }
    }
}

/// What a weak reference to a workspace gave, over the view of the
/// document.
pub open spec fn workspace_view<D: View>(workspace: Option<&Workspace<D>>) -> Option<
    Workspace<D::V>,
> {
    match workspace {
        Some(workspace) => Some(workspace@),
        None => None,
    }
}

/// The document that a command works on, or the reason why there is none.
/// `workspace` is what a weak reference to the workspace gave: nothing, once
/// the workspace is gone.
pub open spec fn active_document<D>(workspace: Option<&Workspace<D>>) -> Result<&D, CommandError> {
    match workspace {
        None => Err(CommandError::WorkspaceGone),
        Some(workspace) => match &workspace.active_item {
            None => Err(CommandError::NoActiveTab),
            Some(ActiveItem::SingleDocumentEditor(document)) => Ok(document),
            Some(_) => Err(CommandError::NotAnEditor),
        },
    }
}

/// Finds the document of the active text editor.
pub fn resolve_active_document<'a, D>(workspace: Option<&'a Workspace<D>>) -> (document: Result<
    &'a D,
    CommandError,
>)
    ensures
        document == active_document(workspace),
{
    let Some(workspace) = workspace else {
        return Err(CommandError::WorkspaceGone);
    };
    let Some(active_item) = workspace.active_item() else {
        return Err(CommandError::NoActiveTab);
    };
    let Some(document) = active_item.as_single_document() else {
        return Err(CommandError::NotAnEditor);
    };
    Ok(document)
}

} // verus!
