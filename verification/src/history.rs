//! Undo and redo of graph edits: a committed baseline and two bounded stacks of snapshots, and
//! the keyboard and mouse shortcuts that trigger them.

use vstd::prelude::*;
use crate::navigation::AppView;

verus! {

/// The most snapshots the undo stack keeps; older ones are dropped first.
pub const MAX_UNDO_HISTORY: usize = 100;

/// Undo/redo history of committed document snapshots.
pub struct EditHistory<T> {
    /// The last committed snapshot, the baseline that the next commit is compared with.
    pub committed: Option<T>,
    /// Older snapshots, the most recent last.
    pub undo: Vec<T>,
    /// Undone snapshots, the most recently undone last.
    pub redo: Vec<T>,
}

/// A history as its baseline and its two stacks.
pub struct HistoryView<T> {
    pub committed: Option<T>,
    pub undo: Seq<T>,
    pub redo: Seq<T>,
}

impl<T> View for EditHistory<T> {
    type V = HistoryView<T>;

    open spec fn view(&self) -> HistoryView<T> {
        HistoryView { committed: self.committed, undo: self.undo@, redo: self.redo@ }
    }
}

/// The history after an undo with the given current document, and the snapshot to restore.
pub open spec fn after_undo<T>(history: HistoryView<T>, current: Option<T>) -> (HistoryView<T>, Option<T>) {
    if history.undo.len() == 0 {
        (history, None)
    } else {
        match current {
            Some(document) => (
                HistoryView {
                    committed: history.committed,
                    undo: history.undo.drop_last(),
                    redo: history.redo.push(document),
                },
                Some(history.undo.last()),
            ),
            None => (
                HistoryView {
                    committed: history.committed,
                    undo: history.undo.drop_last(),
                    redo: history.redo,
                },
                None,
            ),
        }
    }
}

/// The history after a redo with the given current document, and the snapshot to restore.
pub open spec fn after_redo<T>(history: HistoryView<T>, current: Option<T>) -> (HistoryView<T>, Option<T>) {
    if history.redo.len() == 0 {
        (history, None)
    } else {
        match current {
            Some(document) => (
                HistoryView {
                    committed: history.committed,
                    undo: bounded(history.undo.push(document)),
                    redo: history.redo.drop_last(),
                },
                Some(history.redo.last()),
            ),
            None => (
                HistoryView {
                    committed: history.committed,
                    undo: history.undo,
                    redo: history.redo.drop_last(),
                },
                None,
            ),
        }
    }
}

/// `stack` cut to its newest `MAX_UNDO_HISTORY` entries.
pub open spec fn bounded<T>(stack: Seq<T>) -> Seq<T> {
    if stack.len() > MAX_UNDO_HISTORY {
        stack.skip(stack.len() - MAX_UNDO_HISTORY)
    } else {
        stack
    }
}

fn trim_undo<T>(stack: &mut Vec<T>)
    ensures
        final(stack)@ == bounded(old(stack)@),
{
    let ghost start = old(stack)@;
    let total = stack.len();
    let mut dropped: usize = 0;
    while stack.len() > MAX_UNDO_HISTORY
        invariant
            dropped <= start.len(),
            start.len() == total,
            stack@ == start.skip(dropped as int),
            start.len() > MAX_UNDO_HISTORY ==> dropped <= start.len() - MAX_UNDO_HISTORY,
            start.len() <= MAX_UNDO_HISTORY ==> dropped == 0,
        decreases stack@.len(),
    {
        stack.remove(0);
        assert(stack@ =~= start.skip(dropped + 1));
        dropped = dropped + 1;
    }
    assert(start.skip(0) =~= start);
}

impl<T> EditHistory<T> {
    /// A history with the given baseline and nothing to undo or redo.
    pub fn new(document: Option<T>) -> (history: Self)
        ensures
            history.committed == document,
            history.undo@.len() == 0,
            history.redo@.len() == 0,
    {
        EditHistory { committed: document, undo: Vec::new(), redo: Vec::new() }
    }

    /// Replaces the history with a new committed baseline and empty stacks.
    pub fn reset(&mut self, document: Option<T>)
        ensures
            final(self).committed == document,
            final(self).undo@.len() == 0,
            final(self).redo@.len() == 0,
    {
        self.committed = document;
        self.undo = Vec::new();
        self.redo = Vec::new();
    }

    /// Commits a snapshot when there is no baseline yet or the document differs from it in a
    /// history-relevant way (`differs`, as the caller compares them): the baseline moves onto
    /// the undo stack, which keeps its newest entries only, and the redo stack is cleared.
    pub fn commit(&mut self, document: T, differs: bool)
        ensures
            old(self).committed is Some && !differs ==> *final(self) == *old(self),
            old(self).committed is None || differs ==> {
                &&& final(self).committed == Some(document)
                &&& final(self).undo@ == match old(self).committed {
                    Some(previous) => bounded(old(self).undo@.push(previous)),
                    None => old(self).undo@,
                }
                &&& final(self).redo@.len() == 0
            },
    {
        if self.committed.is_some() && !differs {
            return;
        }
        let previous = self.committed.take();
        self.committed = Some(document);
        if let Some(previous) = previous {
            self.undo.push(previous);
            trim_undo(&mut self.undo);
        }
        self.redo = Vec::new();
    }

    /// Returns whether an older committed state is available for undo.
    pub fn can_undo(&self) -> (available: bool)
        ensures
            available == (self.undo@.len() > 0),
    {
        self.undo.len() > 0
    }

    /// Returns whether a previously undone state is available for redo.
    pub fn can_redo(&self) -> (available: bool)
        ensures
            available == (self.redo@.len() > 0),
    {
        self.redo.len() > 0
    }

    /// Takes the newest undo snapshot to restore, moving the current document onto the redo
    /// stack. Without a snapshot nothing changes; without a current document the snapshot is
    /// dropped and nothing is restored.
    pub fn undo(&mut self, current: Option<T>) -> (restored: Option<T>)
        ensures
            (final(self)@, restored) == after_undo(old(self)@, current),
    {
        let previous = match self.undo.pop() {
            Some(previous) => previous,
            None => return None,
        };
        let document = match current {
            Some(document) => document,
            None => return None,
        };
        self.redo.push(document);
        Some(previous)
    }

    /// Takes the newest redo snapshot to restore, moving the current document onto the undo
    /// stack, which keeps its newest entries only. Without a snapshot nothing changes; without a
    /// current document the snapshot is dropped and nothing is restored.
    pub fn redo(&mut self, current: Option<T>) -> (restored: Option<T>)
        ensures
            (final(self)@, restored) == after_redo(old(self)@, current),
    {
        let next = match self.redo.pop() {
            Some(next) => next,
            None => return None,
        };
        let document = match current {
            Some(document) => document,
            None => return None,
        };
        self.undo.push(document);
        trim_undo(&mut self.undo);
        Some(next)
    }

    /// Records a restored snapshot as the new baseline.
    pub fn mark_restored(&mut self, document: T)
        ensures
            final(self).committed == Some(document),
            final(self).undo == old(self).undo,
            final(self).redo == old(self).redo,
    {
        self.committed = Some(document);
    }
}

/// Undoing and then redoing with the restored document gives back the document that was
/// current before the undo and the history as it was, when the undo stack was within its bound.
pub proof fn lemma_undo_then_redo<T>(history: HistoryView<T>, current: T)
    requires
        history.undo.len() > 0,
        history.undo.len() <= MAX_UNDO_HISTORY,
    ensures
        ({
            let (undone, restored) = after_undo(history, Some(current));
            &&& restored == Some(history.undo.last())
            &&& after_redo(undone, restored) == (history, Some(current))
        }),
{
    let (undone, restored) = after_undo(history, Some(current));
    assert(undone.undo.push(history.undo.last()) =~= history.undo);
    assert(undone.redo.drop_last() =~= history.redo);
    assert(after_redo(undone, restored).0 =~= history);
}

/// Redoing and then undoing with the restored document gives back the document that was
/// current before the redo and the history as it was, when the undo stack had room for one
/// more snapshot.
pub proof fn lemma_redo_then_undo<T>(history: HistoryView<T>, current: T)
    requires
        history.redo.len() > 0,
        history.undo.len() < MAX_UNDO_HISTORY,
    ensures
        ({
            let (redone, restored) = after_redo(history, Some(current));
            &&& restored == Some(history.redo.last())
            &&& after_undo(redone, restored) == (history, Some(current))
        }),
{
    let (redone, restored) = after_redo(history, Some(current));
    assert(redone.undo == history.undo.push(current));
    assert(redone.undo.drop_last() =~= history.undo);
    assert(redone.redo.push(history.redo.last()) =~= history.redo);
    assert(after_undo(redone, restored).0 =~= history);
}

/// The undo stack never grows past its bound.
pub proof fn lemma_bounded_within_limit<T>(stack: Seq<T>)
    ensures
        bounded(stack).len() <= MAX_UNDO_HISTORY,
        stack.len() <= MAX_UNDO_HISTORY ==> bounded(stack) == stack,
{
}

/// The modifiers, keys and mouse buttons pressed in one frame, as the editor's shortcuts read them.
#[derive(Debug, Clone, Copy, PartialEq, Eq, Structural)]
pub struct ShortcutInput {
    /// The platform's command modifier (Ctrl, or Cmd on macOS) is held.
    pub command: bool,
    pub shift: bool,
    pub z_pressed: bool,
    pub y_pressed: bool,
    pub c_pressed: bool,
    pub v_pressed: bool,
    /// The mouse's back button was pressed.
    pub back_pressed: bool,
    /// The mouse's forward button was pressed.
    pub forward_pressed: bool,
}

/// What an editor shortcut asks for.
#[derive(Debug, Clone, Copy, PartialEq, Eq, Structural)]
pub enum ShortcutAction {
    Undo,
    Redo,
    CopyNodes,
    PasteNodes,
    NavigateBack,
    NavigateForward,
}

/// The action of the first shortcut pressed, in this order: undo (command+Z), redo (command+Y
/// or command+shift+Z), copy (command+C), paste (command+V), then the mouse's back and forward
/// buttons, which undo and redo over the canvas and navigate elsewhere. Shortcuts act only in the
/// editor, and not while a text field takes the keyboard; shift turns undo, copy and paste off.
pub open spec fn shortcut_action(
    active_view: AppView,
    wants_keyboard_input: bool,
    canvas_hovered: bool,
    input: ShortcutInput,
) -> Option<ShortcutAction> {
    if active_view != AppView::Editor || wants_keyboard_input {
        None
    } else if input.command && !input.shift && input.z_pressed {
        Some(ShortcutAction::Undo)
    } else if input.command && (input.y_pressed || (input.shift && input.z_pressed)) {
        Some(ShortcutAction::Redo)
    } else if input.command && !input.shift && input.c_pressed {
        Some(ShortcutAction::CopyNodes)
    } else if input.command && !input.shift && input.v_pressed {
        Some(ShortcutAction::PasteNodes)
    } else if input.back_pressed {
        Some(if canvas_hovered { ShortcutAction::Undo } else { ShortcutAction::NavigateBack })
    } else if input.forward_pressed {
        Some(if canvas_hovered { ShortcutAction::Redo } else { ShortcutAction::NavigateForward })
    } else {
        None
    }
}

/// Returns the action of the editor shortcut pressed this frame, if any.
pub fn history_shortcut(
    active_view: AppView,
    wants_keyboard_input: bool,
    canvas_hovered: bool,
    input: ShortcutInput,
) -> (action: Option<ShortcutAction>)
    ensures
        action == shortcut_action(active_view, wants_keyboard_input, canvas_hovered, input),
{
    if let AppView::Dashboard = active_view {
        return None;
    }
    if wants_keyboard_input {
        return None;
    }
    let undo = input.command && !input.shift && input.z_pressed;
    let redo = (input.command && input.y_pressed) || (input.command && input.shift
        && input.z_pressed);
    let copy = input.command && !input.shift && input.c_pressed;
    let paste = input.command && !input.shift && input.v_pressed;
    if undo {
        Some(ShortcutAction::Undo)
    } else if redo {
        Some(ShortcutAction::Redo)
    } else if copy {
        Some(ShortcutAction::CopyNodes)
    } else if paste {
        Some(ShortcutAction::PasteNodes)
    } else if input.back_pressed {
        if canvas_hovered {
            Some(ShortcutAction::Undo)
        } else {
            Some(ShortcutAction::NavigateBack)
        }
    } else if input.forward_pressed {
        if canvas_hovered {
            Some(ShortcutAction::Redo)
        } else {
            Some(ShortcutAction::NavigateForward)
        }
    } else {
        None
    }
}

} // verus!
