use luma_weaver::history::{
    history_shortcut, EditHistory, ShortcutAction, ShortcutInput, MAX_UNDO_HISTORY,
};
use luma_weaver::navigation::AppView;

#[test]
fn commits_move_the_baseline_onto_the_undo_stack() {
    let mut history = EditHistory::new(None);
    history.commit(1, true);
    assert!(!history.can_undo());
    history.commit(2, true);
    history.commit(3, false);
    assert_eq!(history.committed, Some(2));
    assert_eq!(history.undo, vec![1]);
    assert!(history.can_undo());
    assert!(!history.can_redo());
}

#[test]
fn undo_then_redo_restores_the_current_document() {
    let mut history = EditHistory::new(Some(2));
    history.undo = vec![1];
    let restored = history.undo(Some(2));
    assert_eq!(restored, Some(1));
    assert_eq!(history.redo, vec![2]);
    history.mark_restored(1);
    let again = history.redo(restored);
    assert_eq!(again, Some(2));
    assert_eq!(history.undo, vec![1]);
    assert!(history.redo.is_empty());
}

#[test]
fn committing_clears_redo_and_bounds_undo() {
    let mut history = EditHistory::new(Some(0usize));
    for value in 1..=(MAX_UNDO_HISTORY + 5) {
        history.commit(value, true);
    }
    assert_eq!(history.undo.len(), MAX_UNDO_HISTORY);
    assert_eq!(history.undo[0], 5);
    history.redo = vec![7];
    history.commit(999, true);
    assert!(history.redo.is_empty());
}

#[test]
fn undo_without_a_current_document_drops_the_snapshot() {
    let mut history = EditHistory::new(Some(2));
    history.undo = vec![1];
    assert_eq!(history.undo(None), None);
    assert!(history.undo.is_empty());
    assert!(history.redo.is_empty());
    assert_eq!(history.undo(Some(3)), None);
    history.reset(Some(9));
    assert_eq!(history.committed, Some(9));
}

fn keys() -> ShortcutInput {
    ShortcutInput {
        command: false,
        shift: false,
        z_pressed: false,
        y_pressed: false,
        c_pressed: false,
        v_pressed: false,
        back_pressed: false,
        forward_pressed: false,
    }
}

#[test]
fn editor_shortcuts_pick_the_first_pressed_action() {
    let undo = ShortcutInput { command: true, z_pressed: true, ..keys() };
    let shifted_undo = ShortcutInput { shift: true, ..undo };
    let redo = ShortcutInput { command: true, y_pressed: true, ..keys() };
    let copy = ShortcutInput { command: true, c_pressed: true, ..keys() };
    let paste = ShortcutInput { command: true, v_pressed: true, ..keys() };
    let back = ShortcutInput { back_pressed: true, ..keys() };
    let forward = ShortcutInput { forward_pressed: true, ..keys() };

    assert_eq!(history_shortcut(AppView::Editor, false, false, undo), Some(ShortcutAction::Undo));
    assert_eq!(history_shortcut(AppView::Editor, false, false, shifted_undo), Some(ShortcutAction::Redo));
    assert_eq!(history_shortcut(AppView::Editor, false, false, redo), Some(ShortcutAction::Redo));
    assert_eq!(history_shortcut(AppView::Editor, false, false, copy), Some(ShortcutAction::CopyNodes));
    assert_eq!(history_shortcut(AppView::Editor, false, false, paste), Some(ShortcutAction::PasteNodes));
    assert_eq!(history_shortcut(AppView::Editor, false, true, back), Some(ShortcutAction::Undo));
    assert_eq!(history_shortcut(AppView::Editor, false, false, back), Some(ShortcutAction::NavigateBack));
    assert_eq!(history_shortcut(AppView::Editor, false, true, forward), Some(ShortcutAction::Redo));
    assert_eq!(history_shortcut(AppView::Editor, false, false, forward), Some(ShortcutAction::NavigateForward));
    assert_eq!(history_shortcut(AppView::Editor, false, false, keys()), None);
    assert_eq!(history_shortcut(AppView::Editor, true, false, undo), None);
    assert_eq!(history_shortcut(AppView::Dashboard, false, false, undo), None);
    let undo_and_copy = ShortcutInput { c_pressed: true, ..undo };
    assert_eq!(history_shortcut(AppView::Editor, false, false, undo_and_copy), Some(ShortcutAction::Undo));
    let shifted_copy = ShortcutInput { shift: true, ..copy };
    assert_eq!(history_shortcut(AppView::Editor, false, false, shifted_copy), None);
}
