use mathfont::undo::EditEvent;
use mathfont::undo::UndoStack;

#[test]
fn undo_on_empty_history_does_nothing() {
    let mut stack = UndoStack::new();
    assert!(stack.undo((0, 0)).is_none());
    assert!(stack.redo((0, 0)).is_none());
}

#[test]
fn insert_then_undo_returns_the_event() {
    let mut stack = UndoStack::new();
    stack.insert_text("abc", 4, (1, 2));
    let (event, selection) = stack.undo((9, 9)).unwrap();
    assert_eq!(selection, (1, 2));
    match event {
        EditEvent::InsertText { content, point } => {
            assert_eq!(content, "abc");
            assert_eq!(point, 4);
        }
        other => panic!("unexpected event {:?}", other),
    }
    // the change is now redoable, remembering where it was undone from
    let (event, selection) = stack.redo((3, 3)).unwrap();
    assert_eq!(selection, (9, 9));
    assert!(matches!(event, EditEvent::InsertText { .. }));
}

#[test]
fn new_edit_discards_redo_history() {
    let mut stack = UndoStack::new();
    stack.insert_text("abc", 0, (0, 0));
    stack.insert_text("def", 3, (3, 3));
    assert!(stack.undo((6, 6)).is_some());
    stack.delete_text("ab", 0, 2, (2, 2));
    // the undone "def" insertion is no longer redoable
    assert!(stack.redo((0, 0)).is_none());
}

#[test]
fn delete_then_undo_returns_the_chunk() {
    let mut stack = UndoStack::new();
    stack.delete_text("xy", 5, 7, (5, 7));
    let (event, _) = stack.undo((0, 0)).unwrap();
    match event {
        EditEvent::DeleteText { content, start, end } => {
            assert_eq!(content, "xy");
            assert_eq!(start, 5);
            assert_eq!(end, 7);
        }
        other => panic!("unexpected event {:?}", other),
    }
}

#[test]
fn inverse_of_insert_deletes_the_inserted_span() {
    let event = EditEvent::InsertText { content: String::from("abc"), point: 4 };
    match event.inverse() {
        EditEvent::DeleteText { content, start, end } => {
            assert_eq!(content, "abc");
            assert_eq!(start, 4);
            assert_eq!(end, 7);
        }
        other => panic!("unexpected event {:?}", other),
    }
}

#[test]
fn inverse_of_delete_reinserts_at_start() {
    let event = EditEvent::DeleteText { content: String::from("xy"), start: 5, end: 7 };
    match event.inverse() {
        EditEvent::InsertText { content, point } => {
            assert_eq!(content, "xy");
            assert_eq!(point, 5);
        }
        other => panic!("unexpected event {:?}", other),
    }
}
