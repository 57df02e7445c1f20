//! An undo/redo stack over text edits.  The stack itself is pure state:
//! applying an event to a text widget, and reading the widget's selection,
//! happen outside this crate, which only decides what to apply and what the
//! stacks become.

use vstd::prelude::*;
use vstd::string::StringExecFns;

verus! {

/// One edit of the text buffer.
#[derive(Debug)]
pub enum EditEvent {
    InsertText { content: String, point: i32 },
    DeleteText { content: String, start: i32, end: i32 },
}

/// Events are the same edit: same kind, same text, same positions.
pub open spec fn event_eq(a: EditEvent, b: EditEvent) -> bool {
    match (a, b) {
        (
            EditEvent::InsertText { content: c1, point: p1 },
            EditEvent::InsertText { content: c2, point: p2 },
        ) => c1@ == c2@ && p1 == p2,
        (
            EditEvent::DeleteText { content: c1, start: s1, end: e1 },
            EditEvent::DeleteText { content: c2, start: s2, end: e2 },
        ) => c1@ == c2@ && s1 == s2 && e1 == e2,
        _ => false,
    }
}

fn clone_event(e: &EditEvent) -> (r: EditEvent)
    ensures
        event_eq(r, *e),
{
    match e {
        EditEvent::InsertText { content, point } => EditEvent::InsertText {
            content: String::from_str(content.as_str()),
            point: *point,
        },
        EditEvent::DeleteText { content, start, end } => EditEvent::DeleteText {
            content: String::from_str(content.as_str()),
            start: *start,
            end: *end,
        },
    }
}

impl EditEvent {
    /// The event that undoes this one: deleting exactly the characters an
    /// insertion added, or re-inserting the text a deletion removed.
    pub fn inverse(&self) -> (r: EditEvent)
        requires
            *self matches EditEvent::InsertText { content, point } ==> content@.len() <= i32::MAX
                && point + content@.len() <= i32::MAX,
        ensures
            (*self) matches EditEvent::InsertText { content, point } ==> (r
                matches EditEvent::DeleteText { content: c, start, end } && c@ == content@
                && start == point && end == point + content@.len()),
            (*self) matches EditEvent::DeleteText { content, start, end } ==> (r
                matches EditEvent::InsertText { content: c, point } && c@ == content@ && point
                == start),
    {
        match self {
            EditEvent::InsertText { content, point } => {
                let len = content.as_str().unicode_len();
                EditEvent::DeleteText {
                    content: String::from_str(content.as_str()),
                    start: *point,
                    end: *point + len as i32,
                }
            },
            EditEvent::DeleteText { content, start, end: _ } => EditEvent::InsertText {
                content: String::from_str(content.as_str()),
                point: *start,
            },
        }
    }
}

/// One recorded change: the edit and the selection to restore when it is
/// undone.
#[derive(Debug)]
pub struct Change {
    pub original_selection: (i32, i32),
    pub event: EditEvent,
}

/// The undo and redo stacks.
#[derive(Debug)]
pub struct UndoStack {
    pub past: Vec<Change>,
    pub future: Vec<Change>,
}

impl UndoStack {
    /// Empty history.
    pub fn new() -> (r: UndoStack)
        ensures
            r.past@ == Seq::<Change>::empty(),
            r.future@ == Seq::<Change>::empty(),
    {
        UndoStack { past: Vec::new(), future: Vec::new() }
    }

    /// Record an insertion: it becomes the newest past change, and any redo
    /// history is discarded.
    pub fn insert_text(&mut self, new: &str, insertion_pt: i32, selection: (i32, i32))
        ensures
            final(self).future@ == Seq::<Change>::empty(),
            final(self).past@.len() == old(self).past@.len() + 1,
            final(self).past@.drop_last() == old(self).past@,
            final(self).past@.last().original_selection == selection,
            final(self).past@.last().event matches EditEvent::InsertText { content, point }
                && content@ == new@ && point == insertion_pt,
    {
        self.future.clear();
        let change = Change {
            original_selection: selection,
            event: EditEvent::InsertText { content: String::from_str(new), point: insertion_pt },
        };
        self.past.push(change);
        proof {
            assert(self.past@.drop_last() =~= old(self).past@);
        }
    }

    /// Record a deletion: it becomes the newest past change, and any redo
    /// history is discarded.
    pub fn delete_text(&mut self, deleted_chunk: &str, start: i32, end: i32, selection: (i32, i32))
        ensures
            final(self).future@ == Seq::<Change>::empty(),
            final(self).past@.len() == old(self).past@.len() + 1,
            final(self).past@.drop_last() == old(self).past@,
            final(self).past@.last().original_selection == selection,
            final(self).past@.last().event matches EditEvent::DeleteText { content, start: s, end: e }
                && content@ == deleted_chunk@ && s == start && e == end,
    {
        self.future.clear();
        let change = Change {
            original_selection: selection,
            event: EditEvent::DeleteText {
                content: String::from_str(deleted_chunk),
                start,
                end,
            },
        };
        self.past.push(change);
        proof {
            assert(self.past@.drop_last() =~= old(self).past@);
        }
    }

    /// Take one step back: the newest past change moves to the redo stack,
    /// remembering the selection it is undone from, and the caller gets the
    /// event to un-apply together with the selection to restore.  With no
    /// past, nothing changes.
    pub fn undo(&mut self, current_selection: (i32, i32)) -> (r: Option<(EditEvent, (i32, i32))>)
        ensures
            old(self).past@.len() == 0 ==> r is None && final(self).past@ == old(self).past@
                && final(self).future@ == old(self).future@,
            old(self).past@.len() > 0 ==> ({
                let taken = old(self).past@.last();
                &&& r matches Some(p) && event_eq(p.0, taken.event) && p.1
                    == taken.original_selection
                &&& final(self).past@ == old(self).past@.drop_last()
                &&& final(self).future@.len() == old(self).future@.len() + 1
                &&& final(self).future@.drop_last() == old(self).future@
                &&& final(self).future@.last().event == taken.event
                &&& final(self).future@.last().original_selection == current_selection
            }),
    {
        match self.past.pop() {
            None => None,
            Some(change) => {
                let returned = clone_event(&change.event);
                let original_selection = change.original_selection;
                self.future.push(
                    Change { original_selection: current_selection, event: change.event },
                );
                proof {
                    assert(self.future@.drop_last() =~= old(self).future@);
                }
                Some((returned, original_selection))
            },
        }
    }

    /// Take one step forward: the newest redo change moves back to the past
    /// stack, remembering the selection it is redone from, and the caller
    /// gets the event to re-apply together with the selection to restore.
    /// With no redo history, nothing changes.
    pub fn redo(&mut self, current_selection: (i32, i32)) -> (r: Option<(EditEvent, (i32, i32))>)
        ensures
            old(self).future@.len() == 0 ==> r is None && final(self).past@ == old(self).past@
                && final(self).future@ == old(self).future@,
            old(self).future@.len() > 0 ==> ({
                let taken = old(self).future@.last();
                &&& r matches Some(p) && event_eq(p.0, taken.event) && p.1
                    == taken.original_selection
                &&& final(self).future@ == old(self).future@.drop_last()
                &&& final(self).past@.len() == old(self).past@.len() + 1
                &&& final(self).past@.drop_last() == old(self).past@
                &&& final(self).past@.last().event == taken.event
                &&& final(self).past@.last().original_selection == current_selection
            }),
    {
        match self.future.pop() {
            None => None,
            Some(change) => {
                let returned = clone_event(&change.event);
                let original_selection = change.original_selection;
                self.past.push(
                    Change { original_selection: current_selection, event: change.event },
                );
                proof {
                    assert(self.past@.drop_last() =~= old(self).past@);
                }
                Some((returned, original_selection))
            },
        }
    }
}

} // verus!
