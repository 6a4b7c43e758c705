//! One task record and its line codec: a record serialises to one
//! comma-separated line, and a line deserialises back exactly when it
//! splits into three fields.

use vstd::prelude::*;
use vstd::string::StringExecFns;

use crate::error::TodoError;
use crate::text::{split_on, split_str, strip_newlines, strip_newlines_spec, push_char};

verus! {

/// The mathematical content of a task record: its three fields as
/// character sequences.
pub ghost struct ToDoView {
    pub title: Seq<char>,
    pub description: Seq<char>,
    pub done: Seq<char>,
}

/// One task record: free-text title and description, and the completion
/// marker, which is one of two sentinel symbols on every record the
/// library itself creates.
#[derive(Debug)]
pub struct ToDo {
    pub title: String,
    pub description: String,
    pub done: String,
}

impl View for ToDo {
    type V = ToDoView;

    open spec fn view(&self) -> ToDoView {
        ToDoView { title: self.title@, description: self.description@, done: self.done@ }
    }
}

impl DeepView for ToDo {
    type V = ToDoView;

    open spec fn deep_view(&self) -> ToDoView {
        self.view()
    }
}

impl PartialEq for ToDo {
    fn eq(&self, other: &Self) -> (r: bool) {
        self.title == other.title && self.description == other.description && self.done
            == other.done
    }
}

impl vstd::std_specs::cmp::PartialEqSpecImpl for ToDo {
    open spec fn obeys_eq_spec() -> bool {
        true
    }

    open spec fn eq_spec(&self, other: &ToDo) -> bool {
        self@ == other@
    }
}

/// The serialised line of a record: title and description with newlines
/// stripped, the three fields joined by commas, a line break at the end.
pub open spec fn line_of(t: ToDoView) -> Seq<char> {
    strip_newlines_spec(t.title) + seq![','] + strip_newlines_spec(t.description) + seq![',']
        + t.done + seq!['\n']
}

/// The record a stored line decodes to: defined exactly when the line
/// splits on commas into three fields.
pub open spec fn parse_line(l: Seq<char>) -> Option<ToDoView> {
    let fields = split_on(l, ',');
    if fields.len() == 3 {
        Some(ToDoView { title: fields[0], description: fields[1], done: fields[2] })
    } else {
        None
    }
}

impl ToDo {
    /// A fresh record with the given texts and the not-done marker.
    pub fn new(title: String, description: String) -> (r: ToDo)
        ensures
            r.title == title,
            r.description == description,
            r@.done == "\u{274c}"@,
    {
        ToDo { title, description, done: String::from_str("\u{274c}") }
    }

    /// Decode one stored line; fails exactly when the line does not split
    /// into three comma-separated fields.
    pub fn deserialise(todo_str: &str) -> (r: Result<ToDo, TodoError>)
        ensures
            match r {
                Ok(t) => parse_line(todo_str@) == Some(t@),
                Err(e) => e == TodoError::CorruptRecord && parse_line(todo_str@) is None,
            },
    {
        let mut props = split_str(todo_str, ',');
        if props.len() != 3 {
            return Err(TodoError::CorruptRecord);
        }
        let done = props.pop().unwrap();
        let description = props.pop().unwrap();
        let title = props.pop().unwrap();
        Ok(ToDo { title, description, done })
    }

    /// Encode this record as one line: sanitized fields joined by commas,
    /// terminated by a line break.
    pub fn serialise(&self) -> (r: String)
        ensures
            r@ == line_of(self@),
    {
        let mut out = strip_newlines(self.title.as_str());
        push_char(&mut out, ',');
        let d = strip_newlines(self.description.as_str());
        out.append(d.as_str());
        push_char(&mut out, ',');
        out.append(self.done.as_str());
        push_char(&mut out, '\n');
        proof {
            assert(out@ =~= line_of(self@));
        }
        out
    }

    /// The multi-line rendering of this record for console output.
    pub fn render(&self) -> (r: String)
        ensures
            r@ == render_spec(self@),
    {
        let mut out = String::from_str("Title: ");
        let t = strip_newlines(self.title.as_str());
        out.append(t.as_str());
        out.append("\nDescription: ");
        let d = strip_newlines(self.description.as_str());
        out.append(d.as_str());
        out.append("\nDone: ");
        out.append(self.done.as_str());
        proof {
            assert(out@ =~= render_spec(self@));
        }
        out
    }
}

/// The console rendering of a record: each sanitized field on its own
/// labelled line.
pub open spec fn render_spec(t: ToDoView) -> Seq<char> {
    "Title: "@ + strip_newlines_spec(t.title) + "\nDescription: "@ + strip_newlines_spec(
        t.description,
    ) + "\nDone: "@ + t.done
}

} // verus!
