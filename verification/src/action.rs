//! Action kinds, validated actions, and the executor: one state per
//! action kind, each handler reading and rewriting the record set through
//! the `Database` capability and reporting through the `Logger`.

pub mod database;

use vstd::prelude::*;
use vstd::string::{StrSliceExecFns, StringExecFns};

use crate::error::TodoError;
use crate::input::InputReader;
use crate::log_wrapper::Logger;
use crate::text::{
    dec_rep, parse_usize, parses_to_usize, str_eq, usize_to_string, usize_token_val,
};
use crate::todo::{render_spec, ToDo, ToDoView};
use self::database::Database;

verus! {

/// One of the six supported action kinds. The payload is the kind's
/// argument-arity requirement, fixed by `resolve_spec`.
#[derive(Debug, PartialEq, Eq, Structural)]
pub enum ActionType {
    Create(bool),
    List(bool),
    Edit(bool),
    Done(bool),
    Undone(bool),
    Delete(bool),
}

/// The catalog: the action kind a name token resolves to, with its
/// arity requirement attached, or nothing for an unknown name.
pub open spec fn resolve_spec(name: Seq<char>) -> Option<ActionType> {
    if name == "create"@ {
        Some(ActionType::Create(false))
    } else if name == "list"@ {
        Some(ActionType::List(false))
    } else if name == "edit"@ {
        Some(ActionType::Edit(true))
    } else if name == "done"@ {
        Some(ActionType::Done(true))
    } else if name == "undone"@ {
        Some(ActionType::Undone(true))
    } else if name == "delete"@ {
        Some(ActionType::Delete(true))
    } else {
        None
    }
}

impl ActionType {
    /// The arity payload carried by this kind.
    pub open spec fn flag(self) -> bool {
        match self {
            ActionType::Create(req_args) => req_args,
            ActionType::List(req_args) => req_args,
            ActionType::Edit(req_args) => req_args,
            ActionType::Done(req_args) => req_args,
            ActionType::Undone(req_args) => req_args,
            ActionType::Delete(req_args) => req_args,
        }
    }

    /// Resolve a name token against the catalog; any name outside the six
    /// supported ones fails with `UnknownAction`.
    pub fn new(action_name: &str) -> (r: Result<Self, TodoError>)
        ensures
            match resolve_spec(action_name@) {
                Some(t) => r == Ok::<ActionType, TodoError>(t),
                None => r == Err::<ActionType, TodoError>(TodoError::UnknownAction),
            },
    {
        if str_eq(action_name, "create") {
            Ok(ActionType::Create(false))
        } else if str_eq(action_name, "list") {
            Ok(ActionType::List(false))
        } else if str_eq(action_name, "edit") {
            Ok(ActionType::Edit(true))
        } else if str_eq(action_name, "done") {
            Ok(ActionType::Done(true))
        } else if str_eq(action_name, "undone") {
            Ok(ActionType::Undone(true))
        } else if str_eq(action_name, "delete") {
            Ok(ActionType::Delete(true))
        } else {
            Err(TodoError::UnknownAction)
        }
    }

    /// Whether this kind requires arguments.
    pub fn requires_arguments(&self) -> (r: bool)
        ensures
            r == self.flag(),
    {
        match self {
            ActionType::Create(req_args) => *req_args,
            ActionType::List(req_args) => *req_args,
            ActionType::Edit(req_args) => *req_args,
            ActionType::Done(req_args) => *req_args,
            ActionType::Undone(req_args) => *req_args,
            ActionType::Delete(req_args) => *req_args,
        }
    }
}

/// A resolved action: its kind, the kind's arity requirement, and the
/// argument tokens attached by validation.
#[derive(Debug)]
pub struct Action {
    pub action_type: ActionType,
    pub requires_arguments: bool,
    pub arguments: Vec<String>,
}

impl PartialEq for Action {
    fn eq(&self, other: &Self) -> (r: bool) {
        if !(self.action_type == other.action_type) || self.requires_arguments
            != other.requires_arguments {
            return false;
        }
        if self.arguments.len() != other.arguments.len() {
            proof {
                assert(self.arguments.deep_view().len() == self.arguments@.len());
                assert(other.arguments.deep_view().len() == other.arguments@.len());
            }
            return false;
        }
        let mut i: usize = 0;
        while i < self.arguments.len()
            invariant
                i <= self.arguments.len(),
                self.arguments.len() == other.arguments.len(),
                self.action_type == other.action_type,
                self.requires_arguments == other.requires_arguments,
                forall|j: int| 0 <= j < i ==> self.arguments@[j]@ == other.arguments@[j]@,
            decreases self.arguments.len() - i,
        {
            if !(self.arguments[i] == other.arguments[i]) {
                proof {
                    assert(self.arguments.deep_view()[i as int] != other.arguments.deep_view()[
                        i as int
                    ]);
                }
                return false;
            }
            i = i + 1;
        }
        proof {
            assert(self.arguments.deep_view() =~= other.arguments.deep_view());
        }
        true
    }
}

impl vstd::std_specs::cmp::PartialEqSpecImpl for Action {
    open spec fn obeys_eq_spec() -> bool {
        true
    }

    open spec fn eq_spec(&self, other: &Action) -> bool {
        self.action_type == other.action_type && self.requires_arguments
            == other.requires_arguments && self.arguments.deep_view()
            == other.arguments.deep_view()
    }
}

// ---------------------------------------------------------------------------
// The index-parsing rule shared by Edit, Done, Undone and Delete
// ---------------------------------------------------------------------------

/// The shared index rule: the first argument token must be a positive
/// decimal number, and the 1-based value becomes a 0-based index.
/// A missing, non-numeric or zero token fails with `InvalidIndex`.
pub open spec fn index_arg_spec(args: Seq<Seq<char>>) -> Result<int, TodoError> {
    if args.len() == 0 {
        Err(TodoError::InvalidIndex)
    } else if parses_to_usize(args[0]) && usize_token_val(args[0]) > 0 {
        Ok(usize_token_val(args[0]) - 1)
    } else {
        Err(TodoError::InvalidIndex)
    }
}

// ---------------------------------------------------------------------------
// The pure mutations the index actions perform on the record set
// ---------------------------------------------------------------------------

/// The record `t` with its completion marker replaced by `done`.
pub open spec fn with_done(t: ToDoView, done: Seq<char>) -> ToDoView {
    ToDoView { title: t.title, description: t.description, done }
}

/// The record set with the marker of the item at `i` replaced by `done`.
pub open spec fn set_done_spec(ts: Seq<ToDoView>, i: int, done: Seq<char>) -> Seq<ToDoView> {
    ts.update(i, with_done(ts[i], done))
}

/// Replace the completion marker of the item at `item_index`; out of
/// range, the set is unchanged and the call fails with `IndexOutOfRange`.
pub fn set_status_at(todos: &mut Vec<ToDo>, item_index: usize, status: String) -> (r: Result<
    (),
    TodoError,
>)
    ensures
        item_index < old(todos).len() ==> r == Ok::<(), TodoError>(()) && final(todos).deep_view()
            == set_done_spec(old(todos).deep_view(), item_index as int, status@),
        item_index >= old(todos).len() ==> r == Err::<(), TodoError>(TodoError::IndexOutOfRange)
            && final(todos)@ == old(todos)@,
{
    if item_index >= todos.len() {
        return Err(TodoError::IndexOutOfRange);
    }
    let mut item = todos.remove(item_index);
    item.done = status;
    todos.insert(item_index, item);
    proof {
        assert(todos.deep_view() =~= set_done_spec(
            old(todos).deep_view(),
            item_index as int,
            status@,
        ));
    }
    Ok(())
}

/// Remove the item at `item_index`, all others keeping their relative
/// order; out of range, the set is unchanged and the call fails with
/// `IndexOutOfRange`.
pub fn delete_at(todos: &mut Vec<ToDo>, item_index: usize) -> (r: Result<(), TodoError>)
    ensures
        item_index < old(todos).len() ==> r == Ok::<(), TodoError>(()) && final(todos)@ == old(
            todos,
        )@.remove(item_index as int),
        item_index >= old(todos).len() ==> r == Err::<(), TodoError>(TodoError::IndexOutOfRange)
            && final(todos)@ == old(todos)@,
{
    if item_index >= todos.len() {
        return Err(TodoError::IndexOutOfRange);
    }
    todos.remove(item_index);
    Ok(())
}

/// The replacement rule of the edit action: the supplied text replaces
/// the current one only when it holds more than a line terminator.
pub open spec fn replacement(current: Seq<char>, supplied: Seq<char>) -> Seq<char> {
    if vstd::utf8::encode_utf8(supplied).len() > 1 {
        supplied
    } else {
        current
    }
}

/// The record `t` after an edit with the supplied replacement texts.
pub open spec fn edited(t: ToDoView, new_title: Seq<char>, new_description: Seq<char>) -> ToDoView {
    ToDoView {
        title: replacement(t.title, new_title),
        description: replacement(t.description, new_description),
        done: t.done,
    }
}

/// Apply the edit replacement rule to the item at `item_index`; out of
/// range, the set is unchanged and the call fails with `IndexOutOfRange`.
pub fn edit_at(
    todos: &mut Vec<ToDo>,
    item_index: usize,
    new_title: String,
    new_description: String,
) -> (r: Result<(), TodoError>)
    ensures
        item_index < old(todos).len() ==> r == Ok::<(), TodoError>(()) && final(todos).deep_view()
            == old(todos).deep_view().update(
            item_index as int,
            edited(old(todos).deep_view()[item_index as int], new_title@, new_description@),
        ),
        item_index >= old(todos).len() ==> r == Err::<(), TodoError>(TodoError::IndexOutOfRange)
            && final(todos)@ == old(todos)@,
{
    if item_index >= todos.len() {
        return Err(TodoError::IndexOutOfRange);
    }
    let mut item = todos.remove(item_index);
    let title_bytes = new_title.as_str().as_bytes_vec();
    if title_bytes.len() > 1 {
        item.title = new_title;
    }
    let description_bytes = new_description.as_str().as_bytes_vec();
    if description_bytes.len() > 1 {
        item.description = new_description;
    }
    todos.insert(item_index, item);
    proof {
        let i = item_index as int;
        let old_dv = old(todos).deep_view();
        let target = old_dv.update(i, edited(old_dv[i], new_title@, new_description@));
        assert(todos.deep_view().len() == target.len());
        assert forall|j: int| 0 <= j < target.len() implies todos.deep_view()[j] == target[j] by {
            assert(todos.deep_view()[j] == todos@[j]@);
            if j < i {
                assert(todos@[j] == old(todos)@[j]);
            } else if j > i {
                assert(todos@[j] == old(todos)@[j]);
            } else {
                assert(todos@[i] == item);
            }
        }
        assert(todos.deep_view() =~= target);
    }
    Ok(())
}

// ---------------------------------------------------------------------------
// Laws of the marking actions
// ---------------------------------------------------------------------------

/// Law: replacing a completion marker changes no title, no description,
/// and no other item; only the marker at `i` becomes `done`.
pub proof fn lemma_set_done_frame(ts: Seq<ToDoView>, i: int, done: Seq<char>)
    requires
        0 <= i < ts.len(),
    ensures
        set_done_spec(ts, i, done).len() == ts.len(),
        forall|j: int| 0 <= j < ts.len() ==> #[trigger] set_done_spec(ts, i, done)[j].title == ts[
            j
        ].title && set_done_spec(ts, i, done)[j].description == ts[j].description,
        forall|j: int| 0 <= j < ts.len() && j != i ==> #[trigger] set_done_spec(ts, i, done)[j]
            == ts[j],
        set_done_spec(ts, i, done)[i].done == done,
{
}

/// Law: marking an item done and then not done restores a record set
/// whose item carried the not-done marker, and leaves the title and
/// description of every item unchanged at both steps.
pub proof fn lemma_done_then_undone(ts: Seq<ToDoView>, i: int)
    requires
        0 <= i < ts.len(),
        ts[i].done == "\u{274c}"@,
    ensures
        set_done_spec(set_done_spec(ts, i, "\u{2705}"@), i, "\u{274c}"@) == ts,
{
    let mid = set_done_spec(ts, i, "\u{2705}"@);
    assert(set_done_spec(mid, i, "\u{274c}"@) =~= ts);
}

// ---------------------------------------------------------------------------
// Console renderings used by the executor
// ---------------------------------------------------------------------------

/// One entry of the listing: a framed, 1-based ordinal and the rendered
/// record.
pub open spec fn list_entry_spec(ordinal: nat, t: ToDoView) -> Seq<char> {
    "===============\n# "@ + dec_rep(ordinal) + "\n"@ + render_spec(t) + "\n===============\n"@
}

fn render_list_entry(ordinal: usize, todo: &ToDo) -> (r: String)
    ensures
        r@ == list_entry_spec(ordinal as nat, todo@),
{
    let mut out = String::from_str("===============\n# ");
    let numtxt = usize_to_string(ordinal);
    out.append(numtxt.as_str());
    out.append("\n");
    let body = todo.render();
    out.append(body.as_str());
    out.append("\n===============\n");
    proof {
        assert(out@ =~= list_entry_spec(ordinal as nat, todo@));
    }
    out
}

/// The header line announcing an edit of the 1-based item `ordinal`.
pub open spec fn edit_header_spec(ordinal: nat) -> Seq<char> {
    "Editing #"@ + dec_rep(ordinal) + " ToDo item"@
}

fn render_edit_header(ordinal: usize) -> (r: String)
    ensures
        r@ == edit_header_spec(ordinal as nat),
{
    let mut out = String::from_str("Editing #");
    let numtxt = usize_to_string(ordinal);
    out.append(numtxt.as_str());
    out.append(" ToDo item");
    proof {
        assert(out@ =~= edit_header_spec(ordinal as nat));
    }
    out
}

/// The header line announcing a deletion of the 1-based item `ordinal`.
pub open spec fn delete_header_spec(ordinal: nat) -> Seq<char> {
    "Deleting #"@ + dec_rep(ordinal) + " ToDo item"@
}

fn render_delete_header(ordinal: usize) -> (r: String)
    ensures
        r@ == delete_header_spec(ordinal as nat),
{
    let mut out = String::from_str("Deleting #");
    let numtxt = usize_to_string(ordinal);
    out.append(numtxt.as_str());
    out.append(" ToDo item");
    proof {
        assert(out@ =~= delete_header_spec(ordinal as nat));
    }
    out
}

// ---------------------------------------------------------------------------
// The executor
// ---------------------------------------------------------------------------

impl Action {
    /// Resolve a name token into a validated action with no arguments
    /// attached yet.
    pub fn new(action_type: &str) -> (r: Result<Action, TodoError>)
        ensures
            match r {
                Ok(a) => resolve_spec(action_type@) == Some(a.action_type)
                    && a.requires_arguments == a.action_type.flag() && a.arguments@
                    == Seq::<String>::empty(),
                Err(e) => e == TodoError::UnknownAction && resolve_spec(action_type@) is None,
            },
    {
        let act_type = match ActionType::new(action_type) {
            Ok(t) => t,
            Err(e) => {
                return Err(e);
            },
        };
        let req_args = act_type.requires_arguments();
        Ok(Action { action_type: act_type, requires_arguments: req_args, arguments: Vec::new() })
    }

    /// Dispatch this action to its handler. Whatever the database and the
    /// logger do, an index action whose argument fails the shared index
    /// rule fails with `InvalidIndex`.
    pub fn execute_action<L: Logger, D: Database, I: InputReader>(
        &self,
        logger: &mut L,
        database: &D,
        input: &mut I,
    ) -> (r: Result<(), TodoError>)
        ensures
            (self.action_type is Edit || self.action_type is Done || self.action_type is Undone
                || self.action_type is Delete) && index_arg_spec(self.arguments.deep_view())
                is Err ==> r == Err::<(), TodoError>(TodoError::InvalidIndex),
            (self.action_type is Edit || self.action_type is Done || self.action_type is Undone
                || self.action_type is Delete) && index_arg_spec(self.arguments.deep_view())
                is Ok ==> (r matches Err(e) ==> e == TodoError::IndexOutOfRange || e
                == TodoError::StorageUnavailable || e == TodoError::CorruptRecord),
            self.action_type is Create ==> (r matches Err(e) ==> e
                == TodoError::StorageUnavailable),
            self.action_type is List ==> (r matches Err(e) ==> e == TodoError::StorageUnavailable
                || e == TodoError::CorruptRecord),
    {
        match self.action_type {
            ActionType::Create(_) => self.create(logger, database, input),
            ActionType::List(_) => self.list(logger, database),
            ActionType::Edit(_) => self.edit(logger, database, input),
            ActionType::Done(_) => self.done(logger, database),
            ActionType::Undone(_) => self.undone(logger, database),
            ActionType::Delete(_) => self.delete(logger, database),
        }
    }

    /// The shared index rule applied to this action's arguments.
    fn get_item_index_arg(&self) -> (r: Result<usize, TodoError>)
        ensures
            match index_arg_spec(self.arguments.deep_view()) {
                Ok(i) => r is Ok && r.unwrap() == i,
                Err(e) => r == Err::<usize, TodoError>(e),
            },
    {
        if self.arguments.len() == 0 {
            return Err(TodoError::InvalidIndex);
        }
        match parse_usize(self.arguments[0].as_str()) {
            Some(index) => {
                if index == 0 {
                    Err(TodoError::InvalidIndex)
                } else {
                    Ok(index - 1)
                }
            },
            None => Err(TodoError::InvalidIndex),
        }
    }

    fn list<L: Logger, D: Database>(&self, logger: &mut L, database: &D) -> (r: Result<
        (),
        TodoError,
    >)
        ensures
            r matches Err(e) ==> e == TodoError::StorageUnavailable || e
                == TodoError::CorruptRecord,
    {
        let _ = logger.log_stdln("Printing all ToDo items.");
        let todos = database.read_items()?;
        let mut i: usize = 0;
        while i < todos.len()
            decreases todos.len() - i,
        {
            let entry = render_list_entry(i + 1, &todos[i]);
            let _ = logger.log_stdln(entry.as_str());
            i = i + 1;
        }
        Ok(())
    }

    fn create<L: Logger, D: Database, I: InputReader>(
        &self,
        logger: &mut L,
        database: &D,
        input: &mut I,
    ) -> (r: Result<(), TodoError>)
        ensures
            r matches Err(e) ==> e == TodoError::StorageUnavailable,
    {
        let _ = logger.log_stdln("Creating a ToDo item");
        let _ = logger.log_std("Title: ");
        let title = input.read_line();
        let _ = logger.log_std("Description: ");
        let description = input.read_line();
        let todo = ToDo::new(title, description);
        database.store_item(todo)?;
        Ok(())
    }

    fn edit<L: Logger, D: Database, I: InputReader>(
        &self,
        logger: &mut L,
        database: &D,
        input: &mut I,
    ) -> (r: Result<(), TodoError>)
        ensures
            index_arg_spec(self.arguments.deep_view()) is Err ==> r == Err::<(), TodoError>(
                TodoError::InvalidIndex,
            ),
            index_arg_spec(self.arguments.deep_view()) is Ok ==> (r matches Err(e) ==> e
                == TodoError::IndexOutOfRange || e == TodoError::StorageUnavailable || e
                == TodoError::CorruptRecord),
    {
        let item_index = self.get_item_index_arg()?;
        let mut todos = database.read_items()?;
        if item_index >= todos.len() {
            return Err(TodoError::IndexOutOfRange);
        }
        let header = render_edit_header(item_index + 1);
        let _ = logger.log_stdln(header.as_str());
        let body = todos[item_index].render();
        let _ = logger.log_stdln(body.as_str());
        let _ = logger.log_std("New Title: ");
        let new_title = input.read_line();
        let _ = logger.log_std("New Description: ");
        let new_description = input.read_line();
        edit_at(&mut todos, item_index, new_title, new_description)?;
        database.store_existing_items(todos)?;
        Ok(())
    }

    fn update_todo_status<L: Logger, D: Database>(
        &self,
        logger: &mut L,
        database: &D,
        status: String,
    ) -> (r: Result<(), TodoError>)
        ensures
            index_arg_spec(self.arguments.deep_view()) is Err ==> r == Err::<(), TodoError>(
                TodoError::InvalidIndex,
            ),
            index_arg_spec(self.arguments.deep_view()) is Ok ==> (r matches Err(e) ==> e
                == TodoError::IndexOutOfRange || e == TodoError::StorageUnavailable || e
                == TodoError::CorruptRecord),
    {
        let item_index = self.get_item_index_arg()?;
        let header = render_edit_header(item_index + 1);
        let _ = logger.log_stdln(header.as_str());
        let mut todos = database.read_items()?;
        set_status_at(&mut todos, item_index, status)?;
        database.store_existing_items(todos)?;
        Ok(())
    }

    fn done<L: Logger, D: Database>(&self, logger: &mut L, database: &D) -> (r: Result<
        (),
        TodoError,
    >)
        ensures
            index_arg_spec(self.arguments.deep_view()) is Err ==> r == Err::<(), TodoError>(
                TodoError::InvalidIndex,
            ),
            index_arg_spec(self.arguments.deep_view()) is Ok ==> (r matches Err(e) ==> e
                == TodoError::IndexOutOfRange || e == TodoError::StorageUnavailable || e
                == TodoError::CorruptRecord),
    {
        self.update_todo_status(logger, database, String::from_str("\u{2705}"))?;
        Ok(())
    }

    fn undone<L: Logger, D: Database>(&self, logger: &mut L, database: &D) -> (r: Result<
        (),
        TodoError,
    >)
        ensures
            index_arg_spec(self.arguments.deep_view()) is Err ==> r == Err::<(), TodoError>(
                TodoError::InvalidIndex,
            ),
            index_arg_spec(self.arguments.deep_view()) is Ok ==> (r matches Err(e) ==> e
                == TodoError::IndexOutOfRange || e == TodoError::StorageUnavailable || e
                == TodoError::CorruptRecord),
    {
        self.update_todo_status(logger, database, String::from_str("\u{274c}"))?;
        Ok(())
    }

    fn delete<L: Logger, D: Database>(&self, logger: &mut L, database: &D) -> (r: Result<
        (),
        TodoError,
    >)
        ensures
            index_arg_spec(self.arguments.deep_view()) is Err ==> r == Err::<(), TodoError>(
                TodoError::InvalidIndex,
            ),
            index_arg_spec(self.arguments.deep_view()) is Ok ==> (r matches Err(e) ==> e
                == TodoError::IndexOutOfRange || e == TodoError::StorageUnavailable || e
                == TodoError::CorruptRecord),
    {
        let item_index = self.get_item_index_arg()?;
        let mut todos = database.read_items()?;
        if item_index >= todos.len() {
            return Err(TodoError::IndexOutOfRange);
        }
        let header = render_delete_header(item_index + 1);
        let _ = logger.log_stdln(header.as_str());
        delete_at(&mut todos, item_index)?;
        database.store_existing_items(todos)?;
        Ok(())
    }
}

} // verus!
