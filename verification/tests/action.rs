use std::cell::RefCell;

use terminal_todo::action::database::Database;
use terminal_todo::action::{Action, ActionType};
use terminal_todo::error::TodoError;
use terminal_todo::input::InputReader;
use terminal_todo::log_wrapper::LogWrapper;
use terminal_todo::todo::ToDo;

#[test]
fn can_create_new_action_type() {
    let action_type: ActionType = ActionType::new(&"create").unwrap();
    assert_eq!(action_type, ActionType::Create(false));
}

#[test]
fn should_return_error_if_action_type_is_wrong() {
    let action_type: Result<ActionType, TodoError> = ActionType::new(&"wrong");
    assert_eq!(action_type, Err(TodoError::UnknownAction));
    assert_eq!(TodoError::UnknownAction.message(), "Action is not valid");
}

#[test]
fn should_return_correct_value_for_required_args() {
    let action_type = ActionType::new(&"create").unwrap();
    assert_eq!(action_type.requires_arguments(), false);

    let action_type = ActionType::new(&"list").unwrap();
    assert_eq!(action_type.requires_arguments(), false);

    let action_type = ActionType::new(&"edit").unwrap();
    assert_eq!(action_type.requires_arguments(), true);

    let action_type = ActionType::new(&"done").unwrap();
    assert_eq!(action_type.requires_arguments(), true);

    let action_type = ActionType::new(&"undone").unwrap();
    assert_eq!(action_type.requires_arguments(), true);

    let action_type = ActionType::new(&"delete").unwrap();
    assert_eq!(action_type.requires_arguments(), true);
}

struct MockDatabase {}

impl Database for MockDatabase {
    fn read_items(&self) -> Result<Vec<ToDo>, TodoError> {
        let todo = ToDo::new("title".into(), "description".into());
        Ok(vec![todo])
    }

    fn store_existing_items(&self, _: Vec<ToDo>) -> Result<(), TodoError> {
        Ok(())
    }

    fn store_item(&self, _: ToDo) -> Result<(), TodoError> {
        panic!("store_item is not exercised here");
    }
}

struct MockInput {}

impl InputReader for MockInput {
    fn read_line(&mut self) -> String {
        String::new()
    }
}

#[test]
fn should_make_action_properly() {
    let action = Action::new(&"create");

    let expected = Action {
        action_type: ActionType::Create(false),
        requires_arguments: false,
        arguments: vec![],
    };
    assert_eq!(action, Ok(expected));

    let expected = Action {
        action_type: ActionType::List(false),
        requires_arguments: false,
        arguments: vec![],
    };
    assert_ne!(Action::new(&"create"), Ok(expected));
}

#[test]
fn should_list_todo_properly() {
    let mock_logger_err: Vec<u8> = Vec::<u8>::new();
    let mock_logger_std: Vec<u8> = Vec::new();
    let mut logger = LogWrapper::new(mock_logger_err, mock_logger_std);
    let database = MockDatabase {};
    let mut input = MockInput {};
    let list_action = Action::new("list".into()).unwrap();
    let res = list_action.execute_action(&mut logger, &database, &mut input);
    assert_eq!(res, Ok(()));
    let logs = "Printing all ToDo items.
===============
# 1
Title: title
Description: description
Done: \u{274c}
===============\n\n";

    assert_eq!(logger.std_writer, logs.as_bytes());
}

#[test]
fn should_mark_todo_as_done() {
    let mock_logger_err: Vec<u8> = Vec::<u8>::new();
    let mock_logger_std: Vec<u8> = Vec::new();
    let mut logger = LogWrapper::new(mock_logger_err, mock_logger_std);
    let database = MockDatabase {};
    let mut input = MockInput {};
    let mut list_action = Action::new("done".into()).unwrap();
    list_action.arguments = vec!["1".into()];
    let res = list_action.execute_action(&mut logger, &database, &mut input);
    assert_eq!(res, Ok(()));
    let logs = "Editing #1 ToDo item\n";
    assert_eq!(logger.std_writer, logs.as_bytes());
}

#[test]
fn should_mark_todo_as_undone() {
    let mock_logger_err: Vec<u8> = Vec::<u8>::new();
    let mock_logger_std: Vec<u8> = Vec::new();
    let mut logger = LogWrapper::new(mock_logger_err, mock_logger_std);
    let database = MockDatabase {};
    let mut input = MockInput {};
    let mut list_action = Action::new("undone".into()).unwrap();
    list_action.arguments = vec!["1".into()];
    let res = list_action.execute_action(&mut logger, &database, &mut input);
    assert_eq!(res, Ok(()));
    let logs = "Editing #1 ToDo item\n";
    assert_eq!(logger.std_writer, logs.as_bytes());
}

#[test]
fn should_delete_todo_item_successfully() {
    let mock_logger_err: Vec<u8> = Vec::<u8>::new();
    let mock_logger_std: Vec<u8> = Vec::new();
    let mut logger = LogWrapper::new(mock_logger_err, mock_logger_std);
    let database = MockDatabase {};
    let mut input = MockInput {};
    let mut list_action = Action::new("delete".into()).unwrap();
    list_action.arguments = vec!["1".into()];
    let res = list_action.execute_action(&mut logger, &database, &mut input);
    assert_eq!(res, Ok(()));
    let logs = "Deleting #1 ToDo item\n";
    assert_eq!(logger.std_writer, logs.as_bytes());
}

#[test]
fn should_throw_error_if_negative_index_for_delete_is_given() {
    let mock_logger_err: Vec<u8> = Vec::<u8>::new();
    let mock_logger_std: Vec<u8> = Vec::new();
    let mut logger = LogWrapper::new(mock_logger_err, mock_logger_std);
    let database = MockDatabase {};
    let mut input = MockInput {};
    let mut list_action = Action::new("delete".into()).unwrap();
    list_action.arguments = vec!["-1".into()];
    let res = list_action.execute_action(&mut logger, &database, &mut input);
    assert_eq!(res, Err(TodoError::InvalidIndex));
    assert_eq!(
        TodoError::InvalidIndex.message(),
        "Given argument should be a positive number"
    );
}

#[test]
fn should_throw_error_if_non_existing_index_for_delete_is_given() {
    let mock_logger_err: Vec<u8> = Vec::<u8>::new();
    let mock_logger_std: Vec<u8> = Vec::new();
    let mut logger = LogWrapper::new(mock_logger_err, mock_logger_std);
    let database = MockDatabase {};
    let mut input = MockInput {};
    let mut list_action = Action::new("delete".into()).unwrap();
    list_action.arguments = vec!["100".into()];
    let res = list_action.execute_action(&mut logger, &database, &mut input);
    assert_eq!(res, Err(TodoError::IndexOutOfRange));
    assert_eq!(TodoError::IndexOutOfRange.message(), "Given item index is wrong");
}

#[test]
fn delete_with_index_zero_fails_before_touching_the_store() {
    let mut logger = LogWrapper::new(Vec::<u8>::new(), Vec::<u8>::new());
    let database = MockDatabase {};
    let mut input = MockInput {};
    let mut action = Action::new("delete".into()).unwrap();
    action.arguments = vec!["0".into()];
    let res = action.execute_action(&mut logger, &database, &mut input);
    assert_eq!(res, Err(TodoError::InvalidIndex));
}

#[test]
fn index_action_without_argument_fails_invalid_index() {
    let mut logger = LogWrapper::new(Vec::<u8>::new(), Vec::<u8>::new());
    let database = MockDatabase {};
    let mut input = MockInput {};
    let action = Action::new("done".into()).unwrap();
    let res = action.execute_action(&mut logger, &database, &mut input);
    assert_eq!(res, Err(TodoError::InvalidIndex));
}

struct FailingDatabase {}

impl Database for FailingDatabase {
    fn read_items(&self) -> Result<Vec<ToDo>, TodoError> {
        Err(TodoError::StorageUnavailable)
    }

    fn store_existing_items(&self, _: Vec<ToDo>) -> Result<(), TodoError> {
        Err(TodoError::StorageUnavailable)
    }

    fn store_item(&self, _: ToDo) -> Result<(), TodoError> {
        Err(TodoError::StorageUnavailable)
    }
}

#[test]
fn storage_failure_is_surfaced_by_list() {
    let mut logger = LogWrapper::new(Vec::<u8>::new(), Vec::<u8>::new());
    let database = FailingDatabase {};
    let mut input = MockInput {};
    let action = Action::new("list".into()).unwrap();
    let res = action.execute_action(&mut logger, &database, &mut input);
    assert_eq!(res, Err(TodoError::StorageUnavailable));
}

struct CapturingDatabase {
    items: Vec<(String, String, String)>,
    stored: RefCell<Option<Vec<ToDo>>>,
}

impl Database for CapturingDatabase {
    fn read_items(&self) -> Result<Vec<ToDo>, TodoError> {
        let mut out = Vec::new();
        for (t, d, s) in &self.items {
            out.push(ToDo { title: t.clone(), description: d.clone(), done: s.clone() });
        }
        Ok(out)
    }

    fn store_existing_items(&self, todos: Vec<ToDo>) -> Result<(), TodoError> {
        *self.stored.borrow_mut() = Some(todos);
        Ok(())
    }

    fn store_item(&self, _: ToDo) -> Result<(), TodoError> {
        panic!("store_item is not exercised here");
    }
}

fn three_item_database() -> CapturingDatabase {
    CapturingDatabase {
        items: vec![
            ("a".into(), "da".into(), "\u{274c}".into()),
            ("b".into(), "db".into(), "\u{274c}".into()),
            ("c".into(), "dc".into(), "\u{2705}".into()),
        ],
        stored: RefCell::new(None),
    }
}

#[test]
fn delete_removes_the_addressed_item_and_keeps_the_order() {
    let mut logger = LogWrapper::new(Vec::<u8>::new(), Vec::<u8>::new());
    let database = three_item_database();
    let mut input = MockInput {};
    let mut action = Action::new("delete".into()).unwrap();
    action.arguments = vec!["2".into()];
    let res = action.execute_action(&mut logger, &database, &mut input);
    assert_eq!(res, Ok(()));
    let stored = database.stored.borrow_mut().take().unwrap();
    assert_eq!(stored.len(), 2);
    assert_eq!(stored[0].title, "a");
    assert_eq!(stored[1].title, "c");
    assert_eq!(stored[1].done, "\u{2705}");
}

#[test]
fn done_then_undone_restores_the_record_set() {
    let mut input = MockInput {};

    let mut logger = LogWrapper::new(Vec::<u8>::new(), Vec::<u8>::new());
    let database = three_item_database();
    let mut done_action = Action::new("done".into()).unwrap();
    done_action.arguments = vec!["1".into()];
    assert_eq!(done_action.execute_action(&mut logger, &database, &mut input), Ok(()));
    let after_done = database.stored.borrow_mut().take().unwrap();
    assert_eq!(after_done[0].done, "\u{2705}");
    assert_eq!(after_done[0].title, "a");
    assert_eq!(after_done[0].description, "da");

    let followup = CapturingDatabase {
        items: after_done
            .iter()
            .map(|t| (t.title.clone(), t.description.clone(), t.done.clone()))
            .collect(),
        stored: RefCell::new(None),
    };
    let mut undone_action = Action::new("undone".into()).unwrap();
    undone_action.arguments = vec!["1".into()];
    assert_eq!(undone_action.execute_action(&mut logger, &followup, &mut input), Ok(()));
    let after_undone = followup.stored.borrow_mut().take().unwrap();
    assert_eq!(after_undone.len(), 3);
    assert_eq!(after_undone[0].title, "a");
    assert_eq!(after_undone[0].description, "da");
    assert_eq!(after_undone[0].done, "\u{274c}");
    assert_eq!(after_undone[1].title, "b");
    assert_eq!(after_undone[1].done, "\u{274c}");
    assert_eq!(after_undone[2].title, "c");
    assert_eq!(after_undone[2].done, "\u{2705}");
}

struct ScriptedInput {
    lines: Vec<String>,
}

impl InputReader for ScriptedInput {
    fn read_line(&mut self) -> String {
        self.lines.remove(0)
    }
}

#[test]
fn edit_replaces_only_fields_with_more_than_a_line_break() {
    let mut logger = LogWrapper::new(Vec::<u8>::new(), Vec::<u8>::new());
    let database = three_item_database();
    let mut input = ScriptedInput { lines: vec!["New title\n".into(), "\n".into()] };
    let mut action = Action::new("edit".into()).unwrap();
    action.arguments = vec!["2".into()];
    assert_eq!(action.execute_action(&mut logger, &database, &mut input), Ok(()));
    let stored = database.stored.borrow_mut().take().unwrap();
    assert_eq!(stored.len(), 3);
    assert_eq!(stored[1].title, "New title\n");
    assert_eq!(stored[1].description, "db");
    assert_eq!(stored[1].done, "\u{274c}");
    assert_eq!(stored[0].title, "a");
    assert_eq!(stored[2].title, "c");
}

#[test]
fn create_stores_the_prompted_record() {
    struct AppendingDatabase {
        appended: RefCell<Option<ToDo>>,
    }
    impl Database for AppendingDatabase {
        fn read_items(&self) -> Result<Vec<ToDo>, TodoError> {
            panic!("read_items is not exercised here");
        }

        fn store_existing_items(&self, _: Vec<ToDo>) -> Result<(), TodoError> {
            panic!("store_existing_items is not exercised here");
        }

        fn store_item(&self, todo: ToDo) -> Result<(), TodoError> {
            *self.appended.borrow_mut() = Some(todo);
            Ok(())
        }
    }

    let mut logger = LogWrapper::new(Vec::<u8>::new(), Vec::<u8>::new());
    let database = AppendingDatabase { appended: RefCell::new(None) };
    let mut input = ScriptedInput { lines: vec!["shopping\n".into(), "milk\n".into()] };
    let action = Action::new("create".into()).unwrap();
    assert_eq!(action.execute_action(&mut logger, &database, &mut input), Ok(()));
    let stored = database.appended.borrow_mut().take().unwrap();
    assert_eq!(stored.title, "shopping\n");
    assert_eq!(stored.description, "milk\n");
    assert_eq!(stored.done, "\u{274c}");
    assert_eq!(
        logger.std_writer,
        "Creating a ToDo item\nTitle: Description: ".as_bytes()
    );
}
