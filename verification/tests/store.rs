use terminal_todo::action::database::{decode_content, encode_items, Database};
use terminal_todo::action::Action;
use terminal_todo::error::TodoError;
use terminal_todo::input::InputReader;
use terminal_todo::log_wrapper::LogWrapper;
use terminal_todo::todo::ToDo;

#[test]
fn encoding_then_decoding_returns_the_records_in_order() {
    let todos = vec![
        ToDo::new("one".into(), "first".into()),
        ToDo::new("two".into(), "second".into()),
        ToDo::new("three".into(), "third".into()),
    ];
    let content = encode_items(&todos);
    let back = decode_content(&content).unwrap();
    assert_eq!(back, todos);
}

#[test]
fn decoding_an_empty_store_yields_no_items() {
    assert_eq!(decode_content(""), Ok(vec![]));
}

#[test]
fn decoding_skips_empty_lines() {
    let back = decode_content("a,b,c\n\nx,y,z\n").unwrap();
    assert_eq!(back.len(), 2);
    assert_eq!(back[0].title, "a");
    assert_eq!(back[1].title, "x");
}

#[test]
fn a_two_field_line_corrupts_the_whole_read() {
    let r = decode_content("a,b");
    assert_eq!(r, Err(TodoError::CorruptRecord));
}

#[test]
fn a_later_corrupt_line_fails_the_read() {
    let r = decode_content("a,b,c\nbroken\n");
    assert_eq!(r, Err(TodoError::CorruptRecord));
}

struct FileBackedOnce {
    content: String,
}

impl Database for FileBackedOnce {
    fn read_items(&self) -> Result<Vec<ToDo>, TodoError> {
        decode_content(&self.content)
    }

    fn store_existing_items(&self, _: Vec<ToDo>) -> Result<(), TodoError> {
        Ok(())
    }

    fn store_item(&self, _: ToDo) -> Result<(), TodoError> {
        Ok(())
    }
}

struct NoInput {}

impl InputReader for NoInput {
    fn read_line(&mut self) -> String {
        String::new()
    }
}

#[test]
fn listing_a_single_stored_line_reports_ordinal_one_with_its_fields() {
    let database = FileBackedOnce { content: "title,description,\u{2705}".into() };
    let mut logger = LogWrapper::new(Vec::<u8>::new(), Vec::<u8>::new());
    let mut input = NoInput {};
    let action = Action::new("list".into()).unwrap();
    assert_eq!(action.execute_action(&mut logger, &database, &mut input), Ok(()));
    let logs = "Printing all ToDo items.
===============
# 1
Title: title
Description: description
Done: \u{2705}
===============\n\n";
    assert_eq!(logger.std_writer, logs.as_bytes());
}

#[test]
fn a_corrupt_store_returns_no_items_to_the_listing() {
    let database = FileBackedOnce { content: "a,b".into() };
    let mut logger = LogWrapper::new(Vec::<u8>::new(), Vec::<u8>::new());
    let mut input = NoInput {};
    let action = Action::new("list".into()).unwrap();
    let res = action.execute_action(&mut logger, &database, &mut input);
    assert_eq!(res, Err(TodoError::CorruptRecord));
}

#[test]
fn sequential_appends_read_back_in_creation_order() {
    let mut content = String::new();
    let names = ["n1", "n2", "n3", "n4", "n5"];
    for name in &names {
        let todo = ToDo::new((*name).into(), format!("about {}", name));
        content.push_str(&todo.serialise());
    }
    let back = decode_content(&content).unwrap();
    assert_eq!(back.len(), 5);
    for (i, name) in names.iter().enumerate() {
        assert_eq!(back[i].title, *name);
        assert_eq!(back[i].description, format!("about {}", name));
        assert_eq!(back[i].done, "\u{274c}");
    }
}
