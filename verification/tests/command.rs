use tasklist::command::{parse_field, plan, recognise, Action, Command, Field};
use tasklist::error::Error;

fn command_args(list: &[&str]) -> Vec<String> {
    list.iter().map(|word| word.to_string()).collect()
}

#[test]
fn recognise_knows_every_command_word() {
    assert_eq!(recognise("add"), Action::Add);
    assert_eq!(recognise("a"), Action::Add);
    assert_eq!(recognise("change"), Action::Change);
    assert_eq!(recognise("ch"), Action::Change);
    assert_eq!(recognise("c"), Action::Change);
    assert_eq!(recognise("list"), Action::List);
    assert_eq!(recognise("l"), Action::List);
    assert_eq!(recognise("remove"), Action::Remove);
    assert_eq!(recognise("rm"), Action::Remove);
    assert_eq!(recognise("r"), Action::Remove);
    assert_eq!(recognise("file"), Action::File);
}

#[test]
fn recognise_takes_other_words_as_unknown() {
    assert_eq!(recognise(""), Action::Unknown);
    assert_eq!(recognise("f"), Action::Unknown);
    assert_eq!(recognise("ad"), Action::Unknown);
    assert_eq!(recognise("adds"), Action::Unknown);
    assert_eq!(recognise(" add"), Action::Unknown);
    assert_eq!(recognise("delete"), Action::Unknown);
    assert_eq!(recognise("Add"), Action::Unknown);
    assert_eq!(recognise("LIST"), Action::Unknown);
}

#[test]
fn parse_field_knows_every_field_word() {
    assert_eq!(parse_field("name"), Some(Field::Name));
    assert_eq!(parse_field("n"), Some(Field::Name));
    assert_eq!(parse_field("description"), Some(Field::Description));
    assert_eq!(parse_field("desc"), Some(Field::Description));
    assert_eq!(parse_field("d"), Some(Field::Description));
}

#[test]
fn parse_field_refuses_other_words() {
    assert_eq!(parse_field(""), None);
    assert_eq!(parse_field("Name"), None);
    assert_eq!(parse_field("NAME"), None);
    assert_eq!(parse_field("de"), None);
    assert_eq!(parse_field("date"), None);
    assert_eq!(parse_field("time_created"), None);
}

#[test]
fn plan_add_joins_the_description() {
    let command = plan(0, &command_args(&["prog", "add", "Buy milk", "from", "the", "corner", "store"]), Action::Add);
    assert_eq!(
        command,
        Ok(Command::Add {
            name: "Buy milk".to_string(),
            description: "from the corner store".to_string(),
        })
    );
}

#[test]
fn plan_add_without_description_leaves_it_empty() {
    assert_eq!(
        plan(5, &command_args(&["prog", "a", "name"]), Action::Add),
        Ok(Command::Add { name: "name".to_string(), description: String::new() })
    );
}

#[test]
fn plan_add_without_name_fails() {
    assert_eq!(plan(0, &command_args(&["prog", "add"]), Action::Add), Err(Error::MissingName));
}

#[test]
fn plan_change_reads_index_field_and_text() {
    assert_eq!(
        plan(3, &command_args(&["prog", "change", "2", "name", "Buy", "bread"]), Action::Change),
        Ok(Command::Change { index: 2, field: Field::Name, text: "Buy bread".to_string() })
    );
    assert_eq!(
        plan(3, &command_args(&["prog", "c", "0", "desc", "x"]), Action::Change),
        Ok(Command::Change { index: 0, field: Field::Description, text: "x".to_string() })
    );
    assert_eq!(
        plan(1, &command_args(&["prog", "ch", "+0", "d"]), Action::Change),
        Ok(Command::Change { index: 0, field: Field::Description, text: String::new() })
    );
}

#[test]
fn plan_change_fails_on_what_is_missing_or_wrong() {
    assert_eq!(plan(3, &command_args(&["prog", "change"]), Action::Change), Err(Error::MissingIndex));
    assert_eq!(plan(3, &command_args(&["prog", "change", "two"]), Action::Change), Err(Error::InvalidIndex));
    assert_eq!(plan(3, &command_args(&["prog", "change", "3", "name", "x"]), Action::Change), Err(Error::IndexOutOfRange));
    assert_eq!(plan(3, &command_args(&["prog", "change", "2"]), Action::Change), Err(Error::MissingField));
    assert_eq!(plan(3, &command_args(&["prog", "change", "2", "date", "x"]), Action::Change), Err(Error::UnknownField));
    assert_eq!(plan(3, &command_args(&["prog", "change", "2", "Name", "x"]), Action::Change), Err(Error::UnknownField));
}

#[test]
fn plan_change_looks_at_the_index_before_the_field() {
    assert_eq!(plan(3, &command_args(&["prog", "change", "two", "date"]), Action::Change), Err(Error::InvalidIndex));
    assert_eq!(plan(3, &command_args(&["prog", "change", "9", "date"]), Action::Change), Err(Error::IndexOutOfRange));
    assert_eq!(plan(3, &command_args(&["prog", "change", "9"]), Action::Change), Err(Error::IndexOutOfRange));
    assert_eq!(plan(0, &command_args(&["prog", "change", "0", "name", "x"]), Action::Change), Err(Error::IndexOutOfRange));
}

#[test]
fn plan_remove_reads_the_index() {
    assert_eq!(plan(3, &command_args(&["prog", "remove", "1"]), Action::Remove), Ok(Command::Remove { index: 1 }));
    assert_eq!(plan(3, &command_args(&["prog", "rm", "2", "and", "more"]), Action::Remove), Ok(Command::Remove { index: 2 }));
}

#[test]
fn plan_remove_fails_on_what_is_missing_or_wrong() {
    assert_eq!(plan(3, &command_args(&["prog", "remove"]), Action::Remove), Err(Error::MissingIndex));
    assert_eq!(plan(3, &command_args(&["prog", "remove", "-1"]), Action::Remove), Err(Error::InvalidIndex));
    assert_eq!(plan(3, &command_args(&["prog", "remove", "3"]), Action::Remove), Err(Error::IndexOutOfRange));
    assert_eq!(plan(3, &command_args(&["prog", "remove", "4294967296"]), Action::Remove), Err(Error::InvalidIndex));
    assert_eq!(plan(0, &command_args(&["prog", "remove", "0"]), Action::Remove), Err(Error::IndexOutOfRange));
}

#[test]
fn plan_of_commands_without_arguments_ignores_the_rest() {
    assert_eq!(plan(0, &command_args(&["prog", "list"]), Action::List), Ok(Command::List));
    assert_eq!(plan(0, &command_args(&["prog", "list", "all"]), Action::List), Ok(Command::List));
    assert_eq!(plan(0, &command_args(&["prog", "file"]), Action::File), Ok(Command::File));
    assert_eq!(plan(0, &command_args(&["prog", "nonsense", "1"]), Action::Unknown), Ok(Command::Unknown));
    assert_eq!(plan(0, &command_args(&[]), Action::List), Ok(Command::List));
}

#[test]
fn plan_goes_by_the_action_not_by_the_word() {
    assert_eq!(plan(3, &command_args(&["prog", "list", "1"]), Action::Remove), Ok(Command::Remove { index: 1 }));
}
