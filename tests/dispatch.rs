use std::cell::RefCell;
use std::rc::Rc;

use cmd_parser::{split_tokens, CommandParser, DispatchError, DuplicateCommand};

type Handler = Box<dyn Fn(Vec<&str>)>;
type Log = Rc<RefCell<Vec<(String, Vec<String>)>>>;

fn recorder(tag: &str, log: &Log) -> Handler {
    let tag = tag.to_string();
    let log = Rc::clone(log);
    Box::new(move |args: Vec<&str>| {
        let owned = args.iter().map(|a| a.to_string()).collect();
        log.borrow_mut().push((tag.clone(), owned));
    })
}

fn strings(v: &[&str]) -> Vec<String> {
    v.iter().map(|s| s.to_string()).collect()
}

#[test]
fn second_registration_is_refused_and_first_kept() {
    let log: Log = Rc::new(RefCell::new(Vec::new()));
    let mut p: CommandParser<Handler> = CommandParser::new();
    assert_eq!(p.insert("echo", recorder("h1", &log)), Ok(()));
    assert_eq!(p.insert("echo", recorder("h2", &log)), Err(DuplicateCommand));
    assert_eq!(p.call("echo x"), Ok(()));
    assert_eq!(*log.borrow(), vec![("h1".to_string(), strings(&["echo", "x"]))]);
}

#[test]
fn whitespace_runs_give_the_same_tokens() {
    let expected = vec!["echo", "a", "b"];
    assert_eq!(split_tokens("echo   a   b"), expected);
    assert_eq!(split_tokens(" echo a b "), expected);

    let log: Log = Rc::new(RefCell::new(Vec::new()));
    let mut p: CommandParser<Handler> = CommandParser::new();
    p.insert("echo", recorder("echo", &log)).unwrap();
    assert_eq!(p.call("echo   a   b"), Ok(()));
    assert_eq!(p.call(" echo a b "), Ok(()));
    let seen = log.borrow();
    assert_eq!(seen.len(), 2);
    assert_eq!(seen[0], seen[1]);
    assert_eq!(seen[0].1, strings(&["echo", "a", "b"]));
}

#[test]
fn empty_and_blank_lines_are_missing_command() {
    let mut p: CommandParser<Handler> = CommandParser::new();
    assert_eq!(p.call(""), Err(DispatchError::MissingCommand));
    assert_eq!(p.call("   "), Err(DispatchError::MissingCommand));
    assert_eq!(p.call_args(Vec::new()), Err(DispatchError::MissingCommand));
}

#[test]
fn unknown_command_names_the_attempt() {
    let mut p: CommandParser<Handler> = CommandParser::new();
    assert_eq!(
        p.call("foo"),
        Err(DispatchError::UnknownCommand("foo".to_string()))
    );
}

#[test]
fn handler_sees_exactly_the_tokens() {
    let log: Log = Rc::new(RefCell::new(Vec::new()));
    let mut p: CommandParser<Handler> = CommandParser::new();
    p.insert("echo", recorder("echo", &log)).unwrap();
    assert_eq!(p.call_args(vec!["echo", "hello", "world"]), Ok(()));
    assert_eq!(
        *log.borrow(),
        vec![("echo".to_string(), strings(&["echo", "hello", "world"]))]
    );
}

#[test]
fn each_name_reaches_only_its_handler() {
    let log: Log = Rc::new(RefCell::new(Vec::new()));
    let mut p: CommandParser<Handler> = CommandParser::new();
    p.insert("a", recorder("A", &log)).unwrap();
    p.insert("b", recorder("B", &log)).unwrap();
    assert_eq!(p.call("a 1"), Ok(()));
    assert_eq!(*log.borrow(), vec![("A".to_string(), strings(&["a", "1"]))]);
    assert_eq!(p.call("b 2"), Ok(()));
    assert_eq!(
        *log.borrow(),
        vec![
            ("A".to_string(), strings(&["a", "1"])),
            ("B".to_string(), strings(&["b", "2"])),
        ]
    );
}

#[test]
fn names_match_case_sensitively() {
    let log: Log = Rc::new(RefCell::new(Vec::new()));
    let mut p: CommandParser<Handler> = CommandParser::new();
    p.insert("echo", recorder("echo", &log)).unwrap();
    assert_eq!(
        p.call("Echo hi"),
        Err(DispatchError::UnknownCommand("Echo".to_string()))
    );
    assert!(log.borrow().is_empty());
}

#[test]
fn unknown_command_does_not_disturb_registry() {
    let log: Log = Rc::new(RefCell::new(Vec::new()));
    let mut p: CommandParser<Handler> = CommandParser::new();
    p.insert("echo", recorder("echo", &log)).unwrap();
    assert!(p.call("nope").is_err());
    assert_eq!(p.call("echo ok"), Ok(()));
    assert_eq!(log.borrow().len(), 1);
}

#[test]
fn line_with_newline_and_tabs_dispatches() {
    let log: Log = Rc::new(RefCell::new(Vec::new()));
    let mut p: CommandParser<Handler> = CommandParser::new();
    p.insert("print", recorder("print", &log)).unwrap();
    assert_eq!(p.call("\tprint\tx  y\r\n"), Ok(()));
    assert_eq!(log.borrow()[0].1, strings(&["print", "x", "y"]));
}

#[test]
fn unicode_whitespace_separates_tokens() {
    assert_eq!(split_tokens("a\u{3000}b\u{2003}c\u{85}d\u{a0}e"), vec!["a", "b", "c", "d", "e"]);
    assert_eq!(split_tokens("héllo wörld"), vec!["héllo", "wörld"]);
    assert_eq!(split_tokens("a\u{200b}b"), vec!["a\u{200b}b"]);
}

#[test]
fn no_tokens_in_blank_text() {
    assert!(split_tokens("").is_empty());
    assert!(split_tokens(" \t\n ").is_empty());
    assert_eq!(split_tokens("single"), vec!["single"]);
}

#[test]
fn name_with_whitespace_is_unreachable_by_line() {
    let log: Log = Rc::new(RefCell::new(Vec::new()));
    let mut p: CommandParser<Handler> = CommandParser::new();
    assert_eq!(p.insert("two words", recorder("tw", &log)), Ok(()));
    assert_eq!(
        p.call("two words"),
        Err(DispatchError::UnknownCommand("two".to_string()))
    );
    assert_eq!(p.call_args(vec!["two words"]), Ok(()));
    assert_eq!(log.borrow().len(), 1);
}
