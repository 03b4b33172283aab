use kvstore::connection::{handle_input, next_state, ConnectionState};
use kvstore::dispatch::{
    commands, dispatch_command, execute_get, execute_quit, execute_set, resolve_command, Status,
    Verb,
};
use kvstore::parser::split_command;
use kvstore::store::Store;

fn toks(line: &str) -> Vec<String> {
    split_command(line)
}

fn run(store: &mut Store, line: &str) -> (Status, String) {
    let r = dispatch_command(store, &toks(line));
    (r.status, r.payload)
}

#[test]
fn split_on_runs_of_whitespace() {
    assert_eq!(split_command("  SET\tcolor   blue \r\n"), vec!["SET", "color", "blue"]);
    assert_eq!(split_command("GET\u{3000}k"), vec!["GET", "k"]);
}

#[test]
fn split_blank_line_is_empty() {
    assert!(split_command("").is_empty());
    assert!(split_command(" \t\r\n ").is_empty());
}

#[test]
fn registry_order_and_arity() {
    let table = commands();
    assert_eq!(table.len(), 3);
    assert_eq!((table[0].verb.as_str(), table[0].arguments, table[0].kind), ("GET", 1, Verb::Get));
    assert_eq!((table[1].verb.as_str(), table[1].arguments, table[1].kind), ("SET", 2, Verb::Put));
    assert_eq!((table[2].verb.as_str(), table[2].arguments, table[2].kind), ("QUIT", 0, Verb::Quit));
}

#[test]
fn set_then_get_returns_value() {
    let mut store = Store::new();
    assert_eq!(run(&mut store, "SET k v"), (Status::Success, "OK\n".to_string()));
    assert_eq!(run(&mut store, "GET k"), (Status::Success, "OK:v\n".to_string()));
}

#[test]
fn get_absent_is_not_found() {
    let mut store = Store::new();
    assert_eq!(run(&mut store, "GET nothing"), (Status::Error, "ERR:NOT_FOUND\n".to_string()));
    assert!(store.get(&"nothing".to_string()).is_none());
}

#[test]
fn last_writer_wins() {
    let mut store = Store::new();
    run(&mut store, "SET k v1");
    run(&mut store, "SET k v2");
    assert_eq!(run(&mut store, "GET k"), (Status::Success, "OK:v2\n".to_string()));
}

#[test]
fn repeated_set_is_idempotent() {
    let mut once = Store::new();
    run(&mut once, "SET k v");
    let mut many = Store::new();
    for _ in 0..5 {
        assert_eq!(run(&mut many, "SET k v"), (Status::Success, "OK\n".to_string()));
    }
    assert_eq!(run(&mut once, "GET k"), run(&mut many, "GET k"));
}

#[test]
fn disjoint_keys_all_retrievable() {
    let mut store = Store::new();
    for i in 0..20 {
        let line = format!("SET key{} value{}", i, i);
        assert_eq!(run(&mut store, &line).0, Status::Success);
    }
    for i in 0..20 {
        let line = format!("GET key{}", i);
        assert_eq!(run(&mut store, &line), (Status::Success, format!("OK:value{}\n", i)));
    }
}

#[test]
fn missing_arguments() {
    let mut store = Store::new();
    assert_eq!(run(&mut store, "GET"), (Status::Error, "ERR:MISSING_ARGUMENTS\n".to_string()));
    assert_eq!(run(&mut store, "SET onlykey"), (Status::Error, "ERR:MISSING_ARGUMENTS\n".to_string()));
    assert!(store.get(&"onlykey".to_string()).is_none());
}

#[test]
fn unknown_verb_is_bad_command() {
    let mut store = Store::new();
    assert_eq!(run(&mut store, "FOO"), (Status::Error, "ERR:BAD_COMMAND\n".to_string()));
    assert_eq!(run(&mut store, "get k"), (Status::Error, "ERR:BAD_COMMAND\n".to_string()));
}

#[test]
fn empty_line_is_empty_command() {
    let mut store = Store::new();
    assert_eq!(run(&mut store, ""), (Status::Error, "ERR:EMPTY_COMMAND\n".to_string()));
    assert_eq!(run(&mut store, "   \n"), (Status::Error, "ERR:EMPTY_COMMAND\n".to_string()));
}

#[test]
fn quit_closes_and_keeps_store() {
    let mut store = Store::new();
    run(&mut store, "SET a 1");
    let (resp, state) = handle_input(&mut store, "QUIT\n");
    assert_eq!(resp.status, Status::Quit);
    assert_eq!(resp.payload, "OK\n");
    assert_eq!(state, ConnectionState::Closing);
    assert_eq!(store.get(&"a".to_string()), Some("1".to_string()));
}

#[test]
fn extra_arguments_are_ignored() {
    let mut store = Store::new();
    assert_eq!(run(&mut store, "SET k v extra"), (Status::Success, "OK\n".to_string()));
    assert_eq!(run(&mut store, "GET k more"), (Status::Success, "OK:v\n".to_string()));
    assert_eq!(run(&mut store, "QUIT now").0, Status::Quit);
}

#[test]
fn example_session() {
    let mut store = Store::new();
    let steps = [
        ("SET color blue\n", "OK\n", ConnectionState::Reading),
        ("GET color\n", "OK:blue\n", ConnectionState::Reading),
        ("GET missing\n", "ERR:NOT_FOUND\n", ConnectionState::Reading),
        ("SET onlykey\n", "ERR:MISSING_ARGUMENTS\n", ConnectionState::Reading),
        ("QUIT\n", "OK\n", ConnectionState::Closing),
    ];
    for (line, reply, state) in steps {
        let (resp, next) = handle_input(&mut store, line);
        assert_eq!(resp.payload, reply);
        assert_eq!(next, state);
    }
}

#[test]
fn resolve_reports_each_error() {
    assert_eq!(resolve_command(&toks("")).unwrap_err().payload, "ERR:EMPTY_COMMAND\n");
    assert_eq!(resolve_command(&toks("NOPE")).unwrap_err().payload, "ERR:BAD_COMMAND\n");
    assert_eq!(resolve_command(&toks("SET k")).unwrap_err().payload, "ERR:MISSING_ARGUMENTS\n");
    assert_eq!(resolve_command(&toks("SET k v")).unwrap(), Verb::Put);
    assert_eq!(resolve_command(&toks("GET k")).unwrap(), Verb::Get);
    assert_eq!(resolve_command(&toks("QUIT")).unwrap(), Verb::Quit);
}

#[test]
fn handlers_directly() {
    let mut store = Store::new();
    let r = execute_set(&mut store, &toks("SET x 42"));
    assert_eq!((r.status, r.payload.as_str()), (Status::Success, "OK\n"));
    let r = execute_get(&store, &toks("GET x"));
    assert_eq!((r.status, r.payload.as_str()), (Status::Success, "OK:42\n"));
    let r = execute_get(&store, &toks("GET y"));
    assert_eq!((r.status, r.payload.as_str()), (Status::Error, "ERR:NOT_FOUND\n"));
    let r = execute_quit();
    assert_eq!((r.status, r.payload.as_str()), (Status::Quit, "OK\n"));
}

#[test]
fn only_quit_closes() {
    assert_eq!(next_state(Status::Quit), ConnectionState::Closing);
    assert_eq!(next_state(Status::Success), ConnectionState::Reading);
    assert_eq!(next_state(Status::Error), ConnectionState::Reading);
}
