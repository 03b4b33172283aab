use vstd::prelude::*;
use vstd::string::StringExecFns;

use crate::parser::token_views;
use crate::store::Store;

verus! {

/// Outcome class of a command; it decides whether a connection keeps running.
#[derive(PartialEq, Eq, Structural, Clone, Copy, Debug)]
pub enum Status {
    Error,
    Success,
    Quit,
}

/// The operations that the registry knows.
#[derive(PartialEq, Eq, Structural, Clone, Copy, Debug)]
pub enum Verb {
    Get,
    Put,
    Quit,
}

/// What a handler hands back: its status and the line sent to the client.
#[derive(Debug)]
pub struct Response {
    pub status: Status,
    pub payload: String,
}

/// A registry entry: the verb's spelling, its minimum argument count, and the
/// operation it selects.
#[derive(Debug)]
pub struct Command {
    pub verb: String,
    pub arguments: usize,
    pub kind: Verb,
}

/// How a verb is spelled on the wire.
pub open spec fn verb_name(v: Verb) -> Seq<char> {
    match v {
        Verb::Get => "GET"@,
        Verb::Put => "SET"@,
        Verb::Quit => "QUIT"@,
    }
}

/// Number of tokens a verb needs after itself.
pub open spec fn arity(v: Verb) -> nat {
    match v {
        Verb::Get => 1,
        Verb::Put => 2,
        Verb::Quit => 0,
    }
}

/// Registry lookup: exact, case-sensitive match on the spelling.
pub open spec fn lookup_verb(w: Seq<char>) -> Option<Verb> {
    if w == verb_name(Verb::Get) {
        Some(Verb::Get)
    } else if w == verb_name(Verb::Put) {
        Some(Verb::Put)
    } else if w == verb_name(Verb::Quit) {
        Some(Verb::Quit)
    } else {
        None
    }
}

/// Reply lines of the protocol.
pub open spec fn empty_command_reply() -> Seq<char> {
    "ERR:EMPTY_COMMAND\n"@
}

pub open spec fn bad_command_reply() -> Seq<char> {
    "ERR:BAD_COMMAND\n"@
}

pub open spec fn missing_arguments_reply() -> Seq<char> {
    "ERR:MISSING_ARGUMENTS\n"@
}

pub open spec fn not_found_reply() -> Seq<char> {
    "ERR:NOT_FOUND\n"@
}

pub open spec fn ok_reply() -> Seq<char> {
    "OK\n"@
}

/// The reply to a GET that found `v`.
pub open spec fn value_reply(v: Seq<char>) -> Seq<char> {
    "OK:"@ + v + "\n"@
}

/// The operation a token sequence selects, or the error line when it selects none.
pub open spec fn resolve(t: Seq<Seq<char>>) -> Result<Verb, Seq<char>> {
    if t.len() == 0 {
        Err(empty_command_reply())
    } else {
        match lookup_verb(t[0]) {
            None => Err(bad_command_reply()),
            Some(v) => if t.len() - 1 < arity(v) {
                Err(missing_arguments_reply())
            } else {
                Ok(v)
            },
        }
    }
}

/// Store after the command, status, and reply line.
pub open spec fn dispatch_spec(m: Map<Seq<char>, Seq<char>>, t: Seq<Seq<char>>) -> (
    Map<Seq<char>, Seq<char>>,
    Status,
    Seq<char>,
) {
    match resolve(t) {
        Err(reply) => (m, Status::Error, reply),
        Ok(Verb::Get) => if m.contains_key(t[1]) {
            (m, Status::Success, value_reply(m[t[1]]))
        } else {
            (m, Status::Error, not_found_reply())
        },
        Ok(Verb::Put) => (m.insert(t[1], t[2]), Status::Success, ok_reply()),
        Ok(Verb::Quit) => (m, Status::Quit, ok_reply()),
    }
}

/// The registry, in lookup order.
pub fn commands() -> (r: Vec<Command>)
    ensures
        r@.len() == 3,
        r@[0].kind == Verb::Get,
        r@[1].kind == Verb::Put,
        r@[2].kind == Verb::Quit,
        r@[0].verb@ == verb_name(Verb::Get) && r@[0].arguments == arity(Verb::Get),
        r@[1].verb@ == verb_name(Verb::Put) && r@[1].arguments == arity(Verb::Put),
        r@[2].verb@ == verb_name(Verb::Quit) && r@[2].arguments == arity(Verb::Quit),
{
    vec![
        Command { verb: String::from_str("GET"), arguments: 1, kind: Verb::Get },
        Command { verb: String::from_str("SET"), arguments: 2, kind: Verb::Put },
        Command { verb: String::from_str("QUIT"), arguments: 0, kind: Verb::Quit },
    ]
}

fn error_response(payload: &str) -> (r: Response)
    ensures
        r.status == Status::Error,
        r.payload@ == payload@,
{
    Response { status: Status::Error, payload: String::from_str(payload) }
}

/// Finds the registry entry for the first token and checks its arity.
pub fn resolve_command(tokens: &Vec<String>) -> (r: Result<Verb, Response>)
    ensures
        match r {
            Ok(v) => resolve(token_views(tokens@)) == Ok::<Verb, Seq<char>>(v),
            Err(resp) => resp.status == Status::Error && resolve(token_views(tokens@)) == Err::<
                Verb,
                Seq<char>,
            >(resp.payload@),
        },
{
    let ghost t = token_views(tokens@);
    if tokens.len() == 0 {
        return Err(error_response("ERR:EMPTY_COMMAND\n"));
    }
    assert(t[0] == tokens@[0]@);
    let table = commands();
    let mut i: usize = 0;
    while i < table.len()
        invariant
            table@.len() == 3,
            table@[0].kind == Verb::Get,
            table@[1].kind == Verb::Put,
            table@[2].kind == Verb::Quit,
            table@[0].verb@ == verb_name(Verb::Get) && table@[0].arguments == arity(Verb::Get),
            table@[1].verb@ == verb_name(Verb::Put) && table@[1].arguments == arity(Verb::Put),
            table@[2].verb@ == verb_name(Verb::Quit) && table@[2].arguments == arity(Verb::Quit),
            i <= 3,
            tokens@.len() > 0,
            t == token_views(tokens@),
            t[0] == tokens@[0]@,
            forall|j: int| 0 <= j < i ==> #[trigger] table@[j].verb@ != t[0],
        decreases 3 - i,
    {
        if tokens[0] == table[i].verb {
            assert(table@[i as int].verb@ == t[0]);
            assert(lookup_verb(t[0]) == Some(table@[i as int].kind)) by {
                reveal_strlit("GET");
                reveal_strlit("SET");
                reveal_strlit("QUIT");
            }
            if tokens.len() - 1 < table[i].arguments {
                return Err(error_response("ERR:MISSING_ARGUMENTS\n"));
            }
            return Ok(table[i].kind);
        }
        i = i + 1;
    }
    assert(lookup_verb(t[0]) == None::<Verb>);
    Err(error_response("ERR:BAD_COMMAND\n"))
}


/// GET: looks up the key in the second token.
pub fn execute_get(store: &Store, tokens: &Vec<String>) -> (r: Response)
    requires
        store.wf(),
        tokens@.len() >= 2,
    ensures
        store@.contains_key(tokens@[1]@) ==> r.status == Status::Success && r.payload@
            == value_reply(store@[tokens@[1]@]),
        !store@.contains_key(tokens@[1]@) ==> r.status == Status::Error && r.payload@
            == not_found_reply(),
{
    match store.get(&tokens[1]) {
        Some(value) => {
            let mut payload = String::from_str("OK:");
            payload.append(value.as_str());
            payload.append("\n");
            Response { status: Status::Success, payload }
        },
        None => error_response("ERR:NOT_FOUND\n"),
    }
}

/// SET: stores the third token under the second, replacing any earlier value.
pub fn execute_set(store: &mut Store, tokens: &Vec<String>) -> (r: Response)
    requires
        old(store).wf(),
        tokens@.len() >= 3,
    ensures
        final(store).wf(),
        final(store)@ == old(store)@.insert(tokens@[1]@, tokens@[2]@),
        r.status == Status::Success,
        r.payload@ == ok_reply(),
{
    store.set(&tokens[1], &tokens[2]);
    Response { status: Status::Success, payload: String::from_str("OK\n") }
}

/// QUIT: asks the connection to close.
pub fn execute_quit() -> (r: Response)
    ensures
        r.status == Status::Quit,
        r.payload@ == ok_reply(),
{
    Response { status: Status::Quit, payload: String::from_str("OK\n") }
}

/// Runs one command line, already split into tokens, against the store.
pub fn dispatch_command(store: &mut Store, tokens: &Vec<String>) -> (r: Response)
    requires
        old(store).wf(),
    ensures
        final(store).wf(),
        (final(store)@, r.status, r.payload@) == dispatch_spec(old(store)@, token_views(tokens@)),
{
    let ghost t = token_views(tokens@);
    match resolve_command(tokens) {
        Err(resp) => resp,
        Ok(Verb::Get) => {
            assert(t[1] == tokens@[1]@);
            execute_get(store, tokens)
        },
        Ok(Verb::Put) => {
            assert(t[1] == tokens@[1]@);
            assert(t[2] == tokens@[2]@);
            execute_set(store, tokens)
        },
        Ok(Verb::Quit) => execute_quit(),
    }
}

} // verus!
