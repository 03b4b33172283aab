use vstd::prelude::*;

use crate::connection::{state_after, ConnectionState};
use crate::dispatch::{
    bad_command_reply, dispatch_spec, empty_command_reply, lookup_verb, missing_arguments_reply,
    not_found_reply, ok_reply, resolve, value_reply, verb_name, Status, Verb,
};
use crate::parser::{is_white_space, lemma_blank_has_no_words, words};

verus! {

/// The tokens of `GET k`.
pub open spec fn get_command(k: Seq<char>) -> Seq<Seq<char>> {
    seq![verb_name(Verb::Get), k]
}

/// The tokens of `SET k v`.
pub open spec fn set_command(k: Seq<char>, v: Seq<char>) -> Seq<Seq<char>> {
    seq![verb_name(Verb::Put), k, v]
}

/// The store after running the commands in order, starting from `m`.
pub open spec fn run_commands(m: Map<Seq<char>, Seq<char>>, cmds: Seq<Seq<Seq<char>>>) -> Map<
    Seq<char>,
    Seq<char>,
>
    decreases cmds.len(),
{
    if cmds.len() == 0 {
        m
    } else {
        dispatch_spec(run_commands(m, cmds.drop_last()), cmds.last()).0
    }
}

proof fn lemma_verb_names()
    ensures
        lookup_verb(verb_name(Verb::Get)) == Some(Verb::Get),
        lookup_verb(verb_name(Verb::Put)) == Some(Verb::Put),
        lookup_verb(verb_name(Verb::Quit)) == Some(Verb::Quit),
{
    reveal_strlit("GET");
    reveal_strlit("SET");
    reveal_strlit("QUIT");
    assert(verb_name(Verb::Put)[0] != verb_name(Verb::Get)[0]);
    assert(verb_name(Verb::Quit).len() != verb_name(Verb::Get).len());
    assert(verb_name(Verb::Quit).len() != verb_name(Verb::Put).len());
}

/// A SET followed by a GET of the same key answers with the value just set.
pub proof fn lemma_set_then_get(m: Map<Seq<char>, Seq<char>>, k: Seq<char>, v: Seq<char>)
    ensures
        dispatch_spec(m, set_command(k, v)) == (m.insert(k, v), Status::Success, ok_reply()),
        dispatch_spec(m.insert(k, v), get_command(k)) == (
            m.insert(k, v),
            Status::Success,
            value_reply(v),
        ),
{
    lemma_verb_names();
}

/// A GET of an absent key answers NOT_FOUND and leaves the store alone.
pub proof fn lemma_get_absent(m: Map<Seq<char>, Seq<char>>, k: Seq<char>)
    requires
        !m.contains_key(k),
    ensures
        dispatch_spec(m, get_command(k)) == (m, Status::Error, not_found_reply()),
{
    lemma_verb_names();
}

/// Of two SETs of one key, the later one is what a GET sees.
pub proof fn lemma_last_writer_wins(
    m: Map<Seq<char>, Seq<char>>,
    k: Seq<char>,
    v1: Seq<char>,
    v2: Seq<char>,
)
    ensures
        ({
            let after = run_commands(m, seq![set_command(k, v1), set_command(k, v2)]);
            dispatch_spec(after, get_command(k)) == (after, Status::Success, value_reply(v2))
        }),
{
    lemma_verb_names();
    let cmds = seq![set_command(k, v1), set_command(k, v2)];
    assert(cmds.drop_last() =~= seq![set_command(k, v1)]);
    assert(cmds.drop_last().drop_last() =~= Seq::<Seq<Seq<char>>>::empty());
}

/// Repeating one SET any positive number of times leaves the store as a
/// single SET does, so a later GET answers the same.
pub proof fn lemma_set_idempotent(m: Map<Seq<char>, Seq<char>>, k: Seq<char>, v: Seq<char>, n: nat)
    requires
        n >= 1,
    ensures
        run_commands(m, Seq::new(n, |i: int| set_command(k, v))) == m.insert(k, v),
        dispatch_spec(run_commands(m, Seq::new(n, |i: int| set_command(k, v))), get_command(k))
            == dispatch_spec(m.insert(k, v), get_command(k)),
    decreases n,
{
    lemma_verb_names();
    let cmds = Seq::new(n, |i: int| set_command(k, v));
    assert(cmds.last() == set_command(k, v));
    lemma_set_then_get(run_commands(m, cmds.drop_last()), k, v);
    if n == 1 {
        assert(cmds.drop_last() =~= Seq::<Seq<Seq<char>>>::empty());
    } else {
        lemma_set_idempotent(m, k, v, (n - 1) as nat);
        assert(cmds.drop_last() =~= Seq::new((n - 1) as nat, |i: int| set_command(k, v)));
        assert(m.insert(k, v).insert(k, v) =~= m.insert(k, v));
    }
    assert(run_commands(m, cmds) == m.insert(k, v));
}

/// SETs of pairwise distinct keys lose no update: afterwards each key answers
/// with its own value.
pub proof fn lemma_disjoint_sets(m: Map<Seq<char>, Seq<char>>, ks: Seq<Seq<char>>, vs: Seq<Seq<char>>)
    requires
        ks.len() == vs.len(),
        forall|i: int, j: int| 0 <= i < ks.len() && 0 <= j < ks.len() && i != j ==> ks[i] != ks[j],
    ensures
        ({
            let cmds = Seq::new(ks.len(), |i: int| set_command(ks[i], vs[i]));
            forall|i: int|
                0 <= i < ks.len() ==> {
                    &&& #[trigger] dispatch_spec(run_commands(m, cmds.take(i)), cmds[i]).1
                        == Status::Success
                    &&& dispatch_spec(run_commands(m, cmds), get_command(ks[i])) == (
                        run_commands(m, cmds),
                        Status::Success,
                        value_reply(vs[i]),
                    )
                }
        }),
    decreases ks.len(),
{
    lemma_verb_names();
    let cmds = Seq::new(ks.len(), |i: int| set_command(ks[i], vs[i]));
    if ks.len() > 0 {
        let n = ks.len() - 1;
        let ks0 = ks.drop_last();
        let vs0 = vs.drop_last();
        lemma_disjoint_sets(m, ks0, vs0);
        let cmds0 = Seq::new(ks0.len(), |i: int| set_command(ks0[i], vs0[i]));
        assert(cmds.drop_last() =~= cmds0);
        assert forall|i: int| 0 <= i < ks.len() implies {
            &&& #[trigger] dispatch_spec(run_commands(m, cmds.take(i)), cmds[i]).1
                == Status::Success
            &&& dispatch_spec(run_commands(m, cmds), get_command(ks[i])) == (
                run_commands(m, cmds),
                Status::Success,
                value_reply(vs[i]),
            )
        } by {
            if i < n {
                assert(cmds.take(i) =~= cmds0.take(i));
                assert(cmds[i] == cmds0[i]);
                assert(ks[i] == ks0[i]);
                assert(ks[i] != ks[n]);
            }
        }
    }
}

/// GET without a key, and SET without a value, answer MISSING_ARGUMENTS and
/// leave the store alone.
pub proof fn lemma_missing_arguments(m: Map<Seq<char>, Seq<char>>, k: Seq<char>)
    ensures
        dispatch_spec(m, seq![verb_name(Verb::Get)]) == (
            m,
            Status::Error,
            missing_arguments_reply(),
        ),
        dispatch_spec(m, seq![verb_name(Verb::Put), k]) == (
            m,
            Status::Error,
            missing_arguments_reply(),
        ),
{
    lemma_verb_names();
}

/// A first token that names no registered verb answers BAD_COMMAND, whatever
/// follows it, and leaves the store alone.
pub proof fn lemma_unknown_verb(m: Map<Seq<char>, Seq<char>>, t: Seq<Seq<char>>)
    requires
        t.len() > 0,
        t[0] != verb_name(Verb::Get),
        t[0] != verb_name(Verb::Put),
        t[0] != verb_name(Verb::Quit),
    ensures
        dispatch_spec(m, t) == (m, Status::Error, bad_command_reply()),
{
}

/// A line of whitespace alone answers EMPTY_COMMAND and leaves the store alone.
pub proof fn lemma_blank_line(m: Map<Seq<char>, Seq<char>>, line: Seq<char>)
    requires
        forall|i: int| 0 <= i < line.len() ==> is_white_space(#[trigger] line[i]),
    ensures
        dispatch_spec(m, words(line)) == (m, Status::Error, empty_command_reply()),
{
    lemma_blank_has_no_words(line);
}

/// QUIT, with or without further tokens, answers OK, closes the connection
/// and leaves the store alone.
pub proof fn lemma_quit(m: Map<Seq<char>, Seq<char>>, rest: Seq<Seq<char>>)
    ensures
        ({
            let r = dispatch_spec(m, seq![verb_name(Verb::Quit)] + rest);
            &&& r == (m, Status::Quit, ok_reply())
            &&& state_after(r.1) == ConnectionState::Closing
        }),
{
    lemma_verb_names();
    assert((seq![verb_name(Verb::Quit)] + rest)[0] == verb_name(Verb::Quit));
}

/// Every command but QUIT keeps the connection reading.
pub proof fn lemma_only_quit_closes(m: Map<Seq<char>, Seq<char>>, t: Seq<Seq<char>>)
    ensures
        state_after(dispatch_spec(m, t).1) == ConnectionState::Closing <==> resolve(t) == Ok::<
            Verb,
            Seq<char>,
        >(Verb::Quit),
{
}

} // verus!
