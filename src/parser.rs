use vstd::prelude::*;

verus! {

/// Unicode's White_Space property.
pub open spec fn is_white_space(c: char) -> bool {
    let u = c as u32;
    (0x9 <= u && u <= 0xd) || u == 0x20 || u == 0x85 || u == 0xa0 || u == 0x1680 || (0x2000 <= u
        && u <= 0x200a) || u == 0x2028 || u == 0x2029 || u == 0x202f || u == 0x205f || u == 0x3000
}

/// The maximal runs of non-whitespace characters of `s`, in order.
pub open spec fn words(s: Seq<char>) -> Seq<Seq<char>>
    decreases s.len(),
{
    if s.len() == 0 {
        Seq::empty()
    } else {
        let init = s.drop_last();
        let c = s.last();
        let w = words(init);
        if is_white_space(c) {
            w
        } else if init.len() > 0 && !is_white_space(init.last()) && w.len() > 0 {
            w.update(w.len() - 1, w.last().push(c))
        } else {
            w.push(seq![c])
        }
    }
}

/// The text of each token.
pub open spec fn token_views(t: Seq<String>) -> Seq<Seq<char>> {
    t.map_values(|s: String| s@)
}

/// Relies on str::split_whitespace: the substrings between runs of Unicode
/// whitespace, without empty ones, in order.
#[verifier::external_body]
fn split_whitespace_owned(buf: &str) -> (r: Vec<String>)
    ensures
        token_views(r@) == words(buf@),
{
    buf.split_whitespace().map(|w| w.to_string()).collect()
}

/// Splits a command line into its whitespace-separated tokens.
pub fn split_command(buf: &str) -> (r: Vec<String>)
    ensures
        token_views(r@) == words(buf@),
{
    split_whitespace_owned(buf)
}

/// A line made of whitespace alone has no tokens.
pub proof fn lemma_blank_has_no_words(s: Seq<char>)
    requires
        forall|i: int| 0 <= i < s.len() ==> is_white_space(#[trigger] s[i]),
    ensures
        words(s).len() == 0,
    decreases s.len(),
{
    if s.len() > 0 {
        let init = s.drop_last();
        assert(is_white_space(s[s.len() - 1]));
        assert forall|i: int| 0 <= i < init.len() implies is_white_space(#[trigger] init[i]) by {
            assert(init[i] == s[i]);
        }
        lemma_blank_has_no_words(init);
    }
}

} // verus!
