//! The token as the gateway wants it: without the scheme word that the
//! REST interface puts in front.

use crate::text::chars_of;
use crate::text::lemma_trimmed_len;
use crate::text::string_of;
use crate::text::trim_bounds;
use crate::text::trimmed;
use vstd::prelude::*;

verus! {

/// Whether `t` starts with the scheme word of REST tokens and a space.
pub open spec fn has_bot_prefix(t: Seq<char>) -> bool {
    t.len() >= 4 && t[0] == 'B' && t[1] == 'o' && t[2] == 't' && t[3] == ' '
}

/// `t` without any leading scheme words, and without the white space that
/// follows each.
pub open spec fn strip_bot_prefix(t: Seq<char>) -> Seq<char>
    decreases t.len(),
{
    if has_bot_prefix(t) {
        proof {
            lemma_trimmed_len(t.subrange(4, t.len() as int));
        }
        strip_bot_prefix(trimmed(t.subrange(4, t.len() as int)))
    } else {
        t
    }
}

/// The token as the gateway wants it: trimmed, and with no scheme word in
/// front.
pub open spec fn gateway_token_spec(token: Seq<char>) -> Seq<char> {
    strip_bot_prefix(trimmed(token))
}

/// What `strip_bot_prefix` returns does not start with the scheme word.
pub proof fn lemma_stripped_has_no_prefix(t: Seq<char>)
    ensures
        !has_bot_prefix(strip_bot_prefix(t)),
    decreases t.len(),
{
    if has_bot_prefix(t) {
        lemma_trimmed_len(t.subrange(4, t.len() as int));
        lemma_stripped_has_no_prefix(trimmed(t.subrange(4, t.len() as int)));
    }
}

fn starts_with_bot(v: &Vec<char>, lo: usize, hi: usize) -> (r: bool)
    requires
        lo <= hi <= v.len(),
    ensures
        r == has_bot_prefix(v@.subrange(lo as int, hi as int)),
{
    hi - lo >= 4 && v[lo] == 'B' && v[lo + 1] == 'o' && v[lo + 2] == 't' && v[lo + 3] == ' '
}

/// The gateway form of a token: see `gateway_token_spec`.
pub fn gateway_token_of(token: &str) -> (t: String)
    ensures
        t@ == gateway_token_spec(token@),
        !has_bot_prefix(t@),
{
    let v = chars_of(token);
    assert(v@.subrange(0, v.len() as int) =~= token@);
    let first = trim_bounds(&v, 0, v.len());
    let mut lo = first.0;
    let mut hi = first.1;
    while starts_with_bot(&v, lo, hi)
        invariant
            lo <= hi <= v.len(),
            strip_bot_prefix(v@.subrange(lo as int, hi as int)) == gateway_token_spec(token@),
        decreases hi - lo,
    {
        let ghost cur = v@.subrange(lo as int, hi as int);
        assert(cur.subrange(4, cur.len() as int) =~= v@.subrange(lo + 4, hi as int));
        let next = trim_bounds(&v, lo + 4, hi);
        lo = next.0;
        hi = next.1;
    }
    proof {
        lemma_stripped_has_no_prefix(trimmed(token@));
    }
    string_of(&v, lo, hi)
}

} // verus!
