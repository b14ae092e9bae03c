//! Identifier casing: turning a snake_case kernel name into the CamelCase
//! name of the generated launcher trait. Case mapping of a single character
//! is Unicode's and comes from the standard library; its results are named,
//! not restated.

use vstd::prelude::*;
use vstd::string::{StrSliceExecFns, StringExecFns};

verus! {

/// What `char::to_uppercase` yields for one character: a function of the
/// character alone.
pub uninterp spec fn upper_of(c: char) -> Seq<char>;

/// What `char::to_lowercase` yields for one character: a function of the
/// character alone.
pub uninterp spec fn lower_of(c: char) -> Seq<char>;

/// Relies on `char::to_uppercase`: the uppercase mapping of the character,
/// depending on the character alone.
#[verifier::external_body]
fn char_upper(c: char) -> (r: String)
    ensures
        r@ == upper_of(c),
{
    c.to_uppercase().collect()
}

/// Relies on `char::to_lowercase`: the lowercase mapping of the character,
/// depending on the character alone.
#[verifier::external_body]
fn char_lower(c: char) -> (r: String)
    ensures
        r@ == lower_of(c),
{
    c.to_lowercase().collect()
}

/// The lowercase mapping of every character in turn.
pub open spec fn lower_all(s: Seq<char>) -> Seq<char>
    decreases s.len(),
{
    if s.len() == 0 {
        Seq::empty()
    } else {
        lower_of(s[0]) + lower_all(s.drop_first())
    }
}

/// One word in CamelCase: its first character uppercased, the rest
/// lowercased.
pub open spec fn camel_word_spec(s: Seq<char>) -> Seq<char> {
    if s.len() == 0 {
        Seq::empty()
    } else {
        upper_of(s[0]) + lower_all(s.drop_first())
    }
}

/// A snake_case name in CamelCase: underscores dropped, the first character
/// of each underscore-separated word uppercased, every other character
/// lowercased. `at_start` says whether the next character begins a word.
pub open spec fn camelize(s: Seq<char>, at_start: bool) -> Seq<char>
    decreases s.len(),
{
    if s.len() == 0 {
        Seq::empty()
    } else if s[0] == '_' {
        camelize(s.drop_first(), true)
    } else if at_start {
        upper_of(s[0]) + camelize(s.drop_first(), false)
    } else {
        lower_of(s[0]) + camelize(s.drop_first(), false)
    }
}

/// Uppercase the first character of `s` and lowercase the rest.
pub fn camel_word(s: &str) -> (r: String)
    ensures
        r@ == camel_word_spec(s@),
{
    let n = s.unicode_len();
    if n == 0 {
        return String::new();
    }
    let mut out = char_upper(s.get_char(0));
    let mut i: usize = 1;
    while i < n
        invariant
            1 <= i <= n,
            n == s@.len(),
            out@ + lower_all(s@.skip(i as int)) == camel_word_spec(s@),
        decreases n - i,
    {
        let low = char_lower(s.get_char(i));
        out.append(low.as_str());
        proof {
            assert(s@.skip(i as int).drop_first() =~= s@.skip(i + 1));
            assert(out@ + lower_all(s@.skip(i + 1)) =~= camel_word_spec(s@));
        }
        i = i + 1;
    }
    proof {
        assert(s@.skip(n as int) =~= Seq::<char>::empty());
        assert(out@ =~= camel_word_spec(s@));
    }
    out
}

/// Convert a snake_case name to CamelCase: each underscore-separated word
/// gets its first character uppercased and the rest lowercased, and the
/// underscores are dropped.
pub fn snake_to_camel(s: &str) -> (r: String)
    ensures
        r@ == camelize(s@, true),
{
    let n = s.unicode_len();
    let mut out = String::new();
    let mut at_start = true;
    let mut i: usize = 0;
    proof {
        assert(s@.skip(0) =~= s@);
        assert(out@ + camelize(s@, true) =~= camelize(s@, true));
    }
    while i < n
        invariant
            0 <= i <= n,
            n == s@.len(),
            out@ + camelize(s@.skip(i as int), at_start) == camelize(s@, true),
        decreases n - i,
    {
        let c = s.get_char(i);
        proof {
            assert(s@.skip(i as int).drop_first() =~= s@.skip(i + 1));
        }
        if c == '_' {
            at_start = true;
        } else if at_start {
            let up = char_upper(c);
            out.append(up.as_str());
            at_start = false;
            proof {
                assert(out@ + camelize(s@.skip(i + 1), false) =~= camelize(s@, true));
            }
        } else {
            let low = char_lower(c);
            out.append(low.as_str());
            proof {
                assert(out@ + camelize(s@.skip(i + 1), false) =~= camelize(s@, true));
            }
        }
        i = i + 1;
    }
    proof {
        assert(s@.skip(n as int) =~= Seq::<char>::empty());
        assert(out@ =~= camelize(s@, true));
    }
    out
}

} // verus!
