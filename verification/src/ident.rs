//! The grammar of the names that aliases, environment variables and commands may carry.

use crate::text::chars_of;
use vstd::prelude::*;

verus! {

/// Whether `c` may open a name: an ASCII letter or an underscore.
pub open spec fn is_name_start(c: char) -> bool {
    ('a' <= c && c <= 'z') || ('A' <= c && c <= 'Z') || c == '_'
}

/// Whether `c` may follow the first character of a name: an ASCII letter, an ASCII
/// digit, an underscore or a hyphen.
pub open spec fn is_name_part(c: char) -> bool {
    is_name_start(c) || ('0' <= c && c <= '9') || c == '-'
}

/// The grammar `[A-Za-z_][A-Za-z0-9_-]*`, anchored at both ends.
pub open spec fn matches_name_grammar(s: Seq<char>) -> bool {
    &&& s.len() > 0
    &&& is_name_start(s[0])
    &&& forall|i: int| 1 <= i < s.len() ==> is_name_part(#[trigger] s[i])
}

/// A name is acceptable when it is not empty, holds no `=` and matches the grammar.
pub open spec fn is_valid_name(s: Seq<char>) -> bool {
    &&& s.len() > 0
    &&& !s.contains('=')
    &&& matches_name_grammar(s)
}

/// Whether `c` may open a name.
pub fn name_start(c: char) -> (r: bool)
    ensures
        r == is_name_start(c),
{
    ('a' <= c && c <= 'z') || ('A' <= c && c <= 'Z') || c == '_'
}

/// Whether `c` may follow the first character of a name.
pub fn name_part(c: char) -> (r: bool)
    ensures
        r == is_name_part(c),
{
    name_start(c) || ('0' <= c && c <= '9') || c == '-'
}

/// Decides whether `name` may name an alias, an environment variable or a command.
pub fn valid_name(name: &str) -> (r: bool)
    ensures
        r == is_valid_name(name@),
{
    let chars = chars_of(name);
    if chars.len() == 0 {
        return false;
    }
    if !name_start(chars[0]) {
        return false;
    }
    let mut i: usize = 1;
    while i < chars.len()
        invariant
            1 <= i <= chars.len(),
            chars@ == name@,
            is_name_start(chars@[0]),
            forall|k: int| 1 <= k < i ==> is_name_part(#[trigger] chars@[k]),
        decreases chars.len() - i,
    {
        if !name_part(chars[i]) {
            return false;
        }
        i += 1;
    }
    proof {
        lemma_grammar_excludes_equals(name@);
    }
    true
}

/// The grammar admits no `=`, so a name that matches it holds none.
pub proof fn lemma_grammar_excludes_equals(s: Seq<char>)
    requires
        matches_name_grammar(s),
    ensures
        !s.contains('='),
{
    if s.contains('=') {
        let i = choose|i: int| 0 <= i < s.len() && s[i] == '=';
        assert(!is_name_part('='));
        assert(!is_name_start('='));
        if i == 0 {
        } else {
            assert(is_name_part(s[i]));
        }
    }
}

} // verus!
