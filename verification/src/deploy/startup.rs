//! The managed block: the region of the shell startup file that belongs to the deployer.
//!
//! The block starts with the line [`BEGIN_TAG`], ends with the line [`END_TAG`], and holds
//! one line between them, which sources the generated profile. Installing takes an old
//! block out and appends a new one; uninstalling takes the block out.

use crate::deploy::deployer::Deployer;
use crate::text::{chars_of, chain, find, find_from, lemma_find_from, occurs_at, push_range};
use vstd::prelude::*;
use vstd::string::StringExecFns;

verus! {

/// The line that opens the managed block.
pub const BEGIN_TAG: &'static str = "# Config Start";

/// The line that closes the managed block.
pub const END_TAG: &'static str = "# Config End";

/// The opening line with its line break.
pub open spec fn begin_marker() -> Seq<char> {
    BEGIN_TAG@ + seq!['\n']
}

/// The closing line with its line break.
pub open spec fn end_marker() -> Seq<char> {
    END_TAG@ + seq!['\n']
}

/// Where the managed block of `text` starts and ends: from the first opening marker to the
/// end of the first closing marker that follows it. `None` where either is missing.
pub open spec fn block_span(text: Seq<char>) -> Option<(int, int)> {
    match find_from(text, begin_marker(), 0) {
        Some(start) => match find_from(text, end_marker(), start + begin_marker().len()) {
            Some(end) => Some((start, end + end_marker().len())),
            None => None,
        },
        None => None,
    }
}

/// Where the managed block of `text` starts, where it holds one.
pub open spec fn block_start(text: Seq<char>) -> int {
    match block_span(text) {
        Some((start, _)) => start,
        None => 0,
    }
}

/// Where the managed block of `text` ends, where it holds one.
pub open spec fn block_end(text: Seq<char>) -> int {
    match block_span(text) {
        Some((_, end)) => end,
        None => 0,
    }
}

/// Whether `text` holds a managed block.
pub open spec fn has_block(text: Seq<char>) -> bool {
    block_span(text) is Some
}

/// `text` without its managed block; `text` itself where it holds none.
pub open spec fn without_block(text: Seq<char>) -> Seq<char> {
    match block_span(text) {
        Some((start, end)) => text.take(start) + text.skip(end),
        None => text,
    }
}

/// Whether `text` holds exactly one managed block: it holds one, and none once that is
/// taken out.
pub open spec fn holds_one_block(text: Seq<char>) -> bool {
    has_block(text) && !has_block(without_block(text))
}

/// The line of the block: source the profile `rc_file` if it is there.
pub open spec fn source_line(rc_file: Seq<char>) -> Seq<char> {
    "test -f "@ + rc_file + " && source "@ + rc_file
}

/// The managed block that sources `rc_file`, after an empty line.
pub open spec fn block_for(rc_file: Seq<char>) -> Seq<char> {
    seq!['\n'] + begin_marker() + source_line(rc_file) + seq!['\n'] + end_marker()
}

/// `text` with a new block for `rc_file` at its end.
pub open spec fn with_block(text: Seq<char>, rc_file: Seq<char>) -> Seq<char> {
    text + block_for(rc_file)
}

/// The startup file after an install: the old block out, a new one in.
pub open spec fn patched(text: Seq<char>, rc_file: Seq<char>) -> Seq<char> {
    with_block(without_block(text), rc_file)
}

/// Whether `text` holds an opening marker at `i` and, behind it, a closing marker at `j`.
pub open spec fn has_pair(text: Seq<char>, i: int, j: int) -> bool {
    &&& occurs_at(text, begin_marker(), i)
    &&& occurs_at(text, end_marker(), j)
    &&& i + begin_marker().len() <= j
}

/// The shape of the markers: each is one line that starts with `#`, the opening marker
/// holds no other `#`, and the two differ before either ends.
proof fn lemma_markers()
    ensures
        begin_marker().len() == 15,
        end_marker().len() == 13,
        begin_marker()[14] == '\n',
        end_marker()[12] == '\n',
        forall|k: int| 0 <= k < 14 ==> begin_marker()[k] != '\n',
        forall|k: int| 0 <= k < 12 ==> end_marker()[k] != '\n',
        begin_marker()[0] == '#',
        end_marker()[0] == '#',
        forall|k: int| 1 <= k < 15 ==> begin_marker()[k] != '#',
        begin_marker()[9] != end_marker()[9],
{
    reveal_strlit("# Config Start");
    reveal_strlit("# Config End");
}

/// A text with an opening marker and a closing marker behind it holds a block.
proof fn lemma_block_from_pair(text: Seq<char>, i: int, j: int)
    requires
        has_pair(text, i, j),
    ensures
        has_block(text),
{
    lemma_find_from(text, begin_marker(), 0);
    let start = find_from(text, begin_marker(), 0)->0;
    lemma_find_from(text, end_marker(), start + begin_marker().len());
}

/// The block of a text starts with an opening marker and ends with a closing marker, the
/// first of each that can be had.
proof fn lemma_pair_from_block(text: Seq<char>)
    requires
        has_block(text),
    ensures
        has_pair(text, block_start(text), block_end(text) - end_marker().len()),
        block_end(text) <= text.len(),
        forall|i: int| 0 <= i < block_start(text) ==> !occurs_at(text, begin_marker(), i),
{
    lemma_find_from(text, begin_marker(), 0);
    let start = find_from(text, begin_marker(), 0)->0;
    lemma_find_from(text, end_marker(), start + begin_marker().len());
}

/// A marker that stands in a text stands in every text that continues it.
proof fn lemma_occurs_extended(head: Seq<char>, tail: Seq<char>, needle: Seq<char>, i: int)
    requires
        occurs_at(head, needle, i),
    ensures
        occurs_at(head + tail, needle, i),
{
    assert forall|k: int| 0 <= k < needle.len() implies #[trigger] (head + tail)[i + k]
        == needle[k] by {
        assert(head[i + k] == needle[k]);
    }
}

/// A marker that stands in a text before `len` stands in the text cut at `len`.
proof fn lemma_occurs_within(text: Seq<char>, len: int, needle: Seq<char>, i: int)
    requires
        occurs_at(text, needle, i),
        i + needle.len() <= len <= text.len(),
    ensures
        occurs_at(text.take(len), needle, i),
{
    assert forall|k: int| 0 <= k < needle.len() implies #[trigger] text.take(len)[i + k]
        == needle[k] by {
        assert(text[i + k] == needle[k]);
    }
}

/// A new block at the end of a text that held none, not even with its last line ended, is
/// the one block of the result: taking it out leaves a text that again holds none.
proof fn lemma_fresh_block(u: Seq<char>, rc_file: Seq<char>)
    requires
        !has_block(u + seq!['\n']),
        forall|i: int| !occurs_at(source_line(rc_file) + seq!['\n'], end_marker(), i),
    ensures
        has_block(with_block(u, rc_file)),
        !has_block(without_block(with_block(u, rc_file))),
        !has_block(without_block(with_block(u, rc_file)) + seq!['\n']),
{
    let b = begin_marker();
    let e = end_marker();
    let head = u + seq!['\n'];
    let mid = source_line(rc_file) + seq!['\n'];
    let t = with_block(u, rc_file);
    let l = head.len() as int;
    let close = l + 15 + mid.len();
    lemma_markers();
    assert(t =~= head + b + mid + e);
    assert(t.len() == close + 13);
    assert(head[l - 1] == '\n');
    assert(mid[mid.len() - 1] == '\n');
    assert(t[l - 1] == '\n');
    assert(t[close - 1] == '\n') by {
        assert(t[close - 1] == mid[mid.len() - 1]);
    }
    assert(occurs_at(t, b, l)) by {
        assert forall|k: int| 0 <= k < b.len() implies #[trigger] t[l + k] == b[k] by {}
    }
    assert(occurs_at(t, e, close)) by {
        assert forall|k: int| 0 <= k < e.len() implies #[trigger] t[close + k] == e[k] by {}
    }
    lemma_find_from(t, b, 0);
    let start = find_from(t, b, 0)->0;
    assert(0 <= start <= l);
    assert forall|j: int| start + 15 <= j < close implies !occurs_at(t, e, j) by {
        if occurs_at(t, e, j) {
            if j + 13 <= l {
                assert(head =~= t.take(l));
                lemma_occurs_within(t, l, e, j);
                lemma_occurs_within(t, l, b, start);
                lemma_block_from_pair(head, start, j);
            } else if j < l {
                let k = l - 1 - j;
                assert(t[j + k] == e[k]);
            } else if j < l + 15 {
                assert(t[j + 0] == e[0]);
                assert(t[j] == b[j - l]);
                assert(j == l);
                assert(t[j + 9] == e[9]);
                assert(t[l + 9] == b[9]);
            } else if j + 13 <= close {
                let at = j - l - 15;
                assert forall|k: int| 0 <= k < e.len() implies #[trigger] mid[at + k]
                    == e[k] by {
                    assert(t[j + k] == e[k]);
                    assert(t[j + k] == mid[at + k]);
                }
                assert(occurs_at(mid, e, at));
            } else {
                let k = close - 1 - j;
                assert(t[j + k] == e[k]);
            }
        }
    }
    lemma_find_from(t, e, start + 15);
    assert(find_from(t, e, start + 15) == Some(close));
    assert(block_span(t) == Some((start, t.len() as int)));
    let w = without_block(t);
    assert(w =~= t.take(start));
    let wn = w + seq!['\n'];
    if has_block(wn) {
        lemma_pair_from_block(wn);
        let i = block_start(wn);
        assert(occurs_at(wn, b, i));
        assert(i + 15 <= start);
        assert forall|k: int| 0 <= k < b.len() implies #[trigger] t[i + k] == b[k] by {
            assert(wn[i + k] == b[k]);
            assert(wn[i + k] == t[i + k]);
        }
        assert(occurs_at(t, b, i));
        assert(false);
    }
    if has_block(w) {
        lemma_pair_from_block(w);
        let i = block_start(w);
        let j = block_end(w) - e.len();
        lemma_occurs_extended(w, seq!['\n'], b, i);
        lemma_occurs_extended(w, seq!['\n'], e, j);
        lemma_block_from_pair(wn, i, j);
        assert(false);
    }
}

/// Installing twice leaves exactly one managed block in the startup file, as installing
/// once does.
///
/// This holds of a startup file that, with its last line ended and one block taken out,
/// holds no further block, and of a profile whose path does not spell the closing marker
/// into the block's line.
pub proof fn lemma_install_twice_one_block(text: Seq<char>, rc_file: Seq<char>)
    requires
        !has_block(without_block(text) + seq!['\n']),
        forall|i: int| !occurs_at(source_line(rc_file) + seq!['\n'], end_marker(), i),
    ensures
        holds_one_block(patched(text, rc_file)),
        holds_one_block(patched(patched(text, rc_file), rc_file)),
{
    lemma_fresh_block(without_block(text), rc_file);
    lemma_fresh_block(without_block(patched(text, rc_file)), rc_file);
}

/// A text without an opening marker holds no block, and taking the block out of it
/// changes nothing.
pub proof fn lemma_no_marker_no_block(text: Seq<char>)
    requires
        forall|i: int| !occurs_at(text, begin_marker(), i),
    ensures
        !has_block(text),
        without_block(text) == text,
{
    lemma_find_from(text, begin_marker(), 0);
}

impl Deployer {
    /// Takes the managed block out of `bashrc`, the text of the startup file. A text without
    /// a block comes back as it is.
    pub fn unset_bashrc(bashrc: &str) -> (r: String)
        ensures
            r@ == without_block(bashrc@),
    {
        let text = chars_of(bashrc);
        let mut begin = chars_of(BEGIN_TAG);
        begin.push('\n');
        let mut end = chars_of(END_TAG);
        end.push('\n');
        assert(begin@ == begin_marker());
        assert(end@ == end_marker());
        match find(&text, &begin, 0) {
            Some(start) => {
                proof {
                    lemma_find_from(text@, begin@, 0);
                }
                match find(&text, &end, start + begin.len()) {
                    Some(close) => {
                        proof {
                            lemma_find_from(text@, end@, start + begin@.len());
                        }
                        let mut r = String::new();
                        push_range(&mut r, &text, 0, start);
                        push_range(&mut r, &text, close + end.len(), text.len());
                        assert(r@ =~= text@.take(start as int) + text@.skip(
                            close + end@.len(),
                        ));
                        r
                    },
                    None => bashrc.to_owned(),
                }
            },
            None => bashrc.to_owned(),
        }
    }

    /// Appends to `bashrc`, the text of the startup file, a managed block that sources the
    /// profile `rc_file`.
    pub fn setup_bash(bashrc: &str, rc_file: &str) -> (r: String)
        ensures
            r@ == with_block(bashrc@, rc_file@),
    {
        proof {
            reveal_strlit("\n");
            assert("\n"@ =~= seq!['\n']);
        }
        let mut r = chain(bashrc, "\n");
        r.append(BEGIN_TAG);
        r.append("\n");
        r.append("test -f ");
        r.append(rc_file);
        r.append(" && source ");
        r.append(rc_file);
        r.append("\n");
        r.append(END_TAG);
        r.append("\n");
        assert(r@ =~= with_block(bashrc@, rc_file@));
        r
    }
}

} // verus!
