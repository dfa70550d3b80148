//! Text as a sequence of characters, and the search for one text in another.

use vstd::prelude::*;

verus! {

/// Whether `needle` stands in `hay` at position `at`.
pub open spec fn occurs_at(needle: Seq<char>, hay: Seq<char>, at: int) -> bool {
    &&& 0 <= at
    &&& at + needle.len() <= hay.len()
    &&& hay.subrange(at, at + needle.len()) == needle
}

/// Whether `needle` stands somewhere in `hay` as a run of consecutive
/// characters. The empty text stands in every text.
pub open spec fn occurs_in(needle: Seq<char>, hay: Seq<char>) -> bool {
    exists|at: int| occurs_at(needle, hay, at)
}

/// The characters of a text, in order.
pub fn chars_of(text: &str) -> (chars: Vec<char>)
    ensures
        chars@ == text@,
{
    broadcast use vstd::string::group_string_axioms;

    let mut chars: Vec<char> = Vec::new();
    for c in it: text.chars()
        invariant
            it.seq() == text@,
            chars@ == it.seq().take(it.index()),
    {
        chars.push(c);
        proof {
            assert(it.seq().take(it.index() + 1) == it.seq().take(it.index()).push(c));
        }
    }
    proof {
        assert(text@.take(text@.len() as int) == text@);
    }
    chars
}

/// Whether `needle` stands in `hay` at position `at`.
fn stands_at(needle: &Vec<char>, hay: &Vec<char>, at: usize) -> (hit: bool)
    requires
        at + needle.len() <= hay.len(),
    ensures
        hit == occurs_at(needle@, hay@, at as int),
{
    let ghost window = hay@.subrange(at as int, at + needle.len());
    let mut k: usize = 0;
    while k < needle.len()
        invariant
            k <= needle.len(),
            at + needle.len() <= hay.len(),
            window == hay@.subrange(at as int, at + needle.len()),
            forall|j: int| 0 <= j < k ==> window[j] == needle@[j],
        decreases needle.len() - k,
    {
        if hay[at + k] != needle[k] {
            proof {
                assert(window[k as int] != needle@[k as int]);
            }
            return false;
        }
        k += 1;
    }
    proof {
        assert(window =~= needle@);
    }
    true
}

/// Searches `hay` for `needle`, from the left.
pub fn find_chars(needle: &Vec<char>, hay: &Vec<char>) -> (found: bool)
    ensures
        found == occurs_in(needle@, hay@),
{
    if needle.len() > hay.len() {
        return false;
    }
    let last: usize = hay.len() - needle.len();
    let mut at: usize = 0;
    while at <= last
        invariant
            needle.len() <= hay.len(),
            last == hay.len() - needle.len(),
            forall|p: int| 0 <= p < at ==> !occurs_at(needle@, hay@, p),
        decreases last + 1 - at,
    {
        if stands_at(needle, hay, at) {
            return true;
        }
        if at == last {
            proof {
                assert forall|p: int| !occurs_at(needle@, hay@, p) by {
                    if 0 <= p && p + needle@.len() <= hay@.len() {
                        assert(p <= at);
                    }
                }
            }
            return false;
        }
        at += 1;
    }
    false
}

/// Whether the text `needle` stands somewhere in the text `hay`.
pub fn contains_text(hay: &str, needle: &str) -> (found: bool)
    ensures
        found == occurs_in(needle@, hay@),
{
    let hay_chars = chars_of(hay);
    let needle_chars = chars_of(needle);
    find_chars(&needle_chars, &hay_chars)
}

} // verus!
