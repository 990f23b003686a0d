//! Searching and rewriting text: what the request handlers look for in
//! bodies, header values and paths, by bytes where the input may be any
//! bytes and by characters where it is a string.

use vstd::prelude::*;
use vstd::string::{StrSliceExecFns, StringExecFns};

verus! {

/// The lower-case form of an ASCII capital; every other byte is itself.
pub open spec fn spec_ascii_lower(b: u8) -> u8 {
    if 0x41 <= b <= 0x5a {
        (b + 0x20) as u8
    } else {
        b
    }
}

/// The lower-case form of an ASCII capital; every other byte is itself.
#[verifier::when_used_as_spec(spec_ascii_lower)]
pub fn ascii_lower(b: u8) -> (lower: u8)
    ensures
        lower == spec_ascii_lower(b),
{
    if 0x41 <= b && b <= 0x5a {
        b + 0x20
    } else {
        b
    }
}

/// Whether two bytes count as the same: equal, or, where case is ignored,
/// equal once ASCII capitals are lowered.
pub open spec fn same_byte(a: u8, b: u8, ignore_case: bool) -> bool {
    if ignore_case {
        spec_ascii_lower(a) == spec_ascii_lower(b)
    } else {
        a == b
    }
}

/// Whether `needle` stands in `hay` at offset `at`.
pub open spec fn occurs_at(hay: Seq<u8>, needle: Seq<u8>, at: int, ignore_case: bool) -> bool {
    &&& 0 <= at
    &&& at + needle.len() <= hay.len()
    &&& forall|j: int|
        0 <= j < needle.len() ==> same_byte(#[trigger] hay[at + j], needle[j], ignore_case)
}

/// Whether `needle` stands somewhere in `hay`.
pub open spec fn occurs(hay: Seq<u8>, needle: Seq<u8>, ignore_case: bool) -> bool {
    exists|at: int| occurs_at(hay, needle, at, ignore_case)
}

/// Whether `needle` stands in `hay` at offset `at`.
pub fn matches_at(hay: &[u8], needle: &[u8], at: usize, ignore_case: bool) -> (found: bool)
    ensures
        found == occurs_at(hay@, needle@, at as int, ignore_case),
{
    if needle.len() > hay.len() || at > hay.len() - needle.len() {
        return false;
    }
    let mut j: usize = 0;
    while j < needle.len()
        invariant
            j <= needle.len(),
            at + needle.len() <= hay.len(),
            forall|k: int|
                0 <= k < j ==> same_byte(#[trigger] hay@[at + k], needle@[k], ignore_case),
        decreases needle.len() - j,
    {
        let a = hay[at + j];
        let b = needle[j];
        let same = if ignore_case {
            ascii_lower(a) == ascii_lower(b)
        } else {
            a == b
        };
        if !same {
            assert(!same_byte(hay@[at + j], needle@[j as int], ignore_case));
            return false;
        }
        j += 1;
    }
    true
}

/// The offset of the first place where `needle` stands in `hay`.
pub fn find(hay: &[u8], needle: &[u8], ignore_case: bool) -> (first: Option<usize>)
    ensures
        match first {
            Some(at) => {
                &&& occurs_at(hay@, needle@, at as int, ignore_case)
                &&& forall|k: int| 0 <= k < at ==> !occurs_at(hay@, needle@, k, ignore_case)
            },
            None => !occurs(hay@, needle@, ignore_case),
        },
{
    if needle.len() > hay.len() {
        return None;
    }
    let last: usize = hay.len() - needle.len();
    let mut at: usize = 0;
    while at <= last
        invariant
            at <= last + 1,
            last == hay.len() - needle.len(),
            forall|k: int| 0 <= k < at ==> !occurs_at(hay@, needle@, k, ignore_case),
        decreases last + 1 - at,
    {
        if matches_at(hay, needle, at, ignore_case) {
            return Some(at);
        }
        at += 1;
    }
    None
}

/// Whether `needle` stands somewhere in `hay`, byte for byte.
pub fn contains(hay: &[u8], needle: &[u8]) -> (found: bool)
    ensures
        found == occurs(hay@, needle@, false),
{
    find(hay, needle, false).is_some()
}

/// Whether `needle` stands somewhere in `hay`, ASCII letters of either case
/// taken as equal.
pub fn contains_ignore_ascii_case(hay: &[u8], needle: &[u8]) -> (found: bool)
    ensures
        found == occurs(hay@, needle@, true),
{
    find(hay, needle, true).is_some()
}

/// The characters of a text, one by one.
pub fn chars_of(text: &str) -> (chars: Vec<char>)
    ensures
        chars@ == text@,
{
    let mut chars: Vec<char> = Vec::new();
    for c in it: text.chars()
        invariant
            it.seq() == text@,
            chars@ == text@.take(it.index() as int),
    {
        chars.push(c);
    }
    chars
}

/// Whether two texts hold the same characters.
pub fn same_text(a: &str, b: &str) -> (same: bool)
    ensures
        same == (a@ == b@),
{
    let left = chars_of(a);
    let right = chars_of(b);
    if left.len() != right.len() {
        return false;
    }
    let mut i: usize = 0;
    while i < left.len()
        invariant
            i <= left.len(),
            left.len() == right.len(),
            left@ == a@,
            right@ == b@,
            forall|k: int| 0 <= k < i ==> left@[k] == right@[k],
        decreases left.len() - i,
    {
        if left[i] != right[i] {
            return false;
        }
        i += 1;
    }
    assert(left@ =~= right@);
    true
}

/// Whether `text` begins with the characters of `prefix`.
pub open spec fn begins_with(text: Seq<char>, prefix: Seq<char>) -> bool {
    prefix.len() <= text.len() && text.take(prefix.len() as int) == prefix
}

/// Whether `text` begins with `prefix`.
pub fn starts_with(text: &Vec<char>, prefix: &str) -> (found: bool)
    ensures
        found == begins_with(text@, prefix@),
{
    let start = chars_of(prefix);
    if start.len() > text.len() {
        return false;
    }
    let mut i: usize = 0;
    while i < start.len()
        invariant
            i <= start.len() <= text.len(),
            start@ == prefix@,
            forall|k: int| 0 <= k < i ==> text@[k] == start@[k],
        decreases start.len() - i,
    {
        if text[i] != start[i] {
            assert(text@.take(prefix@.len() as int)[i as int] != prefix@[i as int]);
            return false;
        }
        i += 1;
    }
    assert(text@.take(prefix@.len() as int) =~= prefix@);
    true
}

/// The offset of the last `c` in `text`, if there is one.
pub open spec fn last_index_of(text: Seq<char>, c: char) -> Option<int>
    decreases text.len(),
{
    if text.len() == 0 {
        None
    } else if text.last() == c {
        Some(text.len() - 1)
    } else {
        last_index_of(text.drop_last(), c)
    }
}

/// The offset of the last `c` in `text`, if there is one.
pub fn rfind(text: &Vec<char>, c: char) -> (last: Option<usize>)
    ensures
        match last {
            Some(at) => last_index_of(text@, c) == Some(at as int),
            None => last_index_of(text@, c) is None,
        },
{
    let mut at: usize = text.len();
    assert(text@.take(at as int) =~= text@);
    while at > 0
        invariant
            at <= text.len(),
            last_index_of(text@, c) == last_index_of(text@.take(at as int), c),
        decreases at,
    {
        at -= 1;
        if text[at] == c {
            return Some(at);
        }
        assert(text@.take(at + 1).drop_last() =~= text@.take(at as int));
    }
    None
}

/// The last `c` of a text stands where `last_index_of` says, and nowhere
/// after it.
pub proof fn lemma_last_index_of(text: Seq<char>, c: char)
    ensures
        match last_index_of(text, c) {
            Some(at) => {
                &&& 0 <= at < text.len()
                &&& text[at] == c
                &&& forall|k: int| at < k < text.len() ==> text[k] != c
            },
            None => forall|k: int| 0 <= k < text.len() ==> text[k] != c,
        },
    decreases text.len(),
{
    if text.len() > 0 && text.last() != c {
        let rest = text.drop_last();
        lemma_last_index_of(rest, c);
        assert(forall|k: int| 0 <= k < rest.len() ==> rest[k] == text[k]);
    }
}

/// Whether `pattern` stands in `text` at offset `at`.
pub open spec fn stands_at(text: Seq<char>, pattern: Seq<char>, at: int) -> bool {
    0 <= at && at + pattern.len() <= text.len() && text.subrange(at, at + pattern.len()) == pattern
}

/// Whether `pattern` stands in `text` at offset `at`.
pub fn stands_at_offset(text: &Vec<char>, pattern: &Vec<char>, at: usize) -> (found: bool)
    ensures
        found == stands_at(text@, pattern@, at as int),
{
    if pattern.len() > text.len() || at > text.len() - pattern.len() {
        return false;
    }
    let mut j: usize = 0;
    while j < pattern.len()
        invariant
            j <= pattern.len(),
            at + pattern.len() <= text.len(),
            forall|k: int| 0 <= k < j ==> text@[at + k] == pattern@[k],
        decreases pattern.len() - j,
    {
        if text[at + j] != pattern[j] {
            assert(text@.subrange(at as int, at + pattern.len())[j as int] != pattern@[j as int]);
            return false;
        }
        j += 1;
    }
    assert(text@.subrange(at as int, at + pattern.len()) =~= pattern@);
    true
}

/// `text` with every place where `pattern` stands replaced by `with`. The
/// places are taken from the left and do not overlap.
pub open spec fn replaced(text: Seq<char>, pattern: Seq<char>, with: Seq<char>) -> Seq<char>
    recommends
        pattern.len() > 0,
    decreases text.len(),
{
    if pattern.len() == 0 || text.len() < pattern.len() {
        text
    } else if stands_at(text, pattern, 0) {
        with + replaced(text.skip(pattern.len() as int), pattern, with)
    } else {
        seq![text[0]] + replaced(text.skip(1), pattern, with)
    }
}

/// Replaces every place where `pattern` stands in `text` by `with`. An
/// empty pattern stands nowhere.
pub fn replace_all(text: &str, pattern: &str, with: &str) -> (result: String)
    ensures
        result@ == replaced(text@, pattern@, with@),
{
    let chars = chars_of(text);
    let wanted = chars_of(pattern);
    if wanted.len() == 0 || wanted.len() > chars.len() {
        return String::from_str(text);
    }
    let mut result = String::from_str("");
    proof {
        reveal_strlit("");
    }
    let mut kept: usize = 0;
    let mut at: usize = 0;
    assert(text@.skip(0) =~= text@);
    while at <= chars.len() - wanted.len()
        invariant
            chars@ == text@,
            wanted@ == pattern@,
            0 < wanted.len() <= chars.len(),
            kept <= at <= chars.len(),
            replaced(text@, pattern@, with@) == result@ + text@.subrange(kept as int, at as int)
                + replaced(text@.skip(at as int), pattern@, with@),
        decreases chars.len() - at,
    {
        let rest = Ghost(text@.skip(at as int));
        if stands_at_offset(&chars, &wanted, at) {
            assert(rest@.subrange(0, pattern@.len() as int) =~= text@.subrange(
                at as int,
                at + pattern@.len(),
            ));
            assert(rest@.skip(pattern@.len() as int) =~= text@.skip(at + pattern@.len()));
            result.append(text.substring_char(kept, at));
            result.append(with);
            at += wanted.len();
            kept = at;
            assert(text@.subrange(kept as int, at as int) =~= Seq::<char>::empty());
            assert(replaced(text@, pattern@, with@) =~= result@ + text@.subrange(
                kept as int,
                at as int,
            ) + replaced(text@.skip(at as int), pattern@, with@));
        } else {
            assert(rest@.subrange(0, pattern@.len() as int) =~= text@.subrange(
                at as int,
                at + pattern@.len(),
            ));
            assert(rest@.skip(1) =~= text@.skip(at + 1));
            assert(text@.subrange(kept as int, at + 1) =~= text@.subrange(kept as int, at as int)
                + seq![text@[at as int]]);
            at += 1;
            assert(replaced(text@, pattern@, with@) =~= result@ + text@.subrange(
                kept as int,
                at as int,
            ) + replaced(text@.skip(at as int), pattern@, with@));
        }
    }
    assert(text@.subrange(kept as int, at as int) + text@.skip(at as int) =~= text@.subrange(
        kept as int,
        chars.len() as int,
    ));
    result.append(text.substring_char(kept, chars.len()));
    result
}

} // verus!
