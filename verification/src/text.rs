use vstd::prelude::*;
use vstd::std_specs::iter::IteratorSpec;

verus! {

/// `String::push` of the standard library appends one character to the end
/// of the string.
pub assume_specification[ String::push ](text: &mut String, c: char)
    ensures
        final(text)@ == old(text)@.push(c),
;

/// The characters of `text`, one by one.
pub fn chars_of(text: &str) -> (chars: Vec<char>)
    ensures
        chars@ == text@,
{
    let mut chars: Vec<char> = Vec::new();
    for c in it: text.chars()
        invariant
            chars@ == it.seq().take(it.index() as int),
            it.seq() == text@,
    {
        chars.push(c);
    }
    chars
}

/// The text that `chars` spells.
pub fn text_of_chars(chars: &Vec<char>) -> (text: String)
    ensures
        text@ == chars@,
{
    let mut text = String::new();
    let mut i: usize = 0;
    while i < chars.len()
        invariant
            i <= chars@.len(),
            text@ == chars@.take(i as int),
        decreases chars@.len() - i,
    {
        text.push(chars[i]);
        i += 1;
    }
    text
}

/// Whether `c` is white space: a character with the Unicode property
/// `White_Space`.
pub open spec fn is_space(c: char) -> bool {
    let code = c as int;
    ||| 0x09 <= code <= 0x0D
    ||| code == 0x20
    ||| code == 0x85
    ||| code == 0xA0
    ||| code == 0x1680
    ||| 0x2000 <= code <= 0x200A
    ||| code == 0x2028
    ||| code == 0x2029
    ||| code == 0x202F
    ||| code == 0x205F
    ||| code == 0x3000
}

pub fn is_white_space(c: char) -> (space: bool)
    ensures
        space == is_space(c),
{
    let code: u32 = c as u32;
    (0x09 <= code && code <= 0x0D) || code == 0x20 || code == 0x85 || code == 0xA0 || code
        == 0x1680 || (0x2000 <= code && code <= 0x200A) || code == 0x2028 || code == 0x2029
        || code == 0x202F || code == 0x205F || code == 0x3000
}

/// `text` without the white space it begins with.
pub open spec fn trim_start(text: Seq<char>) -> Seq<char>
    decreases text.len(),
{
    if text.len() > 0 && is_space(text[0]) {
        trim_start(text.skip(1))
    } else {
        text
    }
}

/// `text` without the white space it ends with.
pub open spec fn trim_end(text: Seq<char>) -> Seq<char>
    decreases text.len(),
{
    if text.len() > 0 && is_space(text.last()) {
        trim_end(text.drop_last())
    } else {
        text
    }
}

/// `text` without the white space around it.
pub open spec fn trimmed(text: Seq<char>) -> Seq<char> {
    trim_end(trim_start(text))
}

/// `trim_start` takes off exactly the white space at the beginning: what
/// is left is the text from some position on, before which all is white
/// space, and which does not begin with white space.
pub proof fn lemma_trim_start(text: Seq<char>) -> (from: int)
    ensures
        0 <= from <= text.len(),
        trim_start(text) == text.skip(from),
        forall|i: int| 0 <= i < from ==> is_space(text[i]),
        from < text.len() ==> !is_space(text[from]),
    decreases text.len(),
{
    if text.len() > 0 && is_space(text[0]) {
        let rest = text.skip(1);
        let inner = lemma_trim_start(rest);
        assert(rest.skip(inner) =~= text.skip(inner + 1));
        assert forall|i: int| 0 <= i < inner + 1 implies is_space(text[i]) by {
            if i > 0 {
                assert(text[i] == rest[i - 1]);
            }
        }
        if inner + 1 < text.len() {
            assert(text[inner + 1] == rest[inner]);
        }
        inner + 1
    } else {
        assert(text.skip(0) =~= text);
        0
    }
}

/// `trim_end` takes off exactly the white space at the end.
pub proof fn lemma_trim_end(text: Seq<char>) -> (to: int)
    ensures
        0 <= to <= text.len(),
        trim_end(text) == text.take(to),
        forall|i: int| to <= i < text.len() ==> is_space(text[i]),
        0 < to ==> !is_space(text[to - 1]),
    decreases text.len(),
{
    if text.len() > 0 && is_space(text.last()) {
        let rest = text.drop_last();
        let inner = lemma_trim_end(rest);
        assert(rest.take(inner) =~= text.take(inner));
        assert forall|i: int| inner <= i < text.len() implies is_space(text[i]) by {
            if i < text.len() - 1 {
                assert(text[i] == rest[i]);
            }
        }
        if 0 < inner {
            assert(text[inner - 1] == rest[inner - 1]);
        }
        inner
    } else {
        assert(text.take(text.len() as int) =~= text);
        text.len() as int
    }
}

/// Trimming takes off the white space around a text and nothing else: what
/// is left is the text between two positions, outside of which all is
/// white space, and which neither begins nor ends with white space.
pub proof fn law_trimmed_is_the_inner_text(text: Seq<char>) -> (bounds: (int, int))
    ensures
        0 <= bounds.0 <= bounds.1 <= text.len(),
        trimmed(text) == text.subrange(bounds.0, bounds.1),
        forall|i: int| 0 <= i < bounds.0 || bounds.1 <= i < text.len() ==> is_space(text[i]),
        bounds.0 < bounds.1 ==> !is_space(text[bounds.0]) && !is_space(text[bounds.1 - 1]),
{
    let from = lemma_trim_start(text);
    let tail = text.skip(from);
    let kept = lemma_trim_end(tail);
    assert(tail.take(kept) =~= text.subrange(from, from + kept));
    assert forall|i: int| from + kept <= i < text.len() implies is_space(text[i]) by {
        assert(text[i] == tail[i - from]);
    }
    if kept > 0 {
        assert(tail[kept - 1] == text[from + kept - 1]);
    }
    (from, from + kept)
}

/// `text` without the white space around it.
pub fn trim(text: &Vec<char>) -> (inner: Vec<char>)
    ensures
        inner@ == trimmed(text@),
{
    let mut from: usize = 0;
    assert(text@.skip(0) =~= text@);
    while from < text.len() && is_white_space(text[from])
        invariant
            from <= text@.len(),
            trim_start(text@) == trim_start(text@.skip(from as int)),
        decreases text@.len() - from,
    {
        assert(text@.skip(from as int).skip(1) =~= text@.skip(from + 1));
        from += 1;
    }
    assert(trim_start(text@) == text@.skip(from as int));
    let mut to: usize = text.len();
    assert(text@.skip(from as int) =~= text@.subrange(from as int, to as int));
    while to > from && is_white_space(text[to - 1])
        invariant
            from <= to <= text@.len(),
            trimmed(text@) == trim_end(text@.subrange(from as int, to as int)),
        decreases to,
    {
        assert(text@.subrange(from as int, to as int).drop_last() =~= text@.subrange(
            from as int,
            to - 1,
        ));
        to -= 1;
    }
    assert(trimmed(text@) == text@.subrange(from as int, to as int));
    slice_of(text, from, to)
}

/// `text` without the white space around it.
pub fn trim_text(text: &str) -> (inner: String)
    ensures
        inner@ == trimmed(text@),
{
    let chars = chars_of(text);
    let inner = trim(&chars);
    text_of_chars(&inner)
}

/// The characters `from..to` of `text`.
pub(crate) fn slice_of(text: &Vec<char>, from: usize, to: usize) -> (part: Vec<char>)
    requires
        from <= to <= text@.len(),
    ensures
        part@ == text@.subrange(from as int, to as int),
{
    let mut part: Vec<char> = Vec::new();
    let mut i: usize = from;
    while i < to
        invariant
            from <= i <= to <= text@.len(),
            part@ == text@.subrange(from as int, i as int),
        decreases to - i,
    {
        part.push(text[i]);
        i += 1;
    }
    part
}

/// Whether `pattern` stands in `text` at position `at`.
pub open spec fn occurs_at(text: Seq<char>, pattern: Seq<char>, at: int) -> bool {
    &&& 0 <= at
    &&& at + pattern.len() <= text.len()
    &&& text.subrange(at, at + pattern.len()) == pattern
}

/// The first position at or after `from` at which `pattern` stands in
/// `text`.
pub open spec fn find_from(text: Seq<char>, pattern: Seq<char>, from: int) -> Option<int>
    decreases text.len() + 1 - from,
{
    if from < 0 || from + pattern.len() > text.len() {
        None
    } else if occurs_at(text, pattern, from) {
        Some(from)
    } else {
        find_from(text, pattern, from + 1)
    }
}

/// Whether `pattern` stands somewhere in `text`.
pub open spec fn contains(text: Seq<char>, pattern: Seq<char>) -> bool {
    find_from(text, pattern, 0) is Some
}

/// Whether `text` begins with `pattern`.
pub open spec fn starts_with(text: Seq<char>, pattern: Seq<char>) -> bool {
    occurs_at(text, pattern, 0)
}

/// What `find_from` finds is an occurrence, and the first one.
pub proof fn lemma_find_from(text: Seq<char>, pattern: Seq<char>, from: int)
    requires
        0 <= from,
    ensures
        match find_from(text, pattern, from) {
            Some(at) => {
                &&& from <= at
                &&& occurs_at(text, pattern, at)
                &&& forall|k: int| from <= k < at ==> !occurs_at(text, pattern, k)
            },
            None => forall|k: int| from <= k ==> !occurs_at(text, pattern, k),
        },
    decreases text.len() + 1 - from,
{
    if from + pattern.len() > text.len() {
    } else if occurs_at(text, pattern, from) {
    } else {
        lemma_find_from(text, pattern, from + 1);
    }
}

/// Whether `pattern` stands in `text` at position `at`.
pub fn matches_at(text: &Vec<char>, pattern: &Vec<char>, at: usize) -> (found: bool)
    ensures
        found == occurs_at(text@, pattern@, at as int),
{
    if pattern.len() > text.len() || at > text.len() - pattern.len() {
        return false;
    }
    let mut k: usize = 0;
    while k < pattern.len()
        invariant
            k <= pattern@.len(),
            at + pattern@.len() <= text@.len() <= usize::MAX,
            forall|j: int| 0 <= j < k ==> text@[at + j] == pattern@[j],
        decreases pattern@.len() - k,
    {
        if text[at + k] != pattern[k] {
            assert(text@.subrange(at as int, at + pattern@.len())[k as int] != pattern@[k as int]);
            return false;
        }
        k += 1;
    }
    assert(text@.subrange(at as int, at + pattern@.len()) =~= pattern@);
    true
}

/// The first position at or after `from` at which `pattern` stands in
/// `text`.
pub fn find(text: &Vec<char>, pattern: &Vec<char>, from: usize) -> (found: Option<usize>)
    ensures
        match found {
            Some(at) => find_from(text@, pattern@, from as int) == Some(at as int),
            None => find_from(text@, pattern@, from as int) is None,
        },
{
    if pattern.len() > text.len() {
        return None;
    }
    let last: usize = text.len() - pattern.len();
    if from > last {
        return None;
    }
    let mut at: usize = from;
    loop
        invariant
            from <= at <= last,
            last == text@.len() - pattern@.len(),
            find_from(text@, pattern@, from as int) == find_from(text@, pattern@, at as int),
        decreases last - at,
    {
        if matches_at(text, pattern, at) {
            return Some(at);
        }
        if at == last {
            assert(find_from(text@, pattern@, at + 1) is None);
            return None;
        }
        at += 1;
    }
}

/// The piece of `text` between the first place where `pattern` stands and
/// the next one after it, or the end; empty where `pattern` does not stand
/// in `text`.
pub open spec fn second_piece(text: Seq<char>, pattern: Seq<char>) -> Seq<char> {
    match find_from(text, pattern, 0) {
        Some(first) => {
            let start = first + pattern.len();
            match find_from(text, pattern, start) {
                Some(second) => text.subrange(start, second),
                None => text.subrange(start, text.len() as int),
            }
        },
        None => Seq::empty(),
    }
}

/// The piece of `text` after the first `pattern`, up to the next.
pub fn piece_after(text: &Vec<char>, pattern: &Vec<char>) -> (piece: Vec<char>)
    ensures
        piece@ == second_piece(text@, pattern@),
{
    let length = text.len();
    match find(text, pattern, 0) {
        Some(first) => {
            proof {
                lemma_find_from(text@, pattern@, 0);
            }
            assert(first + pattern@.len() <= length);
            let start = first + pattern.len();
            match find(text, pattern, start) {
                Some(second) => {
                    proof {
                        lemma_find_from(text@, pattern@, start as int);
                    }
                    slice_of(text, start, second)
                },
                None => slice_of(text, start, length),
            }
        },
        None => Vec::new(),
    }
}

/// `text` with every `pattern` taken out, in one pass from the left.
pub open spec fn without(text: Seq<char>, pattern: Seq<char>) -> Seq<char>
    decreases text.len(),
{
    if pattern.len() == 0 || text.len() < pattern.len() {
        text
    } else if occurs_at(text, pattern, 0) {
        without(text.skip(pattern.len() as int), pattern)
    } else {
        seq![text[0]] + without(text.skip(1), pattern)
    }
}

/// `text` with every `pattern` taken out.
pub fn remove_all(text: &Vec<char>, pattern: &Vec<char>) -> (rest: Vec<char>)
    ensures
        rest@ == without(text@, pattern@),
{
    if pattern.len() == 0 {
        let whole = slice_of(text, 0, text.len());
        assert(whole@ =~= text@);
        return whole;
    }
    let mut rest: Vec<char> = Vec::new();
    let mut at: usize = 0;
    assert(text@.skip(0) =~= text@);
    assert(rest@ + without(text@, pattern@) =~= without(text@, pattern@));
    while at < text.len()
        invariant
            at <= text@.len(),
            pattern@.len() > 0,
            without(text@, pattern@) == rest@ + without(text@.skip(at as int), pattern@),
        decreases text@.len() - at,
    {
        let ghost tail = text@.skip(at as int);
        if matches_at(text, pattern, at) {
            assert(tail.subrange(0, pattern@.len() as int) =~= text@.subrange(
                at as int,
                at + pattern@.len(),
            ));
            assert(tail.skip(pattern@.len() as int) =~= text@.skip(at + pattern@.len()));
            at += pattern.len();
        } else {
            proof {
                assert(tail.skip(1) =~= text@.skip(at + 1));
                if tail.len() >= pattern@.len() {
                    assert(tail.subrange(0, pattern@.len() as int) =~= text@.subrange(
                        at as int,
                        at + pattern@.len(),
                    ));
                } else {
                    assert(tail =~= seq![tail[0]] + tail.skip(1));
                }
                assert(without(tail, pattern@) == seq![tail[0]] + without(tail.skip(1), pattern@));
                assert(rest@.push(text@[at as int]) + without(text@.skip(at + 1), pattern@)
                    =~= rest@ + (seq![tail[0]] + without(tail.skip(1), pattern@)));
            }
            rest.push(text[at]);
            at += 1;
        }
    }
    assert(text@.skip(at as int) =~= Seq::empty());
    rest
}

} // verus!
