use crate::text::{
    chars_of, contains, find, find_from, lemma_find_from, matches_at, piece_after, remove_all,
    second_piece, slice_of, starts_with, text_of_chars, trim, trimmed, without,
};
use vstd::prelude::*;

verus! {

/// No line announces a public key.
#[derive(Clone, Copy, Debug, PartialEq, Eq, Structural)]
pub struct PublicKeyMissing;

/// The line feed, as a pattern.
pub open spec fn line_break() -> Seq<char> {
    seq!['\n']
}

/// `line` without the carriage return it ends with, if it ends with one.
pub open spec fn without_return(line: Seq<char>) -> Seq<char> {
    if line.len() > 0 && line.last() == '\r' {
        line.drop_last()
    } else {
        line
    }
}

/// The lines of `text` from position `from` on. A line ends with a line
/// feed, or with a carriage return and a line feed, which are not part of
/// it; the last line may end with the text.
pub open spec fn lines_from(text: Seq<char>, from: int) -> Seq<Seq<char>>
    decreases text.len() - from,
{
    if from < 0 || from >= text.len() {
        Seq::empty()
    } else {
        match find_from(text, line_break(), from) {
            Some(end) => {
                proof {
                    lemma_find_from(text, line_break(), from);
                }
                seq![without_return(text.subrange(from, end))] + lines_from(text, end + 1)
            },
            None => seq![text.subrange(from, text.len() as int)],
        }
    }
}

/// The lines of `text`.
pub open spec fn lines(text: Seq<char>) -> Seq<Seq<char>> {
    lines_from(text, 0)
}

/// What `judge` makes of the first line of which it makes anything.
pub open spec fn first_hit(
    lines: Seq<Seq<char>>,
    judge: spec_fn(Seq<char>) -> Option<Seq<char>>,
) -> Option<Seq<char>>
    decreases lines.len(),
{
    if lines.len() == 0 {
        None
    } else {
        match judge(lines[0]) {
            Some(hit) => Some(hit),
            None => first_hit(lines.skip(1), judge),
        }
    }
}

/// `first_hit` is the verdict on the first line that has one: it is
/// `Some(hit)` exactly if some line has the verdict `Some(hit)` and no line
/// before it has any.
pub proof fn law_first_hit_is_the_first_verdict(
    lines: Seq<Seq<char>>,
    judge: spec_fn(Seq<char>) -> Option<Seq<char>>,
)
    ensures
        match first_hit(lines, judge) {
            Some(hit) => exists|i: int|
                0 <= i < lines.len() && #[trigger] judge(lines[i]) == Some(hit) && forall|j: int|
                    0 <= j < i ==> #[trigger] judge(lines[j]) is None,
            None => forall|i: int| 0 <= i < lines.len() ==> #[trigger] judge(lines[i]) is None,
        },
    decreases lines.len(),
{
    if lines.len() > 0 {
        let rest = lines.skip(1);
        law_first_hit_is_the_first_verdict(rest, judge);
        match judge(lines[0]) {
            Some(hit) => {
                assert(judge(lines[0]) == Some(hit));
            },
            None => {
                match first_hit(rest, judge) {
                    Some(hit) => {
                        let i = choose|i: int|
                            0 <= i < rest.len() && #[trigger] judge(rest[i]) == Some(hit)
                                && forall|j: int|
                                0 <= j < i ==> #[trigger] judge(rest[j]) is None;
                        assert(rest[i] == lines[i + 1]);
                        assert forall|j: int| 0 <= j < i + 1 implies #[trigger] judge(
                            lines[j],
                        ) is None by {
                            if j > 0 {
                                assert(rest[j - 1] == lines[j]);
                            }
                        }
                        assert(judge(lines[i + 1]) == Some(hit));
                    },
                    None => {
                        assert forall|i: int| 0 <= i < lines.len() implies #[trigger] judge(
                            lines[i],
                        ) is None by {
                            if i > 0 {
                                assert(rest[i - 1] == lines[i]);
                            }
                        }
                    },
                }
            },
        }
    }
}

/// The words with which the key generator announces a public key.
pub open spec fn announcement() -> Seq<char> {
    "Public key:"@
}

/// The words with which a key file names its public key.
pub open spec fn key_comment() -> Seq<char> {
    "# public key: "@
}

/// The public key that a line of a key file names: where the line begins
/// with the key comment, what is left of it without every key comment and
/// without the white space around.
pub open spec fn key_in_file_line(line: Seq<char>) -> Option<Seq<char>> {
    if starts_with(line, key_comment()) {
        Some(trimmed(without(line, key_comment())))
    } else {
        None
    }
}

/// The public key that a line of the key generator's output names: where
/// the line holds the announcement, what follows the first one, up to the
/// next, without the white space around; else what its key comment names.
pub open spec fn key_in_output_line(line: Seq<char>) -> Option<Seq<char>> {
    if contains(line, announcement()) {
        Some(trimmed(second_piece(line, announcement())))
    } else {
        key_in_file_line(line)
    }
}

/// The public key that the key generator's output names: the one of the
/// first line that names one.
pub open spec fn public_key_in_output(output: Seq<char>) -> Option<Seq<char>> {
    first_hit(lines(output), |line: Seq<char>| key_in_output_line(line))
}

/// The public key that a key file names: the one of the first line that
/// names one.
pub open spec fn public_key_in_key_file(content: Seq<char>) -> Option<Seq<char>> {
    first_hit(lines(content), |line: Seq<char>| key_in_file_line(line))
}

/// The line of `text` that begins at `from`, and where the next begins.
fn line_at(text: &Vec<char>, from: usize) -> (found: (Vec<char>, usize))
    requires
        from < text@.len(),
    ensures
        from < found.1 <= text@.len(),
        lines_from(text@, from as int) == seq![found.0@] + lines_from(text@, found.1 as int),
{
    let length = text.len();
    let mut newline: Vec<char> = Vec::new();
    newline.push('\n');
    assert(newline@ =~= line_break());
    match find(text, &newline, from) {
        Some(end) => {
            proof {
                lemma_find_from(text@, line_break(), from as int);
            }
            let line = if end > from && text[end - 1] == '\r' {
                slice_of(text, from, end - 1)
            } else {
                slice_of(text, from, end)
            };
            proof {
                let raw = text@.subrange(from as int, end as int);
                if end > from {
                    assert(raw.last() == text@[end - 1]);
                    assert(raw.drop_last() =~= text@.subrange(from as int, end - 1));
                }
                assert(line@ == without_return(raw));
            }
            (line, end + 1)
        },
        None => {
            let line = slice_of(text, from, length);
            assert(lines_from(text@, length as int) =~= Seq::empty());
            assert(seq![line@] + Seq::<Seq<char>>::empty() =~= seq![line@]);
            (line, length)
        },
    }
}

/// The public key that a line of a key file names.
fn file_line_key(line: &Vec<char>, comment: &Vec<char>) -> (key: Option<Vec<char>>)
    requires
        comment@ == key_comment(),
    ensures
        match key {
            Some(k) => key_in_file_line(line@) == Some(k@),
            None => key_in_file_line(line@) is None,
        },
{
    if matches_at(line, comment, 0) {
        let rest = remove_all(line, comment);
        Some(trim(&rest))
    } else {
        None
    }
}

/// The public key that a line of the key generator's output names.
fn output_line_key(line: &Vec<char>, announced: &Vec<char>, comment: &Vec<char>) -> (key: Option<
    Vec<char>,
>)
    requires
        announced@ == announcement(),
        comment@ == key_comment(),
    ensures
        match key {
            Some(k) => key_in_output_line(line@) == Some(k@),
            None => key_in_output_line(line@) is None,
        },
{
    if find(line, announced, 0).is_some() {
        let piece = piece_after(line, announced);
        Some(trim(&piece))
    } else {
        file_line_key(line, comment)
    }
}

/// Finds the public key in what the key generator printed: the first line
/// that holds `Public key:` gives what follows these words, and the first
/// line that begins with `# public key: ` gives the rest of it, whichever
/// line comes first; the key is freed of the white space around it.
pub fn extract_public_key_from_output(output: &str) -> (key: Result<String, PublicKeyMissing>)
    ensures
        match key {
            Ok(k) => public_key_in_output(output@) == Some(k@),
            Err(_) => public_key_in_output(output@) is None,
        },
{
    let text = chars_of(output);
    let announced = chars_of("Public key:");
    let comment = chars_of("# public key: ");
    let ghost judge = |line: Seq<char>| key_in_output_line(line);
    let mut from: usize = 0;
    while from < text.len()
        invariant
            from <= text@.len(),
            text@ == output@,
            announced@ == announcement(),
            comment@ == key_comment(),
            judge == (|line: Seq<char>| key_in_output_line(line)),
            public_key_in_output(output@) == first_hit(lines_from(text@, from as int), judge),
        decreases text@.len() - from,
    {
        let (line, next) = line_at(&text, from);
        proof {
            let rest = lines_from(text@, next as int);
            assert((seq![line@] + rest)[0] == line@);
            assert((seq![line@] + rest).skip(1) =~= rest);
        }
        match output_line_key(&line, &announced, &comment) {
            Some(key) => {
                return Ok(text_of_chars(&key));
            },
            None => {},
        }
        from = next;
    }
    Err(PublicKeyMissing)
}

/// Finds the public key in the content of a key file: the first line that
/// begins with `# public key: ` gives the rest of it, freed of the white
/// space around it.
pub fn extract_public_key_from_key_file(content: &str) -> (key: Result<String, PublicKeyMissing>)
    ensures
        match key {
            Ok(k) => public_key_in_key_file(content@) == Some(k@),
            Err(_) => public_key_in_key_file(content@) is None,
        },
{
    let text = chars_of(content);
    let comment = chars_of("# public key: ");
    let ghost judge = |line: Seq<char>| key_in_file_line(line);
    let mut from: usize = 0;
    while from < text.len()
        invariant
            from <= text@.len(),
            text@ == content@,
            comment@ == key_comment(),
            judge == (|line: Seq<char>| key_in_file_line(line)),
            public_key_in_key_file(content@) == first_hit(lines_from(text@, from as int), judge),
        decreases text@.len() - from,
    {
        let (line, next) = line_at(&text, from);
        proof {
            let rest = lines_from(text@, next as int);
            assert((seq![line@] + rest)[0] == line@);
            assert((seq![line@] + rest).skip(1) =~= rest);
        }
        match file_line_key(&line, &comment) {
            Some(key) => {
                return Ok(text_of_chars(&key));
            },
            None => {},
        }
        from = next;
    }
    Err(PublicKeyMissing)
}

} // verus!
