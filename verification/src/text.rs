//! Text helpers: comparing strings and cleaning up raw document text.

use vstd::prelude::*;
use vstd::utf8::*;

verus! {

/// Whether two string slices hold the same characters.
pub fn same_text(a: &str, b: &str) -> (same: bool)
    ensures
        same == (a@ == b@),
{
    let x = a.as_bytes();
    let y = b.as_bytes();
    if x.len() != y.len() {
        return false;
    }
    let mut i: usize = 0;
    while i < x.len()
        invariant
            x@ == encode_utf8(a@),
            y@ == encode_utf8(b@),
            x@.len() == y@.len(),
            i <= x@.len(),
            forall|j: int| 0 <= j < i ==> x@[j] == y@[j],
        decreases x@.len() - i,
    {
        if x[i] != y[i] {
            return false;
        }
        i += 1;
    }
    proof {
        assert(x@ =~= y@);
        encode_utf8_decode_utf8(a@);
        encode_utf8_decode_utf8(b@);
    }
    true
}

/// `text` with each of its first `limit` newline characters replaced by a
/// space; newlines after those stay as they are.
pub open spec fn newlines_to_spaces(text: Seq<char>, limit: nat) -> Seq<char>
    decreases text.len(),
{
    if text.len() == 0 {
        text
    } else if text[0] == '\n' && limit > 0 {
        seq![' '] + newlines_to_spaces(text.drop_first(), (limit - 1) as nat)
    } else {
        seq![text[0]] + newlines_to_spaces(text.drop_first(), limit)
    }
}

/// The number of newline characters in `text`.
pub open spec fn newline_count(text: Seq<char>) -> nat
    decreases text.len(),
{
    if text.len() == 0 {
        0
    } else if text[0] == '\n' {
        1 + newline_count(text.drop_first())
    } else {
        newline_count(text.drop_first())
    }
}

/// Replacing newlines keeps the length of the text and every character that
/// is no newline; a newline stays or becomes a space.
pub proof fn law_newlines_to_spaces_keeps_the_rest(text: Seq<char>, limit: nat)
    ensures
        newlines_to_spaces(text, limit).len() == text.len(),
        forall|i: int|
            0 <= i < text.len() ==> {
                let c = #[trigger] newlines_to_spaces(text, limit)[i];
                if text[i] == '\n' {
                    c == ' ' || c == '\n'
                } else {
                    c == text[i]
                }
            },
    decreases text.len(),
{
    if text.len() > 0 {
        let rest = text.drop_first();
        if text[0] == '\n' && limit > 0 {
            law_newlines_to_spaces_keeps_the_rest(rest, (limit - 1) as nat);
        } else {
            law_newlines_to_spaces_keeps_the_rest(rest, limit);
        }
    }
}

/// Where the text has no more newlines than the limit, every one of them
/// becomes a space.
pub proof fn law_all_newlines_replaced_within_limit(text: Seq<char>, limit: nat)
    requires
        newline_count(text) <= limit,
    ensures
        newlines_to_spaces(text, limit) == text.map_values(
            |c: char|
                if c == '\n' {
                    ' '
                } else {
                    c
                },
        ),
    decreases text.len(),
{
    let replaced = text.map_values(
        |c: char|
            if c == '\n' {
                ' '
            } else {
                c
            },
    );
    if text.len() > 0 {
        let rest = text.drop_first();
        if text[0] == '\n' {
            law_all_newlines_replaced_within_limit(rest, (limit - 1) as nat);
        } else {
            law_all_newlines_replaced_within_limit(rest, limit);
        }
        assert(newlines_to_spaces(text, limit) =~= replaced);
    } else {
        assert(newlines_to_spaces(text, limit) =~= replaced);
    }
}

/// Whether a character is one of the decimal digits `0` to `9`.
pub open spec fn is_digit(c: char) -> bool {
    '0' <= c && c <= '9'
}

/// The number of decimal digits that `text` ends with.
pub open spec fn trailing_digits(text: Seq<char>) -> nat
    decreases text.len(),
{
    if text.len() == 0 || !is_digit(text.last()) {
        0
    } else {
        1 + trailing_digits(text.drop_last())
    }
}

/// The length of the longest run of consecutive decimal digits in `text`:
/// the most digits that any prefix of it ends with.
pub open spec fn longest_digit_run(text: Seq<char>) -> nat
    decreases text.len(),
{
    if text.len() == 0 {
        0
    } else {
        let before = longest_digit_run(text.drop_last());
        if trailing_digits(text) > before {
            trailing_digits(text)
        } else {
            before
        }
    }
}

/// No text ends with more digits than its longest run of digits has.
pub proof fn lemma_trailing_digits_bounded(text: Seq<char>)
    ensures
        trailing_digits(text) <= longest_digit_run(text),
{
}

/// No run of digits is longer than the text: a text of at most `limit`
/// characters has no run of more than `limit` digits.
pub proof fn law_digit_run_at_most_length(text: Seq<char>)
    ensures
        trailing_digits(text) <= text.len(),
        longest_digit_run(text) <= text.len(),
    decreases text.len(),
{
    if text.len() > 0 {
        law_digit_run_at_most_length(text.drop_last());
    }
}

/// Whether no run of consecutive decimal digits in `text` is longer than
/// `limit`.
pub fn digit_runs_within(text: &str, limit: usize) -> (within: bool)
    ensures
        within == (longest_digit_run(text@) <= limit),
{
    let mut run: usize = 0;
    let mut within = true;
    assert(text@.take(0).len() == 0);
    for c in it: text.chars()
        invariant
            it.seq() == text@,
            within == (longest_digit_run(text@.take(it.index() as int)) <= limit),
            within ==> run == trailing_digits(text@.take(it.index() as int)),
    {
        let ghost before = text@.take(it.index() as int);
        let ghost now = text@.take(it.index() + 1);
        proof {
            assert(now.drop_last() == before);
            assert(now.last() == c);
            lemma_trailing_digits_bounded(before);
        }
        if within {
            if '0' <= c && c <= '9' {
                if run == limit {
                    within = false;
                } else {
                    run = run + 1;
                }
            } else {
                run = 0;
            }
        }
    }
    assert(text@.take(text@.len() as int) == text@);
    within
}

/// Appends one character to a string, as `String::push` does.
#[verifier::external_body]
fn push_char(text: &mut String, c: char)
    ensures
        final(text)@ == old(text)@.push(c),
{
    text.push(c);
}

/// Replaces the first `limit` newline characters of `text` by spaces.
pub fn replace_newlines(text: &str, limit: usize) -> (cleaned: String)
    ensures
        cleaned@ == newlines_to_spaces(text@, limit as nat),
{
    let mut cleaned = String::new();
    let mut left: usize = limit;
    assert(text@.skip(0) == text@);
    for c in it: text.chars()
        invariant
            it.seq() == text@,
            cleaned@ + newlines_to_spaces(text@.skip(it.index() as int), left as nat)
                == newlines_to_spaces(text@, limit as nat),
    {
        let ghost rest = text@.skip(it.index() as int);
        assert(rest.drop_first() == text@.skip(it.index() + 1));
        assert(rest[0] == c);
        if c == '\n' && left > 0 {
            push_char(&mut cleaned, ' ');
            left = left - 1;
        } else {
            push_char(&mut cleaned, c);
        }
    }
    assert(text@.skip(text@.len() as int).len() == 0);
    cleaned
}

} // verus!
