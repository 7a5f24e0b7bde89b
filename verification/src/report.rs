//! The report: a header, then one line for each of the first terms of the
//! sequence, in ascending order of index.

use crate::decimal::{append_decimal, decimal, is_digit, lemma_decimal_digits, lemma_decimal_injective};
use crate::sequence::{fib, fibonacci, MAX_INDEX};
use vstd::prelude::*;

verus! {

/// How many terms the report lists.
pub const TERM_COUNT: u32 = 10;

/// The text of the header line.
pub open spec fn header_text() -> Seq<char> {
    "First 10 Fibonacci numbers:"@
}

/// The text of the line that shows `value` as the term at `index`.
pub open spec fn line_text(index: nat, value: nat) -> Seq<char> {
    "Fibonacci("@ + decimal(index) + ") = "@ + decimal(value)
}

/// The text of the report's line for the term at `index`.
pub open spec fn term_line_text(index: nat) -> Seq<char> {
    line_text(index, fib(index))
}

/// Whether `text` takes up exactly one line when it is printed: it is not
/// empty and holds no line break.
pub open spec fn is_one_line(text: Seq<char>) -> bool {
    text.len() > 0 && forall|i: int| 0 <= i < text.len() ==> #[trigger] text[i] != '\n'
}

/// Computes the term at `index` and writes its line.
pub fn term_line(index: u32) -> (line: String)
    requires
        index <= MAX_INDEX,
    ensures
        line@ == term_line_text(index as nat),
{
    let value = fibonacci(index);
    let mut line = String::from_str("Fibonacci(");
    append_decimal(&mut line, index as u64);
    line.append(") = ");
    append_decimal(&mut line, value);
    line
}

/// Builds the whole report: the header first, then one line for each of the
/// terms at indices `0` to `TERM_COUNT - 1`, in ascending order of index, so
/// that the line at position `i` is the one for the term at index `i - 1`.
pub fn report_lines() -> (lines: Vec<String>)
    ensures
        lines@.len() == TERM_COUNT + 1,
        lines@[0]@ == header_text(),
        forall|i: int| 1 <= i <= TERM_COUNT ==> (#[trigger] lines@[i])@ == term_line_text((i - 1) as nat),
        forall|i: int| 0 <= i <= TERM_COUNT ==> is_one_line((#[trigger] lines@[i])@),
{
    let mut lines: Vec<String> = Vec::new();
    lines.push(String::from_str("First 10 Fibonacci numbers:"));
    proof {
        lemma_header_one_line();
    }
    for index in 0..TERM_COUNT
        invariant
            lines@.len() == index + 1,
            lines@[0]@ == header_text(),
            forall|i: int| 1 <= i <= index ==> (#[trigger] lines@[i])@ == term_line_text((i - 1) as nat),
            forall|i: int| 0 <= i <= index ==> is_one_line((#[trigger] lines@[i])@),
    {
        proof {
            lemma_line_text_one_line(index as nat, fib(index as nat));
        }
        lines.push(term_line(index));
    }
    lines
}

/// The header takes up exactly one line.
pub proof fn lemma_header_one_line()
    ensures
        is_one_line(header_text()),
{
    reveal_strlit("First 10 Fibonacci numbers:");
}

/// The line of a term takes up exactly one line, whatever the index and the
/// value are.
pub proof fn lemma_line_text_one_line(index: nat, value: nat)
    ensures
        is_one_line(line_text(index, value)),
{
    reveal_strlit("Fibonacci(");
    reveal_strlit(") = ");
    lemma_decimal_digits(index);
    lemma_decimal_digits(value);
}

/// A line shows one index and one value only: two lines with the same text
/// were written for the same index and the same value.
pub proof fn lemma_line_text_injective(index_a: nat, value_a: nat, index_b: nat, value_b: nat)
    requires
        line_text(index_a, value_a) == line_text(index_b, value_b),
    ensures
        index_a == index_b,
        value_a == value_b,
{
    reveal_strlit("Fibonacci(");
    reveal_strlit(") = ");
    let line_a = line_text(index_a, value_a);
    let line_b = line_text(index_b, value_b);
    let (ia, va) = (decimal(index_a), decimal(value_a));
    let (ib, vb) = (decimal(index_b), decimal(value_b));
    lemma_decimal_digits(index_a);
    lemma_decimal_digits(index_b);
    let (len_a, len_b) = (ia.len() as int, ib.len() as int);
    // The index ends at the first character after the opening that is no
    // digit, so the two indices are equally long.
    assert(line_a[10 + len_a] == ')' && line_b[10 + len_b] == ')');
    assert(len_a == len_b) by {
        if len_a < len_b {
            assert(is_digit(ib[len_a]));
        }
        if len_b < len_a {
            assert(is_digit(ia[len_b]));
        }
    }
    // Index and value are then the same stretches of the same text.
    assert(ia =~= line_a.subrange(10, 10 + len_a));
    assert(ib =~= line_b.subrange(10, 10 + len_b));
    assert(va =~= line_a.subrange(14 + len_a, line_a.len() as int));
    assert(vb =~= line_b.subrange(14 + len_b, line_b.len() as int));
    lemma_decimal_injective(index_a, index_b);
    lemma_decimal_injective(value_a, value_b);
}

} // verus!
