//! The dirty-memory reader's parsing half: the kernel's writeback accounting
//! arrives as labeled lines of kilobyte counts, and the backlog is the sum of
//! the `Dirty:` and `Writeback:` fields, in bytes. The sum and the final
//! conversion saturate at the machine limit; a line whose field is not a
//! plain decimal count contributes nothing.

use vstd::prelude::*;
use vstd::string::StrSliceExecFns;
use crate::estimate::spec_min;
use crate::text::has_prefix;
use crate::text::str_has_prefix;

verus! {

/// Whitespace that separates fields within a line.
pub open spec fn is_field_ws(c: char) -> bool {
    c == ' ' || c == '\t' || c == '\r'
}

/// A decimal digit.
pub open spec fn is_digit(c: char) -> bool {
    48 <= c as int <= 57
}

/// The value of one digit; zero for anything else.
pub open spec fn spec_digit_value(c: char) -> int {
    if is_digit(c) {
        c as int - 48
    } else {
        0
    }
}

/// The decimal value of a digit run, most significant digit first.
pub open spec fn spec_digits_val(s: Seq<char>) -> int
    decreases s.len(),
{
    if s.len() == 0 {
        0
    } else {
        spec_digits_val(s.drop_last()) * 10 + spec_digit_value(s.last())
    }
}

/// Every character of `s` is a decimal digit.
pub open spec fn spec_all_digits(s: Seq<char>) -> bool {
    forall|k: int| 0 <= k < s.len() ==> is_digit(#[trigger] s[k])
}

/// The first position at or after `i` that ends the field whitespace run.
pub open spec fn spec_skip_ws(s: Seq<char>, i: int) -> int
    decreases s.len() - i,
{
    if 0 <= i < s.len() && is_field_ws(s[i]) {
        spec_skip_ws(s, i + 1)
    } else {
        i
    }
}

/// The first position at or after `i` holding field whitespace, or the end.
pub open spec fn spec_token_end(s: Seq<char>, i: int) -> int
    decreases s.len() - i,
{
    if 0 <= i < s.len() && !is_field_ws(s[i]) {
        spec_token_end(s, i + 1)
    } else {
        i
    }
}

/// The first position at or after `i` holding a line break, or the end.
pub open spec fn spec_line_end(s: Seq<char>, i: int) -> int
    decreases s.len() - i,
{
    if 0 <= i < s.len() && s[i] != '\n' {
        spec_line_end(s, i + 1)
    } else {
        i
    }
}

/// The kilobyte count one line contributes: the value of the field after
/// the label on a `Dirty:` or `Writeback:` line, when that field is a
/// non-empty digit run whose value fits the machine word; zero otherwise.
pub open spec fn spec_line_kb(line: Seq<char>) -> int {
    if has_prefix(line, "Dirty:"@) || has_prefix(line, "Writeback:"@) {
        let t0 = spec_token_end(line, 0);
        let j0 = spec_skip_ws(line, t0);
        let j1 = spec_token_end(line, j0);
        if 0 <= j0 <= j1 <= line.len() {
            let tok = line.subrange(j0, j1);
            if j0 < j1 && spec_all_digits(tok) && spec_digits_val(tok) <= u64::MAX {
                spec_digits_val(tok)
            } else {
                0
            }
        } else {
            0
        }
    } else {
        0
    }
}

/// The kilobyte total of all lines from position `i` on.
pub open spec fn spec_lines_kb_from(s: Seq<char>, i: int) -> int
    decreases s.len() - i,
{
    if 0 <= i < s.len() {
        let e = spec_line_end(s, i);
        if i <= e <= s.len() {
            spec_line_kb(s.subrange(i, e)) + spec_lines_kb_from(
                s,
                if e < s.len() {
                    e + 1
                } else {
                    s.len() as int
                },
            )
        } else {
            0
        }
    } else {
        0
    }
}

/// The writeback backlog a whole accounting text reports, in bytes,
/// saturating at the machine limit.
pub open spec fn spec_dirty_bytes(content: Seq<char>) -> int {
    spec_min(spec_lines_kb_from(content, 0) * 1024, u64::MAX as int)
}

/// A digit run's value is never negative.
proof fn lemma_digits_val_nonneg(s: Seq<char>)
    ensures
        spec_digits_val(s) >= 0,
    decreases s.len(),
{
    if s.len() > 0 {
        lemma_digits_val_nonneg(s.drop_last());
    }
}

/// Extending a digit run never decreases its value.
proof fn lemma_digits_val_prefix_le(s: Seq<char>, m: int)
    requires
        0 <= m <= s.len(),
    ensures
        spec_digits_val(s.subrange(0, m)) <= spec_digits_val(s),
    decreases s.len(),
{
    if m == s.len() {
        assert(s.subrange(0, m) =~= s);
    } else {
        lemma_digits_val_prefix_le(s.drop_last(), m);
        assert(s.drop_last().subrange(0, m) =~= s.subrange(0, m));
        lemma_digits_val_nonneg(s.drop_last());
    }
}

/// Scans to the end of the field whitespace run starting at `from`.
fn scan_skip_ws(s: &str, from: usize, n: usize) -> (r: usize)
    requires
        n == s@.len(),
        from <= n,
    ensures
        r == spec_skip_ws(s@, from as int),
        from <= r <= n,
{
    let mut j = from;
    while j < n
        invariant_except_break
            from <= j <= n,
            n == s@.len(),
            spec_skip_ws(s@, from as int) == spec_skip_ws(s@, j as int),
        ensures
            from <= j <= n,
            spec_skip_ws(s@, from as int) == j,
        decreases n - j,
    {
        let c = s.get_char(j);
        if !(c == ' ' || c == '\t' || c == '\r') {
            proof {
                assert(spec_skip_ws(s@, j as int) == j);
            }
            break ;
        }
        proof {
            assert(spec_skip_ws(s@, j as int) == spec_skip_ws(s@, j + 1));
        }
        j += 1;
    }
    j
}

/// Scans to the end of the field starting at `from`.
fn scan_token_end(s: &str, from: usize, n: usize) -> (r: usize)
    requires
        n == s@.len(),
        from <= n,
    ensures
        r == spec_token_end(s@, from as int),
        from <= r <= n,
{
    let mut j = from;
    while j < n
        invariant_except_break
            from <= j <= n,
            n == s@.len(),
            spec_token_end(s@, from as int) == spec_token_end(s@, j as int),
        ensures
            from <= j <= n,
            spec_token_end(s@, from as int) == j,
        decreases n - j,
    {
        let c = s.get_char(j);
        if c == ' ' || c == '\t' || c == '\r' {
            proof {
                assert(spec_token_end(s@, j as int) == j);
            }
            break ;
        }
        proof {
            assert(spec_token_end(s@, j as int) == spec_token_end(s@, j + 1));
        }
        j += 1;
    }
    j
}

/// Scans to the end of the line starting at `from`.
fn scan_line_end(s: &str, from: usize, n: usize) -> (r: usize)
    requires
        n == s@.len(),
        from <= n,
    ensures
        r == spec_line_end(s@, from as int),
        from <= r <= n,
{
    let mut j = from;
    while j < n
        invariant_except_break
            from <= j <= n,
            n == s@.len(),
            spec_line_end(s@, from as int) == spec_line_end(s@, j as int),
        ensures
            from <= j <= n,
            spec_line_end(s@, from as int) == j,
        decreases n - j,
    {
        let c = s.get_char(j);
        if c == '\n' {
            proof {
                assert(spec_line_end(s@, j as int) == j);
            }
            break ;
        }
        proof {
            assert(spec_line_end(s@, j as int) == spec_line_end(s@, j + 1));
        }
        j += 1;
    }
    j
}

/// Parses the field at `[from, to)` as a decimal count. The result exists
/// exactly when the field is a non-empty digit run whose value fits `u64`.
fn parse_digits(s: &str, from: usize, to: usize, n: usize) -> (r: Option<u64>)
    requires
        n == s@.len(),
        from <= to <= n,
    ensures
        ({
            let tok = s@.subrange(from as int, to as int);
            &&& (r is Some <==> from < to && spec_all_digits(tok) && spec_digits_val(tok)
                <= u64::MAX)
            &&& (r matches Some(v) ==> v as int == spec_digits_val(tok))
        }),
{
    let ghost tok = s@.subrange(from as int, to as int);
    if from >= to {
        return None;
    }
    let mut j = from;
    let mut acc: u64 = 0;
    while j < to
        invariant
            from <= j <= to,
            to <= n,
            n == s@.len(),
            tok == s@.subrange(from as int, to as int),
            forall|k: int| 0 <= k < j - from ==> is_digit(#[trigger] tok[k]),
            acc as int == spec_digits_val(s@.subrange(from as int, j as int)),
        decreases to - j,
    {
        let c = s.get_char(j);
        let d: u32 = c as u32;
        if d < 48 || d > 57 {
            proof {
                assert(tok[j - from] == s@[j as int]);
                assert(!is_digit(tok[j - from]));
            }
            return None;
        }
        proof {
            assert(s@.subrange(from as int, j + 1 as int).drop_last() =~= s@.subrange(
                from as int,
                j as int,
            ));
            assert(s@.subrange(from as int, j + 1 as int).last() == s@[j as int]);
            assert(tok[j - from] == s@[j as int]);
        }
        let step: u64 = (d - 48) as u64;
        let shifted = match acc.checked_mul(10) {
            Some(m) => m,
            None => {
                proof {
                    lemma_overflow_means_too_large(tok, s@, from as int, j as int, acc as int);
                }
                return None;
            },
        };
        acc = match shifted.checked_add(step) {
            Some(a) => a,
            None => {
                proof {
                    lemma_overflow_means_too_large(tok, s@, from as int, j as int, acc as int);
                }
                return None;
            },
        };
        j += 1;
    }
    proof {
        assert(s@.subrange(from as int, j as int) =~= tok);
        assert forall|k: int| 0 <= k < tok.len() implies is_digit(#[trigger] tok[k]) by {}
    }
    Some(acc)
}

/// When the accumulated value of a digit prefix already exceeds the machine
/// word after taking the next digit, the whole field cannot fit either: the
/// later digits only extend the run.
proof fn lemma_overflow_means_too_large(
    tok: Seq<char>,
    s: Seq<char>,
    from: int,
    j: int,
    acc: int,
)
    requires
        0 <= from <= j,
        j < s.len(),
        tok == s.subrange(from, tok.len() + from),
        from + tok.len() <= s.len(),
        j - from < tok.len(),
        tok[j - from] == s[j],
        is_digit(s[j]),
        acc == spec_digits_val(s.subrange(from, j)),
        acc * 10 + spec_digit_value(s[j]) > u64::MAX,
    ensures
        !(spec_all_digits(tok) && spec_digits_val(tok) <= u64::MAX),
{
    if spec_all_digits(tok) {
        let m = j + 1 - from;
        assert(tok.subrange(0, m) =~= s.subrange(from, j + 1));
        assert(s.subrange(from, j + 1).drop_last() =~= s.subrange(from, j));
        assert(s.subrange(from, j + 1).last() == s[j]);
        assert(spec_digits_val(tok.subrange(0, m)) == acc * 10 + spec_digit_value(s[j]));
        lemma_digits_val_prefix_le(tok, m);
    }
}

/// The kilobyte count one line contributes.
fn line_kb_value(line: &str) -> (v: u64)
    ensures
        v as int == spec_line_kb(line@),
{
    let n = line.unicode_len();
    let labeled = str_has_prefix(line, "Dirty:") || str_has_prefix(line, "Writeback:");
    if !labeled {
        return 0;
    }
    let t0 = scan_token_end(line, 0, n);
    let j0 = scan_skip_ws(line, t0, n);
    let j1 = scan_token_end(line, j0, n);
    match parse_digits(line, j0, j1, n) {
        Some(v) => v,
        None => 0,
    }
}

/// Sums the writeback backlog out of a whole accounting text, in bytes.
/// The result is exactly the text's backlog, saturated at the machine
/// limit.
pub fn dirty_bytes_from_meminfo(content: &str) -> (r: u64)
    ensures
        r as int == spec_dirty_bytes(content@),
{
    let n = content.unicode_len();
    let mut i: usize = 0;
    let mut acc: u64 = 0;
    let ghost mut processed: int = 0;
    while i < n
        invariant
            i <= n,
            n == content@.len(),
            0 <= processed,
            acc as int == spec_min(processed, u64::MAX as int),
            processed + spec_lines_kb_from(content@, i as int) == spec_lines_kb_from(
                content@,
                0,
            ),
        decreases n - i,
    {
        let e = scan_line_end(content, i, n);
        let line = content.substring_char(i, e);
        let v = line_kb_value(line);
        proof {
            assert(line@ == content@.subrange(i as int, e as int));
            lemma_digits_val_nonneg_of_line(line@);
            processed = processed + v as int;
        }
        acc = acc.saturating_add(v);
        i = if e < n {
            e + 1
        } else {
            n
        };
    }
    match acc.checked_mul(1024) {
        Some(b) => b,
        None => u64::MAX,
    }
}

/// A line's contribution is never negative.
proof fn lemma_digits_val_nonneg_of_line(line: Seq<char>)
    ensures
        spec_line_kb(line) >= 0,
{
    if has_prefix(line, "Dirty:"@) || has_prefix(line, "Writeback:"@) {
        let t0 = spec_token_end(line, 0);
        let j0 = spec_skip_ws(line, t0);
        let j1 = spec_token_end(line, j0);
        if 0 <= j0 <= j1 <= line.len() {
            lemma_digits_val_nonneg(line.subrange(j0, j1));
        }
    }
}

} // verus!
