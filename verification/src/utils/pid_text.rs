//! Process ids as text: the content of the lock file and of the file that
//! marks a finished disconnect.

use vstd::prelude::*;

verus! {

/// Whether `b` is an ASCII digit.
pub open spec fn is_digit(b: u8) -> bool {
    48 <= b <= 57
}

/// Whether `b` is ASCII white space: a space, a tab, a line feed or a
/// carriage return.
pub open spec fn is_blank(b: u8) -> bool {
    b == 32 || b == 9 || b == 10 || b == 13
}

/// Whether `text` holds digits only.
pub open spec fn all_digits(text: Seq<u8>) -> bool {
    forall|i: int| 0 <= i < text.len() ==> is_digit(#[trigger] text[i])
}

/// The number that a digit stands for; 0 for any other byte.
pub open spec fn digit_value(b: u8) -> nat {
    if is_digit(b) {
        (b - 48) as nat
    } else {
        0
    }
}

/// `n` in decimal, without leading zeros.
pub open spec fn decimal_digits(n: nat) -> Seq<u8>
    decreases n,
{
    if n < 10 {
        seq![(48 + n) as u8]
    } else {
        decimal_digits(n / 10).push((48 + n % 10) as u8)
    }
}

/// The number that a run of decimal digits stands for.
pub open spec fn digits_value(text: Seq<u8>) -> nat
    decreases text.len(),
{
    if text.len() == 0 {
        0
    } else {
        digits_value(text.drop_last()) * 10 + digit_value(text.last())
    }
}

/// `text` without the white space at its start.
pub open spec fn trim_start(text: Seq<u8>) -> Seq<u8>
    decreases text.len(),
{
    if text.len() > 0 && is_blank(text[0]) {
        trim_start(text.drop_first())
    } else {
        text
    }
}

/// `text` without the white space at its end.
pub open spec fn trim_end(text: Seq<u8>) -> Seq<u8>
    decreases text.len(),
{
    if text.len() > 0 && is_blank(text.last()) {
        trim_end(text.drop_last())
    } else {
        text
    }
}

/// `text` without the white space around it.
pub open spec fn trimmed(text: Seq<u8>) -> Seq<u8> {
    trim_end(trim_start(text))
}

/// The process id that `text` records: white space aside, `text` must be a
/// non-empty run of digits whose value is a process id. Leading zeros are
/// accepted; a sign is not.
pub open spec fn parsed_pid(text: Seq<u8>) -> Option<u32> {
    let digits = trimmed(text);
    if digits.len() > 0 && all_digits(digits) && digits_value(digits) <= u32::MAX {
        Some(digits_value(digits) as u32)
    } else {
        None
    }
}

/// A run of digits stands for at least as much as any of its prefixes.
proof fn lemma_prefix_value(text: Seq<u8>, k: int)
    requires
        0 <= k <= text.len(),
    ensures
        digits_value(text.subrange(0, k)) <= digits_value(text),
    decreases text.len() - k,
{
    if k == text.len() {
        assert(text.subrange(0, k) =~= text);
    } else {
        lemma_prefix_value(text.drop_last(), k);
        assert(text.drop_last().subrange(0, k) =~= text.subrange(0, k));
    }
}

/// The decimal form of a number holds digits only, at least one, and
/// stands for that number.
pub proof fn lemma_decimal_digits(n: nat)
    ensures
        decimal_digits(n).len() > 0,
        all_digits(decimal_digits(n)),
        digits_value(decimal_digits(n)) == n,
    decreases n,
{
    if n < 10 {
        let text = decimal_digits(n);
        assert(text.drop_last() =~= Seq::<u8>::empty());
        assert(digits_value(text.drop_last()) == 0);
    } else {
        lemma_decimal_digits(n / 10);
        let head = decimal_digits(n / 10);
        let text = decimal_digits(n);
        assert(text.drop_last() =~= head);
        assert(is_digit(text.last()));
        assert forall|i: int| 0 <= i < text.len() implies is_digit(#[trigger] text[i]) by {
            if i < head.len() {
                assert(text[i] == head[i]);
            }
        }
    }
}

/// Text that neither starts nor ends with white space is its own trimmed
/// form.
proof fn lemma_trimmed_is_identity(text: Seq<u8>)
    requires
        text.len() > 0,
        !is_blank(text[0]),
        !is_blank(text.last()),
    ensures
        trimmed(text) == text,
{
}

/// Reading back the decimal form of a process id gives that process id.
pub proof fn lemma_pid_text_round_trip(pid: u32)
    ensures
        parsed_pid(decimal_digits(pid as nat)) == Some(pid),
{
    let text = decimal_digits(pid as nat);
    lemma_decimal_digits(pid as nat);
    assert(is_digit(text[0]));
    assert(is_digit(text.last()));
    lemma_trimmed_is_identity(text);
}

/// Appends the decimal form of `n` to `text`.
fn push_decimal(text: &mut Vec<u8>, n: u32)
    ensures
        final(text)@ == old(text)@ + decimal_digits(n as nat),
    decreases n,
{
    if n >= 10 {
        push_decimal(text, n / 10);
    }
    let digit: u8 = 48 + (n % 10) as u8;
    text.push(digit);
    assert(text@ =~= old(text)@ + decimal_digits(n as nat));
}

/// The text that records `pid`: its decimal form.
pub fn pid_text(pid: u32) -> (text: Vec<u8>)
    ensures
        text@ == decimal_digits(pid as nat),
{
    let mut text: Vec<u8> = Vec::new();
    push_decimal(&mut text, pid);
    assert(text@ =~= decimal_digits(pid as nat));
    text
}

/// Whether `b` is ASCII white space.
fn blank(b: u8) -> (r: bool)
    ensures
        r == is_blank(b),
{
    b == 32 || b == 9 || b == 10 || b == 13
}

/// Reads the process id that `text` records, if it records one.
pub fn parse_pid(text: &[u8]) -> (pid: Option<u32>)
    ensures
        pid == parsed_pid(text@),
{
    let len = text.len();
    let mut start: usize = 0;
    assert(text@.subrange(0, len as int) =~= text@);
    while start < len && blank(text[start])
        invariant
            len == text@.len(),
            0 <= start <= len,
            trim_start(text@) == trim_start(text@.subrange(start as int, len as int)),
        decreases len - start,
    {
        proof {
            let rest = text@.subrange(start as int, len as int);
            assert(rest.drop_first() =~= text@.subrange(start as int + 1, len as int));
        }
        start = start + 1;
    }
    let ghost front = text@.subrange(start as int, len as int);
    assert(trim_start(text@) == front);
    let mut end: usize = len;
    while end > start && blank(text[end - 1])
        invariant
            len == text@.len(),
            start <= end <= len,
            front == text@.subrange(start as int, len as int),
            trim_end(front) == trim_end(text@.subrange(start as int, end as int)),
        decreases end - start,
    {
        proof {
            let rest = text@.subrange(start as int, end as int);
            assert(rest.drop_last() =~= text@.subrange(start as int, end as int - 1));
        }
        end = end - 1;
    }
    let ghost digits = text@.subrange(start as int, end as int);
    assert(trimmed(text@) == digits);
    if end == start {
        return None;
    }
    let mut value: u64 = 0;
    let mut at: usize = start;
    while at < end
        invariant
            len == text@.len(),
            start <= at <= end <= len,
            digits == text@.subrange(start as int, end as int),
            trimmed(text@) == digits,
            all_digits(digits.subrange(0, at - start)),
            value == digits_value(digits.subrange(0, at - start)),
            value <= u32::MAX,
        decreases end - at,
    {
        let b = text[at];
        let ghost seen = digits.subrange(0, at - start + 1);
        proof {
            assert(seen.drop_last() =~= digits.subrange(0, at - start));
            assert(seen.last() == b);
            assert(digits[at - start] == b);
        }
        if b < 48 || b > 57 {
            return None;
        }
        value = value * 10 + (b - 48) as u64;
        assert(value == digits_value(seen));
        if value > u32::MAX as u64 {
            proof {
                lemma_prefix_value(digits, at - start + 1);
            }
            return None;
        }
        proof {
            assert forall|i: int| 0 <= i < seen.len() implies is_digit(#[trigger] seen[i]) by {
                if i < seen.len() - 1 {
                    assert(seen[i] == digits.subrange(0, at - start)[i]);
                }
            }
        }
        at = at + 1;
    }
    assert(digits.subrange(0, at - start) =~= digits);
    Some(value as u32)
}

} // verus!
