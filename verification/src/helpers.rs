//! Small conversions between raw readings and display fields.

use vstd::prelude::*;

verus! {

/// The sum of a list of readings.
pub open spec fn sum_of(values: Seq<u32>) -> nat
    decreases values.len(),
{
    if values.len() == 0 {
        0
    } else {
        sum_of(values.drop_last()) + values.last() as nat
    }
}

/// The arithmetic mean of a list of readings, rounded down. The mean of no
/// readings at all is 0.
pub open spec fn mean_of(values: Seq<u32>) -> nat {
    if values.len() == 0 {
        0
    } else {
        sum_of(values) / values.len()
    }
}

/// A sum of `n` readings that are all at most `bound` is at most `n * bound`.
pub proof fn lemma_sum_within(values: Seq<u32>, bound: nat)
    requires
        forall|i: int| 0 <= i < values.len() ==> #[trigger] values[i] <= bound,
    ensures
        sum_of(values) <= values.len() * bound,
    decreases values.len(),
{
    if values.len() > 0 {
        lemma_sum_within(values.drop_last(), bound);
        assert(sum_of(values.drop_last()) + values.last() <= values.len() * bound)
            by (nonlinear_arith)
            requires
                sum_of(values.drop_last()) <= (values.len() - 1) * bound,
                values.last() <= bound,
        ;
    }
}

/// The mean of readings that are all at most `bound` is at most `bound`.
pub proof fn lemma_mean_bound(values: Seq<u32>, bound: nat)
    requires
        forall|i: int| 0 <= i < values.len() ==> #[trigger] values[i] <= bound,
    ensures
        mean_of(values) <= bound,
{
    lemma_sum_within(values, bound);
    if values.len() > 0 {
        assert(sum_of(values) / values.len() <= bound) by (nonlinear_arith)
            requires
                sum_of(values) <= values.len() * bound,
                values.len() > 0,
        ;
    }
}

/// The mean of a list of readings, rounded down; 0 for an empty list.
pub fn avg_vecu32(v: Vec<u32>) -> (mean: u32)
    ensures
        mean == mean_of(v@),
{
    let n: usize = v.len();
    if n == 0 {
        return 0;
    }
    let mut sum: u128 = 0;
    let mut i: usize = 0;
    while i < n
        invariant
            n == v.len(),
            i <= n,
            sum == sum_of(v@.take(i as int)),
            sum <= i * u32::MAX,
        decreases n - i,
    {
        proof {
            assert(v@.take(i + 1).drop_last() =~= v@.take(i as int));
            lemma_sum_within(v@.take(i + 1), u32::MAX as nat);
        }
        sum = sum + v[i] as u128;
        i = i + 1;
    }
    proof {
        assert(v@.take(n as int) =~= v@);
        assert(sum / (n as u128) <= u32::MAX) by (nonlinear_arith)
            requires
                sum <= n * u32::MAX,
                n > 0,
        ;
    }
    (sum / (n as u128)) as u32
}

/// The first four bytes of a label, filled up with zero bytes where the label
/// is shorter.
pub open spec fn padded(label: Seq<u8>) -> Seq<u8> {
    Seq::new(4, |i: int| if i < label.len() { label[i] } else { 0u8 })
}

/// Cuts or pads a label to the four bytes of a unit field.
pub fn pop_4u8(barry: &[u8]) -> (field: [u8; 4])
    ensures
        field@ == padded(barry@),
{
    let n: usize = barry.len();
    let b0: u8 = if n > 0 { barry[0] } else { 0 };
    let b1: u8 = if n > 1 { barry[1] } else { 0 };
    let b2: u8 = if n > 2 { barry[2] } else { 0 };
    let b3: u8 = if n > 3 { barry[3] } else { 0 };
    let field: [u8; 4] = [b0, b1, b2, b3];
    assert(field@ =~= padded(barry@));
    field
}

/// A decimal digit.
pub open spec fn is_digit(c: char) -> bool {
    '0' <= c && c <= '9'
}

/// The number of decimal digits that a text begins with.
pub open spec fn digit_run(text: Seq<char>) -> nat
    decreases text.len(),
{
    if text.len() > 0 && is_digit(text[0]) {
        1 + digit_run(text.skip(1))
    } else {
        0
    }
}

/// The number that a sequence of decimal digits writes.
pub open spec fn decimal(digits: Seq<char>) -> nat
    decreases digits.len(),
{
    if digits.len() == 0 {
        0
    } else {
        10 * decimal(digits.drop_last()) + (digits.last() as nat - '0' as nat) as nat
    }
}

/// A text without the double quote that it may begin with.
pub open spec fn unquoted(text: Seq<char>) -> Seq<char> {
    if text.len() > 0 && text[0] == '"' {
        text.skip(1)
    } else {
        text
    }
}

/// The number that a reading such as `45 %` or `"8192 MiB"` begins with: after
/// an optional opening double quote, the longest run of decimal digits, read
/// as a decimal number; whatever follows the digits is ignored. There is no
/// number where no digit stands in that place, or where the digits write more
/// than 64 bits can hold.
pub open spec fn reading(text: Seq<char>) -> Option<u64> {
    let body = unquoted(text);
    let digits = body.take(digit_run(body) as int);
    if digits.len() == 0 || decimal(digits) > u64::MAX {
        None
    } else {
        Some(decimal(digits) as u64)
    }
}

/// A text whose first `n` characters are digits, and which ends there or goes
/// on with something else, begins with exactly `n` digits.
pub proof fn lemma_digit_run(text: Seq<char>, n: nat)
    requires
        n <= text.len(),
        forall|j: int| 0 <= j < n ==> is_digit(#[trigger] text[j]),
        n == text.len() || !is_digit(text[n as int]),
    ensures
        digit_run(text) == n,
    decreases n,
{
    if n > 0 {
        let rest = text.skip(1);
        assert forall|j: int| 0 <= j < n - 1 implies is_digit(#[trigger] rest[j]) by {
            assert(rest[j] == text[j + 1]);
        }
        lemma_digit_run(rest, (n - 1) as nat);
    }
}

/// What the running value and the overflow mark say of the digits read so far.
spec fn tracks(value: u64, overflow: bool, digits: Seq<char>) -> bool {
    if overflow {
        decimal(digits) > u64::MAX
    } else {
        value == decimal(digits)
    }
}

/// Reads the number at the start of a reading.
pub fn nvd_r2u64(res: String) -> (number: Option<u64>)
    ensures
        number == reading(res@),
{
    let text: &str = res.as_str();
    let ghost body = unquoted(text@);
    let ghost skip: int = text@.len() - body.len();
    let mut value: u64 = 0;
    let mut overflow: bool = false;
    let mut seen: bool = false;
    let mut open: bool = true;
    let mut first: bool = true;
    for c in iter: text.chars()
        invariant
            iter.seq() == text@,
            body == unquoted(text@),
            skip == text@.len() - body.len(),
            first <==> iter.index() == 0,
            open && !first ==> {
                let n = iter.index() - skip;
                &&& 0 <= n <= body.len()
                &&& forall|j: int| 0 <= j < n ==> is_digit(#[trigger] body[j])
                &&& tracks(value, overflow, body.take(n))
                &&& seen == (n > 0)
            },
            first ==> open && !seen && !overflow && value == 0,
            !open ==> {
                &&& digit_run(body) <= body.len()
                &&& tracks(value, overflow, body.take(digit_run(body) as int))
                &&& seen == (digit_run(body) > 0)
            },
    {
        let ghost n: int = iter.index() - skip;
        if first && c == '"' {
        } else if open {
            assert(body[n] == c);
            if '0' <= c && c <= '9' {
                let d: u64 = (c as u64) - ('0' as u64);
                proof {
                    assert(body.take(0) =~= Seq::<char>::empty());
                    assert(body.take(n + 1).drop_last() =~= body.take(n));
                    assert(decimal(body.take(n + 1)) == 10 * decimal(body.take(n)) + d);
                }
                if !overflow {
                    match value.checked_mul(10) {
                        None => {
                            overflow = true;
                        },
                        Some(tens) => match tens.checked_add(d) {
                            None => {
                                overflow = true;
                            },
                            Some(next) => {
                                value = next;
                            },
                        },
                    }
                }
                seen = true;
            } else {
                proof {
                    lemma_digit_run(body, n as nat);
                }
                open = false;
            }
        }
        first = false;
    }
    proof {
        if open {
            lemma_digit_run(body, body.len());
            assert(body.take(body.len() as int) =~= body);
        }
    }
    if seen && !overflow {
        Some(value)
    } else {
        None
    }
}

} // verus!
