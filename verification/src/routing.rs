//! Routing of websocket replies: a reply to a request starts with its
//! request id, `{"rid":<digits>`, and is told apart from pushed events by
//! that prefix alone.
use vstd::prelude::*;

verus! {

/// The bytes `{"rid":` that start every reply to a request.
pub open spec fn rid_prefix() -> Seq<u8> {
    seq![123u8, 34u8, 114u8, 105u8, 100u8, 34u8, 58u8]
}

/// Whether `b` is an ASCII decimal digit.
pub open spec fn is_digit_byte(b: u8) -> bool {
    48 <= b <= 57
}

/// The index just past the run of digits that starts at `i`.
pub open spec fn digit_run_end(b: Seq<u8>, i: nat) -> nat
    decreases b.len() - i,
{
    if i < b.len() && is_digit_byte(b[i as int]) {
        digit_run_end(b, i + 1)
    } else {
        i
    }
}

/// The number written by the decimal digits `d`.
pub open spec fn digits_value(d: Seq<u8>) -> nat
    decreases d.len(),
{
    if d.len() == 0 {
        0
    } else {
        digits_value(d.drop_last()) * 10 + (d.last() - 48) as nat
    }
}

/// The request id a reply carries: `Some` when `bytes` start with
/// `{"rid":` followed by at least one digit and the digits' value fits in 64 bits.
pub open spec fn spec_extract_id(bytes: Seq<u8>) -> Option<u64> {
    if bytes.len() < 7 || bytes.take(7) != rid_prefix() {
        None
    } else {
        let end = digit_run_end(bytes, 7);
        if end == 7 {
            None
        } else {
            let v = digits_value(bytes.subrange(7, end as int));
            if v <= u64::MAX {
                Some(v as u64)
            } else {
                None
            }
        }
    }
}

proof fn lemma_digit_run_end_bounds(b: Seq<u8>, i: nat)
    requires
        i <= b.len(),
    ensures
        i <= digit_run_end(b, i) <= b.len(),
        forall|k: int| i <= k < digit_run_end(b, i) ==> is_digit_byte(#[trigger] b[k]),
        digit_run_end(b, i) < b.len() ==> !is_digit_byte(b[digit_run_end(b, i) as int]),
    decreases b.len() - i,
{
    if i < b.len() && is_digit_byte(b[i as int]) {
        lemma_digit_run_end_bounds(b, i + 1);
    }
}

proof fn lemma_digit_run_end_from(b: Seq<u8>, i: nat, j: nat)
    requires
        i <= j <= digit_run_end(b, i),
        j <= b.len(),
    ensures
        digit_run_end(b, j) == digit_run_end(b, i),
    decreases j - i,
{
    if i < j {
        lemma_digit_run_end_from(b, i + 1, j);
    }
}

proof fn lemma_digits_value_grows(d: Seq<u8>, k: int)
    requires
        0 <= k <= d.len(),
        forall|j: int| 0 <= j < d.len() ==> is_digit_byte(#[trigger] d[j]),
    ensures
        digits_value(d.take(k)) <= digits_value(d),
    decreases d.len() - k,
{
    if k < d.len() {
        lemma_digits_value_grows(d, k + 1);
        assert(d.take(k + 1).drop_last() =~= d.take(k));
    } else {
        assert(d.take(k) =~= d);
    }
}

/// The ASCII decimal text of `n`, without leading zeros.
pub open spec fn ascii_decimal(n: nat) -> Seq<u8>
    decreases n,
{
    if n < 10 {
        seq![(48 + n) as u8]
    } else {
        ascii_decimal(n / 10).push((48 + n % 10) as u8)
    }
}

/// The decimal text of `n` is one or more of the bytes `0`..`9`, whose value
/// is `n`.
proof fn lemma_ascii_decimal(n: nat)
    ensures
        ascii_decimal(n).len() >= 1,
        forall|j: int| 0 <= j < ascii_decimal(n).len() ==> 48 <= #[trigger] ascii_decimal(n)[j] <= 57,
        digits_value(ascii_decimal(n)) == n,
    decreases n,
{
    let x = ascii_decimal(n);
    if n < 10 {
        assert(x.drop_last() =~= Seq::<u8>::empty());
        assert(digits_value(x) == digits_value(x.drop_last()) * 10 + (x.last() - 48) as nat);
    } else {
        lemma_ascii_decimal(n / 10);
        let s = ascii_decimal(n / 10);
        assert(x.drop_last() =~= s);
        assert(x.last() == (48 + n % 10) as u8);
        assert((x.last() - 48) as nat == n % 10);
        assert(digits_value(x) == digits_value(s) * 10 + n % 10);
        assert((n / 10) * 10 + n % 10 == n) by (nonlinear_arith);
        assert forall|j: int| 0 <= j < ascii_decimal(n).len() implies 48 <= #[trigger] ascii_decimal(n)[j] <= 57 by {
            if j < s.len() {
                assert(ascii_decimal(n)[j] == s[j]);
            }
        }
    }
}

/// The run of digits from `i` ends at `e` when every byte before `e` is a
/// digit and the byte at `e`, if any, is not.
proof fn lemma_digit_run_to(b: Seq<u8>, i: nat, e: nat)
    requires
        i <= e <= b.len(),
        forall|k: int| i <= k < e ==> is_digit_byte(#[trigger] b[k]),
        e < b.len() ==> !is_digit_byte(b[e as int]),
    ensures
        digit_run_end(b, i) == e,
    decreases e - i,
{
    if i < e {
        lemma_digit_run_to(b, i + 1, e);
    }
}

/// A reply's id reads back as written: after `{"rid":`, the decimal digits
/// of any 64-bit `n`, followed by anything that does not start with a digit,
/// give `n`.
pub proof fn lemma_extract_id_reads_decimal(n: u64, rest: Seq<u8>)
    requires
        rest.len() > 0 ==> !(48 <= rest[0] <= 57),
    ensures
        spec_extract_id(rid_prefix() + ascii_decimal(n as nat) + rest) == Some(n),
{
    let d = ascii_decimal(n as nat);
    lemma_ascii_decimal(n as nat);
    let b = rid_prefix() + d + rest;
    assert(b.take(7) =~= rid_prefix());
    assert forall|k: int| 7 <= k < 7 + d.len() implies is_digit_byte(#[trigger] b[k]) by {
        assert(b[k] == d[k - 7]);
    }
    if rest.len() > 0 {
        assert(b[7 + d.len() as int] == rest[0]);
    }
    lemma_digit_run_to(b, 7, (7 + d.len()) as nat);
    assert(b.subrange(7, 7 + d.len() as int) =~= d);
}

/// Extracts the request id of a websocket reply, or `None` for anything
/// that is not a reply (an event).
pub fn extract_id(bytes: &[u8]) -> (r: Option<u64>)
    ensures
        r == spec_extract_id(bytes@),
{
    let prefix: [u8; 7] = [123u8, 34u8, 114u8, 105u8, 100u8, 34u8, 58u8];
    if bytes.len() < 7 {
        return None;
    }
    let mut k: usize = 0;
    while k < 7
        invariant
            k <= 7 <= bytes.len(),
            prefix@ == rid_prefix(),
            forall|j: int| 0 <= j < k ==> bytes@[j] == rid_prefix()[j],
        decreases 7 - k,
    {
        if bytes[k] != prefix[k] {
            assert(bytes@.take(7)[k as int] != rid_prefix()[k as int]);
            return None;
        }
        k = k + 1;
    }
    assert(bytes@.take(7) =~= rid_prefix());
    let ghost b = bytes@;
    proof {
        lemma_digit_run_end_bounds(b, 7);
    }
    let ghost end = digit_run_end(b, 7);
    let mut i: usize = 7;
    let mut value: u64 = 0;
    while i < bytes.len() && bytes[i] >= 48 && bytes[i] <= 57
        invariant
            b == bytes@,
            7 <= i <= end,
            end == digit_run_end(b, 7),
            end <= b.len(),
            forall|j: int| 7 <= j < end ==> is_digit_byte(#[trigger] b[j]),
            end < b.len() ==> !is_digit_byte(b[end as int]),
            value == digits_value(b.subrange(7, i as int)),
        decreases bytes.len() - i,
    {
        assert(b.subrange(7, i + 1).drop_last() =~= b.subrange(7, i as int));
        let d: u64 = (bytes[i] - 48) as u64;
        let next = match value.checked_mul(10) {
            Some(t) => t.checked_add(d),
            None => None,
        };
        match next {
            Some(n) => {
                value = n;
            },
            None => {
                proof {
                    lemma_digit_run_end_from(b, 7, i as nat);
                    lemma_digit_run_end_bounds(b, i as nat);
                    let whole = b.subrange(7, end as int);
                    assert forall|j: int| 0 <= j < whole.len() implies is_digit_byte(#[trigger] whole[j]) by {
                        assert(whole[j] == b[7 + j]);
                    }
                    lemma_digits_value_grows(whole, (i + 1 - 7) as int);
                    assert(whole.take((i + 1 - 7) as int) =~= b.subrange(7, i + 1));
                }
                return None;
            },
        }
        i = i + 1;
    }
    proof {
        if i < end {
            assert(is_digit_byte(b[i as int]));
        }
    }
    if i == 7 {
        return None;
    }
    Some(value)
}

} // verus!
