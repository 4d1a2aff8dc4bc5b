use vstd::arithmetic::div_mod::lemma_div_is_ordered;
use vstd::arithmetic::mul::lemma_mul_inequality;
use vstd::prelude::*;
use vstd::string::StringSliceAdditionalSpecFns;

verus! {

/// One hundred percent, in millionths of a percent.
pub const FULL_PROGRESS: u64 = 100_000_000;

pub open spec fn is_digit(b: u8) -> bool {
    48 <= b <= 57
}

/// The key of the progress field that reports elapsed output time in microseconds.
pub open spec fn progress_key() -> Seq<u8> {
    seq![111u8, 117, 116, 95, 116, 105, 109, 101, 95, 117, 115, 61]
}

pub open spec fn all_digits(d: Seq<u8>) -> bool {
    forall|i: int| 0 <= i < d.len() ==> is_digit(#[trigger] d[i])
}

/// The number written by a sequence of decimal digits.
pub open spec fn digits_value(d: Seq<u8>) -> nat
    decreases d.len(),
{
    if d.len() == 0 {
        0
    } else {
        digits_value(d.drop_last()) * 10 + (d.last() - 48) as nat
    }
}

/// The digits of a progress value: what follows the key, less one leading `+`.
pub open spec fn value_digits(rest: Seq<u8>) -> Seq<u8> {
    if rest.len() > 0 && rest[0] == 43 {
        rest.drop_first()
    } else {
        rest
    }
}

/// The sample carried by one line of progress output: present exactly when the
/// line is `out_time_us=` followed by an optional `+` and one or more decimal
/// digits whose value fits in a `u64`.
pub open spec fn progress_value(line: Seq<u8>) -> Option<u64> {
    let k = progress_key().len();
    if line.len() >= k && line.subrange(0, k as int) == progress_key() {
        let d = value_digits(line.subrange(k as int, line.len() as int));
        if d.len() > 0 && all_digits(d) && digits_value(d) <= u64::MAX {
            Some(digits_value(d) as u64)
        } else {
            None
        }
    } else {
        None
    }
}

/// The decimal digits of a natural number in ASCII, most significant first.
pub open spec fn decimal_bytes(n: nat) -> Seq<u8>
    decreases n,
{
    if n < 10 {
        seq![(n + 48) as u8]
    } else {
        decimal_bytes(n / 10).push((n % 10 + 48) as u8)
    }
}

/// A progress reading, in millionths of a percent of the expected total.
pub open spec fn percent_of(elapsed_us: nat, total_us: nat) -> nat
    recommends
        total_us > 0,
{
    let e = if elapsed_us < total_us {
        elapsed_us
    } else {
        total_us
    };
    ((e as int) * (FULL_PROGRESS as int) / (total_us as int)) as nat
}

/// The progress event for a sample, if the expected total gives a baseline.
pub open spec fn normalized(elapsed_us: u64, expected_total_us: i64) -> Option<ProgressEvent> {
    if expected_total_us > 0 {
        Some(ProgressEvent { micro_percent: percent_of(elapsed_us as nat, expected_total_us as nat) as u64 })
    } else {
        None
    }
}

/// A progress notification: the share of the expected total that has been
/// processed, in millionths of a percent (`FULL_PROGRESS` is 100%).
#[derive(Clone, Copy, Debug, PartialEq, Eq, Structural)]
pub struct ProgressEvent {
    pub micro_percent: u64,
}

fn progress_key_bytes() -> (r: Vec<u8>)
    ensures
        r@ == progress_key(),
{
    let r = vec![111u8, 117, 116, 95, 116, 105, 109, 101, 95, 117, 115, 61];
    assert(r@ =~= progress_key());
    r
}

proof fn lemma_digits_value_grows(d: Seq<u8>, i: int)
    requires
        0 <= i <= d.len(),
        all_digits(d),
    ensures
        digits_value(d.subrange(0, i)) <= digits_value(d),
    decreases d.len() - i,
{
    if i < d.len() {
        lemma_digits_value_grows(d, i + 1);
        let p = d.subrange(0, i + 1);
        assert(p.drop_last() =~= d.subrange(0, i));
        assert(is_digit(d[i]));
    } else {
        assert(d.subrange(0, i) =~= d);
    }
}

/// The sample carried by the bytes `buf[start..end]`, read as one line.
pub fn progress_value_in(buf: &[u8], start: usize, end: usize) -> (r: Option<u64>)
    requires
        start <= end <= buf@.len(),
    ensures
        r == progress_value(buf@.subrange(start as int, end as int)),
{
    let ghost line = buf@.subrange(start as int, end as int);
    let key = progress_key_bytes();
    let klen = key.len();
    if end - start < klen {
        return None;
    }
    let mut i: usize = 0;
    while i < klen
        invariant
            0 <= i <= klen,
            klen == progress_key().len(),
            key@ == progress_key(),
            start + klen <= end <= buf@.len(),
            line == buf@.subrange(start as int, end as int),
            forall|j: int| 0 <= j < i ==> line[j] == progress_key()[j],
        decreases klen - i,
    {
        if buf[start + i] != key[i] {
            assert(line.subrange(0, klen as int)[i as int] != progress_key()[i as int]);
            return None;
        }
        i = i + 1;
    }
    assert(line.subrange(0, klen as int) =~= progress_key());
    let ghost rest = line.subrange(klen as int, line.len() as int);
    let mut d0: usize = start + klen;
    if d0 < end && buf[d0] == 43u8 {
        assert(rest[0] == 43);
        d0 = d0 + 1;
    }
    let ghost digits = buf@.subrange(d0 as int, end as int);
    assert(digits =~= value_digits(rest));
    if d0 == end {
        return None;
    }
    let mut acc: u64 = 0;
    let mut p: usize = d0;
    assert(digits.subrange(0, 0) =~= Seq::<u8>::empty());
    while p < end
        invariant
            d0 <= p <= end <= buf@.len(),
            d0 < end,
            digits == buf@.subrange(d0 as int, end as int),
            klen == progress_key().len(),
            start + klen <= end,
            line == buf@.subrange(start as int, end as int),
            line.subrange(0, klen as int) == progress_key(),
            rest == line.subrange(klen as int, line.len() as int),
            digits == value_digits(rest),
            all_digits(digits.subrange(0, p - d0)),
            acc as nat == digits_value(digits.subrange(0, p - d0)),
        decreases end - p,
    {
        let ghost n: int = p - d0;
        let b = buf[p];
        assert(b == digits[n]);
        if b < 48 || b > 57 {
            assert(!is_digit(digits[n]));
            return None;
        }
        assert(digits.subrange(0, n + 1).drop_last() =~= digits.subrange(0, n));
        assert(digits.subrange(0, n + 1).last() == b);
        let next: u128 = acc as u128 * 10 + (b - 48) as u128;
        if next > u64::MAX as u128 {
            proof {
                if all_digits(digits) {
                    lemma_digits_value_grows(digits, n + 1);
                }
            }
            return None;
        }
        acc = next as u64;
        p = p + 1;
        assert(all_digits(digits.subrange(0, n + 1))) by {
            assert forall|j: int| 0 <= j < n + 1 implies is_digit(
                #[trigger] digits.subrange(0, n + 1)[j],
            ) by {
                if j < n {
                    assert(digits.subrange(0, n + 1)[j] == digits.subrange(0, n)[j]);
                }
            }
        }
    }
    assert(digits.subrange(0, digits.len() as int) =~= digits);
    Some(acc)
}

proof fn lemma_decimal_bytes(n: nat)
    ensures
        decimal_bytes(n).len() > 0,
        all_digits(decimal_bytes(n)),
        digits_value(decimal_bytes(n)) == n,
    decreases n,
{
    let d = decimal_bytes(n);
    if n >= 10 {
        lemma_decimal_bytes(n / 10);
        assert(d.drop_last() =~= decimal_bytes(n / 10));
        assert(d.last() == (n % 10 + 48) as u8);
        assert(n % 10 < 10);
        assert(((n % 10 + 48) as u8 - 48) as nat == n % 10);
        assert(n == (n / 10) * 10 + n % 10);
        assert(digits_value(d) == digits_value(d.drop_last()) * 10 + (d.last() - 48) as nat);
        assert(digits_value(d) == (n / 10) * 10 + n % 10);
        assert forall|j: int| 0 <= j < d.len() implies is_digit(#[trigger] d[j]) by {
            if j < d.len() - 1 {
                assert(d[j] == decimal_bytes(n / 10)[j]);
            }
        }
    } else {
        assert(d.drop_last() =~= Seq::<u8>::empty());
        assert(d.last() == (n + 48) as u8);
        assert(digits_value(d) == digits_value(d.drop_last()) * 10 + (d.last() - 48) as nat);
    }
}

/// Every `u64`, written in decimal after the key, reads back as itself.
pub proof fn lemma_progress_round_trip(n: u64)
    ensures
        progress_value(progress_key() + decimal_bytes(n as nat)) == Some(n),
{
    lemma_decimal_bytes(n as nat);
    let line = progress_key() + decimal_bytes(n as nat);
    let k = progress_key().len();
    assert(line.subrange(0, k as int) =~= progress_key());
    assert(line.subrange(k as int, line.len() as int) =~= decimal_bytes(n as nat));
    assert(is_digit(decimal_bytes(n as nat)[0]));
}

/// Reads one line of the process's progress output.
///
/// A sample comes back exactly when the line is `out_time_us=<digits>`, with
/// an optional `+` before the digits, and the number fits in a `u64`; every
/// other line gives `None`.
pub fn parse_progress(line: &str) -> (r: Option<u64>)
    ensures
        r == progress_value(line.spec_bytes()),
{
    let b = line.as_bytes();
    let r = progress_value_in(b, 0, b.len());
    assert(b@.subrange(0, b@.len() as int) =~= b@);
    r
}

/// Turns a sample into a progress event against the expected total duration.
///
/// No event comes when the expected total is zero or negative; otherwise the
/// event's share is the sample over the total, clamped to at most 100%.
pub fn normalize(elapsed_us: u64, expected_total_us: i64) -> (r: Option<ProgressEvent>)
    ensures
        r == normalized(elapsed_us, expected_total_us),
        r matches Some(ev) ==> ev.micro_percent <= FULL_PROGRESS,
{
    if expected_total_us <= 0 {
        return None;
    }
    let total = expected_total_us as u64;
    if elapsed_us >= total {
        assert((total as int * FULL_PROGRESS) / (total as int) == FULL_PROGRESS) by (nonlinear_arith)
            requires
                total > 0,
        ;
        return Some(ProgressEvent { micro_percent: FULL_PROGRESS });
    }
    let prod: u128 = elapsed_us as u128 * FULL_PROGRESS as u128;
    let q: u128 = prod / total as u128;
    assert(q < FULL_PROGRESS) by (nonlinear_arith)
        requires
            q == (elapsed_us as int * FULL_PROGRESS as int) / total as int,
            elapsed_us < total,
            total > 0,
    ;
    Some(ProgressEvent { micro_percent: q as u64 })
}

/// For a positive expected total, every event lies between 0% and 100%, and
/// the share never falls as the elapsed time grows.
pub proof fn lemma_normalize_bounded_monotone(a: u64, b: u64, expected_total_us: i64)
    requires
        expected_total_us > 0,
        a <= b,
    ensures
        normalized(a, expected_total_us) is Some,
        normalized(b, expected_total_us) is Some,
        normalized(a, expected_total_us)->0.micro_percent <= normalized(
            b,
            expected_total_us,
        )->0.micro_percent,
        normalized(b, expected_total_us)->0.micro_percent <= FULL_PROGRESS,
{
    let t = expected_total_us as int;
    let ea: int = if (a as int) < t { a as int } else { t };
    let eb: int = if (b as int) < t { b as int } else { t };
    lemma_mul_inequality(ea, eb, FULL_PROGRESS as int);
    lemma_div_is_ordered(ea * FULL_PROGRESS, eb * FULL_PROGRESS, t);
    lemma_mul_inequality(eb, t, FULL_PROGRESS as int);
    lemma_div_is_ordered(eb * FULL_PROGRESS, t * FULL_PROGRESS, t);
    assert((t * FULL_PROGRESS) / t == FULL_PROGRESS) by (nonlinear_arith)
        requires
            t > 0,
    ;
}

/// No event comes without a positive expected total, whatever the sample.
pub proof fn lemma_normalize_needs_baseline(x: u64, expected_total_us: i64)
    requires
        expected_total_us <= 0,
    ensures
        normalized(x, expected_total_us) is None,
{
}

} // verus!
