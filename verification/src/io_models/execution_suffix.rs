use rand::distributions::Alphanumeric;
use rand::Rng;
use vstd::prelude::*;

verus! {

/// How many random samples a cloned execution id is suffixed with.
pub const SUFFIX_SAMPLES: usize = 10;

/// The 62 ASCII letters and digits that rand's `Alphanumeric` draws from.
pub open spec fn is_alphanumeric_byte(b: u8) -> bool {
    (48 <= b && b <= 57) || (65 <= b && b <= 90) || (97 <= b && b <= 122)
}

/// The ASCII character of a decimal digit.
pub open spec fn digit_char(d: u8) -> char {
    (d + 48) as char
}

pub open spec fn is_ascii_digit(c: char) -> bool {
    48 <= (c as int) && (c as int) <= 57
}

/// Decimal rendering of a byte, most significant digit first, no leading zero.
pub open spec fn byte_decimal(b: u8) -> Seq<char> {
    if b < 10 {
        seq![digit_char(b)]
    } else if b < 100 {
        seq![digit_char(b / 10), digit_char(b % 10)]
    } else {
        seq![digit_char(b / 100), digit_char((b / 10) % 10), digit_char(b % 10)]
    }
}

/// The decimal renderings of the bytes, one after the other.
pub open spec fn decimal_concat(bytes: Seq<u8>) -> Seq<char>
    decreases bytes.len(),
{
    if bytes.len() == 0 {
        Seq::empty()
    } else {
        decimal_concat(bytes.drop_last()) + byte_decimal(bytes.last())
    }
}

/// Calls `rand::thread_rng().sample_iter(&Alphanumeric)` and takes `count` samples.
/// Claimed of the result: exactly `count` bytes, each one of the ASCII letters and
/// digits of the `Alphanumeric` charset. Which bytes come is random and left unsaid.
/// `thread_rng` panics when the operating system cannot seed it; no argument can
/// rule that out, so no `requires` does.
#[verifier::external_body]
pub(crate) fn sample_alphanumeric(count: usize) -> (samples: Vec<u8>)
    ensures
        samples@.len() == count,
        forall|i: int| 0 <= i < count ==> is_alphanumeric_byte(#[trigger] samples@[i]),
{
    rand::thread_rng().sample_iter(&Alphanumeric).take(count).collect()
}

/// The one-character string of a decimal digit.
fn digit_str(d: u8) -> (s: &'static str)
    requires
        d < 10,
    ensures
        s@ == seq![digit_char(d)],
{
    if d == 0 {
        proof { reveal_strlit("0"); }
        "0"
    } else if d == 1 {
        proof { reveal_strlit("1"); }
        "1"
    } else if d == 2 {
        proof { reveal_strlit("2"); }
        "2"
    } else if d == 3 {
        proof { reveal_strlit("3"); }
        "3"
    } else if d == 4 {
        proof { reveal_strlit("4"); }
        "4"
    } else if d == 5 {
        proof { reveal_strlit("5"); }
        "5"
    } else if d == 6 {
        proof { reveal_strlit("6"); }
        "6"
    } else if d == 7 {
        proof { reveal_strlit("7"); }
        "7"
    } else if d == 8 {
        proof { reveal_strlit("8"); }
        "8"
    } else {
        proof { reveal_strlit("9"); }
        "9"
    }
}

/// Appends the decimal rendering of `b` to `s`.
pub fn push_byte_decimal(s: &mut String, b: u8)
    ensures
        final(s)@ == old(s)@ + byte_decimal(b),
{
    if b >= 100 {
        s.append(digit_str(b / 100));
        s.append(digit_str((b / 10) % 10));
        s.append(digit_str(b % 10));
    } else if b >= 10 {
        s.append(digit_str(b / 10));
        s.append(digit_str(b % 10));
    } else {
        s.append(digit_str(b));
    }
}

/// The decimal renderings of the samples, one after the other: what
/// `samples.map(|e| e.to_string()).collect::<String>()` gives.
pub fn decimal_suffix(samples: &Vec<u8>) -> (suffix: String)
    ensures
        suffix@ == decimal_concat(samples@),
{
    let mut suffix = String::new();
    let n = samples.len();
    for i in 0..n
        invariant
            n == samples@.len(),
            suffix@ == decimal_concat(samples@.take(i as int)),
    {
        assert(samples@.take(i + 1).drop_last() == samples@.take(i as int));
        push_byte_decimal(&mut suffix, samples[i]);
    }
    assert(samples@.take(n as int) == samples@);
    suffix
}

/// Every character of a decimal rendering is an ASCII digit, and each byte
/// takes at most three of them, at least two when it is ten or more.
pub proof fn lemma_decimal_concat_shape(bytes: Seq<u8>)
    ensures
        decimal_concat(bytes).len() <= 3 * bytes.len(),
        (forall|i: int| 0 <= i < bytes.len() ==> 10 <= #[trigger] bytes[i]) ==> 2 * bytes.len()
            <= decimal_concat(bytes).len(),
        forall|j: int|
            0 <= j < decimal_concat(bytes).len() ==> is_ascii_digit(
                #[trigger] decimal_concat(bytes)[j],
            ),
    decreases bytes.len(),
{
    if bytes.len() > 0 {
        let init = bytes.drop_last();
        lemma_decimal_concat_shape(init);
        let b = bytes.last();
        assert(forall|i: int| 0 <= i < init.len() ==> init[i] == bytes[i]);
        let head = decimal_concat(init);
        let tail = byte_decimal(b);
        assert(decimal_concat(bytes) == head + tail);
        assert forall|j: int| 0 <= j < tail.len() implies is_ascii_digit(#[trigger] tail[j]) by {
            assert(b / 100 < 10 && (b / 10) % 10 < 10 && b % 10 < 10);
        }
        assert forall|j: int|
            0 <= j < decimal_concat(bytes).len() implies is_ascii_digit(
                #[trigger] decimal_concat(bytes)[j],
            ) by {
            if j < head.len() {
                assert(decimal_concat(bytes)[j] == head[j]);
            } else {
                assert(decimal_concat(bytes)[j] == tail[j - head.len()]);
            }
        }
    }
}

} // verus!
