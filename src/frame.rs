//! Encoding of the commands that a client sends to the broker.
use vstd::prelude::*;
use vstd::utf8::{encode_utf8, valid_utf8};

use crate::errors::{OzesConnectorError, OzesResult};

verus! {

/// The ASCII code of the decimal digit `d` (`d < 10`).
pub open spec fn digit_byte(d: nat) -> u8 {
    (48 + d) as u8
}

/// The decimal representation of `n`, most significant digit first, without leading zeros.
pub open spec fn decimal(n: nat) -> Seq<u8>
    decreases n,
{
    if n < 10 {
        seq![digit_byte(n)]
    } else {
        decimal(n / 10).push(digit_byte(n % 10))
    }
}

/// The number of decimal digits of `n`.
pub open spec fn digits(n: nat) -> nat
    decreases n,
{
    if n < 10 {
        1
    } else {
        1 + digits(n / 10)
    }
}

pub proof fn lemma_decimal_len(n: nat)
    ensures
        decimal(n).len() == digits(n),
    decreases n,
{
    if n >= 10 {
        lemma_decimal_len(n / 10);
    }
}

/// Ten to the power `k`.
pub open spec fn pow10(k: nat) -> nat
    decreases k,
{
    if k == 0 {
        1
    } else {
        10 * pow10((k - 1) as nat)
    }
}

proof fn lemma_digits_below(n: nat, k: nat)
    requires
        k >= 1,
        n < pow10(k),
    ensures
        digits(n) <= k,
    decreases k,
{
    if n >= 10 {
        let p = pow10((k - 1) as nat);
        assert(n / 10 < p) by (nonlinear_arith)
            requires
                n < 10 * p,
        ;
        if k == 1 {
            assert(p == 1);
        } else {
            lemma_digits_below(n / 10, (k - 1) as nat);
        }
    }
}

/// A machine-sized number has at most twenty decimal digits.
pub proof fn lemma_digits_usize(n: usize)
    ensures
        digits(n as nat) <= 20,
{
    reveal_with_fuel(pow10, 21);
    assert(pow10(20) == 100000000000000000000nat);
    lemma_digits_below(n as nat, 20);
}

/// Digit counts grow with the number.
pub proof fn lemma_digits_monotonic(a: nat, b: nat)
    requires
        a <= b,
    ensures
        digits(a) <= digits(b),
    decreases b,
{
    if a >= 10 {
        assert(a / 10 <= b / 10) by (nonlinear_arith)
            requires
                a <= b,
        ;
        lemma_digits_monotonic(a / 10, b / 10);
    }
}

proof fn lemma_digits_at_most(n: nat)
    requires
        n >= 1,
    ensures
        digits(n) <= n,
    decreases n,
{
    if n >= 10 {
        lemma_digits_at_most(n / 10);
    }
}

proof fn lemma_digits_times_ten(n: nat)
    requires
        n >= 1,
    ensures
        digits(10 * n) == 1 + digits(n),
{
    assert((10 * n) / 10 == n) by (nonlinear_arith);
}

/// Writes `n` in decimal.
pub fn to_decimal(n: usize) -> (r: Vec<u8>)
    ensures
        r@ == decimal(n as nat),
    decreases n,
{
    if n < 10 {
        let mut v: Vec<u8> = Vec::new();
        v.push(48u8 + n as u8);
        v
    } else {
        let mut v = to_decimal(n / 10);
        v.push(48u8 + (n % 10) as u8);
        v
    }
}

/// The number of decimal digits needed to write `number`.
pub fn number_len(number: usize) -> (r: usize)
    ensures
        r == digits(number as nat),
{
    let v = to_decimal(number);
    proof {
        lemma_decimal_len(number as nat);
    }
    v.len()
}

/// Appends `s` to `v`.
pub fn append_bytes(v: &mut Vec<u8>, s: &[u8])
    ensures
        final(v)@ == old(v)@ + s@,
{
    let mut i: usize = 0;
    while i < s.len()
        invariant
            i <= s@.len(),
            v@ == old(v)@ + s@.subrange(0, i as int),
        decreases s@.len() - i,
    {
        v.push(s[i]);
        i = i + 1;
        assert(s@.subrange(0, i as int) == s@.subrange(0, (i - 1) as int).push(s@[i - 1]));
    }
    assert(s@.subrange(0, i as int) == s@);
}

/// The bytes of a string, UTF-8 encoded.
pub open spec fn text_bytes(s: Seq<char>) -> Seq<u8> {
    encode_utf8(s)
}

/// Appends the UTF-8 bytes of `s` to `v`.
pub fn push_text(v: &mut Vec<u8>, s: &str)
    ensures
        final(v)@ == old(v)@ + text_bytes(s@),
{
    append_bytes(v, s.as_bytes());
}

/// `message +l`: the head of a length-prefixed publish command.
pub open spec fn publish_head() -> Seq<u8> {
    seq![109u8, 101u8, 115u8, 115u8, 97u8, 103u8, 101u8, 32u8, 43u8, 108u8]
}

/// ` #`: what separates the declared length from the payload.
pub open spec fn payload_mark() -> Seq<u8> {
    seq![32u8, 35u8]
}

/// The bytes that a length-prefixed publish command holds besides the number and the payload.
pub const BASE_MESSAGE_LEN: usize = 12;

/// `total` is a consistent declared length for a payload of `len` bytes: the whole
/// command, whose own decimal width is part of it, is `total` bytes long.
pub open spec fn declares_own_length(total: nat, len: nat) -> bool {
    total == BASE_MESSAGE_LEN as nat + digits(total) + len
}

/// The declared length of the command that carries `len` payload bytes: the smallest
/// consistent one.
pub open spec fn publish_total(len: nat) -> nat {
    let base: nat = BASE_MESSAGE_LEN as nat + len;
    if digits(base + digits(base)) == digits(base) {
        base + digits(base)
    } else {
        base + digits(base) + 1
    }
}

/// `message +l<total> #<payload>`.
pub open spec fn publish_frame(payload: Seq<u8>) -> Seq<u8> {
    publish_head() + decimal(publish_total(payload.len())) + payload_mark() + payload
}

/// The declared length is consistent, and no smaller number is.
pub proof fn lemma_publish_total(len: nat)
    ensures
        declares_own_length(publish_total(len), len),
        forall|t: nat| t < publish_total(len) ==> !declares_own_length(t, len),
{
    let base: nat = BASE_MESSAGE_LEN as nat + len;
    let d = digits(base);
    lemma_digits_at_most(base);
    lemma_digits_monotonic(base, base + d);
    lemma_digits_times_ten(base);
    lemma_digits_monotonic(base + d + 1, 10 * base);
    lemma_digits_monotonic(base + d, base + d + 1);
    assert forall|t: nat| t < publish_total(len) implies !declares_own_length(t, len) by {
        if declares_own_length(t, len) {
            lemma_digits_monotonic(base, t);
        }
    }
}

/// The declared length of the publish command for a payload of `len` bytes.
pub fn total_len(len: usize) -> (r: usize)
    requires
        len + BASE_MESSAGE_LEN + 21 <= usize::MAX,
    ensures
        r == publish_total(len as nat),
{
    let base = len + BASE_MESSAGE_LEN;
    let d = number_len(base);
    proof {
        lemma_digits_usize(base);
    }
    let first = base + d;
    if number_len(first) == d {
        first
    } else {
        first + 1
    }
}

/// Encodes `message` as the length-prefixed publish command
/// `message +l<total> #<message>`, where `total` is the length of the whole command.
pub fn build_final_message(message: &[u8]) -> (r: Vec<u8>)
    requires
        message@.len() + BASE_MESSAGE_LEN + 21 <= usize::MAX,
    ensures
        r@ == publish_frame(message@),
{
    let total = total_len(message.len());
    let mut vec: Vec<u8> = vec![109u8, 101u8, 115u8, 115u8, 97u8, 103u8, 101u8, 32u8, 43u8, 108u8];
    let digits_of_total = to_decimal(total);
    append_bytes(&mut vec, digits_of_total.as_slice());
    vec.push(32u8);
    vec.push(35u8);
    append_bytes(&mut vec, message);
    proof {
        assert(vec@ == publish_frame(message@));
    }
    vec
}

/// Reading a declared length back: the value of a run of decimal digits.
pub open spec fn decimal_value(s: Seq<u8>) -> nat
    decreases s.len(),
{
    if s.len() == 0 {
        0
    } else {
        decimal_value(s.drop_last()) * 10 + (s.last() - 48) as nat
    }
}

/// A byte is a decimal digit.
pub open spec fn is_digit(b: u8) -> bool {
    48 <= b <= 57
}

pub proof fn lemma_decimal_value(n: nat)
    ensures
        decimal_value(decimal(n)) == n,
        forall|i: int| 0 <= i < decimal(n).len() ==> is_digit(#[trigger] decimal(n)[i]),
    decreases n,
{
    if n >= 10 {
        lemma_decimal_value(n / 10);
        assert(decimal(n).drop_last() == decimal(n / 10));
        assert(decimal(n).last() == digit_byte(n % 10));
        assert(digit_byte(n % 10) - 48 == n % 10);
        assert((n / 10) * 10 + n % 10 == n) by (nonlinear_arith);
        let d = decimal(n);
        assert(decimal_value(d) == decimal_value(d.drop_last()) * 10 + (d.last() - 48) as nat);
    } else {
        assert(decimal(n).drop_last() == Seq::<u8>::empty());
        assert(digit_byte(n) - 48 == n);
        let d = decimal(n);
        assert(decimal_value(d) == decimal_value(d.drop_last()) * 10 + (d.last() - 48) as nat);
        assert(decimal_value(d.drop_last()) == 0);
    }
}

/// Decoding the length-prefixed publish command gives the payload back: after the head
/// comes a run of digits ended by the separator; the number it spells is the length of
/// the whole command; that length less the fixed overhead and the width of the number is
/// the payload's length; and the payload is what follows the separator.
pub proof fn lemma_frame_round_trip(payload: Seq<u8>)
    ensures
        ({
            let f = publish_frame(payload);
            let k = digits(publish_total(payload.len())) as int;
            &&& f.subrange(0, 10) == publish_head()
            &&& forall|i: int| 10 <= i < 10 + k ==> is_digit(#[trigger] f[i])
            &&& f[10 + k] == 32u8
            &&& f[11 + k] == 35u8
            &&& decimal_value(f.subrange(10, 10 + k)) == f.len()
            &&& f.len() - BASE_MESSAGE_LEN - k == payload.len()
            &&& f.subrange(12 + k, f.len() as int) == payload
        }),
{
    let total = publish_total(payload.len());
    let num = decimal(total);
    let f = publish_frame(payload);
    let k = digits(total) as int;
    lemma_decimal_len(total);
    lemma_decimal_value(total);
    lemma_publish_total(payload.len());
    assert(f.subrange(0, 10) == publish_head());
    assert(f.subrange(10, 10 + k) == num);
    assert forall|i: int| 10 <= i < 10 + k implies is_digit(#[trigger] f[i]) by {
        assert(f[i] == num[i - 10]);
    }
    assert(f.subrange(12 + k, f.len() as int) == payload);
}

/// `PUBLISHER <queue>;`: a publisher announces the queue it sends to.
pub open spec fn announce_frame(queue: Seq<u8>) -> Seq<u8> {
    text_bytes("PUBLISHER "@) + queue + text_bytes(";"@)
}

/// Encodes the announcement of a publisher on `queue_name`.
pub fn announce_command(queue_name: &str) -> (r: Vec<u8>)
    ensures
        r@ == announce_frame(text_bytes(queue_name@)),
{
    let mut v: Vec<u8> = Vec::new();
    push_text(&mut v, "PUBLISHER ");
    push_text(&mut v, queue_name);
    push_text(&mut v, ";");
    v
}

/// `subscribe <queue> with group <group>`: a consumer joins `group` on `queue`.
pub open spec fn subscribe_frame(queue: Seq<u8>, group: Seq<u8>) -> Seq<u8> {
    text_bytes("subscribe "@) + queue + text_bytes(" with group "@) + group
}

/// Encodes the subscription of a consumer to `queue_name` under `group_name`.
pub fn subscribe_command(queue_name: &str, group_name: &str) -> (r: Vec<u8>)
    ensures
        r@ == subscribe_frame(text_bytes(queue_name@), text_bytes(group_name@)),
{
    let mut v: Vec<u8> = Vec::new();
    push_text(&mut v, "subscribe ");
    push_text(&mut v, queue_name);
    push_text(&mut v, " with group ");
    push_text(&mut v, group_name);
    v
}

/// `ok +l<n>`: a consumer acknowledges the `n` bytes it has just read.
pub open spec fn ack_frame(n: nat) -> Seq<u8> {
    text_bytes("ok +l"@) + decimal(n)
}

/// Encodes the acknowledgement of `bytes_received` bytes.
pub fn ack_command(bytes_received: usize) -> (r: Vec<u8>)
    ensures
        r@ == ack_frame(bytes_received as nat),
{
    let mut v: Vec<u8> = Vec::new();
    push_text(&mut v, "ok +l");
    let d = to_decimal(bytes_received);
    append_bytes(&mut v, d.as_slice());
    v
}

/// `message #<payload>`: a publish command without a declared length.
pub open spec fn simple_frame(payload: Seq<u8>) -> Seq<u8> {
    text_bytes("message #"@) + payload
}

/// Encodes `payload` as a publish command without a declared length.
pub fn binary_command(payload: &[u8]) -> (r: Vec<u8>)
    ensures
        r@ == simple_frame(payload@),
{
    let mut v: Vec<u8> = Vec::new();
    push_text(&mut v, "message #");
    append_bytes(&mut v, payload);
    v
}

/// `message "<payload>"`: a publish command that carries text.
pub open spec fn text_frame(payload: Seq<u8>) -> Seq<u8> {
    text_bytes("message \""@) + payload + text_bytes("\""@)
}

/// Relies on `std::str::from_utf8`: it accepts exactly the valid UTF-8 sequences.
#[verifier::external_body]
fn is_utf8(b: &[u8]) -> (r: bool)
    ensures
        r == valid_utf8(b@),
{
    std::str::from_utf8(b).is_ok()
}

/// Encodes `payload` as a quoted text publish command; a payload that is not valid UTF-8
/// is refused with `IncompatibleCommand`.
pub fn text_command(payload: &[u8]) -> (r: OzesResult<Vec<u8>>)
    ensures
        valid_utf8(payload@) ==> r is Ok && r->Ok_0@ == text_frame(payload@),
        !valid_utf8(payload@) ==> r == Err::<Vec<u8>, OzesConnectorError>(OzesConnectorError::IncompatibleCommand),
{
    if !is_utf8(payload) {
        return Err(OzesConnectorError::IncompatibleCommand);
    }
    let mut v: Vec<u8> = Vec::new();
    push_text(&mut v, "message \"");
    append_bytes(&mut v, payload);
    push_text(&mut v, "\"");
    Ok(v)
}

} // verus!
