//! The message that one session publishes, and the text of its payload.

use core::fmt::Write;
use vstd::prelude::*;
use vstd::slice::slice_to_vec;

verus! {

/// The longest payload, in bytes, that a message carries.
pub const MAX_PAYLOAD: usize = 32;

/// Delivery guarantee asked of the broker.
#[derive(Clone, Copy, Debug, PartialEq, Eq, Structural)]
pub enum QualityOfService {
    AtMostOnce,
    AtLeastOnce,
    ExactlyOnce,
}

/// The decimal digits of `n` as ASCII bytes, most significant first.
pub open spec fn decimal_digits(n: nat) -> Seq<u8>
    decreases n,
{
    if n < 10 {
        seq![(48 + n) as u8]
    } else {
        decimal_digits(n / 10).push((48 + n % 10) as u8)
    }
}

/// Ten to the power `k`.
pub open spec fn pow10(k: nat) -> nat
    decreases k,
{
    if k == 0 {
        1
    } else {
        10 * pow10((k - 1) as nat)
    }
}

/// A number below `10^k` has at most `k` decimal digits, and at least one.
pub proof fn lemma_decimal_digits_len(n: nat, k: nat)
    requires
        k >= 1,
        n < pow10(k),
    ensures
        1 <= decimal_digits(n).len() <= k,
    decreases k,
{
    reveal_with_fuel(pow10, 2);
    if n >= 10 {
        assert(k >= 2);
        assert(n / 10 < pow10((k - 1) as nat));
        lemma_decimal_digits_len(n / 10, (k - 1) as nat);
    }
}

/// A 32-bit number has at most ten decimal digits.
pub proof fn lemma_decimal_digits_u32(value: u32)
    ensures
        1 <= decimal_digits(value as nat).len() <= 10,
{
    reveal_with_fuel(pow10, 11);
    assert(pow10(10) == 10_000_000_000);
    lemma_decimal_digits_len(value as nat, 10);
}

/// `heapless::String`, the fixed-capacity buffer in which a payload is written.
#[verifier::external_type_specification]
#[verifier::external_body]
pub struct ExHeaplessString<const N: usize>(heapless::String<N>);

/// The bytes that a payload buffer holds.
pub uninterp spec fn buffered_text(buffer: heapless::String<32>) -> Seq<u8>;

/// `heapless::String::new`: a buffer without text.
#[verifier::external_body]
fn text_new() -> (buffer: heapless::String<32>)
    ensures
        buffered_text(buffer) == Seq::<u8>::empty(),
{
    heapless::String::new()
}

/// `core::fmt::Write::write_fmt` on a `heapless::String`, for one integer
/// shown by `Display`: the decimal digits of the number are appended where
/// they fit into what is left of the 32 bytes, and that is when the call
/// succeeds.
#[verifier::external_body]
fn text_write_decimal(buffer: &mut heapless::String<32>, value: u32) -> (written: bool)
    ensures
        written == (buffered_text(*old(buffer)).len() + decimal_digits(value as nat).len() <= 32),
        written ==> buffered_text(*final(buffer)) == buffered_text(*old(buffer)) + decimal_digits(
            value as nat,
        ),
{
    write!(buffer, "{}", value).is_ok()
}

/// `str::as_bytes` on the text that a `heapless::String` derefs to: the
/// bytes that the buffer holds.
#[verifier::external_body]
fn text_bytes(buffer: &heapless::String<32>) -> (bytes: &[u8])
    ensures
        bytes@ == buffered_text(*buffer),
{
    buffer.as_bytes()
}

/// A message for the broker. It is made for one publish attempt.
#[derive(Clone, Debug, PartialEq, Eq)]
pub struct Message {
    pub topic: String,
    pub payload: Vec<u8>,
    pub qos: QualityOfService,
    pub retain: bool,
}

/// A message as a mathematical value.
pub struct MessageView {
    pub topic: Seq<char>,
    pub payload: Seq<u8>,
    pub qos: QualityOfService,
    pub retain: bool,
}

impl View for Message {
    type V = MessageView;

    open spec fn view(&self) -> MessageView {
        MessageView {
            topic: self.topic@,
            payload: self.payload@,
            qos: self.qos,
            retain: self.retain,
        }
    }
}

/// The message that reports the reading `value`: its decimal text, on the
/// telemetry topic, delivered at least once and retained by the broker.
pub open spec fn telemetry_message(value: u32) -> MessageView {
    MessageView {
        topic: "random/1"@,
        payload: decimal_digits(value as nat),
        qos: QualityOfService::AtLeastOnce,
        retain: true,
    }
}

/// The decimal text of `value`, written through the payload buffer.
pub fn format_payload(value: u32) -> (payload: Vec<u8>)
    ensures
        payload@ == decimal_digits(value as nat),
        1 <= payload@.len() <= 10,
{
    proof {
        lemma_decimal_digits_u32(value);
    }
    let mut buffer = text_new();
    let written = text_write_decimal(&mut buffer, value);
    assert(written);
    assert(buffered_text(buffer) =~= decimal_digits(value as nat));
    slice_to_vec(text_bytes(&buffer))
}

impl Message {
    /// Whether the payload fits the bound on its size.
    pub open spec fn within_bounds(&self) -> bool {
        self.payload@.len() <= MAX_PAYLOAD
    }

    /// The message that reports the reading `value`.
    pub fn telemetry(value: u32) -> (message: Message)
        ensures
            message@ == telemetry_message(value),
            message.within_bounds(),
    {
        Message {
            topic: "random/1".to_owned(),
            payload: format_payload(value),
            qos: QualityOfService::AtLeastOnce,
            retain: true,
        }
    }
}

} // verus!
