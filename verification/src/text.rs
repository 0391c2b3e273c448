//! The text buffers of fixed room in which the widgets, the render loop and
//! the messages keep their texts.
//!
//! The buffers are those of the `heapless` crate. What is said of them here is
//! taken from that crate and not proved.

use std::str::FromStr;
use vstd::prelude::*;

verus! {

/// `heapless::String`: a text in a buffer of `N` bytes that lies in the value
/// itself. Nothing of its inside is known here.
#[verifier::external_type_specification]
#[verifier::external_body]
pub struct ExBoundedString<const N: usize>(heapless::String<N>);

/// The most bytes that the text of a widget can have.
pub open spec fn widget_capacity() -> usize {
    256
}

/// The most bytes that the text of a message can have.
pub open spec fn message_capacity() -> usize {
    128
}

/// The most bytes that the number of a readout can have.
pub open spec fn readout_capacity() -> usize {
    64
}

/// The characters that a widget's buffer of 256 bytes holds.
pub uninterp spec fn widget_text(buffer: heapless::String<256>) -> Seq<char>;

/// The characters that the render loop's buffer of 64 bytes holds.
pub uninterp spec fn readout_text(buffer: heapless::String<64>) -> Seq<char>;

/// The characters that a message's buffer of 128 bytes holds.
pub uninterp spec fn message_text(buffer: heapless::String<128>) -> Seq<char>;

/// `heapless::String::<256>::from`: a buffer that holds a copy of `text`. The
/// outside function starts from an empty buffer and appends the text, and it
/// panics where the text has more bytes than the buffer has room for.
#[verifier::external_body]
pub(crate) fn widget_buffer(text: &str) -> (buffer: heapless::String<256>)
    requires
        text.len() <= widget_capacity(),
    ensures
        widget_text(buffer) == text@,
{
    heapless::String::from(text)
}

/// `heapless::String::as_str`: the text that the buffer holds.
#[verifier::external_body]
pub(crate) fn widget_str(buffer: &heapless::String<256>) -> (text: &str)
    ensures
        text@ == widget_text(*buffer),
{
    buffer.as_str()
}

/// `heapless::String::<64>::new`: a buffer that holds no character.
#[verifier::external_body]
pub(crate) fn readout_empty() -> (buffer: heapless::String<64>)
    ensures
        readout_text(buffer) == Seq::<char>::empty(),
{
    heapless::String::new()
}

/// `heapless::String::<64>::from`: a buffer that holds a copy of `text`. The
/// outside function starts from an empty buffer and appends the text, and it
/// panics where the text has more bytes than the buffer has room for.
#[verifier::external_body]
pub(crate) fn readout_buffer(text: &str) -> (buffer: heapless::String<64>)
    requires
        text.len() <= readout_capacity(),
    ensures
        readout_text(buffer) == text@,
{
    heapless::String::from(text)
}

/// `heapless::String::as_str`: the text that the buffer holds.
#[verifier::external_body]
pub(crate) fn readout_str(buffer: &heapless::String<64>) -> (text: &str)
    ensures
        text@ == readout_text(*buffer),
{
    buffer.as_str()
}

/// `heapless::String::<128>::from_str`: a buffer that holds a copy of `text`,
/// or nothing where the text has more bytes than the buffer has room for. The
/// outside function starts from an empty buffer and appends the text.
#[verifier::external_body]
pub(crate) fn message_buffer(text: &str) -> (buffer: Result<heapless::String<128>, ()>)
    ensures
        buffer.is_ok() <==> text.len() <= message_capacity(),
        buffer matches Ok(held) ==> message_text(held) == text@,
{
    heapless::String::from_str(text)
}

/// `heapless::String::as_str`: the text that the buffer holds.
#[verifier::external_body]
pub(crate) fn message_str(buffer: &heapless::String<128>) -> (text: &str)
    ensures
        text@ == message_text(*buffer),
{
    buffer.as_str()
}

} // verus!
