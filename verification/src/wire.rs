//! The protocol-buffers wire format, as far as the commands for the token factory
//! use it: varints, field keys, and fields that carry their own length.

use prost::encoding::WireType;
use vstd::prelude::*;
use vstd::utf8::encode_utf8;

verus! {

/// The smallest number that a field may have.
pub const MIN_TAG: u32 = 1;

/// The largest number that a field may have.
pub const MAX_TAG: u32 = 536_870_911;

/// A number in base 128, least significant digit first; every byte but the last
/// has its high bit set.
pub open spec fn varint(n: nat) -> Seq<u8>
    decreases n,
{
    if n < 128 {
        seq![n as u8]
    } else {
        seq![(n % 128 + 128) as u8] + varint(n / 128)
    }
}

/// The key that opens field `tag` where the field carries its own length.
pub open spec fn key(tag: u32) -> Seq<u8> {
    varint((tag * 8 + 2) as nat)
}

/// Field `tag` with the content `body`: the key, the length of the content, the
/// content.
pub open spec fn length_delimited(tag: u32, body: Seq<u8>) -> Seq<u8> {
    key(tag) + varint(body.len()) + body
}

/// A text field. An empty text is the default and takes no bytes at all.
pub open spec fn string_field(tag: u32, value: Seq<char>) -> Seq<u8> {
    if value.len() == 0 {
        Seq::empty()
    } else {
        length_delimited(tag, encode_utf8(value))
    }
}

/// Calls `prost::encoding::encode_varint`.
///
/// Trusted: it appends the base-128 digits of `value`, least significant first,
/// with the high bit set on all but the last.
#[verifier::external_body]
pub(crate) fn put_varint(value: u64, buf: &mut Vec<u8>)
    ensures
        final(buf)@ == old(buf)@ + varint(value as nat),
{
    prost::encoding::encode_varint(value, buf)
}

/// Calls `prost::encoding::encode_key` for a field that carries its own length.
///
/// Trusted: it appends the varint of eight times the tag plus the wire type, two.
#[verifier::external_body]
pub(crate) fn put_key(tag: u32, buf: &mut Vec<u8>)
    requires
        MIN_TAG <= tag <= MAX_TAG,
    ensures
        final(buf)@ == old(buf)@ + key(tag),
{
    prost::encoding::encode_key(tag, WireType::LengthDelimited, buf)
}

/// Calls `prost::encoding::string::encode`.
///
/// Trusted: it appends the key of the field, the number of bytes of the text in
/// UTF-8 as a varint, and those bytes.
#[verifier::external_body]
pub(crate) fn put_string(tag: u32, value: &String, buf: &mut Vec<u8>)
    requires
        MIN_TAG <= tag <= MAX_TAG,
    ensures
        final(buf)@ == old(buf)@ + length_delimited(tag, encode_utf8(value@)),
{
    prost::encoding::string::encode(tag, value, buf)
}

/// Appends a text field, unless the text is empty.
pub(crate) fn put_string_field(tag: u32, value: &String, buf: &mut Vec<u8>)
    requires
        MIN_TAG <= tag <= MAX_TAG,
    ensures
        final(buf)@ == old(buf)@ + string_field(tag, value@),
{
    if !value.as_str().is_empty() {
        put_string(tag, value, buf);
    } else {
        assert(buf@ =~= old(buf)@ + Seq::<u8>::empty());
    }
}

/// Appends a field whose content is the encoded message `body`.
pub(crate) fn put_message_field(tag: u32, body: Vec<u8>, buf: &mut Vec<u8>)
    requires
        MIN_TAG <= tag <= MAX_TAG,
    ensures
        final(buf)@ == old(buf)@ + length_delimited(tag, body@),
{
    let mut body = body;
    let ghost content = body@;
    put_key(tag, buf);
    put_varint(body.len() as u64, buf);
    buf.append(&mut body);
    assert(buf@ =~= old(buf)@ + length_delimited(tag, content));
}

} // verus!
