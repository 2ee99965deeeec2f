//! Items as the bytes of the compact binary encoding.
//!
//! Every item starts with a head: three bits for the kind of the item and
//! five for its argument, which is the number itself, the number of entries
//! of a map, or the number of bytes of a text. Arguments above 23 follow
//! the first byte in one, two, four or eight bytes, most significant first,
//! in the shortest form that holds them.

use vstd::prelude::*;
use vstd::string::StringSliceAdditionalSpecFns;
use crate::network::spot_price::{Request, Response};
use crate::network::wire::{
    encode_request, encode_response, spec_request_items, spec_response_items, Item,
};

verus! {

/// The head of an item of kind `major` with the given argument.
pub open spec fn spec_head(major: nat, argument: nat) -> Seq<u8> {
    if argument <= 23 {
        seq![(major * 32 + argument) as u8]
    } else if argument <= 0xff {
        seq![(major * 32 + 24) as u8, argument as u8]
    } else if argument <= 0xffff {
        seq![(major * 32 + 25) as u8, (argument / 0x100) as u8, (argument % 0x100) as u8]
    } else if argument <= 0xffff_ffff {
        seq![
            (major * 32 + 26) as u8,
            (argument / 0x100_0000) as u8,
            (argument / 0x1_0000 % 0x100) as u8,
            (argument / 0x100 % 0x100) as u8,
            (argument % 0x100) as u8,
        ]
    } else {
        seq![
            (major * 32 + 27) as u8,
            (argument / 0x100_0000_0000_0000 % 0x100) as u8,
            (argument / 0x1_0000_0000_0000 % 0x100) as u8,
            (argument / 0x100_0000_0000 % 0x100) as u8,
            (argument / 0x1_0000_0000 % 0x100) as u8,
            (argument / 0x100_0000 % 0x100) as u8,
            (argument / 0x1_0000 % 0x100) as u8,
            (argument / 0x100 % 0x100) as u8,
            (argument % 0x100) as u8,
        ]
    }
}

/// The bytes of one item.
pub open spec fn spec_item_bytes(item: Item) -> Seq<u8> {
    match item {
        Item::MapHead(entries) => spec_head(5, entries as nat),
        Item::Text(name) => spec_head(3, name.spec_str().spec_bytes().len())
            + name.spec_str().spec_bytes(),
        Item::Unsigned(value) => spec_head(0, value as nat),
    }
}

/// The bytes of a sequence of items: those of each item, one after the
/// other.
pub open spec fn spec_bytes_of(items: Seq<Item>) -> Seq<u8>
    decreases items.len(),
{
    if items.len() == 0 {
        Seq::empty()
    } else {
        spec_bytes_of(items.drop_last()) + spec_item_bytes(items.last())
    }
}

/// Calls `serialize_u64` of `serde_cbor`'s `Serializer` on a serializer
/// that writes to `out`. The crate writes a head of kind 0 with the number
/// as its argument, in the shortest of the five forms, and writing to a
/// vector does not fail: the bytes of that head are claimed to be appended.
#[verifier::external_body]
fn write_unsigned(out: &mut Vec<u8>, value: u64)
    ensures
        final(out)@ == old(out)@ + spec_head(0, value as nat),
{
    let _ = serde::Serializer::serialize_u64(&mut serde_cbor::Serializer::new(out), value);
}

/// Calls `serialize_str` of `serde_cbor`'s `Serializer` on a serializer
/// that writes to `out`. The crate writes a head of kind 3 with the number
/// of bytes of the text as its argument, and then those bytes: that is
/// claimed to be appended.
#[verifier::external_body]
fn write_text(out: &mut Vec<u8>, text: &str)
    ensures
        final(out)@ == old(out)@ + spec_head(3, text.spec_bytes().len()) + text.spec_bytes(),
{
    let _ = serde::Serializer::serialize_str(&mut serde_cbor::Serializer::new(out), text);
}

/// Calls `serialize_map` of `serde_cbor`'s `Serializer`, with a known
/// number of entries, on a serializer that writes to `out`. The crate
/// writes a head of kind 5 with the number of entries as its argument and
/// nothing else, neither then nor when the map is dropped: the bytes of
/// that head are claimed to be appended.
#[verifier::external_body]
fn write_map_head(out: &mut Vec<u8>, entries: usize)
    ensures
        final(out)@ == old(out)@ + spec_head(5, entries as nat),
{
    let _ = serde::Serializer::serialize_map(&mut serde_cbor::Serializer::new(out), Some(entries));
}

/// Appends the bytes of one item.
pub fn write_item(out: &mut Vec<u8>, item: Item)
    ensures
        final(out)@ == old(out)@ + spec_item_bytes(item),
{
    match item {
        Item::MapHead(entries) => write_map_head(out, entries as usize),
        Item::Text(name) => {
            write_text(out, name.as_str());
            assert(out@ =~= old(out)@ + spec_item_bytes(item));
        },
        Item::Unsigned(value) => write_unsigned(out, value),
    }
}

/// The bytes of a sequence of items.
pub fn to_bytes(items: &Vec<Item>) -> (bytes: Vec<u8>)
    ensures
        bytes@ == spec_bytes_of(items@),
{
    let mut bytes: Vec<u8> = Vec::new();
    let mut done: usize = 0;
    while done < items.len()
        invariant
            done <= items.len(),
            bytes@ == spec_bytes_of(items@.take(done as int)),
        decreases items.len() - done,
    {
        write_item(&mut bytes, items[done]);
        assert(items@.take(done + 1).drop_last() =~= items@.take(done as int));
        done += 1;
    }
    assert(items@.take(done as int) =~= items@);
    bytes
}

/// The bytes that a request goes over the wire as.
pub fn request_to_bytes(request: Request) -> (bytes: Vec<u8>)
    ensures
        bytes@ == spec_bytes_of(spec_request_items(request)),
{
    let items = encode_request(request);
    to_bytes(&items)
}

/// The bytes that a response goes over the wire as.
pub fn response_to_bytes(response: Response) -> (bytes: Vec<u8>)
    ensures
        bytes@ == spec_bytes_of(spec_response_items(response)),
{
    let items = encode_response(response);
    to_bytes(&items)
}

} // verus!
