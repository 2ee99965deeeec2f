//! Bytes of the compact binary encoding read back as items.
//!
//! Only what the writer produces is read: a head in another than its
//! shortest form, a kind of item that the messages do not use, or a text
//! that is none of the names, ends the reading without a result.

use vstd::prelude::*;
use vstd::string::{is_ascii_spec_bytes, StringSliceAdditionalSpecFns};
use crate::network::cbor::{spec_bytes_of, spec_head, spec_item_bytes};
use crate::network::spot_price::{Request, Response};
use crate::network::wire::{
    decode_request, decode_response, lemma_request_round_trips, lemma_response_round_trips,
    spec_decode_request, spec_decode_response, spec_request_items, spec_response_items, Item,
    Name,
};

verus! {

/// The names, in the order in which a text is held against them.
pub open spec fn spec_names() -> Seq<Name> {
    seq![
        Name::Xmr,
        Name::Error,
        Name::NoSwapsAccepted,
        Name::AmountBelowMinimum,
        Name::AmountAboveMaximum,
        Name::BalanceTooLow,
        Name::BlockchainNetworkMismatch,
        Name::Other,
        Name::Min,
        Name::Max,
        Name::Buy,
        Name::Cli,
        Name::Asb,
        Name::Bitcoin,
        Name::Monero,
        Name::Mainnet,
        Name::Testnet,
        Name::Signet,
        Name::Regtest,
        Name::Stagenet,
        Name::Btc,
        Name::BlockchainNetwork,
    ]
}

/// The first name from position `from` on that is written as `text`.
pub open spec fn spec_find_name(text: Seq<u8>, from: nat) -> Option<Name>
    decreases spec_names().len() - from,
{
    if from >= spec_names().len() {
        None
    } else if spec_names()[from as int].spec_str().spec_bytes() == text {
        Some(spec_names()[from as int])
    } else {
        spec_find_name(text, from + 1)
    }
}

/// The number that two bytes hold, most significant first.
pub open spec fn spec_be2(bytes: Seq<u8>, at: int) -> nat {
    (bytes[at] * 0x100 + bytes[at + 1]) as nat
}

/// The number that four bytes hold, most significant first.
pub open spec fn spec_be4(bytes: Seq<u8>, at: int) -> nat {
    spec_be2(bytes, at) * 0x1_0000 + spec_be2(bytes, at + 2)
}

/// The number that eight bytes hold, most significant first.
pub open spec fn spec_be8(bytes: Seq<u8>, at: int) -> nat {
    spec_be4(bytes, at) * 0x1_0000_0000 + spec_be4(bytes, at + 4)
}

/// The head at position `at`: its kind, its argument, and the number of
/// bytes it takes. There is none where the bytes end too early, or where
/// the argument is not in its shortest form.
pub open spec fn spec_read_head(bytes: Seq<u8>, at: int) -> Option<(u8, u64, nat)> {
    if at >= bytes.len() {
        None
    } else {
        let major = bytes[at] / 32;
        let short = bytes[at] % 32;
        if short <= 23 {
            Some((major, short as u64, 1))
        } else if short == 24 && at + 2 <= bytes.len() && bytes[at + 1] > 23 {
            Some((major, bytes[at + 1] as u64, 2))
        } else if short == 25 && at + 3 <= bytes.len() && spec_be2(bytes, at + 1) > 0xff {
            Some((major, spec_be2(bytes, at + 1) as u64, 3))
        } else if short == 26 && at + 5 <= bytes.len() && spec_be4(bytes, at + 1) > 0xffff {
            Some((major, spec_be4(bytes, at + 1) as u64, 5))
        } else if short == 27 && at + 9 <= bytes.len() && spec_be8(bytes, at + 1) > 0xffff_ffff {
            Some((major, spec_be8(bytes, at + 1) as u64, 9))
        } else {
            None
        }
    }
}

/// The item at position `at`, and the number of bytes it takes.
pub open spec fn spec_read_item(bytes: Seq<u8>, at: int) -> Option<(Item, nat)> {
    match spec_read_head(bytes, at) {
        None => None,
        Some((major, argument, taken)) => if major == 0 {
            Some((Item::Unsigned(argument), taken))
        } else if major == 5 && argument <= u32::MAX {
            Some((Item::MapHead(argument as u32), taken))
        } else if major == 3 && at + taken + argument <= bytes.len() {
            match spec_find_name(bytes.subrange(at + taken, at + taken + argument), 0) {
                Some(name) => Some((Item::Text(name), taken + argument as nat)),
                None => None,
            }
        } else {
            None
        },
    }
}

/// The items that the bytes from position `at` on hold, if they hold items
/// to their end.
pub open spec fn spec_read_items(bytes: Seq<u8>, at: int) -> Option<Seq<Item>>
    decreases bytes.len() - at,
{
    if at >= bytes.len() {
        Some(Seq::empty())
    } else {
        match spec_read_item(bytes, at) {
            None => None,
            Some((item, taken)) => if taken == 0 {
                None
            } else {
                match spec_read_items(bytes, at + taken) {
                    None => None,
                    Some(rest) => Some(seq![item] + rest),
                }
            },
        }
    }
}

/// The length of a name in bytes, and its bytes at the positions 0, 1 and
/// 6 (0 where a name is shorter): no two names agree in all four.
pub open spec fn spec_marks(name: Name) -> (nat, u8, u8, u8) {
    match name {
        Name::Xmr => (3, 88, 109, 0),
        Name::Error => (5, 69, 114, 0),
        Name::NoSwapsAccepted => (15, 78, 111, 115),
        Name::AmountBelowMinimum => (18, 65, 109, 66),
        Name::AmountAboveMaximum => (18, 65, 109, 65),
        Name::BalanceTooLow => (13, 66, 97, 101),
        Name::BlockchainNetworkMismatch => (25, 66, 108, 104),
        Name::Other => (5, 79, 116, 0),
        Name::Min => (3, 109, 105, 0),
        Name::Max => (3, 109, 97, 0),
        Name::Buy => (3, 98, 117, 0),
        Name::Cli => (3, 99, 108, 0),
        Name::Asb => (3, 97, 115, 0),
        Name::Bitcoin => (7, 98, 105, 110),
        Name::Monero => (6, 109, 111, 0),
        Name::Mainnet => (7, 77, 97, 116),
        Name::Testnet => (7, 84, 101, 116),
        Name::Signet => (6, 83, 105, 0),
        Name::Regtest => (7, 82, 101, 116),
        Name::Stagenet => (8, 83, 116, 101),
        Name::Btc => (3, 98, 116, 0),
        Name::BlockchainNetwork => (18, 98, 108, 104),
    }
}

/// The bytes of a name at the positions that tell the names apart.
#[verifier::spinoff_prover]
#[verifier::rlimit(60)]
proof fn lemma_marks(name: Name)
    ensures
        name.spec_str().spec_bytes().len() == spec_marks(name).0,
        name.spec_str().spec_bytes()[0] == spec_marks(name).1,
        name.spec_str().spec_bytes()[1] == spec_marks(name).2,
        spec_marks(name).0 > 6 ==> name.spec_str().spec_bytes()[6] == spec_marks(name).3,
        3 <= spec_marks(name).0 <= 25,
{
    match name {
        Name::Xmr => {
            reveal_strlit("Xmr");
            is_ascii_spec_bytes("Xmr");
        },
        Name::Error => {
            reveal_strlit("Error");
            is_ascii_spec_bytes("Error");
        },
        Name::NoSwapsAccepted => {
            reveal_strlit("NoSwapsAccepted");
            is_ascii_spec_bytes("NoSwapsAccepted");
        },
        Name::AmountBelowMinimum => {
            reveal_strlit("AmountBelowMinimum");
            is_ascii_spec_bytes("AmountBelowMinimum");
        },
        Name::AmountAboveMaximum => {
            reveal_strlit("AmountAboveMaximum");
            is_ascii_spec_bytes("AmountAboveMaximum");
        },
        Name::BalanceTooLow => {
            reveal_strlit("BalanceTooLow");
            is_ascii_spec_bytes("BalanceTooLow");
        },
        Name::BlockchainNetworkMismatch => {
            reveal_strlit("BlockchainNetworkMismatch");
            is_ascii_spec_bytes("BlockchainNetworkMismatch");
        },
        Name::Other => {
            reveal_strlit("Other");
            is_ascii_spec_bytes("Other");
        },
        Name::Min => {
            reveal_strlit("min");
            is_ascii_spec_bytes("min");
        },
        Name::Max => {
            reveal_strlit("max");
            is_ascii_spec_bytes("max");
        },
        Name::Buy => {
            reveal_strlit("buy");
            is_ascii_spec_bytes("buy");
        },
        Name::Cli => {
            reveal_strlit("cli");
            is_ascii_spec_bytes("cli");
        },
        Name::Asb => {
            reveal_strlit("asb");
            is_ascii_spec_bytes("asb");
        },
        Name::Bitcoin => {
            reveal_strlit("bitcoin");
            is_ascii_spec_bytes("bitcoin");
        },
        Name::Monero => {
            reveal_strlit("monero");
            is_ascii_spec_bytes("monero");
        },
        Name::Mainnet => {
            reveal_strlit("Mainnet");
            is_ascii_spec_bytes("Mainnet");
        },
        Name::Testnet => {
            reveal_strlit("Testnet");
            is_ascii_spec_bytes("Testnet");
        },
        Name::Signet => {
            reveal_strlit("Signet");
            is_ascii_spec_bytes("Signet");
        },
        Name::Regtest => {
            reveal_strlit("Regtest");
            is_ascii_spec_bytes("Regtest");
        },
        Name::Stagenet => {
            reveal_strlit("Stagenet");
            is_ascii_spec_bytes("Stagenet");
        },
        Name::Btc => {
            reveal_strlit("btc");
            is_ascii_spec_bytes("btc");
        },
        Name::BlockchainNetwork => {
            reveal_strlit("blockchain_network");
            is_ascii_spec_bytes("blockchain_network");
        },
    }
}

/// Two names are written differently.
pub proof fn lemma_names_are_written_apart(a: Name, b: Name)
    requires
        a != b,
    ensures
        a.spec_str().spec_bytes() != b.spec_str().spec_bytes(),
{
    lemma_marks(a);
    lemma_marks(b);
}

/// The position of a name among the names.
pub open spec fn spec_position(name: Name) -> nat {
    choose|at: nat| at < spec_names().len() && spec_names()[at as int] == name
}

/// Every name stands among the names.
proof fn lemma_position(name: Name)
    ensures
        spec_position(name) < spec_names().len(),
        spec_names()[spec_position(name) as int] == name,
{
    let at: nat = match name {
        Name::Xmr => 0,
        Name::Error => 1,
        Name::NoSwapsAccepted => 2,
        Name::AmountBelowMinimum => 3,
        Name::AmountAboveMaximum => 4,
        Name::BalanceTooLow => 5,
        Name::BlockchainNetworkMismatch => 6,
        Name::Other => 7,
        Name::Min => 8,
        Name::Max => 9,
        Name::Buy => 10,
        Name::Cli => 11,
        Name::Asb => 12,
        Name::Bitcoin => 13,
        Name::Monero => 14,
        Name::Mainnet => 15,
        Name::Testnet => 16,
        Name::Signet => 17,
        Name::Regtest => 18,
        Name::Stagenet => 19,
        Name::Btc => 20,
        Name::BlockchainNetwork => 21,
    };
    assert(at < spec_names().len() && spec_names()[at as int] == name);
}

/// A text that is read from `from` on, at or before the place of the name
/// that it is written for, is read as that name.
proof fn lemma_find_name_from(name: Name, from: nat)
    requires
        from <= spec_position(name),
    ensures
        spec_find_name(name.spec_str().spec_bytes(), from) == Some(name),
    decreases spec_position(name) - from,
{
    lemma_position(name);
    if from < spec_position(name) {
        lemma_names_are_written_apart(spec_names()[from as int], name);
        lemma_find_name_from(name, from + 1);
    }
}

/// The bytes of a name are read as that name.
pub proof fn lemma_name_round_trips(name: Name)
    ensures
        spec_find_name(name.spec_str().spec_bytes(), 0) == Some(name),
{
    lemma_find_name_from(name, 0);
}

/// The four bytes of a number below 2 to the 32, put together again.
#[verifier::spinoff_prover]
#[verifier::rlimit(60)]
proof fn lemma_four_bytes(value: nat)
    requires
        value <= 0xffff_ffff,
    ensures
        value / 0x100_0000 <= 0xff,
        ((value / 0x100_0000) * 0x100 + value / 0x1_0000 % 0x100) * 0x1_0000 + ((value / 0x100
            % 0x100) * 0x100 + value % 0x100) == value,
{
    let high = value / 0x1_0000;
    let low = value % 0x1_0000;
    assert(value == high * 0x1_0000 + low);
    assert(high / 0x100 == value / 0x100_0000);
    assert(high == (high / 0x100) * 0x100 + high % 0x100);
    assert(low / 0x100 == value / 0x100 % 0x100);
    assert(low % 0x100 == value % 0x100);
    assert(low == (low / 0x100) * 0x100 + low % 0x100);
}

/// The eight bytes of a number below 2 to the 64, in terms of the four
/// bytes of its two halves.
#[verifier::spinoff_prover]
#[verifier::rlimit(60)]
proof fn lemma_eight_bytes(value: nat)
    requires
        value <= u64::MAX,
    ensures
        value / 0x1_0000_0000 <= 0xffff_ffff,
        value / 0x100_0000_0000_0000 % 0x100 == (value / 0x1_0000_0000) / 0x100_0000,
        value / 0x1_0000_0000_0000 % 0x100 == (value / 0x1_0000_0000) / 0x1_0000 % 0x100,
        value / 0x100_0000_0000 % 0x100 == (value / 0x1_0000_0000) / 0x100 % 0x100,
        value / 0x1_0000_0000 % 0x100 == (value / 0x1_0000_0000) % 0x100,
        value / 0x100_0000 % 0x100 == (value % 0x1_0000_0000) / 0x100_0000,
        value / 0x1_0000 % 0x100 == (value % 0x1_0000_0000) / 0x1_0000 % 0x100,
        value / 0x100 % 0x100 == (value % 0x1_0000_0000) / 0x100 % 0x100,
        value % 0x100 == (value % 0x1_0000_0000) % 0x100,
        (value / 0x1_0000_0000) * 0x1_0000_0000 + value % 0x1_0000_0000 == value,
{
    let v: u64 = value as u64;
    assert(v / 0x1_0000_0000 <= 0xffff_ffff) by (bit_vector);
    assert(v / 0x100_0000_0000_0000 % 0x100 == (v / 0x1_0000_0000) / 0x100_0000)
        by (bit_vector);
    assert(v / 0x1_0000_0000_0000 % 0x100 == (v / 0x1_0000_0000) / 0x1_0000 % 0x100)
        by (bit_vector);
    assert(v / 0x100_0000_0000 % 0x100 == (v / 0x1_0000_0000) / 0x100 % 0x100)
        by (bit_vector);
    assert(v / 0x100_0000 % 0x100 == (v % 0x1_0000_0000) / 0x100_0000) by (bit_vector);
    assert(v / 0x1_0000 % 0x100 == (v % 0x1_0000_0000) / 0x1_0000 % 0x100) by (bit_vector);
    assert(v / 0x100 % 0x100 == (v % 0x1_0000_0000) / 0x100 % 0x100) by (bit_vector);
    assert(v % 0x100 == (v % 0x1_0000_0000) % 0x100) by (bit_vector);
}

/// A head that was written at position `at` is read there, with its kind
/// and its argument.
#[verifier::spinoff_prover]
#[verifier::rlimit(60)]
proof fn lemma_head_round_trips(bytes: Seq<u8>, at: int, major: nat, argument: nat)
    requires
        major <= 7,
        argument <= u64::MAX,
        0 <= at,
        at + spec_head(major, argument).len() <= bytes.len(),
        bytes.subrange(at, at + spec_head(major, argument).len()) == spec_head(major, argument),
    ensures
        spec_read_head(bytes, at) == Some(
            (major as u8, argument as u64, spec_head(major, argument).len()),
        ),
{
    let head = spec_head(major, argument);
    let part = bytes.subrange(at, at + head.len());
    assert(bytes[at] == part[0]);
    if argument <= 23 {
    } else if argument <= 0xff {
        assert(bytes[at + 1] == part[1]);
    } else if argument <= 0xffff {
        assert(bytes[at + 1] == part[1]);
        assert(bytes[at + 2] == part[2]);
        assert(spec_be2(bytes, at + 1) == argument);
    } else if argument <= 0xffff_ffff {
        assert(bytes[at + 1] == part[1]);
        assert(bytes[at + 2] == part[2]);
        assert(bytes[at + 3] == part[3]);
        assert(bytes[at + 4] == part[4]);
        lemma_four_bytes(argument);
        assert(spec_be4(bytes, at + 1) == argument);
    } else {
        assert(bytes[at + 1] == part[1]);
        assert(bytes[at + 2] == part[2]);
        assert(bytes[at + 3] == part[3]);
        assert(bytes[at + 4] == part[4]);
        assert(bytes[at + 5] == part[5]);
        assert(bytes[at + 6] == part[6]);
        assert(bytes[at + 7] == part[7]);
        assert(bytes[at + 8] == part[8]);
        let high = argument / 0x1_0000_0000;
        let low = argument % 0x1_0000_0000;
        lemma_eight_bytes(argument);
        lemma_four_bytes(high);
        lemma_four_bytes(low);
        assert(spec_be4(bytes, at + 1) == high);
        assert(spec_be4(bytes, at + 5) == low);
        assert(spec_be8(bytes, at + 1) == argument);
    }
}

/// An item that was written at position `at` is read there.
#[verifier::spinoff_prover]
#[verifier::rlimit(60)]
proof fn lemma_item_round_trips(bytes: Seq<u8>, at: int, item: Item)
    requires
        0 <= at,
        at + spec_item_bytes(item).len() <= bytes.len(),
        bytes.subrange(at, at + spec_item_bytes(item).len()) == spec_item_bytes(item),
    ensures
        spec_read_item(bytes, at) == Some((item, spec_item_bytes(item).len())),
        spec_item_bytes(item).len() > 0,
{
    let written = spec_item_bytes(item);
    match item {
        Item::MapHead(entries) => {
            lemma_head_round_trips(bytes, at, 5, entries as nat);
        },
        Item::Unsigned(value) => {
            lemma_head_round_trips(bytes, at, 0, value as nat);
        },
        Item::Text(name) => {
            lemma_marks(name);
            lemma_name_round_trips(name);
            let text = name.spec_str().spec_bytes();
            let head = spec_head(3, text.len());
            assert(written == head + text);
            assert(bytes.subrange(at, at + head.len()) =~= head) by {
                assert forall|i: int| 0 <= i < head.len() implies bytes[at + i] == head[i] by {
                    assert(bytes[at + i] == bytes.subrange(at, at + written.len())[i]);
                }
            }
            assert(bytes.subrange(at + head.len(), at + head.len() + text.len()) =~= text) by {
                assert forall|i: int| 0 <= i < text.len() implies bytes[at + head.len() + i]
                    == text[i] by {
                    assert(bytes[at + head.len() + i] == bytes.subrange(
                        at,
                        at + written.len(),
                    )[head.len() + i]);
                }
            }
            lemma_head_round_trips(bytes, at, 3, text.len());
        },
    }
}

/// The bytes of items are those of the first item, then those of the rest.
#[verifier::spinoff_prover]
#[verifier::rlimit(60)]
proof fn lemma_bytes_of_first(items: Seq<Item>)
    requires
        items.len() > 0,
    ensures
        spec_bytes_of(items) == spec_item_bytes(items[0]) + spec_bytes_of(items.skip(1)),
    decreases items.len(),
{
    if items.len() == 1 {
        assert(items.drop_last() =~= Seq::<Item>::empty());
        assert(items.skip(1) =~= Seq::<Item>::empty());
        assert(spec_bytes_of(items.drop_last()) =~= Seq::<u8>::empty());
        assert(spec_bytes_of(items) =~= spec_item_bytes(items[0]) + spec_bytes_of(
            items.skip(1),
        ));
    } else {
        lemma_bytes_of_first(items.drop_last());
        assert(items.drop_last().skip(1) =~= items.skip(1).drop_last());
        assert(items.drop_last()[0] == items[0]);
        assert(items.skip(1).last() == items.last());
        assert(spec_bytes_of(items) =~= spec_item_bytes(items[0]) + spec_bytes_of(
            items.skip(1),
        ));
    }
}

/// Bytes that end with the bytes of some items are read, from where those
/// begin, as these items.
#[verifier::spinoff_prover]
#[verifier::rlimit(60)]
proof fn lemma_read_from(bytes: Seq<u8>, at: int, items: Seq<Item>)
    requires
        0 <= at <= bytes.len(),
        bytes.subrange(at, bytes.len() as int) == spec_bytes_of(items),
    ensures
        spec_read_items(bytes, at) == Some(items),
    decreases items.len(),
{
    let tail = bytes.subrange(at, bytes.len() as int);
    if items.len() == 0 {
        assert(items =~= Seq::<Item>::empty());
    } else {
        lemma_bytes_of_first(items);
        let first = spec_item_bytes(items[0]);
        let rest = spec_bytes_of(items.skip(1));
        assert(tail.len() == first.len() + rest.len());
        assert(bytes.subrange(at, at + first.len()) =~= first) by {
            assert forall|i: int| 0 <= i < first.len() implies bytes[at + i] == first[i] by {
                assert(bytes[at + i] == tail[i]);
            }
        }
        lemma_item_round_trips(bytes, at, items[0]);
        assert(first.len() > 0 && at < bytes.len());
        assert(spec_read_item(bytes, at) == Some((items[0], first.len())));
        assert(bytes.subrange(at + first.len(), bytes.len() as int) =~= rest) by {
            assert forall|i: int| 0 <= i < rest.len() implies bytes[at + first.len() + i]
                == rest[i] by {
                assert(bytes[at + first.len() + i] == tail[first.len() + i]);
            }
        }
        lemma_read_from(bytes, at + first.len(), items.skip(1));
        assert(spec_read_items(bytes, at + first.len()) == Some(items.skip(1)));
        assert(seq![items[0]] + items.skip(1) =~= items);
        assert(spec_read_items(bytes, at) == Some(seq![items[0]] + items.skip(1)));
    }
}

/// Reading what was written gives the items back, whichever they are.
pub proof fn lemma_bytes_round_trip(items: Seq<Item>)
    ensures
        spec_read_items(spec_bytes_of(items), 0) == Some(items),
{
    let bytes = spec_bytes_of(items);
    assert(bytes.subrange(0, bytes.len() as int) =~= bytes);
    lemma_read_from(bytes, 0, items);
}

/// Four bytes, taken out again of the number that they were put together
/// to.
#[verifier::spinoff_prover]
#[verifier::rlimit(60)]
proof fn lemma_four_bytes_apart(a: nat, b: nat, c: nat, d: nat)
    requires
        a <= 0xff,
        b <= 0xff,
        c <= 0xff,
        d <= 0xff,
    ensures
        ({
            let value = (a * 0x100 + b) * 0x1_0000 + (c * 0x100 + d);
            &&& value <= 0xffff_ffff
            &&& value / 0x100_0000 == a
            &&& value / 0x1_0000 % 0x100 == b
            &&& value / 0x100 % 0x100 == c
            &&& value % 0x100 == d
        }),
{
}

/// Two halves, taken out again of the number that they were put together
/// to.
#[verifier::spinoff_prover]
#[verifier::rlimit(60)]
proof fn lemma_halves_apart(high: nat, low: nat)
    requires
        high <= 0xffff_ffff,
        low <= 0xffff_ffff,
    ensures
        high * 0x1_0000_0000 + low <= u64::MAX,
        (high * 0x1_0000_0000 + low) / 0x1_0000_0000 == high,
        (high * 0x1_0000_0000 + low) % 0x1_0000_0000 == low,
{
}

/// A head that is read at position `at` is what the writer writes for its
/// kind and its argument.
#[verifier::spinoff_prover]
#[verifier::rlimit(60)]
proof fn lemma_head_was_written(bytes: Seq<u8>, at: int)
    requires
        0 <= at,
        spec_read_head(bytes, at) is Some,
    ensures
        ({
            let (major, argument, taken) = spec_read_head(bytes, at).unwrap();
            &&& major <= 7
            &&& at + taken <= bytes.len()
            &&& taken == spec_head(major as nat, argument as nat).len()
            &&& bytes.subrange(at, at + taken) == spec_head(major as nat, argument as nat)
        }),
{
    let (major, argument, taken) = spec_read_head(bytes, at).unwrap();
    let short = bytes[at] % 32;
    let value = argument as nat;
    if short <= 23 {
    } else if short == 24 {
    } else if short == 25 {
    } else if short == 26 {
        lemma_four_bytes_apart(
            bytes[at + 1] as nat,
            bytes[at + 2] as nat,
            bytes[at + 3] as nat,
            bytes[at + 4] as nat,
        );
    } else {
        lemma_four_bytes_apart(
            bytes[at + 1] as nat,
            bytes[at + 2] as nat,
            bytes[at + 3] as nat,
            bytes[at + 4] as nat,
        );
        lemma_four_bytes_apart(
            bytes[at + 5] as nat,
            bytes[at + 6] as nat,
            bytes[at + 7] as nat,
            bytes[at + 8] as nat,
        );
        lemma_halves_apart(spec_be4(bytes, at + 1), spec_be4(bytes, at + 5));
        lemma_eight_bytes(value);
    }
    assert(bytes.subrange(at, at + taken) =~= spec_head(major as nat, value));
}

/// A name that is found for a text is written as that text.
proof fn lemma_found_name_was_written(text: Seq<u8>, from: nat)
    requires
        spec_find_name(text, from) is Some,
    ensures
        spec_find_name(text, from).unwrap().spec_str().spec_bytes() == text,
    decreases spec_names().len() - from,
{
    if from < spec_names().len() && spec_names()[from as int].spec_str().spec_bytes() != text {
        lemma_found_name_was_written(text, from + 1);
    }
}

/// An item that is read at position `at` is what the writer writes for it.
#[verifier::spinoff_prover]
#[verifier::rlimit(60)]
proof fn lemma_item_was_written(bytes: Seq<u8>, at: int)
    requires
        0 <= at,
        spec_read_item(bytes, at) is Some,
    ensures
        ({
            let (item, taken) = spec_read_item(bytes, at).unwrap();
            &&& taken > 0
            &&& at + taken <= bytes.len()
            &&& bytes.subrange(at, at + taken) == spec_item_bytes(item)
        }),
{
    lemma_head_was_written(bytes, at);
    let (major, argument, head_taken) = spec_read_head(bytes, at).unwrap();
    let (item, taken) = spec_read_item(bytes, at).unwrap();
    if major == 3 {
        let text = bytes.subrange(at + head_taken, at + head_taken + argument);
        lemma_found_name_was_written(text, 0);
        assert(bytes.subrange(at, at + taken) =~= bytes.subrange(at, at + head_taken) + text);
    }
}

/// Items that are read from position `at` on are what the writer writes as
/// the bytes from there on.
#[verifier::spinoff_prover]
#[verifier::rlimit(60)]
proof fn lemma_items_were_written(bytes: Seq<u8>, at: int)
    requires
        0 <= at <= bytes.len(),
        spec_read_items(bytes, at) is Some,
    ensures
        bytes.subrange(at, bytes.len() as int) == spec_bytes_of(spec_read_items(bytes, at).unwrap()),
    decreases bytes.len() - at,
{
    let items = spec_read_items(bytes, at).unwrap();
    let tail = bytes.subrange(at, bytes.len() as int);
    if at >= bytes.len() {
        assert(tail =~= spec_bytes_of(items));
    } else {
        lemma_item_was_written(bytes, at);
        let (item, taken) = spec_read_item(bytes, at).unwrap();
        let rest = spec_read_items(bytes, at + taken).unwrap();
        lemma_items_were_written(bytes, at + taken);
        assert(items =~= seq![item] + rest);
        assert(items[0] == item);
        assert(items.skip(1) =~= rest);
        lemma_bytes_of_first(items);
        assert(tail =~= bytes.subrange(at, at + taken) + bytes.subrange(
            at + taken,
            bytes.len() as int,
        ));
    }
}

/// Bytes are read as items exactly where they are the bytes that the
/// writer writes for these items.
pub proof fn lemma_read_is_inverse_of_write(bytes: Seq<u8>, items: Seq<Item>)
    ensures
        spec_read_items(bytes, 0) == Some(items) <==> bytes == spec_bytes_of(items),
{
    if spec_read_items(bytes, 0) == Some(items) {
        lemma_items_were_written(bytes, 0);
        assert(bytes.subrange(0, bytes.len() as int) =~= bytes);
    }
    if bytes == spec_bytes_of(items) {
        lemma_bytes_round_trip(items);
    }
}

/// The names, in the order in which a text is held against them.
fn names() -> (all: [Name; 22])
    ensures
        all@ == spec_names(),
{
    let all = [
        Name::Xmr,
        Name::Error,
        Name::NoSwapsAccepted,
        Name::AmountBelowMinimum,
        Name::AmountAboveMaximum,
        Name::BalanceTooLow,
        Name::BlockchainNetworkMismatch,
        Name::Other,
        Name::Min,
        Name::Max,
        Name::Buy,
        Name::Cli,
        Name::Asb,
        Name::Bitcoin,
        Name::Monero,
        Name::Mainnet,
        Name::Testnet,
        Name::Signet,
        Name::Regtest,
        Name::Stagenet,
        Name::Btc,
        Name::BlockchainNetwork,
    ];
    assert(all@ =~= spec_names());
    all
}

/// Whether the `len` bytes at position `at` are exactly `text`.
fn holds_text(bytes: &Vec<u8>, at: usize, len: usize, text: &[u8]) -> (same: bool)
    requires
        at + len <= bytes.len(),
    ensures
        same == (bytes@.subrange(at as int, at + len) == text@),
{
    if text.len() != len {
        return false;
    }
    let mut done: usize = 0;
    while done < len
        invariant
            done <= len,
            len == text.len(),
            at + len <= bytes.len(),
            forall|i: int| 0 <= i < done ==> bytes@[at + i] == text@[i],
        decreases len - done,
    {
        if bytes[at + done] != text[done] {
            assert(bytes@.subrange(at as int, at + len)[done as int] != text@[done as int]);
            return false;
        }
        done += 1;
    }
    assert(bytes@.subrange(at as int, at + len) =~= text@);
    true
}

/// The first name that is written as the `len` bytes at position `at`.
#[verifier::spinoff_prover]
#[verifier::rlimit(60)]
fn find_name(bytes: &Vec<u8>, at: usize, len: usize) -> (found: Option<Name>)
    requires
        at + len <= bytes.len(),
    ensures
        found == spec_find_name(bytes@.subrange(at as int, at + len), 0),
{
    let all = names();
    let ghost text = bytes@.subrange(at as int, at + len);
    let mut next: usize = 0;
    while next < 22
        invariant
            next <= 22,
            at + len <= bytes.len(),
            all@ == spec_names(),
            text == bytes@.subrange(at as int, at + len),
            spec_find_name(text, 0) == spec_find_name(text, next as nat),
        decreases 22 - next,
    {
        let name = all[next];
        if holds_text(bytes, at, len, name.as_str().as_bytes()) {
            return Some(name);
        }
        next += 1;
    }
    None
}

/// Reads the head at position `at`.
#[verifier::spinoff_prover]
#[verifier::rlimit(60)]
fn read_head(bytes: &Vec<u8>, at: usize) -> (head: Option<(u8, u64, usize)>)
    ensures
        head matches Some(read) ==> spec_read_head(bytes@, at as int) == Some(
            (read.0, read.1, read.2 as nat),
        ) && at + read.2 <= bytes.len(),
        head is None ==> spec_read_head(bytes@, at as int) is None,
{
    let n = bytes.len();
    if at >= n {
        return None;
    }
    let major: u8 = bytes[at] / 32;
    let short: u8 = bytes[at] % 32;
    let left: usize = n - at;
    if short <= 23 {
        Some((major, short as u64, 1))
    } else if short == 24 && left >= 2 && bytes[at + 1] > 23 {
        Some((major, bytes[at + 1] as u64, 2))
    } else if short == 25 && left >= 3 {
        let value: u64 = bytes[at + 1] as u64 * 0x100 + bytes[at + 2] as u64;
        if value > 0xff {
            Some((major, value, 3))
        } else {
            None
        }
    } else if short == 26 && left >= 5 {
        let high: u64 = bytes[at + 1] as u64 * 0x100 + bytes[at + 2] as u64;
        let low: u64 = bytes[at + 3] as u64 * 0x100 + bytes[at + 4] as u64;
        let value: u64 = high * 0x1_0000 + low;
        if value > 0xffff {
            Some((major, value, 5))
        } else {
            None
        }
    } else if short == 27 && left >= 9 {
        let a: u64 = bytes[at + 1] as u64 * 0x100 + bytes[at + 2] as u64;
        let b: u64 = bytes[at + 3] as u64 * 0x100 + bytes[at + 4] as u64;
        let c: u64 = bytes[at + 5] as u64 * 0x100 + bytes[at + 6] as u64;
        let d: u64 = bytes[at + 7] as u64 * 0x100 + bytes[at + 8] as u64;
        let high: u64 = a * 0x1_0000 + b;
        let low: u64 = c * 0x1_0000 + d;
        let value: u64 = high * 0x1_0000_0000 + low;
        if value > 0xffff_ffff {
            Some((major, value, 9))
        } else {
            None
        }
    } else {
        None
    }
}

/// Reads the item at position `at`.
#[verifier::spinoff_prover]
#[verifier::rlimit(60)]
fn read_item(bytes: &Vec<u8>, at: usize) -> (item: Option<(Item, usize)>)
    ensures
        item matches Some(read) ==> spec_read_item(bytes@, at as int) == Some(
            (read.0, read.1 as nat),
        ) && at + read.1 <= bytes.len() && read.1 > 0,
        item is None ==> spec_read_item(bytes@, at as int) is None,
{
    match read_head(bytes, at) {
        None => None,
        Some((major, argument, taken)) => {
            if major == 0 {
                Some((Item::Unsigned(argument), taken))
            } else if major == 5 && argument <= u32::MAX as u64 {
                Some((Item::MapHead(argument as u32), taken))
            } else if major == 3 && argument <= (bytes.len() - at - taken) as u64 {
                let len: usize = argument as usize;
                match find_name(bytes, at + taken, len) {
                    Some(name) => Some((Item::Text(name), taken + len)),
                    None => None,
                }
            } else {
                None
            }
        },
    }
}

/// Reads bytes as items: the items that they hold from their first byte to
/// their last, or nothing where some byte is not part of such an item.
#[verifier::spinoff_prover]
#[verifier::rlimit(60)]
pub fn from_bytes(bytes: &Vec<u8>) -> (items: Option<Vec<Item>>)
    ensures
        items matches Some(read) ==> bytes@ == spec_bytes_of(read@),
        items is None ==> forall|other: Seq<Item>| bytes@ != spec_bytes_of(other),
        items matches Some(read) ==> spec_read_items(bytes@, 0) == Some(read@),
        items is None ==> spec_read_items(bytes@, 0) is None,
{
    let mut items: Vec<Item> = Vec::new();
    let mut at: usize = 0;
    while at < bytes.len()
        invariant
            at <= bytes.len(),
            spec_read_items(bytes@, 0) == (match spec_read_items(bytes@, at as int) {
                Some(rest) => Some(items@ + rest),
                None => None,
            }),
        decreases bytes.len() - at,
    {
        match read_item(bytes, at) {
            None => {
                proof {
                    assert forall|other: Seq<Item>| bytes@ != spec_bytes_of(other) by {
                        lemma_read_is_inverse_of_write(bytes@, other);
                    }
                }
                return None;
            },
            Some((item, taken)) => {
                proof {
                    match spec_read_items(bytes@, at + taken) {
                        Some(rest) => {
                            assert(items@ + (seq![item] + rest) =~= items@.push(item) + rest);
                        },
                        None => {},
                    }
                }
                items.push(item);
                at += taken;
            },
        }
    }
    assert(items@ + Seq::<Item>::empty() =~= items@);
    proof {
        lemma_read_is_inverse_of_write(bytes@, items@);
    }
    Some(items)
}

/// The request that a frame holds: the one that its items are written for.
pub open spec fn spec_request_from_bytes(bytes: Seq<u8>) -> Option<Request> {
    match spec_read_items(bytes, 0) {
        Some(items) => spec_decode_request(items),
        None => None,
    }
}

/// The response that a frame holds: the one that its items are written for.
pub open spec fn spec_response_from_bytes(bytes: Seq<u8>) -> Option<Response> {
    match spec_read_items(bytes, 0) {
        Some(items) => spec_decode_response(items),
        None => None,
    }
}

/// Reads a request from a frame: the request whose bytes the frame is, and
/// nothing where it is the bytes of none.
pub fn request_from_bytes(bytes: &Vec<u8>) -> (request: Option<Request>)
    ensures
        request == spec_request_from_bytes(bytes@),
        request matches Some(found) ==> bytes@ == spec_bytes_of(spec_request_items(found)),
        request is None ==> forall|other: Request|
            bytes@ != spec_bytes_of(spec_request_items(other)),
{
    match from_bytes(bytes) {
        Some(items) => {
            let request = decode_request(&items);
            proof {
                if request is None {
                    assert forall|other: Request|
                        bytes@ != spec_bytes_of(spec_request_items(other)) by {
                        lemma_read_is_inverse_of_write(bytes@, spec_request_items(other));
                    }
                }
            }
            request
        },
        None => None,
    }
}

/// Reads a response from a frame: the response whose bytes the frame is,
/// and nothing where it is the bytes of none.
pub fn response_from_bytes(bytes: &Vec<u8>) -> (response: Option<Response>)
    ensures
        response == spec_response_from_bytes(bytes@),
        response matches Some(found) ==> bytes@ == spec_bytes_of(spec_response_items(found)),
        response is None ==> forall|other: Response|
            bytes@ != spec_bytes_of(spec_response_items(other)),
{
    match from_bytes(bytes) {
        Some(items) => {
            let response = decode_response(&items);
            proof {
                if response is None {
                    assert forall|other: Response|
                        bytes@ != spec_bytes_of(spec_response_items(other)) by {
                        lemma_read_is_inverse_of_write(bytes@, spec_response_items(other));
                    }
                }
            }
            response
        },
        None => None,
    }
}

/// A request comes back from its frame as it went in.
pub proof fn lemma_request_frame_round_trips(request: Request)
    ensures
        spec_request_from_bytes(spec_bytes_of(spec_request_items(request))) == Some(request),
{
    lemma_bytes_round_trip(spec_request_items(request));
    lemma_request_round_trips(request);
}

/// A response comes back from its frame as it went in, whichever variant
/// it is and whatever amounts and networks it carries.
pub proof fn lemma_response_frame_round_trips(response: Response)
    ensures
        spec_response_from_bytes(spec_bytes_of(spec_response_items(response))) == Some(response),
{
    lemma_bytes_round_trip(spec_response_items(response));
    lemma_response_round_trips(response);
}

} // verus!
