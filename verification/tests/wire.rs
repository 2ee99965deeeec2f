use std::collections::BTreeMap;

use serde_cbor::Value;
use swap::network::cbor::{request_to_bytes, response_to_bytes, to_bytes, write_item};
use swap::network::reader::{from_bytes, request_from_bytes, response_from_bytes};
use swap::network::spot_price::{
    BitcoinAmount, BitcoinNetwork, BlockchainNetwork, Error, MoneroAmount, MoneroNetwork, Request,
    Response,
};
use swap::network::wire::{
    bitcoin_name, bitcoin_network_named, decode_request, decode_response, encode_request,
    encode_response, monero_name, monero_network_named, Item, Name,
};

fn render(items: &[Item], at: &mut usize, out: &mut String) {
    let item = items[*at];
    *at += 1;
    match item {
        Item::MapHead(entries) => {
            out.push('{');
            for entry in 0..entries {
                if entry > 0 {
                    out.push(',');
                }
                render(items, at, out);
                out.push(':');
                render(items, at, out);
            }
            out.push('}');
        }
        Item::Text(name) => {
            out.push('"');
            out.push_str(name.as_str());
            out.push('"');
        }
        Item::Unsigned(value) => out.push_str(&value.to_string()),
    }
}

fn to_json(response: Response) -> String {
    let items = encode_response(response);
    let mut out = String::new();
    let mut at = 0;
    render(&items, &mut at, &mut out);
    assert_eq!(at, items.len());
    out
}

fn sat(sat: u64) -> BitcoinAmount {
    BitcoinAmount::from_sat(sat)
}

fn mainnet() -> BlockchainNetwork {
    BlockchainNetwork { bitcoin: BitcoinNetwork::Mainnet, monero: MoneroNetwork::Mainnet }
}

fn testnet() -> BlockchainNetwork {
    BlockchainNetwork { bitcoin: BitcoinNetwork::Testnet, monero: MoneroNetwork::Stagenet }
}

fn all_networks() -> Vec<BlockchainNetwork> {
    let mut all = Vec::new();
    for bitcoin in [
        BitcoinNetwork::Mainnet,
        BitcoinNetwork::Testnet,
        BitcoinNetwork::Signet,
        BitcoinNetwork::Regtest,
    ] {
        for monero in [MoneroNetwork::Mainnet, MoneroNetwork::Stagenet, MoneroNetwork::Testnet] {
            all.push(BlockchainNetwork { bitcoin, monero });
        }
    }
    all
}

fn sample_responses() -> Vec<Response> {
    let mut all = vec![
        Response::Xmr(MoneroAmount::from_piconero(0)),
        Response::Xmr(MoneroAmount::from_piconero(100_000)),
        Response::Xmr(MoneroAmount::from_piconero(u64::MAX)),
        Response::Error(Error::NoSwapsAccepted),
        Response::Error(Error::AmountBelowMinimum { min: sat(23), buy: sat(24) }),
        Response::Error(Error::AmountAboveMaximum { max: sat(65_535), buy: sat(65_536) }),
        Response::Error(Error::BalanceTooLow { buy: sat(4_294_967_296) }),
        Response::Error(Error::Other),
    ];
    for cli in all_networks() {
        for asb in all_networks() {
            all.push(Response::Error(Error::BlockchainNetworkMismatch { cli, asb }));
        }
    }
    all
}

fn text(text: &str) -> Value {
    Value::Text(text.to_string())
}

fn map(entries: Vec<(&str, Value)>) -> Value {
    let mut map = BTreeMap::new();
    for (key, value) in entries {
        map.insert(text(key), value);
    }
    Value::Map(map)
}

fn network_value(bitcoin: &str, monero: &str) -> Value {
    map(vec![("bitcoin", text(bitcoin)), ("monero", text(monero))])
}

#[test]
fn snapshot_test_serialize() {
    let amount = MoneroAmount::from_piconero(100_000u64);
    let xmr = r#"{"Xmr":100000}"#.to_string();
    let serialized = to_json(Response::Xmr(amount));
    assert_eq!(xmr, serialized);

    let error = r#"{"Error":"NoSwapsAccepted"}"#.to_string();
    let serialized = to_json(Response::Error(Error::NoSwapsAccepted));
    assert_eq!(error, serialized);

    let error = r#"{"Error":{"AmountBelowMinimum":{"min":0,"buy":0}}}"#.to_string();
    let serialized =
        to_json(Response::Error(Error::AmountBelowMinimum { min: sat(0), buy: sat(0) }));
    assert_eq!(error, serialized);

    let error = r#"{"Error":{"AmountAboveMaximum":{"max":0,"buy":0}}}"#.to_string();
    let serialized =
        to_json(Response::Error(Error::AmountAboveMaximum { max: sat(0), buy: sat(0) }));
    assert_eq!(error, serialized);

    let error = r#"{"Error":{"BalanceTooLow":{"buy":0}}}"#.to_string();
    let serialized = to_json(Response::Error(Error::BalanceTooLow { buy: sat(0) }));
    assert_eq!(error, serialized);

    let error = r#"{"Error":{"BlockchainNetworkMismatch":{"cli":{"bitcoin":"Mainnet","monero":"Mainnet"},"asb":{"bitcoin":"Testnet","monero":"Stagenet"}}}}"#.to_string();
    let serialized = to_json(Response::Error(Error::BlockchainNetworkMismatch {
        cli: BlockchainNetwork { bitcoin: BitcoinNetwork::Mainnet, monero: MoneroNetwork::Mainnet },
        asb: BlockchainNetwork {
            bitcoin: BitcoinNetwork::Testnet,
            monero: MoneroNetwork::Stagenet,
        },
    }));
    assert_eq!(error, serialized);

    let error = r#"{"Error":"Other"}"#.to_string();
    let serialized = to_json(Response::Error(Error::Other));
    assert_eq!(error, serialized);
}

#[test]
fn rendered_responses_are_json() {
    for response in sample_responses() {
        let parsed: serde_json::Value = serde_json::from_str(&to_json(response)).unwrap();
        assert!(parsed.is_object());
    }
    let parsed: serde_json::Value =
        serde_json::from_str(&to_json(Response::Xmr(MoneroAmount::from_piconero(100_000))))
            .unwrap();
    assert_eq!(parsed["Xmr"].as_u64(), Some(100_000));
}

#[test]
fn every_response_round_trips_through_items() {
    for response in sample_responses() {
        assert_eq!(decode_response(&encode_response(response)), Some(response));
    }
}

#[test]
fn every_request_round_trips_through_items() {
    for blockchain_network in all_networks() {
        for amount in [0, 1, 100_000, u64::MAX] {
            let request = Request { btc: sat(amount), blockchain_network };
            assert_eq!(decode_request(&encode_request(request)), Some(request));
        }
    }
}

#[test]
fn items_of_a_quote() {
    assert_eq!(
        encode_response(Response::Xmr(MoneroAmount::from_piconero(100_000))),
        vec![Item::MapHead(1), Item::Text(Name::Xmr), Item::Unsigned(100_000)]
    );
}

#[test]
fn items_of_a_request() {
    assert_eq!(
        encode_request(Request { btc: sat(7), blockchain_network: testnet() }),
        vec![
            Item::MapHead(2),
            Item::Text(Name::Btc),
            Item::Unsigned(7),
            Item::Text(Name::BlockchainNetwork),
            Item::MapHead(2),
            Item::Text(Name::Bitcoin),
            Item::Text(Name::Testnet),
            Item::Text(Name::Monero),
            Item::Text(Name::Stagenet),
        ]
    );
}

#[test]
fn truncated_or_altered_items_are_refused() {
    for response in sample_responses() {
        let items = encode_response(response);
        for keep in 0..items.len() {
            assert_eq!(decode_response(&items[..keep].to_vec()), None);
        }
        let mut longer = items.clone();
        longer.push(Item::Unsigned(0));
        assert_eq!(decode_response(&longer), None);
        let mut altered = items.clone();
        altered[0] = Item::MapHead(2);
        assert_eq!(decode_response(&altered), None);
    }
    assert_eq!(decode_response(&vec![]), None);
    assert_eq!(
        decode_response(&vec![Item::MapHead(1), Item::Text(Name::Xmr), Item::Text(Name::Other)]),
        None
    );
    assert_eq!(
        decode_response(&vec![Item::MapHead(1), Item::Text(Name::Error), Item::Text(Name::Xmr)]),
        None
    );
    assert_eq!(
        decode_response(&vec![Item::MapHead(1), Item::Text(Name::Other), Item::Unsigned(1)]),
        None
    );
}

#[test]
fn swapped_fields_are_refused() {
    let items = vec![
        Item::MapHead(1),
        Item::Text(Name::Error),
        Item::MapHead(1),
        Item::Text(Name::AmountBelowMinimum),
        Item::MapHead(2),
        Item::Text(Name::Buy),
        Item::Unsigned(1),
        Item::Text(Name::Min),
        Item::Unsigned(2),
    ];
    assert_eq!(decode_response(&items), None);

    let mut mismatch = encode_response(Response::Error(Error::BlockchainNetworkMismatch {
        cli: mainnet(),
        asb: testnet(),
    }));
    mismatch[8] = Item::Text(Name::Stagenet);
    assert_eq!(decode_response(&mismatch), None);
    mismatch[8] = Item::Text(Name::Regtest);
    mismatch[10] = Item::Text(Name::Signet);
    assert_eq!(decode_response(&mismatch), None);
}

#[test]
fn malformed_requests_are_refused() {
    let items = encode_request(Request { btc: sat(7), blockchain_network: mainnet() });
    for keep in 0..items.len() {
        assert_eq!(decode_request(&items[..keep].to_vec()), None);
    }
    let mut altered = items.clone();
    altered[2] = Item::Text(Name::Btc);
    assert_eq!(decode_request(&altered), None);
    let mut altered = items.clone();
    altered[6] = Item::Text(Name::Stagenet);
    assert_eq!(decode_request(&altered), None);
}

#[test]
fn network_names() {
    assert_eq!(bitcoin_name(BitcoinNetwork::Mainnet).as_str(), "Mainnet");
    assert_eq!(bitcoin_name(BitcoinNetwork::Testnet).as_str(), "Testnet");
    assert_eq!(bitcoin_name(BitcoinNetwork::Signet).as_str(), "Signet");
    assert_eq!(bitcoin_name(BitcoinNetwork::Regtest).as_str(), "Regtest");
    assert_eq!(monero_name(MoneroNetwork::Mainnet).as_str(), "Mainnet");
    assert_eq!(monero_name(MoneroNetwork::Stagenet).as_str(), "Stagenet");
    assert_eq!(monero_name(MoneroNetwork::Testnet).as_str(), "Testnet");
    assert_eq!(bitcoin_network_named(Name::Signet), Some(BitcoinNetwork::Signet));
    assert_eq!(bitcoin_network_named(Name::Stagenet), None);
    assert_eq!(monero_network_named(Name::Stagenet), Some(MoneroNetwork::Stagenet));
    assert_eq!(monero_network_named(Name::Regtest), None);
    assert_eq!(Name::Btc.as_str(), "btc");
    assert_eq!(Name::BlockchainNetwork.as_str(), "blockchain_network");
}

#[test]
fn bytes_of_a_quote() {
    assert_eq!(
        response_to_bytes(Response::Xmr(MoneroAmount::from_piconero(100_000))),
        vec![0xa1, 0x63, b'X', b'm', b'r', 0x1a, 0x00, 0x01, 0x86, 0xa0]
    );
}

#[test]
fn heads_take_the_shortest_form() {
    let bytes_of = |value: u64| to_bytes(&vec![Item::Unsigned(value)]);
    assert_eq!(bytes_of(0), vec![0x00]);
    assert_eq!(bytes_of(23), vec![0x17]);
    assert_eq!(bytes_of(24), vec![0x18, 24]);
    assert_eq!(bytes_of(255), vec![0x18, 0xff]);
    assert_eq!(bytes_of(256), vec![0x19, 0x01, 0x00]);
    assert_eq!(bytes_of(65_535), vec![0x19, 0xff, 0xff]);
    assert_eq!(bytes_of(65_536), vec![0x1a, 0x00, 0x01, 0x00, 0x00]);
    assert_eq!(bytes_of(4_294_967_295), vec![0x1a, 0xff, 0xff, 0xff, 0xff]);
    assert_eq!(
        bytes_of(4_294_967_296),
        vec![0x1b, 0x00, 0x00, 0x00, 0x01, 0x00, 0x00, 0x00, 0x00]
    );
    assert_eq!(
        bytes_of(0x0102_0304_0506_0708),
        vec![0x1b, 0x01, 0x02, 0x03, 0x04, 0x05, 0x06, 0x07, 0x08]
    );
    assert_eq!(to_bytes(&vec![Item::MapHead(2)]), vec![0xa2]);
    assert_eq!(to_bytes(&vec![Item::MapHead(24)]), vec![0xb8, 24]);
    assert_eq!(to_bytes(&vec![]), Vec::<u8>::new());
}

#[test]
fn text_is_written_with_its_length() {
    let mut out = vec![0xee];
    write_item(&mut out, Item::Text(Name::Buy));
    assert_eq!(out, vec![0xee, 0x63, b'b', b'u', b'y']);

    let long = to_bytes(&vec![Item::Text(Name::BlockchainNetworkMismatch)]);
    assert_eq!(long[0], 0x78);
    assert_eq!(long[1], 25);
    assert_eq!(&long[2..], b"BlockchainNetworkMismatch");
}

#[test]
fn the_codec_reads_the_bytes_of_a_response_as_the_same_tree() {
    let read = |response: Response| -> Value {
        serde_cbor::from_slice(&response_to_bytes(response)).unwrap()
    };
    assert_eq!(
        read(Response::Xmr(MoneroAmount::from_piconero(100_000))),
        map(vec![("Xmr", Value::Integer(100_000))])
    );
    assert_eq!(
        read(Response::Error(Error::NoSwapsAccepted)),
        map(vec![("Error", text("NoSwapsAccepted"))])
    );
    assert_eq!(read(Response::Error(Error::Other)), map(vec![("Error", text("Other"))]));
    assert_eq!(
        read(Response::Error(Error::AmountBelowMinimum { min: sat(1_000), buy: sat(10) })),
        map(vec![(
            "Error",
            map(vec![(
                "AmountBelowMinimum",
                map(vec![("min", Value::Integer(1_000)), ("buy", Value::Integer(10))])
            )])
        )])
    );
    assert_eq!(
        read(Response::Error(Error::AmountAboveMaximum { max: sat(1_000), buy: sat(100_000) })),
        map(vec![(
            "Error",
            map(vec![(
                "AmountAboveMaximum",
                map(vec![("max", Value::Integer(1_000)), ("buy", Value::Integer(100_000))])
            )])
        )])
    );
    assert_eq!(
        read(Response::Error(Error::BalanceTooLow { buy: sat(u64::MAX) })),
        map(vec![(
            "Error",
            map(vec![("BalanceTooLow", map(vec![("buy", Value::Integer(u64::MAX as i128))]))])
        )])
    );
    assert_eq!(
        read(Response::Error(Error::BlockchainNetworkMismatch { cli: mainnet(), asb: testnet() })),
        map(vec![(
            "Error",
            map(vec![(
                "BlockchainNetworkMismatch",
                map(vec![
                    ("cli", network_value("Mainnet", "Mainnet")),
                    ("asb", network_value("Testnet", "Stagenet")),
                ])
            )])
        )])
    );
}

#[test]
fn the_codec_reads_the_bytes_of_a_request_as_the_same_tree() {
    let bytes = request_to_bytes(Request {
        btc: sat(50_000),
        blockchain_network: BlockchainNetwork {
            bitcoin: BitcoinNetwork::Regtest,
            monero: MoneroNetwork::Testnet,
        },
    });
    let read: Value = serde_cbor::from_slice(&bytes).unwrap();
    assert_eq!(
        read,
        map(vec![
            ("btc", Value::Integer(50_000)),
            ("blockchain_network", network_value("Regtest", "Testnet")),
        ])
    );
}

#[test]
fn single_entry_maps_match_the_codec_byte_for_byte() {
    let value = map(vec![("Xmr", Value::Integer(100_000))]);
    assert_eq!(
        serde_cbor::to_vec(&value).unwrap(),
        response_to_bytes(Response::Xmr(MoneroAmount::from_piconero(100_000)))
    );
    let value = map(vec![("Error", map(vec![("BalanceTooLow", map(vec![("buy", Value::Integer(5))]))]))]);
    assert_eq!(
        serde_cbor::to_vec(&value).unwrap(),
        response_to_bytes(Response::Error(Error::BalanceTooLow { buy: sat(5) }))
    );
}

#[test]
fn every_response_round_trips_through_bytes() {
    for response in sample_responses() {
        let bytes = response_to_bytes(response);
        assert_eq!(from_bytes(&bytes), Some(encode_response(response)));
        assert_eq!(response_from_bytes(&bytes), Some(response));
    }
}

#[test]
fn every_request_round_trips_through_bytes() {
    for blockchain_network in all_networks() {
        for amount in [0, 23, 24, 255, 256, 65_535, 65_536, u32::MAX as u64, u64::MAX] {
            let request = Request { btc: sat(amount), blockchain_network };
            assert_eq!(request_from_bytes(&request_to_bytes(request)), Some(request));
        }
    }
}

#[test]
fn numbers_of_every_width_are_read_back() {
    for value in [
        0u64,
        23,
        24,
        255,
        256,
        65_535,
        65_536,
        4_294_967_295,
        4_294_967_296,
        0x0102_0304_0506_0708,
        u64::MAX,
    ] {
        let items = vec![Item::Unsigned(value), Item::MapHead(2), Item::Text(Name::Stagenet)];
        assert_eq!(from_bytes(&to_bytes(&items)), Some(items));
    }
    assert_eq!(from_bytes(&vec![]), Some(vec![]));
}

#[test]
fn the_codec_writes_a_quote_that_is_read_back() {
    let bytes = serde_cbor::to_vec(&map(vec![("Xmr", Value::Integer(100_000))])).unwrap();
    assert_eq!(
        response_from_bytes(&bytes),
        Some(Response::Xmr(MoneroAmount::from_piconero(100_000)))
    );
}

#[test]
fn truncated_frames_are_refused() {
    for response in sample_responses() {
        let bytes = response_to_bytes(response);
        for keep in 0..bytes.len() {
            assert_eq!(response_from_bytes(&bytes[..keep].to_vec()), None);
        }
        let mut longer = bytes.clone();
        longer.push(0x00);
        assert_eq!(response_from_bytes(&longer), None);
    }
}

#[test]
fn frames_that_the_writer_does_not_produce_are_refused() {
    // A number in a longer form than it needs.
    assert_eq!(from_bytes(&vec![0x18, 0x05]), None);
    assert_eq!(from_bytes(&vec![0x19, 0x00, 0xff]), None);
    assert_eq!(from_bytes(&vec![0x1a, 0x00, 0x00, 0xff, 0xff]), None);
    assert_eq!(from_bytes(&vec![0x1b, 0, 0, 0, 0, 0xff, 0xff, 0xff, 0xff]), None);
    // A head that breaks off.
    assert_eq!(from_bytes(&vec![0x19, 0x01]), None);
    // A text that is no name, and one that breaks off.
    assert_eq!(from_bytes(&vec![0x63, b'x', b'm', b'r']), None);
    assert_eq!(from_bytes(&vec![0x63, b'X', b'm']), None);
    // Kinds of items that the messages do not use.
    assert_eq!(from_bytes(&vec![0x20]), None);
    assert_eq!(from_bytes(&vec![0x43, 1, 2, 3]), None);
    assert_eq!(from_bytes(&vec![0x80]), None);
    assert_eq!(from_bytes(&vec![0xf6]), None);
    assert_eq!(from_bytes(&vec![0xbf]), None);
    // Items that are no message.
    assert_eq!(response_from_bytes(&vec![0x00]), None);
    assert_eq!(request_from_bytes(&response_to_bytes(Response::Error(Error::Other))), None);
}
