//! The shape in which the messages of the spot-price protocol go over the
//! wire.
//!
//! The encoding is self-describing: a message is written as a sequence of
//! items, each a map head with its number of entries, a text, or an
//! unsigned integer. A variant without fields is its name as a text; a
//! variant with fields is a map of one entry from its name to its fields;
//! fields are a map from their names, in the order of declaration. Amounts
//! are whole numbers of the smallest unit. Turning items into bytes is left
//! to the codec.

use vstd::prelude::*;
use crate::network::spot_price::{
    BitcoinAmount, BitcoinNetwork, BlockchainNetwork, Error, MoneroAmount, MoneroNetwork,
    Request, Response,
};

verus! {

/// The names that occur in the messages.
#[derive(Clone, Copy, Debug, PartialEq, Eq, Structural)]
pub enum Name {
    Xmr,
    Error,
    NoSwapsAccepted,
    AmountBelowMinimum,
    AmountAboveMaximum,
    BalanceTooLow,
    BlockchainNetworkMismatch,
    Other,
    Min,
    Max,
    Buy,
    Cli,
    Asb,
    Bitcoin,
    Monero,
    Mainnet,
    Testnet,
    Signet,
    Regtest,
    Stagenet,
    Btc,
    BlockchainNetwork,
}

/// One item of an encoded message.
#[derive(Clone, Copy, Debug, PartialEq, Eq, Structural)]
pub enum Item {
    /// The head of a map with this many entries, which follow it.
    MapHead(u32),
    /// A name, as a key or as a variant without fields.
    Text(Name),
    /// A count of the smallest unit of a currency.
    Unsigned(u64),
}

impl Name {
    /// The name as it is written.
    pub fn as_str(self) -> (text: &'static str)
        ensures
            text == self.spec_str(),
            text@ == self.spec_text(),
    {
        match self {
            Name::Xmr => "Xmr",
            Name::Error => "Error",
            Name::NoSwapsAccepted => "NoSwapsAccepted",
            Name::AmountBelowMinimum => "AmountBelowMinimum",
            Name::AmountAboveMaximum => "AmountAboveMaximum",
            Name::BalanceTooLow => "BalanceTooLow",
            Name::BlockchainNetworkMismatch => "BlockchainNetworkMismatch",
            Name::Other => "Other",
            Name::Min => "min",
            Name::Max => "max",
            Name::Buy => "buy",
            Name::Cli => "cli",
            Name::Asb => "asb",
            Name::Bitcoin => "bitcoin",
            Name::Monero => "monero",
            Name::Mainnet => "Mainnet",
            Name::Testnet => "Testnet",
            Name::Signet => "Signet",
            Name::Regtest => "Regtest",
            Name::Stagenet => "Stagenet",
            Name::Btc => "btc",
            Name::BlockchainNetwork => "blockchain_network",
        }
    }

    /// The name as it is written.
    pub open spec fn spec_str(self) -> &'static str {
        match self {
            Name::Xmr => "Xmr",
            Name::Error => "Error",
            Name::NoSwapsAccepted => "NoSwapsAccepted",
            Name::AmountBelowMinimum => "AmountBelowMinimum",
            Name::AmountAboveMaximum => "AmountAboveMaximum",
            Name::BalanceTooLow => "BalanceTooLow",
            Name::BlockchainNetworkMismatch => "BlockchainNetworkMismatch",
            Name::Other => "Other",
            Name::Min => "min",
            Name::Max => "max",
            Name::Buy => "buy",
            Name::Cli => "cli",
            Name::Asb => "asb",
            Name::Bitcoin => "bitcoin",
            Name::Monero => "monero",
            Name::Mainnet => "Mainnet",
            Name::Testnet => "Testnet",
            Name::Signet => "Signet",
            Name::Regtest => "Regtest",
            Name::Stagenet => "Stagenet",
            Name::Btc => "btc",
            Name::BlockchainNetwork => "blockchain_network",
        }
    }

    /// The characters of the name.
    pub open spec fn spec_text(self) -> Seq<char> {
        self.spec_str()@
    }
}

/// The name of a bitcoin network.
pub open spec fn spec_bitcoin_name(network: BitcoinNetwork) -> Name {
    match network {
        BitcoinNetwork::Mainnet => Name::Mainnet,
        BitcoinNetwork::Testnet => Name::Testnet,
        BitcoinNetwork::Signet => Name::Signet,
        BitcoinNetwork::Regtest => Name::Regtest,
    }
}

/// The name of a monero network.
pub open spec fn spec_monero_name(network: MoneroNetwork) -> Name {
    match network {
        MoneroNetwork::Mainnet => Name::Mainnet,
        MoneroNetwork::Stagenet => Name::Stagenet,
        MoneroNetwork::Testnet => Name::Testnet,
    }
}

/// The items of a pair of networks: a map of its two fields.
pub open spec fn spec_network_items(network: BlockchainNetwork) -> Seq<Item> {
    seq![
        Item::MapHead(2),
        Item::Text(Name::Bitcoin),
        Item::Text(spec_bitcoin_name(network.bitcoin)),
        Item::Text(Name::Monero),
        Item::Text(spec_monero_name(network.monero)),
    ]
}

/// The items of a refusal.
pub open spec fn spec_error_items(error: Error) -> Seq<Item> {
    match error {
        Error::NoSwapsAccepted => seq![Item::Text(Name::NoSwapsAccepted)],
        Error::AmountBelowMinimum { min, buy } => seq![
            Item::MapHead(1),
            Item::Text(Name::AmountBelowMinimum),
            Item::MapHead(2),
            Item::Text(Name::Min),
            Item::Unsigned(min.sat),
            Item::Text(Name::Buy),
            Item::Unsigned(buy.sat),
        ],
        Error::AmountAboveMaximum { max, buy } => seq![
            Item::MapHead(1),
            Item::Text(Name::AmountAboveMaximum),
            Item::MapHead(2),
            Item::Text(Name::Max),
            Item::Unsigned(max.sat),
            Item::Text(Name::Buy),
            Item::Unsigned(buy.sat),
        ],
        Error::BalanceTooLow { buy } => seq![
            Item::MapHead(1),
            Item::Text(Name::BalanceTooLow),
            Item::MapHead(1),
            Item::Text(Name::Buy),
            Item::Unsigned(buy.sat),
        ],
        Error::BlockchainNetworkMismatch { cli, asb } => seq![
            Item::MapHead(1),
            Item::Text(Name::BlockchainNetworkMismatch),
            Item::MapHead(2),
            Item::Text(Name::Cli),
        ] + spec_network_items(cli) + seq![Item::Text(Name::Asb)] + spec_network_items(asb),
        Error::Other => seq![Item::Text(Name::Other)],
    }
}

/// The items of a response: a map of one entry, from the variant's name to
/// the amount or to the refusal.
pub open spec fn spec_response_items(response: Response) -> Seq<Item> {
    match response {
        Response::Xmr(amount) => seq![
            Item::MapHead(1),
            Item::Text(Name::Xmr),
            Item::Unsigned(amount.piconero),
        ],
        Response::Error(error) => seq![Item::MapHead(1), Item::Text(Name::Error)] + spec_error_items(
            error,
        ),
    }
}

/// The items of a request: a map of its two fields.
pub open spec fn spec_request_items(request: Request) -> Seq<Item> {
    seq![
        Item::MapHead(2),
        Item::Text(Name::Btc),
        Item::Unsigned(request.btc.sat),
        Item::Text(Name::BlockchainNetwork),
    ] + spec_network_items(request.blockchain_network)
}

/// The name of a bitcoin network.
pub fn bitcoin_name(network: BitcoinNetwork) -> (name: Name)
    ensures
        name == spec_bitcoin_name(network),
{
    match network {
        BitcoinNetwork::Mainnet => Name::Mainnet,
        BitcoinNetwork::Testnet => Name::Testnet,
        BitcoinNetwork::Signet => Name::Signet,
        BitcoinNetwork::Regtest => Name::Regtest,
    }
}

/// The name of a monero network.
pub fn monero_name(network: MoneroNetwork) -> (name: Name)
    ensures
        name == spec_monero_name(network),
{
    match network {
        MoneroNetwork::Mainnet => Name::Mainnet,
        MoneroNetwork::Stagenet => Name::Stagenet,
        MoneroNetwork::Testnet => Name::Testnet,
    }
}

/// The bitcoin network of a name, if it names one.
pub fn bitcoin_network_named(name: Name) -> (network: Option<BitcoinNetwork>)
    ensures
        network matches Some(found) ==> spec_bitcoin_name(found) == name,
        network is None ==> forall|other: BitcoinNetwork| spec_bitcoin_name(other) != name,
{
    match name {
        Name::Mainnet => Some(BitcoinNetwork::Mainnet),
        Name::Testnet => Some(BitcoinNetwork::Testnet),
        Name::Signet => Some(BitcoinNetwork::Signet),
        Name::Regtest => Some(BitcoinNetwork::Regtest),
        _ => None,
    }
}

/// The monero network of a name, if it names one.
pub fn monero_network_named(name: Name) -> (network: Option<MoneroNetwork>)
    ensures
        network matches Some(found) ==> spec_monero_name(found) == name,
        network is None ==> forall|other: MoneroNetwork| spec_monero_name(other) != name,
{
    match name {
        Name::Mainnet => Some(MoneroNetwork::Mainnet),
        Name::Stagenet => Some(MoneroNetwork::Stagenet),
        Name::Testnet => Some(MoneroNetwork::Testnet),
        _ => None,
    }
}

/// Appends the items of a pair of networks.
fn push_network(items: &mut Vec<Item>, network: BlockchainNetwork)
    ensures
        final(items)@ == old(items)@ + spec_network_items(network),
{
    items.push(Item::MapHead(2));
    items.push(Item::Text(Name::Bitcoin));
    items.push(Item::Text(bitcoin_name(network.bitcoin)));
    items.push(Item::Text(Name::Monero));
    items.push(Item::Text(monero_name(network.monero)));
    assert(items@ =~= old(items)@ + spec_network_items(network));
}

/// Writes a response as items.
#[verifier::spinoff_prover]
#[verifier::rlimit(60)]
pub fn encode_response(response: Response) -> (items: Vec<Item>)
    ensures
        items@ == spec_response_items(response),
{
    let mut items: Vec<Item> = Vec::new();
    items.push(Item::MapHead(1));
    match response {
        Response::Xmr(amount) => {
            items.push(Item::Text(Name::Xmr));
            items.push(Item::Unsigned(amount.piconero));
        },
        Response::Error(error) => {
            items.push(Item::Text(Name::Error));
            match error {
                Error::NoSwapsAccepted => {
                    items.push(Item::Text(Name::NoSwapsAccepted));
                },
                Error::AmountBelowMinimum { min, buy } => {
                    items.push(Item::MapHead(1));
                    items.push(Item::Text(Name::AmountBelowMinimum));
                    items.push(Item::MapHead(2));
                    items.push(Item::Text(Name::Min));
                    items.push(Item::Unsigned(min.sat));
                    items.push(Item::Text(Name::Buy));
                    items.push(Item::Unsigned(buy.sat));
                },
                Error::AmountAboveMaximum { max, buy } => {
                    items.push(Item::MapHead(1));
                    items.push(Item::Text(Name::AmountAboveMaximum));
                    items.push(Item::MapHead(2));
                    items.push(Item::Text(Name::Max));
                    items.push(Item::Unsigned(max.sat));
                    items.push(Item::Text(Name::Buy));
                    items.push(Item::Unsigned(buy.sat));
                },
                Error::BalanceTooLow { buy } => {
                    items.push(Item::MapHead(1));
                    items.push(Item::Text(Name::BalanceTooLow));
                    items.push(Item::MapHead(1));
                    items.push(Item::Text(Name::Buy));
                    items.push(Item::Unsigned(buy.sat));
                },
                Error::BlockchainNetworkMismatch { cli, asb } => {
                    items.push(Item::MapHead(1));
                    items.push(Item::Text(Name::BlockchainNetworkMismatch));
                    items.push(Item::MapHead(2));
                    items.push(Item::Text(Name::Cli));
                    push_network(&mut items, cli);
                    items.push(Item::Text(Name::Asb));
                    push_network(&mut items, asb);
                },
                Error::Other => {
                    items.push(Item::Text(Name::Other));
                },
            }
        },
    }
    assert(items@ =~= spec_response_items(response));
    items
}

/// Writes a request as items.
pub fn encode_request(request: Request) -> (items: Vec<Item>)
    ensures
        items@ == spec_request_items(request),
{
    let mut items: Vec<Item> = Vec::new();
    items.push(Item::MapHead(2));
    items.push(Item::Text(Name::Btc));
    items.push(Item::Unsigned(request.btc.sat));
    items.push(Item::Text(Name::BlockchainNetwork));
    push_network(&mut items, request.blockchain_network);
    assert(items@ =~= spec_request_items(request));
    items
}

/// What a sequence of items says: the request that is written so, if there
/// is one.
pub open spec fn spec_decode_request(items: Seq<Item>) -> Option<Request> {
    if exists|request: Request| spec_request_items(request) == items {
        Some(choose|request: Request| spec_request_items(request) == items)
    } else {
        None
    }
}

/// What a sequence of items says: the response that is written so, if
/// there is one.
pub open spec fn spec_decode_response(items: Seq<Item>) -> Option<Response> {
    if exists|response: Response| spec_response_items(response) == items {
        Some(choose|response: Response| spec_response_items(response) == items)
    } else {
        None
    }
}

/// Different pairs of networks are written differently.
pub proof fn lemma_network_items_are_lossless(a: BlockchainNetwork, b: BlockchainNetwork)
    requires
        spec_network_items(a) == spec_network_items(b),
    ensures
        a == b,
{
    assert(spec_network_items(a)[2] == spec_network_items(b)[2]);
    assert(spec_network_items(a)[4] == spec_network_items(b)[4]);
}

/// Different responses are written differently: nothing of a response is
/// lost in its items.
#[verifier::spinoff_prover]
#[verifier::rlimit(60)]
pub proof fn lemma_response_items_are_lossless(a: Response, b: Response)
    requires
        spec_response_items(a) == spec_response_items(b),
    ensures
        a == b,
{
    let x = spec_response_items(a);
    let y = spec_response_items(b);
    assert(x.len() == y.len());
    assert(x[1] == y[1]);
    assert(x[2] == y[2]);
    if x.len() > 3 {
        assert(x[3] == y[3]);
        assert(x[6] == y[6]);
        if x.len() > 7 {
            assert(x[8] == y[8]);
        }
        if x.len() > 9 {
            let (cli_a, asb_a) = (
                a->Error_0->BlockchainNetworkMismatch_cli,
                a->Error_0->BlockchainNetworkMismatch_asb,
            );
            let (cli_b, asb_b) = (
                b->Error_0->BlockchainNetworkMismatch_cli,
                b->Error_0->BlockchainNetworkMismatch_asb,
            );
            assert(x.subrange(6, 11) =~= spec_network_items(cli_a));
            assert(y.subrange(6, 11) =~= spec_network_items(cli_b));
            assert(x.subrange(12, 17) =~= spec_network_items(asb_a));
            assert(y.subrange(12, 17) =~= spec_network_items(asb_b));
            lemma_network_items_are_lossless(cli_a, cli_b);
            lemma_network_items_are_lossless(asb_a, asb_b);
        }
    }
}

/// Reading what was written gives the response back, whichever it is.
pub proof fn lemma_response_round_trips(response: Response)
    ensures
        spec_decode_response(spec_response_items(response)) == Some(response),
{
    let items = spec_response_items(response);
    let read = choose|other: Response| spec_response_items(other) == items;
    lemma_response_items_are_lossless(read, response);
}

/// Different requests are written differently.
#[verifier::spinoff_prover]
#[verifier::rlimit(60)]
pub proof fn lemma_request_items_are_lossless(a: Request, b: Request)
    requires
        spec_request_items(a) == spec_request_items(b),
    ensures
        a == b,
{
    let x = spec_request_items(a);
    let y = spec_request_items(b);
    assert(x[2] == y[2]);
    assert(x.subrange(4, 9) =~= spec_network_items(a.blockchain_network));
    assert(y.subrange(4, 9) =~= spec_network_items(b.blockchain_network));
    lemma_network_items_are_lossless(a.blockchain_network, b.blockchain_network);
}

/// Reading what was written gives the request back, whichever it is.
pub proof fn lemma_request_round_trips(request: Request)
    ensures
        spec_decode_request(spec_request_items(request)) == Some(request),
{
    let items = spec_request_items(request);
    let read = choose|other: Request| spec_request_items(other) == items;
    lemma_request_items_are_lossless(read, request);
}

/// Reads a pair of networks from the five items that start at `at`.
#[verifier::spinoff_prover]
#[verifier::rlimit(60)]
fn network_at(items: &Vec<Item>, at: usize) -> (network: Option<BlockchainNetwork>)
    requires
        at + 5 <= items.len(),
    ensures
        network matches Some(found) ==> items@.subrange(at as int, at + 5) == spec_network_items(
            found,
        ),
        network is None ==> forall|other: BlockchainNetwork|
            items@.subrange(at as int, at + 5) != spec_network_items(other),
{
    let ghost part = items@.subrange(at as int, at + 5);
    assert(part[0] == items@[at as int] && part[1] == items@[at + 1] && part[2] == items@[at + 2]
        && part[3] == items@[at + 3] && part[4] == items@[at + 4]);
    if items[at] == Item::MapHead(2) && items[at + 1] == Item::Text(Name::Bitcoin) && items[at
        + 3] == Item::Text(Name::Monero) {
        match (items[at + 2], items[at + 4]) {
            (Item::Text(first), Item::Text(second)) => {
                match (bitcoin_network_named(first), monero_network_named(second)) {
                    (Some(bitcoin), Some(monero)) => {
                        let found = BlockchainNetwork { bitcoin, monero };
                        assert(part =~= spec_network_items(found));
                        Some(found)
                    },
                    _ => {
                        assert forall|other: BlockchainNetwork|
                            part != spec_network_items(other) by {
                            assert(spec_network_items(other)[2] == Item::Text(
                                spec_bitcoin_name(other.bitcoin),
                            ));
                            assert(spec_network_items(other)[4] == Item::Text(
                                spec_monero_name(other.monero),
                            ));
                        }
                        None
                    },
                }
            },
            _ => {
                assert forall|other: BlockchainNetwork| part != spec_network_items(other) by {
                    assert(spec_network_items(other)[2] is Text);
                    assert(spec_network_items(other)[4] is Text);
                }
                None
            },
        }
    } else {
        assert forall|other: BlockchainNetwork| part != spec_network_items(other) by {
            assert(spec_network_items(other)[0] == Item::MapHead(2));
            assert(spec_network_items(other)[1] == Item::Text(Name::Bitcoin));
            assert(spec_network_items(other)[3] == Item::Text(Name::Monero));
        }
        None
    }
}

/// Reads a refusal without networks from a response of three, seven or nine
/// items that opens as one with a refusal does.
#[verifier::spinoff_prover]
#[verifier::rlimit(60)]
fn decode_plain_error(items: &Vec<Item>) -> (error: Option<Error>)
    requires
        items.len() == 3 || items.len() == 7 || items.len() == 9,
        items[0] == Item::MapHead(1),
        items[1] == Item::Text(Name::Error),
    ensures
        error matches Some(found) ==> items@ == spec_response_items(Response::Error(found)),
        error is None ==> forall|other: Error|
            items@ != spec_response_items(Response::Error(other)),
{
    let n = items.len();
    let mut error: Option<Error> = None;
    if n == 3 {
        if items[2] == Item::Text(Name::NoSwapsAccepted) {
            error = Some(Error::NoSwapsAccepted);
        } else if items[2] == Item::Text(Name::Other) {
            error = Some(Error::Other);
        }
    } else if n == 7 {
        if items[2] == Item::MapHead(1) && items[3] == Item::Text(Name::BalanceTooLow) && items[4]
            == Item::MapHead(1) && items[5] == Item::Text(Name::Buy) {
            if let Item::Unsigned(sat) = items[6] {
                error = Some(Error::BalanceTooLow { buy: BitcoinAmount { sat } });
            }
        }
    } else {
        if items[2] == Item::MapHead(1) && items[4] == Item::MapHead(2) && items[7] == Item::Text(
            Name::Buy,
        ) {
            if let (Item::Unsigned(limit), Item::Unsigned(sat)) = (items[6], items[8]) {
                let buy = BitcoinAmount { sat };
                if items[3] == Item::Text(Name::AmountBelowMinimum) && items[5] == Item::Text(
                    Name::Min,
                ) {
                    error = Some(Error::AmountBelowMinimum { min: BitcoinAmount { sat: limit }, buy });
                } else if items[3] == Item::Text(Name::AmountAboveMaximum) && items[5]
                    == Item::Text(Name::Max) {
                    error = Some(Error::AmountAboveMaximum { max: BitcoinAmount { sat: limit }, buy });
                }
            }
        }
    }
    proof {
        match error {
            Some(found) => {
                assert(items@ =~= spec_response_items(Response::Error(found)));
            },
            None => {
                assert forall|other: Error|
                    items@ != spec_response_items(Response::Error(other)) by {
                    let written = spec_response_items(Response::Error(other));
                    if items@ == written {
                        assert(written.len() == n);
                        assert(written[2] == items@[2]);
                        if n > 3 {
                            assert(written[3] == items@[3]);
                            assert(written[4] == items@[4]);
                            assert(written[5] == items@[5]);
                            assert(written[6] == items@[6]);
                        }
                        if n == 9 {
                            assert(written[7] == items@[7]);
                            assert(written[8] == items@[8]);
                        }
                    }
                }
            },
        }
    }
    error
}

/// What a mismatch of the two pairs of networks is written as, inside a
/// response.
#[verifier::spinoff_prover]
#[verifier::rlimit(60)]
proof fn lemma_mismatch_items(cli: BlockchainNetwork, asb: BlockchainNetwork)
    ensures
        ({
            let written = spec_response_items(
                Response::Error(Error::BlockchainNetworkMismatch { cli, asb }),
            );
            &&& written.len() == 17
            &&& written[0] == Item::MapHead(1)
            &&& written[1] == Item::Text(Name::Error)
            &&& written[2] == Item::MapHead(1)
            &&& written[3] == Item::Text(Name::BlockchainNetworkMismatch)
            &&& written[4] == Item::MapHead(2)
            &&& written[5] == Item::Text(Name::Cli)
            &&& written.subrange(6, 11) == spec_network_items(cli)
            &&& written[11] == Item::Text(Name::Asb)
            &&& written.subrange(12, 17) == spec_network_items(asb)
        }),
{
    let written = spec_response_items(
        Response::Error(Error::BlockchainNetworkMismatch { cli, asb }),
    );
    assert(written.subrange(6, 11) =~= spec_network_items(cli));
    assert(written.subrange(12, 17) =~= spec_network_items(asb));
}

/// Reads a mismatch of networks from a response of seventeen items that
/// opens as one with a refusal does.
#[verifier::spinoff_prover]
#[verifier::rlimit(60)]
fn decode_mismatch(items: &Vec<Item>) -> (error: Option<Error>)
    requires
        items.len() == 17,
        items[0] == Item::MapHead(1),
        items[1] == Item::Text(Name::Error),
    ensures
        error matches Some(found) ==> items@ == spec_response_items(Response::Error(found)),
        error is None ==> forall|other: Error|
            items@ != spec_response_items(Response::Error(other)),
{
    let mut error: Option<Error> = None;
    if items[2] == Item::MapHead(1) && items[3] == Item::Text(Name::BlockchainNetworkMismatch)
        && items[4] == Item::MapHead(2) && items[5] == Item::Text(Name::Cli) && items[11]
        == Item::Text(Name::Asb) {
        match (network_at(items, 6), network_at(items, 12)) {
            (Some(cli), Some(asb)) => {
                error = Some(Error::BlockchainNetworkMismatch { cli, asb });
            },
            _ => {},
        }
    }
    proof {
        match error {
            Some(found) => {
                let written = spec_response_items(Response::Error(found));
                lemma_mismatch_items(
                    found->BlockchainNetworkMismatch_cli,
                    found->BlockchainNetworkMismatch_asb,
                );
                assert forall|i: int| 0 <= i < 17 implies items@[i] == written[i] by {
                    if 6 <= i < 11 {
                        assert(items@[i] == items@.subrange(6, 11)[i - 6]);
                        assert(written[i] == written.subrange(6, 11)[i - 6]);
                    } else if 12 <= i < 17 {
                        assert(items@[i] == items@.subrange(12, 17)[i - 12]);
                        assert(written[i] == written.subrange(12, 17)[i - 12]);
                    }
                }
                assert(items@ =~= written);
            },
            None => {
                assert forall|other: Error|
                    items@ != spec_response_items(Response::Error(other)) by {
                    let written = spec_response_items(Response::Error(other));
                    if items@ == written {
                        assert(written.len() == 17);
                        assert(other is BlockchainNetworkMismatch);
                        lemma_mismatch_items(
                            other->BlockchainNetworkMismatch_cli,
                            other->BlockchainNetworkMismatch_asb,
                        );
                    }
                }
            },
        }
    }
    error
}

/// Reads the refusal that follows the two items which open a response that
/// carries one.
fn decode_error(items: &Vec<Item>) -> (error: Option<Error>)
    requires
        items.len() >= 3,
        items[0] == Item::MapHead(1),
        items[1] == Item::Text(Name::Error),
    ensures
        error matches Some(found) ==> items@ == spec_response_items(Response::Error(found)),
        error is None ==> forall|other: Error|
            items@ != spec_response_items(Response::Error(other)),
{
    let n = items.len();
    if n == 3 || n == 7 || n == 9 {
        decode_plain_error(items)
    } else if n == 17 {
        decode_mismatch(items)
    } else {
        assert forall|other: Error| items@ != spec_response_items(Response::Error(other)) by {
            let written = spec_response_items(Response::Error(other));
            assert(written.len() == 3 || written.len() == 7 || written.len() == 9
                || written.len() == 17);
        }
        None
    }
}

/// Reads a response from its items. It is read from exactly the items that
/// some response is written as, and is then that response; any other
/// sequence is refused.
#[verifier::spinoff_prover]
#[verifier::rlimit(60)]
pub fn decode_response(items: &Vec<Item>) -> (response: Option<Response>)
    ensures
        response == spec_decode_response(items@),
        response matches Some(found) ==> items@ == spec_response_items(found),
        response is None ==> forall|other: Response| items@ != spec_response_items(other),
{
    let n = items.len();
    let mut response: Option<Response> = None;
    if n >= 3 && items[0] == Item::MapHead(1) {
        if items[1] == Item::Text(Name::Xmr) {
            if n == 3 {
                if let Item::Unsigned(piconero) = items[2] {
                    response = Some(Response::Xmr(MoneroAmount { piconero }));
                }
            }
        } else if items[1] == Item::Text(Name::Error) {
            match decode_error(items) {
                Some(error) => {
                    response = Some(Response::Error(error));
                },
                None => {},
            }
        }
    }
    proof {
        match response {
            Some(found) => {
                assert(items@ =~= spec_response_items(found));
                lemma_response_round_trips(found);
            },
            None => {
                assert forall|other: Response| items@ != spec_response_items(other) by {
                    let written = spec_response_items(other);
                    if items@ == written {
                        assert(written.len() == n);
                        assert(written[0] == items@[0]);
                        assert(written[1] == items@[1]);
                        assert(written[2] == items@[2]);
                    }
                }
            },
        }
    }
    response
}

/// Reads a request from its items. It is read from exactly the items that
/// some request is written as, and is then that request; any other sequence
/// is refused.
#[verifier::spinoff_prover]
#[verifier::rlimit(60)]
pub fn decode_request(items: &Vec<Item>) -> (request: Option<Request>)
    ensures
        request == spec_decode_request(items@),
        request matches Some(found) ==> items@ == spec_request_items(found),
        request is None ==> forall|other: Request| items@ != spec_request_items(other),
{
    let mut request: Option<Request> = None;
    if items.len() == 9 && items[0] == Item::MapHead(2) && items[1] == Item::Text(Name::Btc)
        && items[3] == Item::Text(Name::BlockchainNetwork) {
        if let Item::Unsigned(sat) = items[2] {
            match network_at(items, 4) {
                Some(blockchain_network) => {
                    request = Some(Request { btc: BitcoinAmount { sat }, blockchain_network });
                },
                None => {},
            }
        }
    }
    proof {
        match request {
            Some(found) => {
                let written = spec_request_items(found);
                assert(items@.subrange(4, 9) == spec_network_items(found.blockchain_network));
                assert forall|i: int| 0 <= i < 9 implies items@[i] == written[i] by {
                    if 4 <= i {
                        assert(items@[i] == items@.subrange(4, 9)[i - 4]);
                    }
                }
                assert(items@ =~= written);
                lemma_request_round_trips(found);
            },
            None => {
                assert forall|other: Request| items@ != spec_request_items(other) by {
                    let written = spec_request_items(other);
                    if items@ == written {
                        assert(written.len() == 9);
                        assert(written[0] == items@[0]);
                        assert(written[1] == items@[1]);
                        assert(written[2] == items@[2]);
                        assert(written[3] == items@[3]);
                        assert(written.subrange(4, 9) =~= spec_network_items(
                            other.blockchain_network,
                        ));
                    }
                }
            },
        }
    }
    request
}

} // verus!
