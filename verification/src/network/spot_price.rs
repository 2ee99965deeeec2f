//! The spot-price protocol: one request and one response by which a party
//! that wants to sell bitcoin learns the price and whether the swap is taken.
//!
//! A spot price is binding for both parties: once the exchange completes,
//! both are expected to follow up with the execution setup.

use vstd::prelude::*;
use vstd::string::StringSliceAdditionalSpecFns;

verus! {

/// The bitcoin networks a party can declare.
#[derive(Clone, Copy, Debug, PartialEq, Eq, Structural)]
pub enum BitcoinNetwork {
    Mainnet,
    Testnet,
    Signet,
    Regtest,
}

/// The monero networks a party can declare.
#[derive(Clone, Copy, Debug, PartialEq, Eq, Structural)]
pub enum MoneroNetwork {
    Mainnet,
    Stagenet,
    Testnet,
}

/// The pair of networks a party operates on. Two parties may swap only if
/// their pairs are equal.
#[derive(Clone, Copy, Debug, PartialEq, Eq, Structural)]
pub struct BlockchainNetwork {
    pub bitcoin: BitcoinNetwork,
    pub monero: MoneroNetwork,
}

/// An amount of bitcoin, counted in satoshi.
#[derive(Clone, Copy, Debug, PartialEq, Eq, Structural)]
pub struct BitcoinAmount {
    pub sat: u64,
}

/// An amount of monero, counted in piconero.
#[derive(Clone, Copy, Debug, PartialEq, Eq, Structural)]
pub struct MoneroAmount {
    pub piconero: u64,
}

impl BitcoinAmount {
    /// The amount of `sat` satoshi.
    pub fn from_sat(sat: u64) -> (amount: BitcoinAmount)
        ensures
            amount.sat == sat,
    {
        BitcoinAmount { sat }
    }
}

impl MoneroAmount {
    /// The amount of `piconero` piconero.
    pub fn from_piconero(piconero: u64) -> (amount: MoneroAmount)
        ensures
            amount.piconero == piconero,
    {
        MoneroAmount { piconero }
    }
}

/// What the buyer of monero asks: the bitcoin it wants to spend, and the
/// networks it is on.
#[derive(Clone, Copy, Debug, PartialEq, Eq, Structural)]
pub struct Request {
    pub btc: BitcoinAmount,
    pub blockchain_network: BlockchainNetwork,
}

/// Why a request was turned down.
#[derive(Clone, Copy, Debug, PartialEq, Eq, Structural)]
pub enum Error {
    NoSwapsAccepted,
    AmountBelowMinimum { min: BitcoinAmount, buy: BitcoinAmount },
    AmountAboveMaximum { max: BitcoinAmount, buy: BitcoinAmount },
    BalanceTooLow { buy: BitcoinAmount },
    BlockchainNetworkMismatch { cli: BlockchainNetwork, asb: BlockchainNetwork },
    /// For failures on the seller's side that the buyer cannot be told
    /// about, such as a broken rate feed.
    Other,
}

/// The seller's answer: the monero offered for the bitcoin, or a refusal.
#[derive(Clone, Copy, Debug, PartialEq, Eq, Structural)]
pub enum Response {
    Xmr(MoneroAmount),
    Error(Error),
}

/// Marks a network on which no swap can be made.
#[derive(Clone, Copy, Debug, PartialEq, Eq, Structural)]
pub struct NetworkNotSupported;

/// The name under which the protocol is announced to a peer.
pub const PROTOCOL: &'static str = "/comit/xmr/btc/spot-price/1.0.0";

/// Stands for the spot-price protocol where a transport asks for its name.
#[derive(Debug, Clone, Copy, Default)]
pub struct SpotPriceProtocol;

impl SpotPriceProtocol {
    /// The bytes of the protocol's name.
    pub fn protocol_name(&self) -> (name: &'static [u8])
        ensures
            name@ == PROTOCOL.spec_bytes(),
    {
        PROTOCOL.as_bytes()
    }
}

/// The networks of the `bitcoin` crate.
#[verifier::external_type_specification]
pub struct ExBitcoinNetwork(bitcoin::Network);

/// The networks of the `monero` crate.
#[verifier::external_type_specification]
pub struct ExMoneroNetwork(monero::Network);

impl From<bitcoin::Network> for BitcoinNetwork {
    fn from(network: bitcoin::Network) -> (declared: BitcoinNetwork) {
        match network {
            bitcoin::Network::Bitcoin => BitcoinNetwork::Mainnet,
            bitcoin::Network::Testnet => BitcoinNetwork::Testnet,
            bitcoin::Network::Signet => BitcoinNetwork::Signet,
            bitcoin::Network::Regtest => BitcoinNetwork::Regtest,
        }
    }
}

impl vstd::std_specs::convert::FromSpecImpl<bitcoin::Network> for BitcoinNetwork {
    open spec fn obeys_from_spec() -> bool {
        true
    }

    open spec fn from_spec(network: bitcoin::Network) -> BitcoinNetwork {
        match network {
            bitcoin::Network::Bitcoin => BitcoinNetwork::Mainnet,
            bitcoin::Network::Testnet => BitcoinNetwork::Testnet,
            bitcoin::Network::Signet => BitcoinNetwork::Signet,
            bitcoin::Network::Regtest => BitcoinNetwork::Regtest,
        }
    }
}

impl From<monero::Network> for MoneroNetwork {
    fn from(network: monero::Network) -> (declared: MoneroNetwork) {
        match network {
            monero::Network::Mainnet => MoneroNetwork::Mainnet,
            monero::Network::Stagenet => MoneroNetwork::Stagenet,
            monero::Network::Testnet => MoneroNetwork::Testnet,
        }
    }
}

impl vstd::std_specs::convert::FromSpecImpl<monero::Network> for MoneroNetwork {
    open spec fn obeys_from_spec() -> bool {
        true
    }

    open spec fn from_spec(network: monero::Network) -> MoneroNetwork {
        match network {
            monero::Network::Mainnet => MoneroNetwork::Mainnet,
            monero::Network::Stagenet => MoneroNetwork::Stagenet,
            monero::Network::Testnet => MoneroNetwork::Testnet,
        }
    }
}

/// The answer that a seller on the networks `asb` owes to `request`, where
/// `offer` is what its pricing and its limits made of the amount: a refusal
/// that names both declarations where the networks differ, whatever the
/// offer, and the offer itself where they agree.
pub open spec fn spec_negotiate(
    request: Request,
    asb: BlockchainNetwork,
    offer: Response,
) -> Response {
    if request.blockchain_network == asb {
        offer
    } else {
        Response::Error(
            Error::BlockchainNetworkMismatch { cli: request.blockchain_network, asb },
        )
    }
}

/// Answers a request as the seller. The networks are compared before the
/// offer is looked at: a swap across different networks could not be
/// redeemed, so such a request is refused with both declarations, and only
/// a request on the seller's own networks gets the offer.
pub fn negotiate(request: Request, asb: BlockchainNetwork, offer: Response) -> (response:
    Response)
    ensures
        response == spec_negotiate(request, asb, offer),
        request.blockchain_network != asb ==> response == Response::Error(
            Error::BlockchainNetworkMismatch { cli: request.blockchain_network, asb },
        ),
        request.blockchain_network == asb ==> response == offer,
{
    if request.blockchain_network == asb {
        offer
    } else {
        Response::Error(
            Error::BlockchainNetworkMismatch { cli: request.blockchain_network, asb },
        )
    }
}

/// A request on other networks than the seller's is answered with the
/// mismatch of exactly the two declarations, whatever amount it asks for
/// and whatever the seller would have offered.
pub proof fn lemma_mismatch_ignores_amount_and_offer(
    cli: BlockchainNetwork,
    asb: BlockchainNetwork,
    btc: BitcoinAmount,
    offer: Response,
)
    requires
        cli != asb,
    ensures
        spec_negotiate(Request { btc, blockchain_network: cli }, asb, offer) == Response::Error(
            Error::BlockchainNetworkMismatch { cli, asb },
        ),
{
}

} // verus!
