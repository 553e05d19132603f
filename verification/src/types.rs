//! The values the oracle stores, reads and reports.
use vstd::prelude::*;

verus! {

/// An asset the oracle can quote: a Stellar contract address or an off-chain symbol.
#[derive(Clone, Debug, PartialEq, Eq)]
pub enum Asset {
    Stellar(String),
    Other(String),
}

/// What identifies an asset: its kind and the characters of its address or symbol.
pub enum AssetView {
    Stellar(Seq<char>),
    Other(Seq<char>),
}

impl View for Asset {
    type V = AssetView;

    open spec fn view(&self) -> AssetView {
        match self {
            Asset::Stellar(address) => AssetView::Stellar(address@),
            Asset::Other(symbol) => AssetView::Other(symbol@),
        }
    }
}

impl Asset {
    /// Whether two assets name the same thing.
    pub fn same_as(&self, other: &Asset) -> (r: bool)
        ensures
            r == (self@ == other@),
    {
        match (self, other) {
            (Asset::Stellar(a), Asset::Stellar(b)) => *a == *b,
            (Asset::Other(a), Asset::Other(b)) => *a == *b,
            _ => false,
        }
    }
}

/// A price in the base asset, with the time (in seconds) it was recorded for.
#[derive(Clone, Copy, Debug, PartialEq, Eq, Structural)]
pub struct PriceData {
    pub price: i128,
    pub timestamp: u64,
}

/// Where the oracle takes its prices from.
#[derive(Clone, Copy, Debug, PartialEq, Eq, Structural)]
pub enum OracleSource {
    Reflector,
}

/// The keys under which the contract keeps its settings.
#[derive(Clone, Copy, Debug, PartialEq, Eq, Structural)]
pub enum DataKey {
    /// Address of the cross-chain gateway.
    Gateway,
    /// Address of the cross-chain gas service.
    GasService,
    /// The last message received from another chain.
    ReceivedMessage,
    Decimals,
    Resolution,
    BaseAsset,
    Period,
    /// History kept for average and volatility checks.
    HistoricalData,
}

/// Guard-rail parameters applied to raw oracle updates before they reach consumers.
///
/// They say when a price is stale or unsafe, and how tightly a new price is clamped
/// to the historical one.
#[derive(Clone, Copy, Debug, PartialEq, Eq, Structural)]
pub struct GuardRails {
    /// Maximum age (in seconds) before a price is stale.
    pub seconds_before_stale: u64,
    /// Maximum relative change between updates, in `PERCENTAGE_PRECISION_U64` units.
    pub too_volatile_ratio: u64,
    /// A new price may move at most `last_price / sanitize_clamp_denominator` per update.
    pub sanitize_clamp_denominator: u128,
}

/// The administrative roles of the contract.
#[derive(Clone, Copy, Debug, PartialEq, Eq, Structural)]
pub enum Role {
    Admin,
    EmergencyAdmin,
    OperationsAdmin,
    PauseAdmin,
    EmergencyPauseAdmin,
}

/// The configuration the contract is created with.
#[derive(Clone, Debug, PartialEq, Eq)]
pub struct ConfigData {
    pub admin: String,
    pub emergency_admin: String,
    pub operations_admin: String,
    pub pause_admin: String,
    pub emergency_pause_admins: Vec<String>,
    /// How long prices are retained.
    pub period: u64,
    /// The assets the contract quotes.
    pub assets: Vec<Asset>,
    /// The asset prices are expressed in.
    pub base_asset: Asset,
    /// The number of decimals of every price.
    pub decimals: u32,
    /// The spacing of price records.
    pub resolution: u32,
}

/// A raw price observed from the upstream oracle, with its delay in seconds.
#[derive(Clone, Copy, Debug, PartialEq, Eq, Structural)]
pub struct OraclePriceData {
    pub price: u128,
    pub delay: u64,
}

/// The history of an oracle feed kept between updates.
#[derive(Clone, Copy, Debug, PartialEq, Eq, Structural)]
pub struct HistoricalOracleData {
    pub last_price_twap: u128,
    pub last_price: u128,
    pub last_update_ts: u64,
    pub last_delay_ts: u64,
}

impl HistoricalOracleData {
    /// The history a feed starts from when its first price is observed at `now`.
    pub open spec fn spec_bootstrap(price_data: OraclePriceData, now: u64) -> HistoricalOracleData {
        HistoricalOracleData {
            last_price_twap: price_data.price,
            last_price: price_data.price,
            last_update_ts: now,
            last_delay_ts: price_data.delay,
        }
    }

    /// The history a feed starts from when its first price is observed at `now`.
    pub fn bootstrap(price_data: OraclePriceData, now: u64) -> (r: HistoricalOracleData)
        ensures
            r == Self::spec_bootstrap(price_data, now),
    {
        HistoricalOracleData {
            last_price_twap: price_data.price,
            last_price: price_data.price,
            last_update_ts: now,
            last_delay_ts: price_data.delay,
        }
    }
}

/// A token and amount offered to pay for cross-chain gas.
#[derive(Clone, Debug, PartialEq, Eq)]
pub struct GasToken {
    pub address: String,
    pub amount: i128,
}

/// A message that was received from another chain.
#[derive(Clone, Debug, PartialEq, Eq)]
pub struct ExecutedEvent {
    pub source_chain: String,
    pub message_id: String,
    pub source_address: String,
    pub payload: Vec<u8>,
}

/// What the contract hands to the gateway (and, when a token is given, to the gas service)
/// to send a message to another chain.
#[derive(Clone, Debug, PartialEq, Eq)]
pub struct OutgoingMessage {
    /// The gateway that carries the message.
    pub gateway: String,
    /// The gas service that is paid, when a payment is made.
    pub gas_service: String,
    pub destination_chain: String,
    pub destination_address: String,
    /// The message, encoded for the destination chain.
    pub payload: Vec<u8>,
    /// The gas payment to make first, if any.
    pub gas_payment: Option<GasToken>,
}

} // verus!
