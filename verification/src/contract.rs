//! The oracle contract: its state and the requests it answers.
use vstd::prelude::*;

use crate::abi::{abi_decode_string, abi_decoding, abi_encode, abi_encoding};
use crate::constants::{
    CONTRACT_VERSION, MAX_SANITIZE_CLAMP_DENOMINATOR, PERCENTAGE_PRECISION_U64, TWENTY_FOUR_HOUR,
};
use crate::errors::NormalOracleError;
use crate::oracle::{
    collected, get_price_data, get_price_data_by_index, get_asset_index, history_view,
    obtain_record_timestamp, prices, spec_now,
};
use crate::price_table::PriceTable;
use crate::types::{
    Asset, AssetView, ConfigData, ExecutedEvent, GasToken, GuardRails, HistoricalOracleData,
    OutgoingMessage, PriceData, Role,
};

verus! {

/// The state of one oracle contract: its administrators, its settings, the prices it
/// holds and the messages it has exchanged with other chains.
///
/// A setting that is `None` has never been written; reading it gives its default.
pub struct NormalOracle {
    pub admin: Option<String>,
    pub emergency_admin: Option<String>,
    pub operations_admin: Option<String>,
    pub pause_admin: Option<String>,
    pub emergency_pause_admins: Vec<String>,
    /// While set, upgrades may be applied without waiting.
    pub emergency_mode: bool,
    pub base_asset: Option<Asset>,
    pub assets: Vec<Asset>,
    pub retention_period: Option<u64>,
    pub decimals: Option<u32>,
    /// Spacing of price records, in milliseconds.
    pub resolution: Option<u32>,
    pub sanitize_clamp_denominator: Option<u128>,
    pub seconds_before_stale: Option<u64>,
    pub too_volatile_ratio: Option<u64>,
    /// Timestamp (in milliseconds) of the newest price round; zero before the first.
    pub last_timestamp: u64,
    pub prices: PriceTable,
    pub historical_data: Option<HistoricalOracleData>,
    pub gateway: Option<String>,
    pub gas_service: Option<String>,
    pub received_message: Option<Vec<u8>>,
}

impl NormalOracle {
    /// A contract before its constructor ran: nothing stored, no administrators.
    pub open spec fn spec_is_blank(&self) -> bool {
        &&& self.admin is None
        &&& self.emergency_admin is None
        &&& self.operations_admin is None
        &&& self.pause_admin is None
        &&& self.emergency_pause_admins@.len() == 0
        &&& !self.emergency_mode
        &&& self.base_asset is None
        &&& self.assets@.len() == 0
        &&& self.retention_period is None
        &&& self.decimals is None
        &&& self.resolution is None
        &&& self.sanitize_clamp_denominator is None
        &&& self.seconds_before_stale is None
        &&& self.too_volatile_ratio is None
        &&& self.last_timestamp == 0
        &&& self.prices@ == Map::<(u8, u64), i128>::empty()
        &&& self.historical_data is None
        &&& self.gateway is None
        &&& self.gas_service is None
        &&& self.received_message is None
    }

    /// The state of a freshly deployed contract, before its constructor ran.
    pub fn new() -> (r: NormalOracle)
        ensures
            r.spec_is_blank(),
            r.spec_guard_rails_in_range(),
    {
        NormalOracle {
            admin: None,
            emergency_admin: None,
            operations_admin: None,
            pause_admin: None,
            emergency_pause_admins: Vec::new(),
            emergency_mode: false,
            base_asset: None,
            assets: Vec::new(),
            retention_period: None,
            decimals: None,
            resolution: None,
            sanitize_clamp_denominator: None,
            seconds_before_stale: None,
            too_volatile_ratio: None,
            last_timestamp: 0,
            prices: PriceTable::new(),
            historical_data: None,
            gateway: None,
            gas_service: None,
            received_message: None,
        }
    }
}

/// `slot` holds an address with the characters `who`.
pub open spec fn holds(slot: Option<String>, who: Seq<char>) -> bool {
    slot matches Some(a) && a@ == who
}

/// Whether `slot` holds `who`.
fn slot_holds(slot: &Option<String>, who: &String) -> (r: bool)
    ensures
        r == holds(*slot, who@),
{
    match slot {
        Some(a) => *a == *who,
        None => false,
    }
}

/// The roles in the order the privileged-address listing reports them.
pub open spec fn listed_role(i: int) -> Role {
    if i == 0 {
        Role::Admin
    } else if i == 1 {
        Role::EmergencyAdmin
    } else if i == 2 {
        Role::OperationsAdmin
    } else if i == 3 {
        Role::PauseAdmin
    } else {
        Role::EmergencyPauseAdmin
    }
}

/// A copy of an optional address, as a list of at most one.
fn slot_list(slot: &Option<String>) -> (r: Vec<String>)
    ensures
        r@ == (match *slot {
            Some(a) => seq![a],
            None => Seq::<String>::empty(),
        }),
{
    let mut r: Vec<String> = Vec::new();
    match slot {
        Some(a) => {
            r.push(a.clone());
        },
        None => {},
    }
    r
}

impl NormalOracle {
    /// The single address holding `role`, for a role held by one address.
    pub open spec fn spec_role_address(&self, role: Role) -> Option<String> {
        match role {
            Role::Admin => self.admin,
            Role::EmergencyAdmin => self.emergency_admin,
            Role::OperationsAdmin => self.operations_admin,
            Role::PauseAdmin => self.pause_admin,
            Role::EmergencyPauseAdmin => None,
        }
    }

    /// The addresses holding `role`.
    pub open spec fn spec_role_addresses(&self, role: Role) -> Seq<String> {
        match role {
            Role::EmergencyPauseAdmin => self.emergency_pause_admins@,
            _ => match self.spec_role_address(role) {
                Some(a) => seq![a],
                None => Seq::empty(),
            },
        }
    }

    /// The address `who` holds `role`.
    pub open spec fn spec_has_role(&self, who: Seq<char>, role: Role) -> bool {
        exists|i: int|
            0 <= i < self.spec_role_addresses(role).len() && #[trigger] self.spec_role_addresses(
                role,
            )[i]@ == who
    }

    /// The address `who` may change operational settings: it is the owner (the admin) or
    /// the operations admin.
    pub open spec fn spec_is_operations_admin_or_owner(&self, who: Seq<char>) -> bool {
        holds(self.admin, who) || holds(self.operations_admin, who)
    }

    /// For a role held by one address, holding it means being that address.
    pub proof fn lemma_single_role(&self, who: Seq<char>, role: Role)
        requires
            role != Role::EmergencyPauseAdmin,
        ensures
            self.spec_has_role(who, role) <==> holds(self.spec_role_address(role), who),
    {
        if holds(self.spec_role_address(role), who) {
            assert(self.spec_role_addresses(role)[0]@ == who);
        }
    }

    /// Refuses unless `address` holds `role`.
    pub fn require_role(&self, address: &String, role: Role) -> (r: Result<(), NormalOracleError>)
        ensures
            r is Ok <==> self.spec_has_role(address@, role),
            r matches Err(e) ==> e == NormalOracleError::Unauthorized,
    {
        match role {
            Role::EmergencyPauseAdmin => {
                let mut i: usize = 0;
                while i < self.emergency_pause_admins.len()
                    invariant
                        role == Role::EmergencyPauseAdmin,
                        i <= self.emergency_pause_admins.len(),
                        forall|j: int| 0 <= j < i ==> self.emergency_pause_admins@[j]@ != address@,
                    decreases self.emergency_pause_admins.len() - i,
                {
                    if self.emergency_pause_admins[i] == *address {
                        assert(self.spec_role_addresses(role)[i as int]@ == address@);
                        return Ok(());
                    }
                    i = i + 1;
                }
                Err(NormalOracleError::Unauthorized)
            },
            _ => {
                let slot = match role {
                    Role::Admin => &self.admin,
                    Role::EmergencyAdmin => &self.emergency_admin,
                    Role::OperationsAdmin => &self.operations_admin,
                    _ => &self.pause_admin,
                };
                if slot_holds(slot, address) {
                    assert(self.spec_role_addresses(role)[0]@ == address@);
                    Ok(())
                } else {
                    Err(NormalOracleError::Unauthorized)
                }
            },
        }
    }

    /// Refuses unless `address` is the admin or the operations admin.
    pub fn require_operations_admin_or_owner(&self, address: &String) -> (r: Result<(), NormalOracleError>)
        ensures
            r is Ok <==> self.spec_is_operations_admin_or_owner(address@),
            r matches Err(e) ==> e == NormalOracleError::Unauthorized,
    {
        if slot_holds(&self.admin, address) || slot_holds(&self.operations_admin, address) {
            Ok(())
        } else {
            Err(NormalOracleError::Unauthorized)
        }
    }

    /// Sets up a new contract from `config`: its administrators, base asset, quoted
    /// assets, decimals, resolution and retention period, and the cross-chain gateway and
    /// gas service it uses. Refused once an admin is set.
    pub fn __constructor(&mut self, config: ConfigData, gateway: String, gas_service: String) -> (r: Result<(), NormalOracleError>)
        ensures
            old(self).spec_guard_rails_in_range() ==> final(self).spec_guard_rails_in_range(),
            old(self).admin is Some ==> r == Err::<(), NormalOracleError>(
                NormalOracleError::AlreadyInitialized,
            ) && *final(self) == *old(self),
            old(self).admin is None ==> r is Ok && *final(self) == (NormalOracle {
                admin: Some(config.admin),
                emergency_admin: Some(config.emergency_admin),
                pause_admin: Some(config.pause_admin),
                emergency_pause_admins: config.emergency_pause_admins,
                operations_admin: Some(config.operations_admin),
                base_asset: Some(config.base_asset),
                assets: config.assets,
                decimals: Some(config.decimals),
                resolution: Some(config.resolution),
                retention_period: Some(config.period),
                gateway: Some(gateway),
                gas_service: Some(gas_service),
                ..*old(self)
            }),
    {
        if self.admin.is_some() {
            return Err(NormalOracleError::AlreadyInitialized);
        }
        self.admin = Some(config.admin);
        self.emergency_admin = Some(config.emergency_admin);
        self.pause_admin = Some(config.pause_admin);
        self.emergency_pause_admins = config.emergency_pause_admins;
        self.operations_admin = Some(config.operations_admin);
        self.base_asset = Some(config.base_asset);
        self.assets = config.assets;
        self.decimals = Some(config.decimals);
        self.resolution = Some(config.resolution);
        self.retention_period = Some(config.period);
        self.gateway = Some(gateway);
        self.gas_service = Some(gas_service);
        Ok(())
    }

    /// The address of the cross-chain gateway.
    pub fn __gateway(&self) -> (r: &String)
        requires
            self.gateway is Some,
        ensures
            *r == self.gateway->0,
    {
        self.gateway.as_ref().unwrap()
    }

    /// The address of the cross-chain gas service.
    pub fn gas_service(&self) -> (r: &String)
        requires
            self.gas_service is Some,
        ensures
            *r == self.gas_service->0,
    {
        self.gas_service.as_ref().unwrap()
    }

    /// Takes in a message from another chain: stores the string it encodes and reports
    /// the message; refused, with nothing stored, when the payload is not a well-formed
    /// encoding.
    pub fn __execute(
        &mut self,
        source_chain: String,
        message_id: String,
        source_address: String,
        payload: Vec<u8>,
    ) -> (r: Result<ExecutedEvent, NormalOracleError>)
        ensures
            old(self).spec_guard_rails_in_range() ==> final(self).spec_guard_rails_in_range(),
            abi_decoding(payload@) is None ==> r == Err::<ExecutedEvent, NormalOracleError>(
                NormalOracleError::FailedDecoding,
            ) && *final(self) == *old(self),
            abi_decoding(payload@) matches Some(message) ==> {
                &&& r matches Ok(event) && event == (ExecutedEvent {
                    source_chain,
                    message_id,
                    source_address,
                    payload,
                })
                &&& final(self).received_message matches Some(stored) && stored@ == message
                &&& *final(self) == (NormalOracle { received_message: final(self).received_message, ..*old(self) })
            },
    {
        let decoded_msg = match abi_decode_string(&payload) {
            Some(m) => m,
            None => return Err(NormalOracleError::FailedDecoding),
        };
        // Store the received message
        self.received_message = Some(decoded_msg);
        Ok(ExecutedEvent { source_chain, message_id, source_address, payload })
    }

    /// What to hand the gateway and gas service to send `message` to another chain: the
    /// encoded message, and a gas payment when a gas token is offered.
    pub fn send(
        &self,
        destination_chain: String,
        destination_address: String,
        message: &Vec<u8>,
        gas_token: Option<GasToken>,
    ) -> (r: OutgoingMessage)
        requires
            self.gateway is Some,
            self.gas_service is Some,
        ensures
            r.gateway == self.gateway->0,
            r.gas_service == self.gas_service->0,
            r.destination_chain == destination_chain,
            r.destination_address == destination_address,
            r.payload@ == abi_encoding(message@),
            r.gas_payment == gas_token,
    {
        let gateway = self.__gateway().clone();
        let gas_service = self.gas_service().clone();
        let encoded_msg = abi_encode(message);
        OutgoingMessage {
            gateway,
            gas_service,
            destination_chain,
            destination_address,
            payload: encoded_msg,
            gas_payment: gas_token,
        }
    }

    /// The last message received from another chain; empty when there is none.
    pub fn received_message(&self) -> (r: Vec<u8>)
        ensures
            r@ == (match self.received_message {
                Some(m) => m@,
                None => Seq::<u8>::empty(),
            }),
    {
        match &self.received_message {
            Some(m) => m.clone(),
            None => Vec::new(),
        }
    }

    /// The asset prices are reported in.
    pub fn base(&self) -> (r: &Asset)
        requires
            self.base_asset is Some,
        ensures
            *r == self.base_asset->0,
    {
        self.base_asset.as_ref().unwrap()
    }

    /// All assets the contract quotes.
    pub fn assets(&self) -> (r: &Vec<Asset>)
        ensures
            r@ == self.assets@,
    {
        &self.assets
    }

    /// The number of decimals of every price.
    pub fn decimals(&self) -> (r: u32)
        ensures
            r == self.spec_decimals(),
    {
        self.get_decimals()
    }

    /// The record spacing in seconds (the stored spacing is in milliseconds).
    pub fn resolution(&self) -> (r: u32)
        ensures
            r == self.spec_resolution() / 1000,
    {
        self.get_resolution() / 1000
    }

    /// The price of `asset` recorded at `timestamp` (seconds): the record kept under that
    /// time in milliseconds; none when there is none. No record is kept under a time that
    /// does not fit in milliseconds.
    pub open spec fn spec_price_at(&self, asset: AssetView, timestamp: u64) -> Option<PriceData> {
        if timestamp * 1000 <= u64::MAX {
            self.spec_price_data(asset, (timestamp * 1000) as u64)
        } else {
            None
        }
    }

    /// The price of `asset` at `timestamp` (seconds), stamped with that same timestamp.
    pub fn price(&self, asset: &Asset, timestamp: u64) -> (r: Option<PriceData>)
        ensures
            r == self.spec_price_at(asset@, timestamp),
            r matches Some(p) ==> p.timestamp == timestamp,
    {
        if timestamp > u64::MAX / 1000 {
            return None;
        }
        get_price_data(self, asset, timestamp * 1000)
    }

    /// The history of `asset` that a query for `records` records returns.
    pub open spec fn spec_history(&self, ledger_timestamp: u64, asset: AssetView, records: u32) -> Option<Seq<PriceData>> {
        if self.spec_record_timestamp(ledger_timestamp) == 0 {
            None
        } else {
            match self.spec_asset_index(asset) {
                Some(index) => collected(
                    self.spec_walk(ledger_timestamp, records).map_values(
                        |t: int| self.spec_price_data_by_index(index, t as u64),
                    ),
                ),
                None => None,
            }
        }
    }

    /// The last `records` (at most twenty) prices of `asset`, newest first.
    pub fn prices(&self, ledger_timestamp: u64, asset: &Asset, records: u32) -> (r: Option<Vec<PriceData>>)
        requires
            spec_now(ledger_timestamp) <= u64::MAX,
        ensures
            history_view(r) == self.spec_history(ledger_timestamp, asset@, records),
    {
        let index = match get_asset_index(self, asset) {
            Some(i) => i,
            None => {
                return None;
            },
        };
        let lookup = |timestamp: u64| -> (p: Option<PriceData>)
            ensures
                p == self.spec_price_data_by_index(index, timestamp),
            { get_price_data_by_index(self, index, timestamp) };
        let r = prices(self, ledger_timestamp, lookup, records);
        proof {
            if self.spec_record_timestamp(ledger_timestamp) != 0 {
                let walk = self.spec_walk(ledger_timestamp, records);
                let responses = choose|responses: Seq<Option<PriceData>>|
                    #[trigger] crate::oracle::answers(lookup, walk, responses) && history_view(r)
                        == collected(responses);
                assert(responses =~= walk.map_values(
                    |t: int| self.spec_price_data_by_index(index, t as u64),
                ));
            }
        }
        r
    }

    /// The newest price of `asset`, if its newest round is still usable.
    pub fn lastprice(&self, ledger_timestamp: u64, asset: &Asset) -> (r: Option<PriceData>)
        requires
            spec_now(ledger_timestamp) <= u64::MAX,
        ensures
            r == (if self.spec_record_timestamp(ledger_timestamp) == 0 {
                None
            } else {
                self.spec_price_data(asset@, self.spec_record_timestamp(ledger_timestamp))
            }),
    {
        let timestamp = obtain_record_timestamp(self, ledger_timestamp);
        if timestamp == 0 {
            return None;
        }
        get_price_data(self, asset, timestamp)
    }

    /// The guard rails lie in the ranges their setters accept: a staleness limit of one
    /// second to a day, a volatility ratio of at most one hundred percent, and a clamp
    /// denominator of at most `MAX_SANITIZE_CLAMP_DENOMINATOR`.
    pub open spec fn spec_guard_rails_in_range(&self) -> bool {
        &&& 1 <= self.spec_seconds_before_stale() <= TWENTY_FOUR_HOUR
        &&& self.spec_too_volatile_ratio() <= PERCENTAGE_PRECISION_U64
        &&& self.spec_sanitize_clamp_denominator() <= MAX_SANITIZE_CLAMP_DENOMINATOR
    }

    /// The guard rails currently in force.
    pub open spec fn spec_guard_rails(&self) -> GuardRails {
        GuardRails {
            seconds_before_stale: self.spec_seconds_before_stale(),
            too_volatile_ratio: self.spec_too_volatile_ratio(),
            sanitize_clamp_denominator: self.spec_sanitize_clamp_denominator(),
        }
    }

    /// The guard rails currently in force.
    pub fn get_guard_rails(&self) -> (r: GuardRails)
        ensures
            r == self.spec_guard_rails(),
    {
        GuardRails {
            seconds_before_stale: self.get_seconds_before_stale(),
            too_volatile_ratio: self.get_too_volatile_ratio(),
            sanitize_clamp_denominator: self.get_sanitize_clamp_denominator(),
        }
    }

    /// Every role with the addresses holding it: the admin, emergency admin, operations
    /// admin and pause admin (each none or one), then the emergency pause admins.
    pub fn get_privileged_addrs(&self) -> (r: Vec<(Role, Vec<String>)>)
        ensures
            r@.len() == 5,
            forall|i: int|
                0 <= i < 5 ==> (#[trigger] r@[i]).0 == listed_role(i) && r@[i].1@
                    == self.spec_role_addresses(listed_role(i)),
    {
        let mut result: Vec<(Role, Vec<String>)> = Vec::new();
        result.push((Role::Admin, slot_list(&self.admin)));
        result.push((Role::EmergencyAdmin, slot_list(&self.emergency_admin)));
        result.push((Role::OperationsAdmin, slot_list(&self.operations_admin)));
        result.push((Role::PauseAdmin, slot_list(&self.pause_admin)));
        let pause_admins = self.emergency_pause_admins.clone();
        assert(pause_admins@ =~= self.emergency_pause_admins@);
        result.push((Role::EmergencyPauseAdmin, pause_admins));
        result
    }

    /// Sets the staleness limit (seconds); the caller must be the admin or the operations
    /// admin, and the limit must lie in `1..=TWENTY_FOUR_HOUR`.
    pub fn set_seconds_before_stale(&mut self, admin: &String, stale_limit: u64) -> (r: Result<(), NormalOracleError>)
        ensures
            r is Ok <==> old(self).spec_is_operations_admin_or_owner(admin@) && 1 <= stale_limit
                <= TWENTY_FOUR_HOUR,
            old(self).spec_guard_rails_in_range() ==> final(self).spec_guard_rails_in_range(),
            !old(self).spec_is_operations_admin_or_owner(admin@) ==> r == Err::<(), NormalOracleError>(
                NormalOracleError::Unauthorized,
            ),
            old(self).spec_is_operations_admin_or_owner(admin@) && (stale_limit == 0 || stale_limit
                > TWENTY_FOUR_HOUR) ==> r == Err::<(), NormalOracleError>(NormalOracleError::InvalidInput),
            r is Err ==> *final(self) == *old(self),
            r is Ok ==> *final(self) == (NormalOracle { seconds_before_stale: Some(stale_limit), ..*old(self) }),
    {
        self.require_operations_admin_or_owner(admin)?;
        if stale_limit == 0 || stale_limit > TWENTY_FOUR_HOUR {
            return Err(NormalOracleError::InvalidInput);
        }
        self.seconds_before_stale = Some(stale_limit);
        Ok(())
    }

    /// Sets the volatility ratio; the caller must be the admin or the operations admin,
    /// and the ratio must not exceed one hundred percent.
    pub fn set_too_volatile_ratio(&mut self, admin: &String, too_volatile_ratio: u64) -> (r: Result<(), NormalOracleError>)
        ensures
            r is Ok <==> old(self).spec_is_operations_admin_or_owner(admin@) && too_volatile_ratio
                <= PERCENTAGE_PRECISION_U64,
            old(self).spec_guard_rails_in_range() ==> final(self).spec_guard_rails_in_range(),
            !old(self).spec_is_operations_admin_or_owner(admin@) ==> r == Err::<(), NormalOracleError>(
                NormalOracleError::Unauthorized,
            ),
            old(self).spec_is_operations_admin_or_owner(admin@) && too_volatile_ratio
                > PERCENTAGE_PRECISION_U64 ==> r == Err::<(), NormalOracleError>(NormalOracleError::InvalidInput),
            r is Err ==> *final(self) == *old(self),
            r is Ok ==> *final(self) == (NormalOracle { too_volatile_ratio: Some(too_volatile_ratio), ..*old(self) }),
    {
        self.require_operations_admin_or_owner(admin)?;
        if too_volatile_ratio > PERCENTAGE_PRECISION_U64 {
            return Err(NormalOracleError::InvalidInput);
        }
        self.too_volatile_ratio = Some(too_volatile_ratio);
        Ok(())
    }

    /// Sets the clamp denominator; the caller must be the admin or the operations admin,
    /// and the denominator must not exceed `MAX_SANITIZE_CLAMP_DENOMINATOR`.
    pub fn set_sanitize_clamp_denominator(&mut self, admin: &String, sanitize_clamp_denominator: u128) -> (r: Result<(), NormalOracleError>)
        ensures
            r is Ok <==> old(self).spec_is_operations_admin_or_owner(admin@) && sanitize_clamp_denominator
                <= MAX_SANITIZE_CLAMP_DENOMINATOR,
            old(self).spec_guard_rails_in_range() ==> final(self).spec_guard_rails_in_range(),
            !old(self).spec_is_operations_admin_or_owner(admin@) ==> r == Err::<(), NormalOracleError>(
                NormalOracleError::Unauthorized,
            ),
            old(self).spec_is_operations_admin_or_owner(admin@) && sanitize_clamp_denominator
                > MAX_SANITIZE_CLAMP_DENOMINATOR ==> r == Err::<(), NormalOracleError>(NormalOracleError::InvalidInput),
            r is Err ==> *final(self) == *old(self),
            r is Ok ==> *final(self) == (NormalOracle {
                sanitize_clamp_denominator: Some(sanitize_clamp_denominator),
                ..*old(self)
            }),
    {
        self.require_operations_admin_or_owner(admin)?;
        if sanitize_clamp_denominator > MAX_SANITIZE_CLAMP_DENOMINATOR {
            return Err(NormalOracleError::InvalidInput);
        }
        self.sanitize_clamp_denominator = Some(sanitize_clamp_denominator);
        Ok(())
    }

    /// Replaces the operations admin, the pause admin and the emergency pause admins;
    /// the caller must be the admin.
    pub fn set_privileged_addrs(
        &mut self,
        admin: &String,
        operations_admin: String,
        pause_admin: String,
        emergency_pause_admins: Vec<String>,
    ) -> (r: Result<(), NormalOracleError>)
        ensures
            old(self).spec_guard_rails_in_range() ==> final(self).spec_guard_rails_in_range(),
            r is Ok <==> holds(old(self).admin, admin@),
            r is Err ==> r == Err::<(), NormalOracleError>(NormalOracleError::Unauthorized) && *final(self)
                == *old(self),
            r is Ok ==> *final(self) == (NormalOracle {
                operations_admin: Some(operations_admin),
                pause_admin: Some(pause_admin),
                emergency_pause_admins,
                ..*old(self)
            }),
    {
        proof {
            self.lemma_single_role(admin@, Role::Admin);
        }
        self.require_role(admin, Role::Admin)?;
        self.operations_admin = Some(operations_admin);
        self.pause_admin = Some(pause_admin);
        self.emergency_pause_admins = emergency_pause_admins;
        Ok(())
    }

    /// Turns emergency mode on or off; the caller must be the emergency admin.
    pub fn set_emergency_mode(&mut self, emergency_admin: &String, value: bool) -> (r: Result<(), NormalOracleError>)
        ensures
            old(self).spec_guard_rails_in_range() ==> final(self).spec_guard_rails_in_range(),
            r is Ok <==> holds(old(self).emergency_admin, emergency_admin@),
            r is Err ==> r == Err::<(), NormalOracleError>(NormalOracleError::Unauthorized) && *final(self)
                == *old(self),
            r is Ok ==> *final(self) == (NormalOracle { emergency_mode: value, ..*old(self) }),
    {
        proof {
            self.lemma_single_role(emergency_admin@, Role::EmergencyAdmin);
        }
        self.require_role(emergency_admin, Role::EmergencyAdmin)?;
        self.emergency_mode = value;
        Ok(())
    }

    /// Whether emergency mode is on.
    pub fn get_emergency_mode(&self) -> (r: bool)
        ensures
            r == self.emergency_mode,
    {
        self.emergency_mode
    }

    /// The contract's version number.
    pub fn version() -> (r: u32)
        ensures
            r == CONTRACT_VERSION,
    {
        CONTRACT_VERSION
    }

    /// The contract's type name.
    pub fn contract_name() -> (r: &'static str)
        ensures
            r@ == "NormalOracle"@,
    {
        "NormalOracle"
    }

    /// The address `role` will pass to: its current holder while no transfer is pending
    /// (`transfer_deadline` zero), refused when the role has no single holder; `None`
    /// while a transfer is pending, meaning the committed new address.
    pub fn get_future_address(&self, role: Role, transfer_deadline: u64) -> (r: Result<Option<String>, NormalOracleError>)
        ensures
            transfer_deadline != 0 ==> r == Ok::<Option<String>, NormalOracleError>(None),
            transfer_deadline == 0 ==> r == (match self.spec_role_address(role) {
                Some(a) => Ok::<Option<String>, NormalOracleError>(Some(a)),
                None => Err(NormalOracleError::RoleNotFound),
            }),
    {
        if transfer_deadline != 0 {
            return Ok(None);
        }
        let slot = match role {
            Role::Admin => &self.admin,
            Role::EmergencyAdmin => &self.emergency_admin,
            Role::OperationsAdmin => &self.operations_admin,
            Role::PauseAdmin => &self.pause_admin,
            Role::EmergencyPauseAdmin => {
                return Err(NormalOracleError::RoleNotFound);
            },
        };
        match slot {
            Some(address) => Ok(Some(address.clone())),
            None => Err(NormalOracleError::RoleNotFound),
        }
    }
}

} // verus!
