use normal_oracle::contract::NormalOracle;
use normal_oracle::errors::NormalOracleError;
use normal_oracle::types::{Asset, ConfigData, GuardRails, HistoricalOracleData, OraclePriceData, Role};

fn s(x: &str) -> String {
    x.to_string()
}

fn config() -> ConfigData {
    ConfigData {
        admin: s("ADMIN"),
        emergency_admin: s("EMERGENCY"),
        operations_admin: s("OPS"),
        pause_admin: s("PAUSE"),
        emergency_pause_admins: vec![s("EP1"), s("EP2")],
        period: 86400,
        assets: vec![Asset::Other(s("XLM")), Asset::Other(s("BTC"))],
        base_asset: Asset::Other(s("USD")),
        decimals: 14,
        resolution: 300_000,
    }
}

fn configured() -> NormalOracle {
    let mut oracle = NormalOracle::new();
    assert_eq!(oracle.__constructor(config(), s("GATEWAY"), s("GAS")), Ok(()));
    oracle
}

#[test]
fn blank_contract_reports_defaults() {
    let oracle = NormalOracle::new();
    assert_eq!(oracle.decimals(), 7);
    assert_eq!(oracle.get_resolution(), 500);
    assert_eq!(oracle.resolution(), 0);
    assert_eq!(
        oracle.get_guard_rails(),
        GuardRails { seconds_before_stale: 300, too_volatile_ratio: 200_000, sanitize_clamp_denominator: 10 }
    );
    assert!(!oracle.get_emergency_mode());
    assert!(oracle.received_message().is_empty());
}

#[test]
fn constructor_stores_the_configuration() {
    let oracle = configured();
    assert_eq!(oracle.admin, Some(s("ADMIN")));
    assert_eq!(oracle.decimals(), 14);
    assert_eq!(oracle.get_resolution(), 300_000);
    assert_eq!(oracle.resolution(), 300);
    assert_eq!(oracle.base(), &Asset::Other(s("USD")));
    assert_eq!(oracle.assets().len(), 2);
    assert_eq!(oracle.retention_period, Some(86400));
    assert_eq!(oracle.__gateway(), "GATEWAY");
    assert_eq!(oracle.gas_service(), "GAS");
}

#[test]
fn constructor_runs_only_once() {
    let mut oracle = configured();
    let mut other = config();
    other.admin = s("INTRUDER");
    assert_eq!(oracle.__constructor(other, s("G2"), s("S2")), Err(NormalOracleError::AlreadyInitialized));
    assert_eq!(oracle.admin, Some(s("ADMIN")));
    assert_eq!(oracle.__gateway(), "GATEWAY");
}

#[test]
fn guard_rails_follow_their_setters() {
    let mut oracle = configured();
    assert_eq!(oracle.set_seconds_before_stale(&s("OPS"), 600), Ok(()));
    assert_eq!(oracle.set_too_volatile_ratio(&s("ADMIN"), 500_000), Ok(()));
    assert_eq!(oracle.set_sanitize_clamp_denominator(&s("OPS"), 20), Ok(()));
    assert_eq!(
        oracle.get_guard_rails(),
        GuardRails { seconds_before_stale: 600, too_volatile_ratio: 500_000, sanitize_clamp_denominator: 20 }
    );
    assert_eq!(oracle.set_seconds_before_stale(&s("OPS"), 86400), Ok(()));
    assert_eq!(oracle.set_too_volatile_ratio(&s("OPS"), 1_000_000), Ok(()));
    assert_eq!(oracle.set_sanitize_clamp_denominator(&s("OPS"), 10_000), Ok(()));
    assert_eq!(
        oracle.get_guard_rails(),
        GuardRails { seconds_before_stale: 86400, too_volatile_ratio: 1_000_000, sanitize_clamp_denominator: 10_000 }
    );
}

#[test]
fn guard_rails_refuse_out_of_range_values() {
    let mut oracle = configured();
    let before = oracle.get_guard_rails();
    assert_eq!(oracle.set_seconds_before_stale(&s("OPS"), 0), Err(NormalOracleError::InvalidInput));
    assert_eq!(oracle.set_seconds_before_stale(&s("OPS"), 86401), Err(NormalOracleError::InvalidInput));
    assert_eq!(oracle.set_too_volatile_ratio(&s("OPS"), 1_000_001), Err(NormalOracleError::InvalidInput));
    assert_eq!(
        oracle.set_sanitize_clamp_denominator(&s("OPS"), 10_001),
        Err(NormalOracleError::InvalidInput)
    );
    assert_eq!(oracle.get_guard_rails(), before);
}

#[test]
fn guard_rails_refuse_other_callers() {
    let mut oracle = configured();
    assert_eq!(oracle.set_seconds_before_stale(&s("PAUSE"), 600), Err(NormalOracleError::Unauthorized));
    assert_eq!(oracle.set_too_volatile_ratio(&s("EMERGENCY"), 1), Err(NormalOracleError::Unauthorized));
    assert_eq!(oracle.set_sanitize_clamp_denominator(&s("EP1"), 1), Err(NormalOracleError::Unauthorized));
    let mut blank = NormalOracle::new();
    assert_eq!(blank.set_seconds_before_stale(&s("OPS"), 600), Err(NormalOracleError::Unauthorized));
    assert_eq!(blank.get_seconds_before_stale(), 300);
}

#[test]
fn privileged_addresses_are_listed_by_role() {
    let oracle = configured();
    let listed = oracle.get_privileged_addrs();
    assert_eq!(
        listed,
        vec![
            (Role::Admin, vec![s("ADMIN")]),
            (Role::EmergencyAdmin, vec![s("EMERGENCY")]),
            (Role::OperationsAdmin, vec![s("OPS")]),
            (Role::PauseAdmin, vec![s("PAUSE")]),
            (Role::EmergencyPauseAdmin, vec![s("EP1"), s("EP2")]),
        ]
    );
    let blank = NormalOracle::new();
    assert_eq!(
        blank.get_privileged_addrs(),
        vec![
            (Role::Admin, vec![]),
            (Role::EmergencyAdmin, vec![]),
            (Role::OperationsAdmin, vec![]),
            (Role::PauseAdmin, vec![]),
            (Role::EmergencyPauseAdmin, vec![]),
        ]
    );
}

#[test]
fn privileged_addresses_are_replaced_by_the_admin_only() {
    let mut oracle = configured();
    assert_eq!(
        oracle.set_privileged_addrs(&s("OPS"), s("X"), s("Y"), vec![]),
        Err(NormalOracleError::Unauthorized)
    );
    assert_eq!(oracle.set_privileged_addrs(&s("ADMIN"), s("OPS2"), s("PAUSE2"), vec![s("EP3")]), Ok(()));
    let listed = oracle.get_privileged_addrs();
    assert_eq!(listed[0], (Role::Admin, vec![s("ADMIN")]));
    assert_eq!(listed[1], (Role::EmergencyAdmin, vec![s("EMERGENCY")]));
    assert_eq!(listed[2], (Role::OperationsAdmin, vec![s("OPS2")]));
    assert_eq!(listed[3], (Role::PauseAdmin, vec![s("PAUSE2")]));
    assert_eq!(listed[4], (Role::EmergencyPauseAdmin, vec![s("EP3")]));
    assert_eq!(oracle.set_seconds_before_stale(&s("OPS"), 600), Err(NormalOracleError::Unauthorized));
    assert_eq!(oracle.set_seconds_before_stale(&s("OPS2"), 600), Ok(()));
}

#[test]
fn roles_are_checked_per_role() {
    let oracle = configured();
    assert_eq!(oracle.require_role(&s("ADMIN"), Role::Admin), Ok(()));
    assert_eq!(oracle.require_role(&s("OPS"), Role::Admin), Err(NormalOracleError::Unauthorized));
    assert_eq!(oracle.require_role(&s("EP2"), Role::EmergencyPauseAdmin), Ok(()));
    assert_eq!(oracle.require_role(&s("EP3"), Role::EmergencyPauseAdmin), Err(NormalOracleError::Unauthorized));
    assert_eq!(oracle.require_role(&s("PAUSE"), Role::PauseAdmin), Ok(()));
    assert_eq!(oracle.require_operations_admin_or_owner(&s("ADMIN")), Ok(()));
    assert_eq!(oracle.require_operations_admin_or_owner(&s("PAUSE")), Err(NormalOracleError::Unauthorized));
}

#[test]
fn emergency_mode_is_set_by_the_emergency_admin() {
    let mut oracle = configured();
    assert_eq!(oracle.set_emergency_mode(&s("ADMIN"), true), Err(NormalOracleError::Unauthorized));
    assert!(!oracle.get_emergency_mode());
    assert_eq!(oracle.set_emergency_mode(&s("EMERGENCY"), true), Ok(()));
    assert!(oracle.get_emergency_mode());
    assert_eq!(oracle.set_emergency_mode(&s("EMERGENCY"), false), Ok(()));
    assert!(!oracle.get_emergency_mode());
}

#[test]
fn future_address_without_a_pending_transfer() {
    let oracle = configured();
    assert_eq!(oracle.get_future_address(Role::Admin, 0), Ok(Some(s("ADMIN"))));
    assert_eq!(oracle.get_future_address(Role::EmergencyAdmin, 0), Ok(Some(s("EMERGENCY"))));
    assert_eq!(oracle.get_future_address(Role::Admin, 1_000), Ok(None));
    assert_eq!(
        NormalOracle::new().get_future_address(Role::Admin, 0),
        Err(NormalOracleError::RoleNotFound)
    );
    assert_eq!(oracle.get_future_address(Role::EmergencyPauseAdmin, 0), Err(NormalOracleError::RoleNotFound));
}

#[test]
fn version_and_name() {
    assert_eq!(NormalOracle::version(), 110);
    assert_eq!(NormalOracle::contract_name(), "NormalOracle");
}

#[test]
fn historical_data_starts_from_the_first_price() {
    let mut oracle = configured();
    let observed = OraclePriceData { price: 1_000, delay: 3 };
    assert_eq!(oracle.get_historical_data_raw(), Err(NormalOracleError::ValueNotInitialized));
    let first = oracle.get_historical_data(&observed, 50);
    assert_eq!(
        first,
        HistoricalOracleData { last_price_twap: 1_000, last_price: 1_000, last_update_ts: 50, last_delay_ts: 3 }
    );
    let next = HistoricalOracleData { last_price_twap: 1_010, last_price: 1_020, last_update_ts: 60, last_delay_ts: 1 };
    oracle.put_historical_data(&next);
    assert_eq!(oracle.get_historical_data_raw(), Ok(next));
    assert_eq!(oracle.get_historical_data(&observed, 70), next);
}
