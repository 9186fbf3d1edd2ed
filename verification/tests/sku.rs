use psu::address_table::{address_table, find_address};
use psu::args::{get_psu, parse_command, sku_kind, sku_kind_from_lowercase, try_get_psu, SkuKind};
use psu::psu::PSU;
use psu::sku::{Feature, ParseRWError, RWCapabilities, RWCapabilitySet};
use psu::text::{str_eq_ignore_ascii_case, str_equal, to_lowercase};
use std::io::Cursor;
use tokio_modbus::client::{rtu, Context};
use tokio_modbus::slave::Slave;

fn offline_context() -> Context {
    futures::executor::block_on(rtu::connect_slave(Cursor::new(Vec::<u8>::new()), Slave(1)))
        .unwrap()
}

fn read_only() -> RWCapabilitySet {
    RWCapabilitySet::from_capability(RWCapabilities::Read)
}

fn sample_psu() -> PSU {
    PSU {
        context: offline_context(),
        features: vec![
            Feature::new(1, "Volt", read_only(), 2),
            Feature::new(2, "VOLT", read_only(), 3),
            Feature::new(3, "Amp", RWCapabilities::Read.union(RWCapabilities::Write), 4),
        ],
    }
}

#[test]
fn rw_mode_parses_in_any_case() {
    assert_eq!(RWCapabilities::from_str("read"), Ok(RWCapabilities::Read));
    assert_eq!(RWCapabilities::from_str("READ"), Ok(RWCapabilities::Read));
    assert_eq!(RWCapabilities::from_str("Write"), Ok(RWCapabilities::Write));
    assert_eq!(RWCapabilities::from_str("writes"), Err(ParseRWError));
    assert_eq!(RWCapabilities::from_str(""), Err(ParseRWError));
    assert_eq!("wRiTe".parse::<RWCapabilities>(), Ok(RWCapabilities::Write));
}

#[test]
fn rw_mode_from_lowercase_is_exact() {
    assert_eq!(RWCapabilities::from_lowercase("read"), Ok(RWCapabilities::Read));
    assert_eq!(RWCapabilities::from_lowercase("write"), Ok(RWCapabilities::Write));
    assert_eq!(RWCapabilities::from_lowercase("Read"), Err(ParseRWError));
}

#[test]
fn parse_error_message() {
    assert_eq!(ParseRWError.to_string(), "provided string was not `Read` or `Write`");
}

#[test]
fn lowercase_follows_unicode() {
    assert_eq!(to_lowercase("HM310P"), "hm310p");
    assert_eq!(to_lowercase("ÉCRIRE"), "écrire");
}

#[test]
fn string_comparisons() {
    assert!(str_equal("OP.S", "OP.S"));
    assert!(!str_equal("OP.S", "op.s"));
    assert!(!str_equal("OP.S", "OP.SS"));
    assert!(str_eq_ignore_ascii_case("OP.S", "op.s"));
    assert!(!str_eq_ignore_ascii_case("É", "é"));
    assert!(!str_eq_ignore_ascii_case("abc", "abd"));
}

#[test]
fn capability_sets() {
    let set = RWCapabilitySet::empty();
    assert!(!set.contains(RWCapabilities::Read));
    let both = set.union(RWCapabilitySet::from_capability(RWCapabilities::Write)).union(read_only());
    assert!(both.contains(RWCapabilities::Read));
    assert!(both.contains(RWCapabilities::Write));
    assert!(!read_only().contains(RWCapabilities::Write));
}

#[test]
fn feature_from_str_ignores_ascii_case_and_takes_first() {
    let psu = sample_psu();
    let found = Feature::from_str(&psu.features, "volt").unwrap();
    assert_eq!(found.address, 1);
    let amp = Feature::from_str(&psu.features, "AMP").unwrap();
    assert_eq!(amp.quantity, 4);
    assert!(Feature::from_str(&psu.features, "watt").is_none());
}

#[test]
fn get_feature_matches_exactly() {
    let psu = sample_psu();
    assert_eq!(psu.get_feature("VOLT").unwrap().address, 2);
    assert_eq!(psu.get_feature("Volt").unwrap().address, 1);
    assert!(psu.get_feature("volt").is_none());
}

#[test]
fn parse_command_builds_parameterless_command() {
    let psu = sample_psu();
    let command = parse_command(&psu, "vOlT", RWCapabilities::Write).unwrap();
    assert_eq!(command.mode, RWCapabilities::Write);
    assert_eq!(command.feature.address, 1);
    assert_eq!(command.parameters, 0);
    assert!(parse_command(&psu, "nothing", RWCapabilities::Read).is_none());
}

#[test]
fn sku_names() {
    assert_eq!(sku_kind("HM310P"), SkuKind::HM310P);
    assert_eq!(sku_kind("AutoDetect"), SkuKind::Autodetect);
    assert_eq!(sku_kind("hm310"), SkuKind::Unrecognized);
    assert_eq!(sku_kind_from_lowercase("HM310P"), SkuKind::Unrecognized);
}

#[test]
fn get_psu_builds_known_models() {
    let psu = get_psu("Hm310P", offline_context()).unwrap();
    assert_eq!(psu.features.len(), 14);
    assert_eq!(psu.features[1].name, "OP.S");
    assert!(get_psu("other", offline_context()).is_none());
}

#[test]
fn try_get_psu_hands_back_context_for_autodetect() {
    assert!(try_get_psu("autodetect", offline_context()).is_err());
    assert!(try_get_psu("hm310p", offline_context()).unwrap().is_some());
    assert!(try_get_psu("x", offline_context()).unwrap().is_none());
}

#[test]
fn probe_table_lookup() {
    let table = address_table();
    assert_eq!(table.len(), 14);
    assert_eq!(find_address(&table, "ON/OFF").unwrap().address, 0x0000);
    let u = find_address(&table, "U").unwrap();
    assert_eq!(u.address, 0x0005);
    assert_eq!(u.quantity, 2);
    assert!(!u.is_rw);
    assert!(find_address(&table, "SetU").unwrap().is_rw);
    assert!(find_address(&table, "setu").is_none());
}
