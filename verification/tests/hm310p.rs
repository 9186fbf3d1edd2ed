use psu::psu::Command;
use psu::sku::hm310p::{
    parse_protection_status, ProtectionStatusFlagSet, ProtectionStatusFlags, HM310P,
};
use psu::sku::{RWCapabilities, RWCapabilitySet};
use std::io::Cursor;
use tokio_modbus::client::{rtu, Context};
use tokio_modbus::slave::Slave;

fn offline_context() -> Context {
    futures::executor::block_on(rtu::connect_slave(Cursor::new(Vec::<u8>::new()), Slave(1)))
        .unwrap()
}

#[test]
fn protection_status_parsing_is_correct_against_example() {
    let example: u16 = 0b0000000000110101;
    let protection_status = parse_protection_status(example);
    let flags = protection_status.flags;
    assert!(flags.contains(ProtectionStatusFlags::OVP));
    assert!(flags.contains(ProtectionStatusFlags::OPP));
    assert!(flags.contains(ProtectionStatusFlags::SCP));
}

#[test]
fn protection_status_reports_only_set_bits() {
    let status = parse_protection_status(0b0000000000110101);
    assert!(!status.flags.contains(ProtectionStatusFlags::OCP));
    assert!(!status.flags.contains(ProtectionStatusFlags::OTP));
    assert_eq!(status.u_i_w_decimals, 0);
}

#[test]
fn protection_status_high_byte_is_decimals() {
    let status = parse_protection_status(0x0302);
    assert_eq!(status.u_i_w_decimals, 3);
    assert!(status.flags.contains(ProtectionStatusFlags::OCP));
    assert!(!status.flags.contains(ProtectionStatusFlags::OVP));
    assert_eq!(status.flags.bits(), 0b00010);
}

#[test]
fn protection_status_drops_unknown_bits() {
    let status = parse_protection_status(0xffff);
    assert_eq!(status.u_i_w_decimals, 0xff);
    assert_eq!(status.flags.bits(), 0b11111);
    let none = parse_protection_status(0b1110_0000);
    assert_eq!(none.flags.bits(), 0);
}

#[test]
fn protection_flag_masks() {
    assert_eq!(ProtectionStatusFlags::OVP.mask(), 0b00001);
    assert_eq!(ProtectionStatusFlags::OCP.mask(), 0b00010);
    assert_eq!(ProtectionStatusFlags::OPP.mask(), 0b00100);
    assert_eq!(ProtectionStatusFlags::OTP.mask(), 0b01000);
    assert_eq!(ProtectionStatusFlags::SCP.mask(), 0b10000);
}

#[test]
fn flag_set_round_trips_through_bits() {
    for bits in 0u8..32 {
        assert_eq!(ProtectionStatusFlagSet::new_truncated(bits).bits(), bits);
    }
}

#[test]
fn hm310p_table_matches_the_supply() {
    let supply = HM310P::new(offline_context());
    let features = &supply.psu.features;
    assert_eq!(features.len(), 14);
    assert_eq!(features[0].name, "ON/OFF");
    assert_eq!(features[0].address, 0x0001);
    assert!(features[0].is_rw.contains(RWCapabilities::Write));
    assert!(!features[0].is_rw.contains(RWCapabilities::Read));
    assert_eq!(features[7].name, "P");
    assert_eq!(features[7].quantity, 6);
    assert_eq!(features[12].name, "OPP");
    assert_eq!(features[12].address, 0x0022);
    assert!(features[12].is_rw.contains(RWCapabilities::Read));
    assert!(features[12].is_rw.contains(RWCapabilities::Write));
    assert_eq!(features[13].name, "RS-Adder");
    assert_eq!(features[13].address, 0x9999);
    assert_eq!(features[13].quantity, 1);
}

#[test]
fn hm310p_lookup_finds_protection_status() {
    let supply = HM310P::new(offline_context());
    let feature = supply.psu.get_feature("OP.S").unwrap();
    assert_eq!(feature.address, 0x0002);
    assert!(feature.is_rw.contains(RWCapabilities::Read));
    assert!(supply.psu.get_feature("op.s").is_none());
    let command = supply.protection_status_command();
    assert_eq!(command.mode, RWCapabilities::Read);
    assert_eq!(command.feature.name, "OP.S");
    assert_eq!(command.parameters, 0);
    assert_eq!(command.read_request(), (0x0003, 0));
}

#[test]
fn protection_status_from_first_word() {
    let status = HM310P::protection_status_from_response(&vec![0x0411, 0x7fff]);
    assert_eq!(status.u_i_w_decimals, 4);
    assert!(status.flags.contains(ProtectionStatusFlags::OVP));
    assert!(status.flags.contains(ProtectionStatusFlags::SCP));
    assert!(!status.flags.contains(ProtectionStatusFlags::OTP));
}

#[test]
fn command_requests_use_next_register() {
    let supply = HM310P::new(offline_context());
    let set_u = supply.psu.get_feature("SetU").unwrap();
    let command = Command { mode: RWCapabilities::Write, feature: set_u, parameters: 1234 };
    assert_eq!(command.register_address(), 0x0031);
    assert_eq!(command.write_request(), (0x0031, 1234));
    assert_eq!(command.read_request(), (0x0031, 2));
    let both = RWCapabilities::Read.union(RWCapabilities::Write);
    assert_eq!(both, RWCapabilitySet::from_capability(RWCapabilities::Write).union(RWCapabilitySet::from_capability(RWCapabilities::Read)));
}
