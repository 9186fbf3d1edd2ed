//! The HM310P power supply: its register table and the decoding of its
//! protection status register.

use vstd::prelude::*;
use crate::psu::{Command, PSU};
use crate::text::{ascii_lower, eq_ignore_ascii_case};
use crate::sku::{first_match, lemma_first_match_at, named, named_ignoring_ascii_case, Feature, FeatureView, RWCapabilities, RWCapabilitySet};
use tokio_modbus::client::Context;

verus! {

/// A protection that the supply can report as tripped.
#[derive(Clone, Copy, Debug, PartialEq, Eq, Structural)]
pub enum ProtectionStatusFlags {
    /// Over voltage protection.
    OVP,
    /// Over current protection.
    OCP,
    /// Over power protection.
    OPP,
    /// Over temperature protection.
    OTP,
    /// Short circuit protection.
    SCP,
}

/// The bit of the status register that reports a protection.
pub open spec fn flag_mask(f: ProtectionStatusFlags) -> u16 {
    match f {
        ProtectionStatusFlags::OVP => 0b00001,
        ProtectionStatusFlags::OCP => 0b00010,
        ProtectionStatusFlags::OPP => 0b00100,
        ProtectionStatusFlags::OTP => 0b01000,
        ProtectionStatusFlags::SCP => 0b10000,
    }
}

/// Whether the bit of `value` whose weight is `mask` is set.
pub open spec fn has_bit(value: u16, mask: u16) -> bool {
    (value / mask) % 2 == 1
}

impl ProtectionStatusFlags {
    /// The bit of the status register that reports this protection.
    pub fn mask(self) -> (r: u8)
        ensures
            r == flag_mask(self),
    {
        match self {
            ProtectionStatusFlags::OVP => 0b00001,
            ProtectionStatusFlags::OCP => 0b00010,
            ProtectionStatusFlags::OPP => 0b00100,
            ProtectionStatusFlags::OTP => 0b01000,
            ProtectionStatusFlags::SCP => 0b10000,
        }
    }
}

/// A set of protections.
#[derive(Clone, Copy, Debug, PartialEq, Eq, Structural)]
pub struct ProtectionStatusFlagSet {
    ovp: bool,
    ocp: bool,
    opp: bool,
    otp: bool,
    scp: bool,
}

impl View for ProtectionStatusFlagSet {
    type V = Set<ProtectionStatusFlags>;

    closed spec fn view(&self) -> Set<ProtectionStatusFlags> {
        Set::new(|f: ProtectionStatusFlags| match f {
            ProtectionStatusFlags::OVP => self.ovp,
            ProtectionStatusFlags::OCP => self.ocp,
            ProtectionStatusFlags::OPP => self.opp,
            ProtectionStatusFlags::OTP => self.otp,
            ProtectionStatusFlags::SCP => self.scp,
        })
    }
}

impl ProtectionStatusFlagSet {
    /// The set of the protections whose bits are set in `bits`; bits that
    /// report no protection are dropped.
    pub fn new_truncated(bits: u8) -> (r: ProtectionStatusFlagSet)
        ensures
            forall|f: ProtectionStatusFlags| #[trigger] r@.contains(f) <==> has_bit(bits as u16, flag_mask(f)),
    {
        let r = ProtectionStatusFlagSet {
            ovp: bits & 0b00001 != 0,
            ocp: bits & 0b00010 != 0,
            opp: bits & 0b00100 != 0,
            otp: bits & 0b01000 != 0,
            scp: bits & 0b10000 != 0,
        };
        let v = bits as u16;
        assert(v == bits as u16 ==> ((bits & 0b00001 != 0) == ((v / 1) % 2 == 1))) by (bit_vector);
        assert(v == bits as u16 ==> ((bits & 0b00010 != 0) == ((v / 2) % 2 == 1))) by (bit_vector);
        assert(v == bits as u16 ==> ((bits & 0b00100 != 0) == ((v / 4) % 2 == 1))) by (bit_vector);
        assert(v == bits as u16 ==> ((bits & 0b01000 != 0) == ((v / 8) % 2 == 1))) by (bit_vector);
        assert(v == bits as u16 ==> ((bits & 0b10000 != 0) == ((v / 16) % 2 == 1))) by (bit_vector);
        r
    }

    /// Whether the set holds `f`.
    pub fn contains(&self, f: ProtectionStatusFlags) -> (r: bool)
        ensures
            r == self@.contains(f),
    {
        match f {
            ProtectionStatusFlags::OVP => self.ovp,
            ProtectionStatusFlags::OCP => self.ocp,
            ProtectionStatusFlags::OPP => self.opp,
            ProtectionStatusFlags::OTP => self.otp,
            ProtectionStatusFlags::SCP => self.scp,
        }
    }

    /// The register bits of the set: the sum of the masks of its members.
    pub fn bits(&self) -> (r: u8)
        ensures
            forall|f: ProtectionStatusFlags| #[trigger] self@.contains(f) <==> has_bit(r as u16, flag_mask(f)),
            r < 32,
    {
        let mut r: u8 = 0;
        if self.ovp { r = r + 0b00001; }
        if self.ocp { r = r + 0b00010; }
        if self.opp { r = r + 0b00100; }
        if self.otp { r = r + 0b01000; }
        if self.scp { r = r + 0b10000; }
        r
    }
}

/// The protection status register of the supply, decoded.
pub struct ProtectionStatus {
    pub flags: ProtectionStatusFlagSet,
    /// Number of decimals in the returned values for voltage, current and
    /// power.
    pub u_i_w_decimals: u8,
}

/// Decodes the protection status register: its low byte reports the tripped
/// protections, its high byte the number of decimals.
pub fn parse_protection_status(response: u16) -> (r: ProtectionStatus)
    ensures
        forall|f: ProtectionStatusFlags| #[trigger] r.flags@.contains(f) <==> has_bit(response, flag_mask(f)),
        r.u_i_w_decimals == response / 256,
{
    let flags = (response & 0xff) as u8;
    let u_i_w_decimals = (response >> 8) as u8;
    let set = ProtectionStatusFlagSet::new_truncated(flags);
    let lo = flags as u16;
    assert(((response & 0xff) as u8) as u16 == response & 0xff) by (bit_vector);
    assert(lo == response & 0xff ==> (lo / 1) % 2 == (response / 1) % 2) by (bit_vector);
    assert(lo == response & 0xff ==> (lo / 2) % 2 == (response / 2) % 2) by (bit_vector);
    assert(lo == response & 0xff ==> (lo / 4) % 2 == (response / 4) % 2) by (bit_vector);
    assert(lo == response & 0xff ==> (lo / 8) % 2 == (response / 8) % 2) by (bit_vector);
    assert(lo == response & 0xff ==> (lo / 16) % 2 == (response / 16) % 2) by (bit_vector);
    assert((response >> 8) as u8 == response / 256) by (bit_vector);
    assert forall|f: ProtectionStatusFlags| #[trigger] set@.contains(f) <==> has_bit(response, flag_mask(f)) by {
        assert(set@.contains(f) <==> has_bit(lo, flag_mask(f)));
    }
    ProtectionStatus { flags: set, u_i_w_decimals }
}

/// The register table of the HM310P, in the order in which the supply
/// lists it.
pub open spec fn hm310p_features() -> Seq<FeatureView> {
    seq![
        FeatureView { address: 0x0001, name: "ON/OFF"@, is_rw: set![RWCapabilities::Write], quantity: 0 },
        FeatureView { address: 0x0002, name: "OP.S"@, is_rw: set![RWCapabilities::Read], quantity: 0 },
        FeatureView { address: 0x0003, name: "Specification and type"@, is_rw: set![RWCapabilities::Read], quantity: 0 },
        FeatureView { address: 0x0004, name: "Tail classification"@, is_rw: set![RWCapabilities::Read], quantity: 0 },
        FeatureView { address: 0x0005, name: "Decimal point digit capacity"@, is_rw: set![RWCapabilities::Read], quantity: 0 },
        FeatureView { address: 0x0010, name: "U"@, is_rw: set![RWCapabilities::Read], quantity: 2 },
        FeatureView { address: 0x0011, name: "I"@, is_rw: set![RWCapabilities::Read], quantity: 2 },
        FeatureView { address: 0x0012, name: "P"@, is_rw: set![RWCapabilities::Read], quantity: 6 },
        FeatureView { address: 0x0030, name: "SetU"@, is_rw: set![RWCapabilities::Write], quantity: 2 },
        FeatureView { address: 0x0031, name: "SetI"@, is_rw: set![RWCapabilities::Write], quantity: 2 },
        FeatureView { address: 0x0020, name: "OVP"@, is_rw: set![RWCapabilities::Read, RWCapabilities::Write], quantity: 2 },
        FeatureView { address: 0x0021, name: "OCP"@, is_rw: set![RWCapabilities::Read, RWCapabilities::Write], quantity: 3 },
        FeatureView { address: 0x0022, name: "OPP"@, is_rw: set![RWCapabilities::Read, RWCapabilities::Write], quantity: 5 },
        FeatureView { address: 0x9999, name: "RS-Adder"@, is_rw: set![RWCapabilities::Read, RWCapabilities::Write], quantity: 1 },
    ]
}

/// An HM310P power supply.
pub struct HM310P {
    pub psu: PSU,
}

impl HM310P {
    /// An HM310P reached through `context`, with its register table.
    pub fn new(context: Context) -> (r: HM310P)
        ensures
            r.psu.context == context,
            r.psu.features@.map_values(|f: Feature| f@) == hm310p_features(),
            forall|i: int, j: int|
                0 <= i < j < r.psu.features@.len() ==> #[trigger] r.psu.features@[i].address
                    != #[trigger] r.psu.features@[j].address,
    {
        let features = vec![
            Feature::new(0x0001, "ON/OFF", RWCapabilitySet::from_capability(RWCapabilities::Write), 0),
            // Protection status
            Feature::new(0x0002, "OP.S", RWCapabilitySet::from_capability(RWCapabilities::Read), 0),
            Feature::new(0x0003, "Specification and type", RWCapabilitySet::from_capability(RWCapabilities::Read), 0),
            Feature::new(0x0004, "Tail classification", RWCapabilitySet::from_capability(RWCapabilities::Read), 0),
            Feature::new(0x0005, "Decimal point digit capacity", RWCapabilitySet::from_capability(RWCapabilities::Read), 0),
            Feature::new(0x0010, "U", RWCapabilitySet::from_capability(RWCapabilities::Read), 2),
            Feature::new(0x0011, "I", RWCapabilitySet::from_capability(RWCapabilities::Read), 2),
            Feature::new(0x0012, "P", RWCapabilitySet::from_capability(RWCapabilities::Read), 6),
            Feature::new(0x0030, "SetU", RWCapabilitySet::from_capability(RWCapabilities::Write), 2),
            Feature::new(0x0031, "SetI", RWCapabilitySet::from_capability(RWCapabilities::Write), 2),
            // Max value: 3333 (saturating)
            Feature::new(0x0020, "OVP", RWCapabilities::Read.union(RWCapabilities::Write), 2),
            Feature::new(0x0021, "OCP", RWCapabilities::Read.union(RWCapabilities::Write), 3),
            // 0x0023 holds the low bits
            Feature::new(0x0022, "OPP", RWCapabilities::Read.union(RWCapabilities::Write), 5),
            // Range: 0-255
            Feature::new(0x9999, "RS-Adder", RWCapabilities::Read.union(RWCapabilities::Write), 1),
        ];
        let r = HM310P { psu: PSU { context, features } };
        assert(r.psu.features@.map_values(|f: Feature| f@) =~= hm310p_features());
        proof {
            lemma_hm310p_register_map(r.psu.features@);
        }
        r
    }

    /// The command that reads the protection status register.
    pub fn protection_status_command(&self) -> (r: Command)
        requires
            first_match(self.psu.features@, named("OP.S"@)) is Some,
        ensures
            r.mode == RWCapabilities::Read,
            first_match(self.psu.features@, named("OP.S"@)) == Some(r.feature),
            r.parameters == 0,
    {
        let feature = self.psu.get_feature("OP.S").unwrap();
        Command { mode: RWCapabilities::Read, feature, parameters: 0 }
    }

    /// The protection status that a read of the status register answered:
    /// the decoding of its first word.
    pub fn protection_status_from_response(response: &Vec<u16>) -> (r: ProtectionStatus)
        requires
            response.len() > 0,
        ensures
            forall|f: ProtectionStatusFlags| #[trigger] r.flags@.contains(f) <==> has_bit(response@[0], flag_mask(f)),
            r.u_i_w_decimals == response@[0] / 256,
    {
        parse_protection_status(response[0])
    }
}

/// The HM310P table lists the protection status register: looking it up by
/// name finds its second entry, so reading the protection status of a supply
/// built with this table never misses the register.
pub proof fn lemma_protection_status_listed(features: Seq<Feature>)
    requires
        features.map_values(|f: Feature| f@) == hm310p_features(),
    ensures
        first_match(features, named("OP.S"@)) == Some(features[1]),
        features[1]@ == hm310p_features()[1],
{
    assert(features.len() == hm310p_features().len());
    assert(features[0]@ == features.map_values(|f: Feature| f@)[0]);
    assert(features[1]@ == features.map_values(|f: Feature| f@)[1]);
    reveal_strlit("ON/OFF");
    reveal_strlit("OP.S");
    assert(hm310p_features()[0].name == "ON/OFF"@);
    assert("ON/OFF"@.len() == 6);
    assert("OP.S"@.len() == 4);
    assert(features[0].name@ != "OP.S"@);
    assert(features.drop_first()[0] == features[1]);
    reveal_with_fuel(first_match, 2);
}

/// No two entries of the HM310P table have names that are equal ignoring
/// ASCII case.
pub proof fn lemma_hm310p_names_distinct()
    ensures
        forall|i: int, j: int|
            0 <= i < j < hm310p_features().len() ==> !eq_ignore_ascii_case(
                #[trigger] hm310p_features()[i].name,
                #[trigger] hm310p_features()[j].name,
            ),
{
    reveal_strlit("ON/OFF");
    reveal_strlit("OP.S");
    reveal_strlit("Specification and type");
    reveal_strlit("Tail classification");
    reveal_strlit("Decimal point digit capacity");
    reveal_strlit("U");
    reveal_strlit("I");
    reveal_strlit("P");
    reveal_strlit("SetU");
    reveal_strlit("SetI");
    reveal_strlit("OVP");
    reveal_strlit("OCP");
    reveal_strlit("OPP");
    reveal_strlit("RS-Adder");
    let t = hm310p_features();
    assert forall|i: int, j: int| 0 <= i < j < t.len() implies !eq_ignore_ascii_case(t[i].name, t[j].name) by {
        if t[i].name.len() == t[j].name.len() {
            assert(ascii_lower(t[i].name[0]) != ascii_lower(t[j].name[0])
                || ascii_lower(t[i].name[1]) != ascii_lower(t[j].name[1])
                || ascii_lower(t[i].name[2]) != ascii_lower(t[j].name[2])
                || ascii_lower(t[i].name[3]) != ascii_lower(t[j].name[3]));
        }
    }
}

/// Looking up any name of the HM310P table, exactly or in any ASCII case,
/// finds that name's own entry.
pub proof fn lemma_hm310p_lookup_finds_entry(features: Seq<Feature>, i: int, name: Seq<char>)
    requires
        features.map_values(|f: Feature| f@) == hm310p_features(),
        0 <= i < hm310p_features().len(),
        eq_ignore_ascii_case(name, hm310p_features()[i].name),
    ensures
        first_match(features, named_ignoring_ascii_case(name)) == Some(features[i]),
        name == hm310p_features()[i].name ==> first_match(features, named(name)) == Some(features[i]),
{
    let t = hm310p_features();
    lemma_hm310p_names_distinct();
    assert(features.len() == t.len());
    assert forall|j: int| 0 <= j < features.len() implies #[trigger] features[j]@ == t[j] by {
        assert(features.map_values(|f: Feature| f@)[j] == features[j]@);
    }
    assert forall|j: int| 0 <= j < i implies !named_ignoring_ascii_case(name)(#[trigger] features[j]) by {
        assert(features[j]@ == t[j]);
        if eq_ignore_ascii_case(features[j].name@, name) {
            assert forall|k: int| 0 <= k < t[j].name.len() implies
                ascii_lower(#[trigger] t[j].name[k]) == ascii_lower(t[i].name[k]) by {
                assert(ascii_lower(t[j].name[k]) == ascii_lower(name[k]));
            }
            assert(eq_ignore_ascii_case(t[j].name, t[i].name));
        }
    }
    assert(features[i]@ == t[i]);
    lemma_first_match_at(features, named_ignoring_ascii_case(name), i);
    if name == t[i].name {
        assert forall|j: int| 0 <= j < i implies !named(name)(#[trigger] features[j]) by {
            assert(!named_ignoring_ascii_case(name)(features[j]));
        }
        lemma_first_match_at(features, named(name), i);
    }
}

/// Looking the register `name` up in `features` finds one at `address`,
/// readable as `read` says, writable as `write` says, taking `quantity`.
pub open spec fn register_is(
    features: Seq<Feature>,
    name: Seq<char>,
    address: u16,
    read: bool,
    write: bool,
    quantity: u16,
) -> bool {
    &&& first_match(features, named(name)) is Some
    &&& first_match(features, named(name))->0.address == address
    &&& first_match(features, named(name))->0.is_rw@.contains(RWCapabilities::Read) == read
    &&& first_match(features, named(name))->0.is_rw@.contains(RWCapabilities::Write) == write
    &&& first_match(features, named(name))->0.quantity == quantity
}

/// The register map of the HM310P: each register, looked up by name in the
/// table that `HM310P::new` builds, has the address, access modes and
/// quantity of the supply's register map, and no two registers share an
/// address, so a command never reaches another register than the one it
/// names.
pub proof fn lemma_hm310p_register_map(features: Seq<Feature>)
    requires
        features.map_values(|f: Feature| f@) == hm310p_features(),
    ensures
        register_is(features, "ON/OFF"@, 0x0001, false, true, 0),
        register_is(features, "OP.S"@, 0x0002, true, false, 0),
        register_is(features, "Specification and type"@, 0x0003, true, false, 0),
        register_is(features, "Tail classification"@, 0x0004, true, false, 0),
        register_is(features, "Decimal point digit capacity"@, 0x0005, true, false, 0),
        register_is(features, "U"@, 0x0010, true, false, 2),
        register_is(features, "I"@, 0x0011, true, false, 2),
        register_is(features, "P"@, 0x0012, true, false, 6),
        register_is(features, "SetU"@, 0x0030, false, true, 2),
        register_is(features, "SetI"@, 0x0031, false, true, 2),
        register_is(features, "OVP"@, 0x0020, true, true, 2),
        register_is(features, "OCP"@, 0x0021, true, true, 3),
        register_is(features, "OPP"@, 0x0022, true, true, 5),
        register_is(features, "RS-Adder"@, 0x9999, true, true, 1),
        forall|i: int, j: int|
            0 <= i < j < features.len() ==> #[trigger] features[i].address != #[trigger] features[j].address,
{
    let t = hm310p_features();
    assert(features.len() == t.len());
    assert forall|j: int| 0 <= j < features.len() implies #[trigger] features[j]@ == t[j] by {
        assert(features.map_values(|f: Feature| f@)[j] == features[j]@);
    }
    assert forall|i: int| 0 <= i < t.len() implies
        first_match(features, named(#[trigger] t[i].name)) == Some(features[i]) by {
        lemma_hm310p_lookup_finds_entry(features, i, t[i].name);
    }
    assert forall|i: int, j: int| 0 <= i < j < features.len() implies
        #[trigger] features[i].address != #[trigger] features[j].address by {
        assert(features[i]@ == t[i]);
        assert(features[j]@ == t[j]);
    }
    assert(t[0].name == "ON/OFF"@);
    assert(t[1].name == "OP.S"@);
    assert(t[2].name == "Specification and type"@);
    assert(t[3].name == "Tail classification"@);
    assert(t[4].name == "Decimal point digit capacity"@);
    assert(t[5].name == "U"@);
    assert(t[6].name == "I"@);
    assert(t[7].name == "P"@);
    assert(t[8].name == "SetU"@);
    assert(t[9].name == "SetI"@);
    assert(t[10].name == "OVP"@);
    assert(t[11].name == "OCP"@);
    assert(t[12].name == "OPP"@);
    assert(t[13].name == "RS-Adder"@);
}

} // verus!
