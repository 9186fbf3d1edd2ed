//! The first register table of the HM310P, with consecutive addresses, used
//! to probe the device by hand.

use vstd::prelude::*;
use crate::sku::{first_match, lemma_first_match_at};
use crate::text::str_equal;

verus! {

/// A register of the probe table.
#[derive(Clone, Copy, Debug)]
pub struct Address {
    pub address: u16,
    pub name: &'static str,
    pub is_rw: bool,
    pub quantity: u16,
}

/// The plain values a register of the probe table holds.
pub struct AddressView {
    pub address: u16,
    pub name: Seq<char>,
    pub is_rw: bool,
    pub quantity: u16,
}

impl View for Address {
    type V = AddressView;

    open spec fn view(&self) -> AddressView {
        AddressView { address: self.address, name: self.name@, is_rw: self.is_rw, quantity: self.quantity }
    }
}

/// The probe table.
pub open spec fn spec_address_table() -> Seq<AddressView> {
    seq![
        AddressView { address: 0x0000, name: "ON/OFF"@, is_rw: true, quantity: 0 },
        AddressView { address: 0x0001, name: "OP.S"@, is_rw: false, quantity: 0 },
        AddressView { address: 0x0002, name: "Specification and type"@, is_rw: false, quantity: 0 },
        AddressView { address: 0x0003, name: "Tail classification"@, is_rw: false, quantity: 0 },
        AddressView { address: 0x0004, name: "Decimal point digit capacity"@, is_rw: false, quantity: 0 },
        AddressView { address: 0x0005, name: "U"@, is_rw: false, quantity: 2 },
        AddressView { address: 0x0006, name: "I"@, is_rw: false, quantity: 2 },
        AddressView { address: 0x0007, name: "P"@, is_rw: false, quantity: 3 },
        AddressView { address: 0x0008, name: "SetU"@, is_rw: true, quantity: 2 },
        AddressView { address: 0x0009, name: "SetI"@, is_rw: true, quantity: 2 },
        AddressView { address: 0x000A, name: "OVP"@, is_rw: true, quantity: 2 },
        AddressView { address: 0x000B, name: "OCP"@, is_rw: true, quantity: 3 },
        AddressView { address: 0x000C, name: "OPP"@, is_rw: true, quantity: 2 },
        AddressView { address: 0x000D, name: "RS-Adder"@, is_rw: true, quantity: 0 },
    ]
}

/// The probe table.
pub fn address_table() -> (r: Vec<Address>)
    ensures
        r@.map_values(|a: Address| a@) == spec_address_table(),
        r@.len() == 14,
        forall|i: int| 0 <= i < r@.len() ==> #[trigger] r@[i].address == i,
{
    let r = vec![
        Address { address: 0x0000, name: "ON/OFF", is_rw: true, quantity: 0 },
        Address { address: 0x0001, name: "OP.S", is_rw: false, quantity: 0 },
        Address { address: 0x0002, name: "Specification and type", is_rw: false, quantity: 0 },
        Address { address: 0x0003, name: "Tail classification", is_rw: false, quantity: 0 },
        Address { address: 0x0004, name: "Decimal point digit capacity", is_rw: false, quantity: 0 },
        Address { address: 0x0005, name: "U", is_rw: false, quantity: 2 },
        Address { address: 0x0006, name: "I", is_rw: false, quantity: 2 },
        Address { address: 0x0007, name: "P", is_rw: false, quantity: 3 },
        Address { address: 0x0008, name: "SetU", is_rw: true, quantity: 2 },
        Address { address: 0x0009, name: "SetI", is_rw: true, quantity: 2 },
        Address { address: 0x000A, name: "OVP", is_rw: true, quantity: 2 },
        Address { address: 0x000B, name: "OCP", is_rw: true, quantity: 3 },
        Address { address: 0x000C, name: "OPP", is_rw: true, quantity: 2 },
        Address { address: 0x000D, name: "RS-Adder", is_rw: true, quantity: 0 },
    ];
    assert(r@.map_values(|a: Address| a@) =~= spec_address_table());
    proof {
        lemma_probe_table_lookup(r@);
    }
    r
}

/// A register of the probe table whose name is exactly `name`.
pub open spec fn address_named(name: Seq<char>) -> spec_fn(Address) -> bool {
    |a: Address| a.name@ == name
}

/// The first register of `table` whose name is exactly `name`.
pub fn find_address<'a>(table: &'a Vec<Address>, name: &str) -> (r: Option<&'a Address>)
    ensures
        match r {
            Some(a) => first_match(table@, address_named(name@)) == Some(*a),
            None => first_match(table@, address_named(name@)) is None,
        },
{
    let ghost p = address_named(name@);
    let mut i: usize = 0;
    assert(table@.skip(0) =~= table@);
    while i < table.len()
        invariant
            i <= table.len(),
            p == address_named(name@),
            first_match(table@, p) == first_match(table@.skip(i as int), p),
        decreases table.len() - i,
    {
        proof {
            crate::sku::lemma_first_match_step(table@, p, i as int);
        }
        if str_equal(table[i].name, name) {
            return Some(&table[i]);
        }
        i = i + 1;
    }
    None
}

/// No two registers of the probe table share a name.
pub proof fn lemma_probe_names_distinct()
    ensures
        forall|i: int, j: int|
            0 <= i < j < spec_address_table().len() ==> #[trigger] spec_address_table()[i].name
                != #[trigger] spec_address_table()[j].name,
{
    reveal_strlit("ON/OFF");
    reveal_strlit("OP.S");
    reveal_strlit("Specification and type");
    reveal_strlit("Tail classification");
    reveal_strlit("Decimal point digit capacity");
    reveal_strlit("U");
    reveal_strlit("I");
    reveal_strlit("P");
    reveal_strlit("SetU");
    reveal_strlit("SetI");
    reveal_strlit("OVP");
    reveal_strlit("OCP");
    reveal_strlit("OPP");
    reveal_strlit("RS-Adder");
    let t = spec_address_table();
    assert forall|i: int, j: int| 0 <= i < j < t.len() implies t[i].name != t[j].name by {
        if t[i].name.len() == t[j].name.len() {
            assert(t[i].name[0] != t[j].name[0] || t[i].name[1] != t[j].name[1]
                || t[i].name[2] != t[j].name[2] || t[i].name[3] != t[j].name[3]);
        }
    }
}

/// The probe table numbers its registers consecutively: the register at
/// position `i` has address `i`, and looking up any register by its name
/// finds that register, so a probe by name reads the register it names.
pub proof fn lemma_probe_table_lookup(table: Seq<Address>)
    requires
        table.map_values(|a: Address| a@) == spec_address_table(),
    ensures
        table.len() == 14,
        forall|i: int| 0 <= i < table.len() ==> #[trigger] table[i].address == i,
        forall|i: int|
            0 <= i < table.len() ==> first_match(table, address_named(#[trigger] table[i].name@))
                == Some(table[i]),
{
    let t = spec_address_table();
    lemma_probe_names_distinct();
    assert(table.len() == t.len());
    assert forall|j: int| 0 <= j < table.len() implies #[trigger] table[j]@ == t[j] by {
        assert(table.map_values(|a: Address| a@)[j] == table[j]@);
    }
    assert forall|i: int| 0 <= i < table.len() implies #[trigger] table[i].address == i by {
        assert(table[i]@ == t[i]);
    }
    assert forall|i: int| 0 <= i < table.len() implies
        first_match(table, address_named(#[trigger] table[i].name@)) == Some(table[i]) by {
        assert forall|j: int| 0 <= j < i implies !address_named(table[i].name@)(#[trigger] table[j]) by {
            assert(table[j]@ == t[j]);
            assert(table[i]@ == t[i]);
            assert(spec_address_table()[j].name != spec_address_table()[i].name);
        }
        lemma_first_match_at(table, address_named(table[i].name@), i);
    }
}

} // verus!
