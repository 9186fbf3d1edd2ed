//! A connected power supply and the commands sent to it.

use vstd::prelude::*;
use crate::sku::{first_match, lemma_first_match_step, named, Feature, RWCapabilities};
use crate::text::str_equal;
use tokio_modbus::client::Context;

verus! {

/// The Modbus client context of `tokio_modbus`: the open connection to the
/// device, carried through unread.
#[verifier::external_type_specification]
#[verifier::external_body]
pub struct ExContext(Context);

/// A request to read or write one feature of a power supply.
#[derive(Debug, Clone, Copy)]
pub struct Command {
    pub mode: RWCapabilities,
    pub feature: Feature,
    pub parameters: u16,
}

impl Command {
    /// The register that the protocol addresses for this command's feature:
    /// one past the feature's address.
    pub fn register_address(&self) -> (r: u16)
        requires
            self.feature.address < u16::MAX,
        ensures
            r == self.feature.address + 1,
    {
        self.feature.address + 1
    }

    /// The register and count of a holding-register read of this command's
    /// feature: the register one past the feature's address, and the
    /// feature's quantity.
    pub fn read_request(&self) -> (r: (u16, u16))
        requires
            self.feature.address < u16::MAX,
        ensures
            r.0 == self.feature.address + 1,
            r.1 == self.feature.quantity,
    {
        (self.register_address(), self.feature.quantity)
    }

    /// The register and value of a single-register write of this command:
    /// the register one past the feature's address, and the parameters.
    pub fn write_request(&self) -> (r: (u16, u16))
        requires
            self.feature.address < u16::MAX,
        ensures
            r.0 == self.feature.address + 1,
            r.1 == self.parameters,
    {
        (self.register_address(), self.parameters)
    }
}

/// A power supply: its connection and the features it offers.
#[derive(Debug)]
pub struct PSU {
    pub context: Context,
    pub features: Vec<Feature>,
}

impl PSU {
    /// The first feature whose name is exactly `feature_name`.
    pub fn get_feature(&self, feature_name: &str) -> (r: Option<Feature>)
        ensures
            r == first_match(self.features@, named(feature_name@)),
    {
        let ghost p = named(feature_name@);
        let mut i: usize = 0;
        assert(self.features@.skip(0) =~= self.features@);
        while i < self.features.len()
            invariant
                i <= self.features.len(),
                p == named(feature_name@),
                first_match(self.features@, p) == first_match(self.features@.skip(i as int), p),
            decreases self.features.len() - i,
        {
            proof {
                lemma_first_match_step(self.features@, p, i as int);
            }
            if str_equal(self.features[i].name, feature_name) {
                return Some(self.features[i]);
            }
            i = i + 1;
        }
        None
    }
}

} // verus!
