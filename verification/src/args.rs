//! Choosing a supply model and a command from the words given on the
//! command line.

use vstd::prelude::*;
use crate::psu::{Command, PSU};
use crate::sku::{first_match, named_ignoring_ascii_case, Feature, RWCapabilities};
use crate::sku::hm310p::{hm310p_features, HM310P};
use vstd::utf8::is_ascii_chars;
use crate::text::{eq_ignore_ascii_case, lemma_ascii_fold_matches_lower_word, str_equal, to_lowercase, unicode_lowercase};
use tokio_modbus::client::Context;

verus! {

/// What a SKU name asks for.
#[derive(Clone, Copy, Debug, PartialEq, Eq, Structural)]
pub enum SkuKind {
    /// Detect the model from the device.
    Autodetect,
    /// The HM310P.
    HM310P,
    /// No model this library knows.
    Unrecognized,
}

/// What an already lower-cased SKU name asks for.
pub open spec fn spec_sku_kind(lower: Seq<char>) -> SkuKind {
    if lower == "autodetect"@ {
        SkuKind::Autodetect
    } else if lower == "hm310p"@ {
        SkuKind::HM310P
    } else {
        SkuKind::Unrecognized
    }
}

/// Only `autodetect` asks for detection, only `hm310p` names the HM310P, and
/// every other lower-cased name is unrecognized.
pub proof fn lemma_sku_kind_names(lower: Seq<char>)
    ensures
        spec_sku_kind(lower) == SkuKind::Autodetect <==> lower == "autodetect"@,
        spec_sku_kind(lower) == SkuKind::HM310P <==> lower == "hm310p"@,
        spec_sku_kind(lower) == SkuKind::Unrecognized <==> lower != "autodetect"@ && lower != "hm310p"@,
{
    reveal_strlit("autodetect");
    reveal_strlit("hm310p");
    assert("autodetect"@.len() != "hm310p"@.len());
}

/// What an already lower-cased SKU name asks for.
pub fn sku_kind_from_lowercase(lower: &str) -> (r: SkuKind)
    ensures
        r == spec_sku_kind(lower@),
        r == SkuKind::Autodetect <==> lower@ == "autodetect"@,
        r == SkuKind::HM310P <==> lower@ == "hm310p"@,
        r == SkuKind::Unrecognized <==> lower@ != "autodetect"@ && lower@ != "hm310p"@,
{
    proof {
        lemma_sku_kind_names(lower@);
    }
    if str_equal(lower, "autodetect") {
        SkuKind::Autodetect
    } else if str_equal(lower, "hm310p") {
        SkuKind::HM310P
    } else {
        SkuKind::Unrecognized
    }
}

/// What a SKU name asks for, whatever the case of its letters.
pub fn sku_kind(sku: &str) -> (r: SkuKind)
    ensures
        r == spec_sku_kind(unicode_lowercase(sku@)),
        r == SkuKind::Autodetect <==> unicode_lowercase(sku@) == "autodetect"@,
        r == SkuKind::HM310P <==> unicode_lowercase(sku@) == "hm310p"@,
        is_ascii_chars(sku@) ==> (r == SkuKind::HM310P <==> eq_ignore_ascii_case(sku@, "hm310p"@)),
        is_ascii_chars(sku@) ==> (r == SkuKind::Autodetect <==> eq_ignore_ascii_case(sku@, "autodetect"@)),
{
    proof {
        lemma_sku_kind_names(unicode_lowercase(sku@));
        reveal_strlit("autodetect");
        reveal_strlit("hm310p");
        lemma_ascii_fold_matches_lower_word(sku@, "hm310p"@);
        lemma_ascii_fold_matches_lower_word(sku@, "autodetect"@);
    }
    let lower = to_lowercase(sku);
    sku_kind_from_lowercase(lower.as_str())
}

/// The supply that `sku` names, reached through `context`; `None` when the
/// name is not one of a known model. Detecting the model is not supported,
/// so `autodetect` is left out.
pub fn get_psu(sku: &str, context: Context) -> (r: Option<Box<PSU>>)
    requires
        spec_sku_kind(unicode_lowercase(sku@)) != SkuKind::Autodetect,
    ensures
        r is Some <==> spec_sku_kind(unicode_lowercase(sku@)) == SkuKind::HM310P,
        r is Some <==> unicode_lowercase(sku@) == "hm310p"@,
        r matches Some(psu) ==> psu.context == context
            && psu.features@.map_values(|f: Feature| f@) == hm310p_features(),
{
    match sku_kind(sku) {
        SkuKind::HM310P => Some(Box::new(HM310P::new(context).psu)),
        _ => None,
    }
}

/// As `get_psu`, for any name: when the name asks for detection, which is
/// not supported, the context is handed back unused.
pub fn try_get_psu(sku: &str, context: Context) -> (r: Result<Option<Box<PSU>>, Context>)
    ensures
        r matches Err(c) ==> c == context,
        r is Err <==> spec_sku_kind(unicode_lowercase(sku@)) == SkuKind::Autodetect,
        r is Err <==> unicode_lowercase(sku@) == "autodetect"@,
        r matches Ok(found) ==> (found is Some <==> spec_sku_kind(unicode_lowercase(sku@)) == SkuKind::HM310P),
        r matches Ok(found) ==> (found is Some <==> unicode_lowercase(sku@) == "hm310p"@),
        r matches Ok(Some(psu)) ==> psu.context == context
            && psu.features@.map_values(|f: Feature| f@) == hm310p_features(),
{
    match sku_kind(sku) {
        SkuKind::Autodetect => Err(context),
        _ => Ok(get_psu(sku, context)),
    }
}

/// The command that uses the first feature of `psu` named `command`
/// (ignoring ASCII case) in `mode`, with no parameters; `None` when no
/// feature has that name.
pub fn parse_command(psu: &PSU, command: &str, mode: RWCapabilities) -> (r: Option<Command>)
    ensures
        match first_match(psu.features@, named_ignoring_ascii_case(command@)) {
            Some(f) => r == Some(Command { mode, feature: f, parameters: 0 }),
            None => r is None,
        },
{
    match Feature::from_str(&psu.features, command) {
        None => None,
        Some(feature) => Some(Command { mode, feature: *feature, parameters: 0 }),
    }
}

} // verus!
