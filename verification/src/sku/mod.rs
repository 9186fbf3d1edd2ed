//! What a power supply offers: the features (registers) of a SKU and the
//! access modes they allow.

pub mod hm310p;

use vstd::prelude::*;
use vstd::utf8::is_ascii_chars;
use crate::text::{lemma_ascii_fold_matches_lower_word, eq_ignore_ascii_case, str_eq_ignore_ascii_case, str_equal, to_lowercase, unicode_lowercase};

verus! {

/// An access mode of a register.
#[derive(Clone, Copy, Debug, PartialEq, Eq, Structural)]
pub enum RWCapabilities {
    Read,
    Write,
}

/// The error of parsing an access mode from text.
#[derive(Clone, Copy, Debug, PartialEq, Eq, Structural)]
pub struct ParseRWError;

impl ParseRWError {
    /// The message that describes this error.
    pub fn to_string(&self) -> (s: String)
        ensures
            s@ == "provided string was not `Read` or `Write`"@,
    {
        String::from_str("provided string was not `Read` or `Write`")
    }
}

/// The access mode named by an already lower-cased word.
pub open spec fn spec_rw_from_lowercase(lower: Seq<char>) -> Result<RWCapabilities, ParseRWError> {
    if lower == "read"@ {
        Ok(RWCapabilities::Read)
    } else if lower == "write"@ {
        Ok(RWCapabilities::Write)
    } else {
        Err(ParseRWError)
    }
}

impl RWCapabilities {
    /// Parses an access mode from a word that is already in lower case:
    /// `read` or `write`.
    pub fn from_lowercase(lower: &str) -> (r: Result<RWCapabilities, ParseRWError>)
        ensures
            r == spec_rw_from_lowercase(lower@),
    {
        if str_equal(lower, "read") {
            Ok(RWCapabilities::Read)
        } else if str_equal(lower, "write") {
            Ok(RWCapabilities::Write)
        } else {
            Err(ParseRWError)
        }
    }

    /// Parses an access mode, whatever the case of its letters: the text is
    /// lower-cased (Unicode) and must then read `read` or `write`.
    ///
    /// On ASCII text this is a comparison that ignores ASCII case: the result
    /// is `Read` exactly for `read`, `Write` exactly for `write`, in any mix
    /// of upper and lower case, and an error for any other ASCII text.
    pub fn from_str(s: &str) -> (r: Result<RWCapabilities, ParseRWError>)
        ensures
            r == spec_rw_from_lowercase(unicode_lowercase(s@)),
            is_ascii_chars(s@) ==> (r == Ok::<RWCapabilities, ParseRWError>(RWCapabilities::Read)
                <==> eq_ignore_ascii_case(s@, "read"@)),
            is_ascii_chars(s@) ==> (r == Ok::<RWCapabilities, ParseRWError>(RWCapabilities::Write)
                <==> eq_ignore_ascii_case(s@, "write"@)),
            is_ascii_chars(s@) ==> (r is Err <==> !eq_ignore_ascii_case(s@, "read"@)
                && !eq_ignore_ascii_case(s@, "write"@)),
    {
        let lower = to_lowercase(s);
        proof {
            reveal_strlit("read");
            reveal_strlit("write");
            lemma_ascii_fold_matches_lower_word(s@, "read"@);
            lemma_ascii_fold_matches_lower_word(s@, "write"@);
        }
        RWCapabilities::from_lowercase(lower.as_str())
    }

    /// The set of access modes that holds this one and `other`.
    pub fn union(self, other: RWCapabilities) -> (r: RWCapabilitySet)
        ensures
            r@ == set![self, other],
    {
        let a = RWCapabilitySet::from_capability(self);
        let b = RWCapabilitySet::from_capability(other);
        a.union(b)
    }
}

impl std::str::FromStr for RWCapabilities {
    type Err = ParseRWError;

    fn from_str(s: &str) -> Result<RWCapabilities, ParseRWError> {
        RWCapabilities::from_str(s)
    }
}

/// A set of access modes.
#[derive(Clone, Copy, Debug, PartialEq, Eq, Structural)]
pub struct RWCapabilitySet {
    read: bool,
    write: bool,
}

impl View for RWCapabilitySet {
    type V = Set<RWCapabilities>;

    closed spec fn view(&self) -> Set<RWCapabilities> {
        Set::new(|c: RWCapabilities| match c {
            RWCapabilities::Read => self.read,
            RWCapabilities::Write => self.write,
        })
    }
}

impl RWCapabilitySet {
    /// The empty set.
    pub fn empty() -> (r: RWCapabilitySet)
        ensures
            r@ == Set::<RWCapabilities>::empty(),
    {
        let r = RWCapabilitySet { read: false, write: false };
        assert(r@ =~= Set::<RWCapabilities>::empty());
        r
    }

    /// The set that holds `c` alone.
    pub fn from_capability(c: RWCapabilities) -> (r: RWCapabilitySet)
        ensures
            r@ == set![c],
    {
        let r = match c {
            RWCapabilities::Read => RWCapabilitySet { read: true, write: false },
            RWCapabilities::Write => RWCapabilitySet { read: false, write: true },
        };
        assert(r@ =~= set![c]);
        r
    }

    /// The union of two sets.
    pub fn union(self, other: RWCapabilitySet) -> (r: RWCapabilitySet)
        ensures
            r@ == self@.union(other@),
    {
        let r = RWCapabilitySet { read: self.read || other.read, write: self.write || other.write };
        assert(r@ =~= self@.union(other@));
        r
    }

    /// Whether the set holds `c`.
    pub fn contains(&self, c: RWCapabilities) -> (r: bool)
        ensures
            r == self@.contains(c),
    {
        match c {
            RWCapabilities::Read => self.read,
            RWCapabilities::Write => self.write,
        }
    }
}

/// The first element of `s` that satisfies `p`, if any.
pub open spec fn first_match<T>(s: Seq<T>, p: spec_fn(T) -> bool) -> Option<T>
    decreases s.len(),
{
    if s.len() == 0 {
        None
    } else if p(s[0]) {
        Some(s[0])
    } else {
        first_match(s.drop_first(), p)
    }
}

/// Looking past an element that fails `p` does not change the first match.
pub proof fn lemma_first_match_step<T>(s: Seq<T>, p: spec_fn(T) -> bool, i: int)
    requires
        0 <= i < s.len(),
    ensures
        first_match(s.skip(i), p) == if p(s[i]) {
            Some(s[i])
        } else {
            first_match(s.skip(i + 1), p)
        },
{
    assert(s.skip(i).drop_first() =~= s.skip(i + 1));
}

/// The first match is the element at `i` when it is the first to satisfy
/// `p`.
pub proof fn lemma_first_match_at<T>(s: Seq<T>, p: spec_fn(T) -> bool, i: int)
    requires
        0 <= i < s.len(),
        p(s[i]),
        forall|j: int| 0 <= j < i ==> !p(#[trigger] s[j]),
    ensures
        first_match(s, p) == Some(s[i]),
    decreases i,
{
    if i > 0 {
        let t = s.drop_first();
        assert forall|j: int| 0 <= j < i - 1 implies !p(#[trigger] t[j]) by {
            assert(t[j] == s[j + 1]);
        }
        lemma_first_match_at(t, p, i - 1);
        assert(!p(s[0]));
    }
}

/// A register of a power supply, with the access modes it allows.
#[derive(Clone, Copy, Debug)]
pub struct Feature {
    pub address: u16,
    pub name: &'static str,
    pub is_rw: RWCapabilitySet,
    /// Number of bytes taken as argument.
    pub quantity: u16,
}

/// The plain values a feature holds.
pub struct FeatureView {
    pub address: u16,
    pub name: Seq<char>,
    pub is_rw: Set<RWCapabilities>,
    pub quantity: u16,
}

impl View for Feature {
    type V = FeatureView;

    open spec fn view(&self) -> FeatureView {
        FeatureView {
            address: self.address,
            name: self.name@,
            is_rw: self.is_rw@,
            quantity: self.quantity,
        }
    }
}

/// A feature whose name is exactly `name`.
pub open spec fn named(name: Seq<char>) -> spec_fn(Feature) -> bool {
    |f: Feature| f.name@ == name
}

/// A feature whose name is `name`, ignoring ASCII case.
pub open spec fn named_ignoring_ascii_case(name: Seq<char>) -> spec_fn(Feature) -> bool {
    |f: Feature| eq_ignore_ascii_case(f.name@, name)
}

impl Feature {
    pub fn new(address: u16, name: &'static str, is_rw: RWCapabilitySet, quantity: u16) -> (r: Feature)
        ensures
            r.address == address,
            r.name == name,
            r.is_rw == is_rw,
            r.quantity == quantity,
    {
        Feature { address, name, is_rw, quantity }
    }

    /// The text that shows this feature: its name.
    pub fn to_string(&self) -> (s: String)
        ensures
            s@ == self.name@,
    {
        String::from_str(self.name)
    }

    /// The first feature of `features` whose name is `feature`, ignoring
    /// ASCII case.
    pub fn from_str<'a>(features: &'a Vec<Feature>, feature: &str) -> (r: Option<&'a Feature>)
        ensures
            match r {
                Some(f) => first_match(features@, named_ignoring_ascii_case(feature@)) == Some(*f),
                None => first_match(features@, named_ignoring_ascii_case(feature@)) is None,
            },
    {
        let ghost p = named_ignoring_ascii_case(feature@);
        let mut i: usize = 0;
        assert(features@.skip(0) =~= features@);
        while i < features.len()
            invariant
                i <= features.len(),
                p == named_ignoring_ascii_case(feature@),
                first_match(features@, p) == first_match(features@.skip(i as int), p),
            decreases features.len() - i,
        {
            proof {
                lemma_first_match_step(features@, p, i as int);
            }
            if str_eq_ignore_ascii_case(features[i].name, feature) {
                return Some(&features[i]);
            }
            i = i + 1;
        }
        None
    }
}

} // verus!
