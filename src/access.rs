//! Authorization tiers and their wire text.

use vstd::prelude::*;
use crate::text::str_eq;
use std::collections::BTreeMap;

verus! {

/// The text that a JSON document holds when it is a single JSON string.
pub uninterp spec fn json_string_of(s: Seq<char>) -> Option<Seq<char>>;

/// The keys of a JSON document that is an object whose every value is `null`.
pub uninterp spec fn json_null_keys_of(s: Seq<char>) -> Option<Seq<Seq<char>>>;

/// Relies on `serde_json::from_str::<String>`: a JSON string, with whitespace
/// around it and escapes inside it, decodes to its text; anything else fails.
#[verifier::external_body]
fn decode_json_string(s: &str) -> (r: Option<String>)
    ensures
        match json_string_of(s@) {
            Some(v) => r is Some && r->Some_0@ == v,
            None => r is None,
        },
{
    match serde_json::from_str::<String>(s) {
        Ok(v) => Some(v),
        Err(_) => None,
    }
}

/// Relies on `serde_json::from_str::<BTreeMap<String, ()>>`: a JSON object whose
/// values are all `null` decodes to its keys, in order; anything else fails.
#[verifier::external_body]
fn decode_json_null_keys(s: &str) -> (r: Option<Vec<String>>)
    ensures
        match json_null_keys_of(s@) {
            Some(ks) => r is Some && r->Some_0@.map_values(|k: String| k@) == ks,
            None => r is None,
        },
{
    match serde_json::from_str::<BTreeMap<String, ()>>(s) {
        Ok(m) => Some(m.into_keys().collect()),
        Err(_) => None,
    }
}

/// The tier with this name, if any.
pub open spec fn level_of_name(n: Seq<char>) -> Option<AccessLevel> {
    if n == AccessLevel::Registered.spec_name() {
        Some(AccessLevel::Registered)
    } else if n == AccessLevel::Vip.spec_name() {
        Some(AccessLevel::Vip)
    } else if n == AccessLevel::Admin.spec_name() {
        Some(AccessLevel::Admin)
    } else {
        None
    }
}

/// The tier that the token text `s` names, if any. The text is JSON: a tier is
/// written as its name in a JSON string (exactly so when issued), or as an
/// object whose one key is its name and whose value is `null`.
pub open spec fn level_of_tag(s: Seq<char>) -> Option<AccessLevel> {
    if s == AccessLevel::Registered.spec_tag() {
        Some(AccessLevel::Registered)
    } else if s == AccessLevel::Vip.spec_tag() {
        Some(AccessLevel::Vip)
    } else if s == AccessLevel::Admin.spec_tag() {
        Some(AccessLevel::Admin)
    } else {
        match json_string_of(s) {
            Some(n) => level_of_name(n),
            None => match json_null_keys_of(s) {
                Some(ks) => if ks.len() == 1 {
                    level_of_name(ks[0])
                } else {
                    None
                },
                None => None,
            },
        }
    }
}

/// An authorization tier. Tiers are ordered `Registered < Vip < Admin`; a
/// higher tier holds every privilege of a lower one.
#[derive(Debug, Clone, Copy, PartialEq, Eq, Structural, PartialOrd, Ord, Hash)]
pub enum AccessLevel {
    Registered,
    Vip,
    Admin,
}

impl AccessLevel {
    /// The position of the tier in the order.
    pub open spec fn spec_rank(self) -> nat {
        match self {
            AccessLevel::Registered => 0,
            AccessLevel::Vip => 1,
            AccessLevel::Admin => 2,
        }
    }

    /// Whether this tier meets `required`.
    pub open spec fn spec_meets(self, required: AccessLevel) -> bool {
        self.spec_rank() >= required.spec_rank()
    }

    /// The text of the tier inside a token: its name as a JSON string, quotes included.
    pub open spec fn spec_tag(self) -> Seq<char> {
        match self {
            AccessLevel::Registered => seq!['"', 'R', 'e', 'g', 'i', 's', 't', 'e', 'r', 'e', 'd', '"'],
            AccessLevel::Vip => seq!['"', 'V', 'i', 'p', '"'],
            AccessLevel::Admin => seq!['"', 'A', 'd', 'm', 'i', 'n', '"'],
        }
    }

    /// All tiers, lowest first.
    pub open spec fn spec_all() -> Seq<AccessLevel> {
        seq![AccessLevel::Registered, AccessLevel::Vip, AccessLevel::Admin]
    }

    /// The position of the tier in the order.
    pub fn rank(&self) -> (r: u8)
        ensures
            r as nat == self.spec_rank(),
    {
        match self {
            AccessLevel::Registered => 0,
            AccessLevel::Vip => 1,
            AccessLevel::Admin => 2,
        }
    }

    /// Whether this tier meets `required`, that is, is not below it.
    pub fn meets(&self, required: AccessLevel) -> (r: bool)
        ensures
            r == self.spec_meets(required),
    {
        self.rank() >= required.rank()
    }

    /// The tier's name.
    pub open spec fn spec_name(self) -> Seq<char> {
        match self {
            AccessLevel::Registered => "Registered"@,
            AccessLevel::Vip => "Vip"@,
            AccessLevel::Admin => "Admin"@,
        }
    }

    /// The tier's name.
    pub fn name(&self) -> (r: &'static str)
        ensures
            r@ == self.spec_name(),
    {
        match self {
            AccessLevel::Registered => "Registered",
            AccessLevel::Vip => "Vip",
            AccessLevel::Admin => "Admin",
        }
    }

    /// The text of the tier inside a token.
    pub fn tag(&self) -> (r: String)
        ensures
            r@ == self.spec_tag(),
    {
        match self {
            AccessLevel::Registered => {
                let s = String::from_str("\"Registered\"");
                proof {
                    reveal_strlit("\"Registered\"");
                }
                assert(s@ =~= self.spec_tag());
                s
            },
            AccessLevel::Vip => {
                let s = String::from_str("\"Vip\"");
                proof {
                    reveal_strlit("\"Vip\"");
                }
                assert(s@ =~= self.spec_tag());
                s
            },
            AccessLevel::Admin => {
                let s = String::from_str("\"Admin\"");
                proof {
                    reveal_strlit("\"Admin\"");
                }
                assert(s@ =~= self.spec_tag());
                s
            },
        }
    }

    /// The tier with this name, if any.
    pub fn from_name(n: &str) -> (r: Option<AccessLevel>)
        ensures
            r == level_of_name(n@),
    {
        if str_eq(n, AccessLevel::Registered.name()) {
            Some(AccessLevel::Registered)
        } else if str_eq(n, AccessLevel::Vip.name()) {
            Some(AccessLevel::Vip)
        } else if str_eq(n, AccessLevel::Admin.name()) {
            Some(AccessLevel::Admin)
        } else {
            None
        }
    }

    /// The tier whose token text is `s`, if any.
    pub fn from_tag(s: &str) -> (r: Option<AccessLevel>)
        ensures
            r == level_of_tag(s@),
    {
        let registered = AccessLevel::Registered.tag();
        let vip = AccessLevel::Vip.tag();
        let admin = AccessLevel::Admin.tag();
        if str_eq(s, registered.as_str()) {
            return Some(AccessLevel::Registered);
        } else if str_eq(s, vip.as_str()) {
            return Some(AccessLevel::Vip);
        } else if str_eq(s, admin.as_str()) {
            return Some(AccessLevel::Admin);
        }
        if let Some(name) = decode_json_string(s) {
            return Self::from_name(name.as_str());
        }
        match decode_json_null_keys(s) {
            Some(keys) => if keys.len() == 1 {
                Self::from_name(keys[0].as_str())
            } else {
                None
            },
            None => None,
        }
    }

    /// All tiers, lowest first.
    pub fn all() -> (r: Vec<AccessLevel>)
        ensures
            r@ == Self::spec_all(),
    {
        let r = vec![AccessLevel::Registered, AccessLevel::Vip, AccessLevel::Admin];
        assert(r@ =~= Self::spec_all());
        r
    }
}

impl Default for AccessLevel {
    fn default() -> (r: AccessLevel)
        ensures
            r == AccessLevel::Registered,
    {
        AccessLevel::Registered
    }
}

/// Distinct tiers have distinct token texts, so a text names at most one tier.
pub proof fn lemma_tags_distinct(a: AccessLevel, b: AccessLevel)
    ensures
        a.spec_tag() == b.spec_tag() ==> a == b,
{
    if a != b {
        assert(a.spec_tag()[1] != b.spec_tag()[1]);
    }
}

} // verus!
