//! Taiko hard fork identifiers.

use core::str::FromStr;
use revm::primitives::hardfork::UnknownHardfork;
use vstd::prelude::*;

pub mod name;

verus! {

/// Taiko hard forks, in the order in which they were activated.
#[allow(non_camel_case_types)]
#[derive(Clone, Copy, Debug, Hash, PartialEq, Eq, Structural, PartialOrd, Ord)]
pub enum TaikoSpecId {
    /// Katla hard fork for the Taiko network
    KATLA,
    /// Hekla hard fork for the Taiko network
    HEKLA,
    /// Ontake hard fork for the Taiko network
    ONTAKE,
    /// Pacaya hard fork for the Taiko network
    PACAYA,
}

impl TaikoSpecId {
    /// Position of the fork in activation order (its `repr(u8)` value).
    pub open spec fn spec_ordinal(self) -> u8 {
        match self {
            TaikoSpecId::KATLA => 0,
            TaikoSpecId::HEKLA => 1,
            TaikoSpecId::ONTAKE => 2,
            TaikoSpecId::PACAYA => 3,
        }
    }

    /// Position of the fork in activation order.
    pub fn ordinal(self) -> (r: u8)
        ensures
            r == self.spec_ordinal(),
    {
        match self {
            TaikoSpecId::KATLA => 0,
            TaikoSpecId::HEKLA => 1,
            TaikoSpecId::ONTAKE => 2,
            TaikoSpecId::PACAYA => 3,
        }
    }

    /// Returns `true` if the rules of `other` are active under `self`,
    /// that is, if `other` was activated no later than `self`.
    pub fn is_enabled_in(self, other: TaikoSpecId) -> (r: bool)
        ensures
            r == (other.spec_ordinal() <= self.spec_ordinal()),
    {
        other.ordinal() <= self.ordinal()
    }

    /// The Ethereum hard fork whose rules a Taiko fork runs.
    pub open spec fn spec_eth_spec(self) -> EthSpecId {
        EthSpecId { id: EthSpecId::SHANGHAI_ID }
    }

    /// The Ethereum hard fork whose rules a Taiko fork runs: Shanghai, for
    /// every Taiko fork.
    pub fn into_eth_spec(self) -> (r: EthSpecId)
        ensures
            r == self.spec_eth_spec(),
    {
        EthSpecId { id: EthSpecId::SHANGHAI_ID }
    }

    /// The string identifier of the fork.
    pub open spec fn spec_name(self) -> &'static str {
        match self {
            TaikoSpecId::KATLA => name::KATLA,
            TaikoSpecId::HEKLA => name::HEKLA,
            TaikoSpecId::ONTAKE => name::ONTAKE,
            TaikoSpecId::PACAYA => name::PACAYA,
        }
    }

    /// The fork whose string identifier is `s`, if any.
    pub open spec fn spec_from_name(s: Seq<char>) -> Option<TaikoSpecId> {
        if s == name::KATLA@ {
            Some(TaikoSpecId::KATLA)
        } else if s == name::HEKLA@ {
            Some(TaikoSpecId::HEKLA)
        } else if s == name::ONTAKE@ {
            Some(TaikoSpecId::ONTAKE)
        } else if s == name::PACAYA@ {
            Some(TaikoSpecId::PACAYA)
        } else {
            None
        }
    }

    /// The string identifier of the fork.
    pub fn name(self) -> (r: &'static str)
        ensures
            r == self.spec_name(),
    {
        match self {
            TaikoSpecId::KATLA => name::KATLA,
            TaikoSpecId::HEKLA => name::HEKLA,
            TaikoSpecId::ONTAKE => name::ONTAKE,
            TaikoSpecId::PACAYA => name::PACAYA,
        }
    }

    /// The fork whose string identifier is `s`, if any.
    pub fn from_name(s: &str) -> (r: Option<TaikoSpecId>)
        ensures
            r == Self::spec_from_name(s@),
    {
        if str_eq(s, name::KATLA) {
            Some(TaikoSpecId::KATLA)
        } else if str_eq(s, name::HEKLA) {
            Some(TaikoSpecId::HEKLA)
        } else if str_eq(s, name::ONTAKE) {
            Some(TaikoSpecId::ONTAKE)
        } else if str_eq(s, name::PACAYA) {
            Some(TaikoSpecId::PACAYA)
        } else {
            None
        }
    }
}

/// `a` and `b` are the same string.
fn str_eq(a: &str, b: &str) -> (r: bool)
    ensures
        r == (a@ == b@),
{
    let r = crate::bytes::bytes_eq(a.as_bytes(), b.as_bytes());
    proof {
        vstd::utf8::encode_utf8_decode_utf8(a@);
        vstd::utf8::encode_utf8_decode_utf8(b@);
    }
    r
}

/// The Ethereum hard fork that a Taiko fork runs, by its position in revm's
/// `SpecId`.
#[derive(Clone, Copy, Debug, PartialEq, Eq, Structural)]
pub struct EthSpecId {
    pub id: u8,
}

impl EthSpecId {
    /// Position of Shanghai in revm's `SpecId`.
    pub const SHANGHAI_ID: u8 = 16;

    /// Returns `true` if the rules of `other` are active under `self`, that
    /// is, if `other` comes no later than `self` (revm's
    /// `SpecId::is_enabled_in`).
    pub fn is_enabled_in(self, other: EthSpecId) -> (r: bool)
        ensures
            r == (self.id >= other.id),
    {
        self.id >= other.id
    }
}

impl From<TaikoSpecId> for &'static str {
    fn from(spec: TaikoSpecId) -> &'static str {
        match spec {
            TaikoSpecId::KATLA => name::KATLA,
            TaikoSpecId::HEKLA => name::HEKLA,
            TaikoSpecId::ONTAKE => name::ONTAKE,
            TaikoSpecId::PACAYA => name::PACAYA,
        }
    }
}

impl vstd::std_specs::convert::FromSpecImpl<TaikoSpecId> for &'static str {
    open spec fn obeys_from_spec() -> bool {
        true
    }

    open spec fn from_spec(spec: TaikoSpecId) -> &'static str {
        spec.spec_name()
    }
}

/// The forks are totally ordered: "enabled in" is transitive, antisymmetric
/// and total.
pub proof fn lemma_is_enabled_in_total_order(a: TaikoSpecId, b: TaikoSpecId, c: TaikoSpecId)
    ensures
        b.spec_ordinal() <= a.spec_ordinal() && c.spec_ordinal() <= b.spec_ordinal()
            ==> c.spec_ordinal() <= a.spec_ordinal(),
        b.spec_ordinal() <= a.spec_ordinal() && a.spec_ordinal() <= b.spec_ordinal() ==> a == b,
        b.spec_ordinal() <= a.spec_ordinal() || a.spec_ordinal() <= b.spec_ordinal(),
{
}

/// The forks come in the order Katla, Hekla, Ontake, Pacaya: each one has the
/// rules of those before it.
pub proof fn lemma_fork_order()
    ensures
        TaikoSpecId::KATLA.spec_ordinal() < TaikoSpecId::HEKLA.spec_ordinal(),
        TaikoSpecId::HEKLA.spec_ordinal() < TaikoSpecId::ONTAKE.spec_ordinal(),
        TaikoSpecId::ONTAKE.spec_ordinal() < TaikoSpecId::PACAYA.spec_ordinal(),
{
}

/// Parsing a fork's string identifier gives back the fork, and only a fork's
/// identifier parses.
pub proof fn lemma_name_round_trip(spec: TaikoSpecId, s: Seq<char>)
    ensures
        TaikoSpecId::spec_from_name(spec.spec_name()@) == Some(spec),
        TaikoSpecId::spec_from_name(s) matches Some(parsed) ==> s == parsed.spec_name()@,
{
    reveal_strlit("Katla");
    reveal_strlit("Hekla");
    reveal_strlit("Ontake");
    reveal_strlit("Pacaya");
    assert(name::KATLA@[0] == 'K');
    assert(name::HEKLA@[0] == 'H');
    assert(name::ONTAKE@[0] == 'O');
    assert(name::PACAYA@[0] == 'P');
}

/// Every Taiko fork runs Ethereum's Shanghai rules, so none of them enables
/// a later Ethereum fork.
pub proof fn lemma_eth_spec_is_shanghai(spec: TaikoSpecId)
    ensures
        spec.spec_eth_spec().id == EthSpecId::SHANGHAI_ID,
{
}

#[verifier::external_type_specification]
#[verifier::external_body]
pub struct ExUnknownHardfork(UnknownHardfork);

/// revm's `UnknownHardfork` error value, built by its unit constructor. The
/// type carries no data and is opaque to the verifier, so nothing is stated
/// of the value.
#[verifier::external_body]
fn unknown_hardfork() -> UnknownHardfork {
    UnknownHardfork
}

impl FromStr for TaikoSpecId {
    type Err = UnknownHardfork;

    fn from_str(s: &str) -> (r: Result<TaikoSpecId, UnknownHardfork>)
        ensures
            r is Ok <==> TaikoSpecId::spec_from_name(s@) is Some,
            r matches Ok(spec) ==> TaikoSpecId::spec_from_name(s@) == Some(spec),
    {
        match TaikoSpecId::from_name(s) {
            Some(spec) => Ok(spec),
            None => Err(unknown_hardfork()),
        }
    }
}

} // verus!
