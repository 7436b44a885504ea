//! Sealed values: every value carries the one key domain that can open it.
//! Opening with any other key fails; this is the confidentiality boundary.
use vstd::prelude::*;

verus! {

/// The ephemeral key that one caller shares with the cluster for one call.
#[derive(Clone, Copy, Debug, PartialEq, Eq, Structural)]
pub struct SharedKey {
    pub id: u128,
}

/// Who can open a sealed value.
#[derive(Clone, Copy, Debug, PartialEq, Eq, Structural)]
pub enum KeyDomain {
    /// The cluster's network-wide key: durable state.
    Network,
    /// One caller's shared key: a result only that caller reads.
    Caller(SharedKey),
}

/// A value sealed to one key domain. Its fields are private: the payload
/// leaves only through `open` with the matching key.
#[derive(Clone, Copy, Debug)]
pub struct Sealed<T> {
    domain: KeyDomain,
    payload: T,
}

impl<T> View for Sealed<T> {
    type V = (KeyDomain, T);

    closed spec fn view(&self) -> (KeyDomain, T) {
        (self.domain, self.payload)
    }
}

/// The sealed form of `value` under `domain`.
pub closed spec fn sealed_as<T>(value: T, domain: KeyDomain) -> Sealed<T> {
    Sealed { domain, payload: value }
}

/// What opening `s` with `key` gives.
pub open spec fn opened<T>(s: Sealed<T>, key: KeyDomain) -> Option<T> {
    if s@.0 == key { Some(s@.1) } else { None }
}

/// Seals `value` so that only `domain` can open it.
pub fn seal<T>(value: T, domain: KeyDomain) -> (r: Sealed<T>)
    ensures
        r == sealed_as(value, domain),
        r@ == (domain, value),
{
    Sealed { domain, payload: value }
}

impl<T> Sealed<T> {
    /// The domain that can open this value; the payload stays sealed.
    pub fn domain(&self) -> (r: KeyDomain)
        ensures
            r == self@.0,
    {
        self.domain
    }

    /// Opens the value with `key`: the payload if `key` is its domain, else `None`.
    pub fn open(self, key: KeyDomain) -> (r: Option<T>)
        ensures
            r == opened(self, key),
    {
        if self.domain == key {
            Some(self.payload)
        } else {
            None
        }
    }
}

/// Sealing and then opening under the same domain gives the value back;
/// opening under any other domain fails.
pub proof fn lemma_seal_open_round_trip<T>(value: T, domain: KeyDomain, key: KeyDomain)
    ensures
        sealed_as(value, domain)@ == (domain, value),
        opened(sealed_as(value, domain), domain) == Some(value),
        key != domain ==> opened(sealed_as(value, domain), key) is None,
{
}

} // verus!
