use buried_treasure::sealed::{KeyDomain, SharedKey, seal};

#[test]
fn open_with_own_domain_round_trips() {
    let s = seal(1234u64, KeyDomain::Network);
    assert_eq!(s.domain(), KeyDomain::Network);
    assert_eq!(s.open(KeyDomain::Network), Some(1234));
    let k = SharedKey { id: 5 };
    let c = seal(77u16, KeyDomain::Caller(k));
    assert_eq!(c.open(KeyDomain::Caller(k)), Some(77));
}

#[test]
fn open_with_other_domain_fails() {
    let k = SharedKey { id: 5 };
    let s = seal(1234u64, KeyDomain::Network);
    assert_eq!(s.open(KeyDomain::Caller(k)), None);
    let c = seal(77u16, KeyDomain::Caller(k));
    assert_eq!(c.open(KeyDomain::Network), None);
    assert_eq!(c.open(KeyDomain::Caller(SharedKey { id: 6 })), None);
}
