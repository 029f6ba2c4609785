use smh_domains::{Address, DomainError, SmhDomains, Zone};

fn addr(b: u8) -> Address {
    Address::new([b; 32])
}

fn zone(n: &str, v: &str) -> Zone {
    (n.to_string(), v.to_string())
}

fn fresh(owner: Address) -> SmhDomains {
    SmhDomains::create_domain("alice.example".to_string(), owner, true).unwrap()
}

#[test]
fn scenario_alice_example() {
    let u1 = addr(1);
    let u2 = addr(2);
    let mut unit = SmhDomains::create_domain("alice.example".to_string(), u1, true).unwrap();
    assert_eq!(unit.domain(), "alice.example");
    assert_eq!(unit.owner(), u1);
    assert_eq!(unit.zones(), Vec::<Zone>::new());

    let ev = unit.add_zone(u1, "A".to_string(), "1.2.3.4".to_string()).unwrap();
    assert_eq!(ev.name, "A");
    assert_eq!(ev.value, "1.2.3.4");
    assert_eq!(unit.zones(), vec![zone("A", "1.2.3.4")]);

    let ev = unit.update_zone(u1, 0, "A".to_string(), "5.6.7.8".to_string()).unwrap();
    assert_eq!(ev.value, "5.6.7.8");
    assert_eq!(unit.zones(), vec![zone("A", "5.6.7.8")]);

    let ev = unit.transfer(u1, u2).unwrap();
    assert_eq!(ev.new_owner, u2);
    assert_eq!(unit.owner(), u2);

    let r = unit.add_zone(u1, "B".to_string(), "x".to_string());
    assert_eq!(r.unwrap_err(), DomainError::Unauthorized);
    assert_eq!(unit.zones(), vec![zone("A", "5.6.7.8")]);
}

#[test]
fn create_denied_is_conflict() {
    let r = SmhDomains::create_domain("taken.example".to_string(), addr(1), false);
    assert_eq!(r.unwrap_err(), DomainError::CreationConflict);
}

#[test]
fn create_starts_empty() {
    let unit = SmhDomains::create_domain("".to_string(), addr(9), true).unwrap();
    assert_eq!(unit.domain(), "");
    assert_eq!(unit.owner(), addr(9));
    assert!(unit.zones().is_empty());
}

#[test]
fn stranger_cannot_mutate() {
    let owner = addr(1);
    let other = addr(7);
    let mut unit = fresh(owner);
    unit.add_zone(owner, "A".to_string(), "a".to_string()).unwrap();
    let before = unit.zones();

    assert_eq!(unit.add_zone(other, "B".to_string(), "b".to_string()).unwrap_err(), DomainError::Unauthorized);
    assert_eq!(unit.update_zone(other, 0, "B".to_string(), "b".to_string()).unwrap_err(), DomainError::Unauthorized);
    assert_eq!(unit.update_zone(other, 5, "B".to_string(), "b".to_string()).unwrap_err(), DomainError::Unauthorized);
    assert_eq!(unit.transfer(other, other).unwrap_err(), DomainError::Unauthorized);
    assert_eq!(unit.zones(), before);
    assert_eq!(unit.owner(), owner);
}

#[test]
fn add_zone_appends_at_old_length() {
    let owner = addr(1);
    let mut unit = fresh(owner);
    unit.add_zone(owner, "A".to_string(), "1".to_string()).unwrap();
    unit.add_zone(owner, "A".to_string(), "2".to_string()).unwrap();
    unit.add_zone(owner, "MX".to_string(), "mail".to_string()).unwrap();
    assert_eq!(unit.zones(), vec![zone("A", "1"), zone("A", "2"), zone("MX", "mail")]);
}

#[test]
fn update_zone_replaces_only_its_index() {
    let owner = addr(1);
    let mut unit = fresh(owner);
    unit.add_zone(owner, "A".to_string(), "1".to_string()).unwrap();
    unit.add_zone(owner, "B".to_string(), "2".to_string()).unwrap();
    unit.add_zone(owner, "C".to_string(), "3".to_string()).unwrap();
    let ev = unit.update_zone(owner, 1, "TXT".to_string(), "hello".to_string()).unwrap();
    assert_eq!(ev.name, "TXT");
    assert_eq!(ev.value, "hello");
    assert_eq!(unit.zones(), vec![zone("A", "1"), zone("TXT", "hello"), zone("C", "3")]);
}

#[test]
fn update_zone_out_of_range() {
    let owner = addr(1);
    let mut unit = fresh(owner);
    assert_eq!(unit.update_zone(owner, 0, "A".to_string(), "1".to_string()).unwrap_err(), DomainError::IndexOutOfRange);
    unit.add_zone(owner, "A".to_string(), "1".to_string()).unwrap();
    assert_eq!(unit.update_zone(owner, 1, "A".to_string(), "2".to_string()).unwrap_err(), DomainError::IndexOutOfRange);
    assert_eq!(unit.update_zone(owner, u32::MAX, "A".to_string(), "2".to_string()).unwrap_err(), DomainError::IndexOutOfRange);
    assert_eq!(unit.zones(), vec![zone("A", "1")]);
}

#[test]
fn transfer_to_self_is_noop() {
    let owner = addr(1);
    let mut unit = fresh(owner);
    assert_eq!(unit.transfer(owner, owner).unwrap_err(), DomainError::NoOpTransfer);
    assert_eq!(unit.owner(), owner);
}

#[test]
fn transfer_succeeds_once() {
    let owner = addr(1);
    let next = addr(2);
    let mut unit = fresh(owner);
    assert_eq!(unit.transfer(owner, next).unwrap().new_owner, next);
    assert_eq!(unit.owner(), next);
    assert_eq!(unit.transfer(owner, next).unwrap_err(), DomainError::Unauthorized);
    assert_eq!(unit.owner(), next);
    unit.add_zone(next, "A".to_string(), "1".to_string()).unwrap();
    assert_eq!(unit.zones(), vec![zone("A", "1")]);
}

#[test]
fn addresses_differing_in_last_byte() {
    let mut b = [3u8; 32];
    let a = Address::new(b);
    b[31] = 4;
    let c = Address::new(b);
    assert!(a != c);
    assert!(a.same_as(&a));
    assert!(!a.same_as(&c));
    assert_eq!(c.to_bytes(), b);
    let mut unit = fresh(a);
    assert_eq!(unit.add_zone(c, "A".to_string(), "1".to_string()).unwrap_err(), DomainError::Unauthorized);
    assert!(unit.zones().is_empty());
}

#[test]
fn from_parts_round_trip() {
    let owner = addr(5);
    let zones = vec![zone("A", "1"), zone("A", "1"), zone("NS", "ns1")];
    let mut unit = SmhDomains::from_parts("bob.example".to_string(), owner, zones.clone());
    assert_eq!(unit.domain(), "bob.example");
    assert_eq!(unit.owner(), owner);
    assert_eq!(unit.zones(), zones);
    unit.update_zone(owner, 2, "NS".to_string(), "ns2".to_string()).unwrap();
    assert_eq!(unit.zones(), vec![zone("A", "1"), zone("A", "1"), zone("NS", "ns2")]);
}
