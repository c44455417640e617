use phonebridge::discovery::peer_registry::{is_fresh, PeerRegistry, PEER_TTL_NANOS};
use phonebridge::discovery::Announce;

fn announce(id: &str, name: &str) -> Announce {
    Announce {
        device_id: id.to_string(),
        device_name: name.to_string(),
        platform: "linux".to_string(),
        pairing_port: 17591,
        fingerprint: "ff".to_string(),
    }
}

#[test]
fn upsert_then_get_returns_latest_announcement() {
    let mut registry: PeerRegistry<u32> = PeerRegistry::new();
    assert!(registry.get("pc1").is_none());
    registry.upsert(announce("pc1", "Old name"), 1);
    registry.upsert(announce("pc2", "Other"), 2);
    registry.upsert(announce("pc1", "New name"), 3);
    let pc1 = registry.get("pc1").unwrap();
    assert_eq!(pc1.announce.device_name, "New name");
    assert_eq!(pc1.addr, 3);
    assert_eq!(registry.get("pc2").unwrap().addr, 2);
    assert_eq!(registry.all().len(), 2);
    assert_eq!(registry.all()[1].announce.device_id, "pc1");
}

#[test]
fn fresh_entries_survive_pruning() {
    let mut registry: PeerRegistry<u32> = PeerRegistry::new();
    registry.upsert(announce("pc1", "Desk"), 1);
    registry.prune();
    assert_eq!(registry.all().len(), 1);
}

#[test]
fn freshness_boundary() {
    assert!(is_fresh(0));
    assert!(is_fresh(PEER_TTL_NANOS));
    assert!(!is_fresh(PEER_TTL_NANOS + 1));
    assert_eq!(PEER_TTL_NANOS, 10_000_000_000);
}
