use xtouch_gw::obs_events::CachePurge;
use xtouch_gw::obs_transform::{anchor_from_alignment, Anchor, ItemIdCache};

#[test]
fn anchors_from_alignment_flags() {
    assert_eq!(anchor_from_alignment(0), (Anchor::Center, Anchor::Center));
    assert_eq!(anchor_from_alignment(1 | 4), (Anchor::Start, Anchor::Start));
    assert_eq!(anchor_from_alignment(2 | 8), (Anchor::End, Anchor::End));
    assert_eq!(anchor_from_alignment(1 | 2), (Anchor::Start, Anchor::Center));
    assert_eq!(anchor_from_alignment(8), (Anchor::Center, Anchor::End));
}

#[test]
fn item_id_cache_read_after_write() {
    let mut c = ItemIdCache::new();
    assert_eq!(c.lookup("Scene", "Cam"), None);
    c.remember("Scene", "Cam", 7);
    c.remember("Scene", "Other", 9);
    assert_eq!(c.lookup("Scene", "Cam"), Some(7));
    assert_eq!(c.get("Scene::Other"), Some(9));
    c.remember("Scene", "Cam", 8);
    assert_eq!(c.lookup("Scene", "Cam"), Some(8));
    assert_eq!(c.len(), 2);
}

#[test]
fn item_id_cache_purges() {
    let mut c = ItemIdCache::new();
    c.remember("A", "cam1", 1);
    c.remember("A", "cam2", 2);
    c.remember("B", "cam1", 3);
    c.remember("B", "img", 4);
    assert_eq!(c.purge(&CachePurge::Suffix("::cam1".to_string())), 2);
    assert_eq!(c.lookup("A", "cam1"), None);
    assert_eq!(c.lookup("B", "cam1"), None);
    assert_eq!(c.lookup("A", "cam2"), Some(2));
    assert_eq!(c.purge(&CachePurge::Prefix("B::".to_string())), 1);
    assert_eq!(c.lookup("B", "img"), None);
    assert_eq!(c.purge(&CachePurge::Key("A::cam2".to_string())), 1);
    assert_eq!(c.len(), 0);
    assert_eq!(c.purge(&CachePurge::Key("A::cam2".to_string())), 0);
}
