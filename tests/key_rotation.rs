use skinfixer::key_rotation::KeyRotation;

fn keys(names: &[&str]) -> Vec<String> {
    names.iter().map(|s| s.to_string()).collect()
}

#[test]
fn empty_key_list_is_refused() {
    assert!(KeyRotation::new(Vec::new()).is_none());
}

#[test]
fn keys_come_in_round_robin_order() {
    let mut rotation = KeyRotation::new(keys(&["a", "b", "c"])).unwrap();
    let handed: Vec<String> = (0..7).map(|_| rotation.next_key()).collect();
    assert_eq!(handed, keys(&["a", "b", "c", "a", "b", "c", "a"]));
}

#[test]
fn full_rounds_hand_out_each_key_equally() {
    let mut rotation = KeyRotation::new(keys(&["k1", "k2", "k3", "k4"])).unwrap();
    rotation.next_key();
    let handed: Vec<String> = (0..12).map(|_| rotation.next_key()).collect();
    for k in ["k1", "k2", "k3", "k4"] {
        assert_eq!(handed.iter().filter(|h| h.as_str() == k).count(), 3);
    }
    assert_eq!(handed[0], "k2");
    assert_eq!(rotation.next_key(), "k2");
}

#[test]
fn single_key_is_always_handed_out() {
    let mut rotation = KeyRotation::new(keys(&["only"])).unwrap();
    for _ in 0..5 {
        assert_eq!(rotation.next_key(), "only");
        assert_eq!(rotation.get_index(), 0);
    }
}

#[test]
fn cursor_wraps_after_last_key() {
    let mut rotation = KeyRotation::new(keys(&["a", "b"])).unwrap();
    assert_eq!(rotation.len(), 2);
    assert_eq!(rotation.get_index(), 0);
    rotation.increment_index();
    assert_eq!(rotation.get_index(), 1);
    rotation.increment_index();
    assert_eq!(rotation.get_index(), 0);
    rotation.set_index(1);
    assert_eq!(rotation.next_key(), "b");
    assert_eq!(rotation.get_index(), 0);
}
