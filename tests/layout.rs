use apollos_kiosk::ledger::Ledger;

fn k(s: &str) -> String {
    s.to_string()
}

fn keys(v: &[&str]) -> Vec<String> {
    v.iter().map(|s| s.to_string()).collect()
}

fn list_count(l: &Ledger, key: &str) -> usize {
    let mut n = 0;
    for p in 0..3 {
        n += l.panel_keys(p).iter().filter(|x| x.as_str() == key).count();
    }
    n + l.unassigned_keys().iter().filter(|x| x.as_str() == key).count()
}

#[test]
fn register_adds_once() {
    let mut l = Ledger::new();
    assert!(l.register(&k("a")));
    assert!(!l.register(&k("a")));
    assert_eq!(l.unassigned_keys(), &keys(&["a"]));
}

#[test]
fn assign_moves_to_panel() {
    let mut l = Ledger::new();
    l.register(&k("a"));
    l.register(&k("b"));
    assert!(l.assign(1, 2));
    assert_eq!(l.unassigned_keys(), &keys(&["a"]));
    assert_eq!(l.panel_keys(2), &keys(&["b"]));
    assert!(!l.register(&k("b")));
    assert_eq!(list_count(&l, "b"), 1);
}

#[test]
fn assign_out_of_range_changes_nothing() {
    let mut l = Ledger::new();
    l.register(&k("a"));
    assert!(!l.assign(1, 0));
    assert!(!l.assign(0, 3));
    assert_eq!(l.unassigned_keys(), &keys(&["a"]));
}

#[test]
fn unassign_returns_key_to_end() {
    let mut l = Ledger::new();
    l.register(&k("a"));
    l.register(&k("b"));
    l.assign(0, 0);
    assert!(l.unassign(0, 0));
    assert!(l.panel_keys(0).is_empty());
    assert_eq!(l.unassigned_keys(), &keys(&["b", "a"]));
    assert!(!l.unassign(0, 0));
}

#[test]
fn move_card_between_panels() {
    let mut l = Ledger::new();
    for s in ["a", "b", "c"] {
        l.register(&k(s));
    }
    l.assign(0, 0);
    l.assign(0, 0);
    assert!(l.move_card(0, 0, 1));
    assert_eq!(l.panel_keys(0), &keys(&["b"]));
    assert_eq!(l.panel_keys(1), &keys(&["a"]));
    assert!(!l.move_card(0, 5, 1));
    assert!(!l.move_card(0, 0, 3));
    for s in ["a", "b", "c"] {
        assert_eq!(list_count(&l, s), 1);
    }
}

#[test]
fn restore_keeps_first_place_of_each_key() {
    let l = Ledger::restore(
        &keys(&["a", "b", "a"]),
        &keys(&["c", "b"]),
        &keys(&["d"]),
        &keys(&["e", "d", "a", "e"]),
    );
    assert_eq!(l.panel_keys(0), &keys(&["a", "b"]));
    assert_eq!(l.panel_keys(1), &keys(&["c"]));
    assert_eq!(l.panel_keys(2), &keys(&["d"]));
    assert_eq!(l.unassigned_keys(), &keys(&["e"]));
    for s in ["a", "b", "c", "d", "e"] {
        assert_eq!(list_count(&l, s), 1);
    }
}

#[test]
fn contains_sees_all_lists() {
    let mut l = Ledger::restore(&keys(&["a"]), &keys(&[]), &keys(&["c"]), &keys(&["d"]));
    assert!(l.contains(&k("a")));
    assert!(l.contains(&k("c")));
    assert!(l.contains(&k("d")));
    assert!(!l.contains(&k("z")));
    assert!(!l.register(&k("c")));
}
