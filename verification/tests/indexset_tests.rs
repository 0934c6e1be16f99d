use chat_core::indexset::IndexSet;
use chat_core::mutation::VecMutation;

#[test]
fn insert_contains_remove() {
    let mut s = IndexSet::new();
    assert!(!s.contains(3));
    s.insert(3);
    s.insert(1);
    s.insert(3);
    assert!(s.contains(3));
    assert!(s.contains(1));
    assert!(!s.contains(2));
    s.remove(3);
    assert!(!s.contains(3));
    assert!(s.contains(1));
    s.remove(9);
    assert!(s.contains(1));
}

// The set references elements by identity: removing an element of the
// tracked sequence drops its position and shifts the later ones down, so
// each retained position keeps naming the same element.
#[test]
fn removal_shifts_positions_to_follow_their_elements() {
    // Track positions of "b" and "d" in ["a", "b", "c", "d"].
    let mut seq: Vec<&str> = vec!["a", "b", "c", "d"];
    let mut s = IndexSet::new();
    s.insert(1);
    s.insert(3);

    // Remove "c"; "b" stays at 1, "d" moves to 2.
    let m: VecMutation<&str> = VecMutation::RemoveOne(2);
    chat_core::mutation::apply_mutation(&mut seq, VecMutation::RemoveOne(2));
    s.on_mutation(&m);
    assert!(s.contains(1) && seq[1] == "b");
    assert!(s.contains(2) && seq[2] == "d");
    assert!(!s.contains(3));

    // Remove "a"; both tracked positions shift down.
    let m2: VecMutation<&str> = VecMutation::RemoveOne(0);
    chat_core::mutation::apply_mutation(&mut seq, VecMutation::RemoveOne(0));
    s.on_mutation(&m2);
    assert!(s.contains(0) && seq[0] == "b");
    assert!(s.contains(1) && seq[1] == "d");

    // Removing a tracked element drops its position.
    let m3: VecMutation<&str> = VecMutation::RemoveOne(0);
    s.on_mutation(&m3);
    assert!(s.contains(0));
    assert!(!s.contains(1));
}

#[test]
fn push_and_update_move_nothing() {
    let mut s = IndexSet::new();
    s.insert(0);
    s.on_mutation(&VecMutation::Push("x"));
    s.on_mutation(&VecMutation::Update(0, "y"));
    assert!(s.contains(0));
}

#[test]
fn whole_sequence_replacement_clears_the_set() {
    let mut s = IndexSet::new();
    s.insert(0);
    s.insert(2);
    s.on_mutation(&VecMutation::SetAll(vec!["x"]));
    assert!(!s.contains(0));
    assert!(!s.contains(2));
    assert!(s.to_indices().is_empty());
}

#[test]
fn to_indices_returns_every_position() {
    let mut s = IndexSet::new();
    s.insert(4);
    s.insert(2);
    let mut indices = s.to_indices();
    indices.sort();
    assert_eq!(indices, vec![2, 4]);
}
