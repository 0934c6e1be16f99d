use chat_core::mutation::{apply_log, apply_mutation, update_with, VecMutation};

#[test]
fn push_appends() {
    let mut v: Vec<u32> = vec![1, 2];
    apply_mutation(&mut v, VecMutation::Push(3));
    assert_eq!(v, vec![1, 2, 3]);
}

#[test]
fn remove_one_drops_index() {
    let mut v: Vec<u32> = vec![1, 2, 3];
    apply_mutation(&mut v, VecMutation::RemoveOne(1));
    assert_eq!(v, vec![1, 3]);
}

#[test]
fn remove_one_out_of_range_is_a_no_op() {
    let mut v: Vec<u32> = vec![1, 2, 3];
    apply_mutation(&mut v, VecMutation::RemoveOne(3));
    assert_eq!(v, vec![1, 2, 3]);
}

#[test]
fn update_replaces_in_place() {
    let mut v: Vec<u32> = vec![1, 2, 3];
    apply_mutation(&mut v, VecMutation::Update(0, 9));
    assert_eq!(v, vec![9, 2, 3]);
}

#[test]
fn update_out_of_range_is_a_no_op() {
    let mut v: Vec<u32> = vec![1, 2, 3];
    apply_mutation(&mut v, VecMutation::Update(5, 9));
    assert_eq!(v, vec![1, 2, 3]);
}

#[test]
fn set_all_replaces_whole_sequence() {
    let mut v: Vec<u32> = vec![1, 2, 3];
    apply_mutation(&mut v, VecMutation::SetAll(vec![7]));
    assert_eq!(v, vec![7]);
}

// The mutation log can be cut anywhere: replaying the whole log from the
// empty sequence agrees with replaying a prefix, taking the intermediate
// snapshot, and replaying the suffix from it.
#[test]
fn log_replay_agrees_with_snapshot_plus_suffix() {
    let log: Vec<VecMutation<u32>> = vec![
        VecMutation::Push(1),
        VecMutation::Push(2),
        VecMutation::Update(0, 5),
        VecMutation::RemoveOne(1),
        VecMutation::Push(8),
        VecMutation::SetAll(vec![3, 4]),
        VecMutation::Push(9),
    ];
    for cut in 0..=log.len() {
        let mut whole: Vec<u32> = Vec::new();
        apply_log(&mut whole, clone_log(&log));

        let mut snapshot: Vec<u32> = Vec::new();
        apply_log(&mut snapshot, clone_log(&log[..cut]));
        apply_log(&mut snapshot, clone_log(&log[cut..]));

        assert_eq!(whole, snapshot);
    }
}

fn clone_log(ms: &[VecMutation<u32>]) -> Vec<VecMutation<u32>> {
    ms.iter()
        .map(|m| match m {
            VecMutation::Push(x) => VecMutation::Push(*x),
            VecMutation::RemoveOne(i) => VecMutation::RemoveOne(*i),
            VecMutation::Update(i, x) => VecMutation::Update(*i, *x),
            VecMutation::SetAll(xs) => VecMutation::SetAll(xs.clone()),
        })
        .collect()
}

#[test]
fn update_with_builds_update_from_current_element() {
    let v: Vec<u32> = vec![10, 20, 30];
    let m = update_with(&v, 1, |x: &u32| x + 5);
    match m {
        VecMutation::Update(i, x) => {
            assert_eq!(i, 1);
            assert_eq!(x, 25);
        }
        _ => panic!("expected an update mutation"),
    }
}
