use maze_render::graphics::GroupCounter;

#[test]
fn fresh_counter_issues_consecutive_ids() {
    let mut c = GroupCounter::new();
    assert_eq!(c.next(), 1);
    assert_eq!(c.next(), 2);
    assert_eq!(c.next(), 3);
}

#[test]
fn allocate_three_distinct_and_distinct_from_prior_next() {
    let mut c = GroupCounter::new();
    let first = c.next();
    let ids = c.instantiate(3);
    assert_eq!(ids.len(), 3);
    assert_ne!(ids[0], ids[1]);
    assert_ne!(ids[0], ids[2]);
    assert_ne!(ids[1], ids[2]);
    assert!(!ids.contains(&first));
    assert_eq!(ids, vec![2, 3, 4]);
}

#[test]
fn ids_pairwise_distinct_within_a_window() {
    let mut c = GroupCounter::new();
    let mut seen: Vec<u16> = Vec::new();
    let mut i: usize = 0;
    while i < 2000 {
        seen.push(c.next());
        i += 1;
    }
    seen.sort();
    let mut k: usize = 1;
    while k < seen.len() {
        assert_ne!(seen[k - 1], seen[k]);
        k += 1;
    }
}

#[test]
fn instantiate_advances_past_the_batch() {
    let mut c = GroupCounter::new();
    let ids = c.instantiate(5);
    assert_eq!(ids, vec![1, 2, 3, 4, 5]);
    assert_eq!(c.next(), 6);
}
