use fuck_ace::topology::{
    fallback_selection, find_target_core, last_core_index, select_target_core, single_core_mask,
    ClassRank, CoreTopology,
};

fn topology(core_count: u32, classes: Option<Vec<u8>>) -> CoreTopology {
    CoreTopology { core_count, efficiency_classes: classes }
}

#[test]
fn homogeneous_topology_selects_last_core() {
    for n in 1u32..=16 {
        let t = topology(n, Some(vec![1u8; n as usize]));
        let r = select_target_core(&t, ClassRank::Highest);
        assert_eq!(r.core_index, n - 1);
        assert_eq!(r.core_mask, 1u64 << (n - 1));
        assert!(!r.is_heterogeneous_target);
    }
}

#[test]
fn failed_class_query_selects_last_core() {
    let r = select_target_core(&topology(12, None), ClassRank::Highest);
    assert_eq!(r.core_index, 11);
    assert_eq!(r.core_mask, 1u64 << 11);
    assert!(!r.is_heterogeneous_target);
}

#[test]
fn class_list_of_wrong_length_is_ignored() {
    let r = select_target_core(&topology(6, Some(vec![0, 0, 0, 1, 1])), ClassRank::Highest);
    assert_eq!(r.core_index, 5);
    assert!(!r.is_heterogeneous_target);
}

#[test]
fn heterogeneous_topology_selects_highest_core_of_max_class() {
    let t = topology(5, Some(vec![0, 0, 0, 1, 1]));
    let r = select_target_core(&t, ClassRank::Highest);
    assert_eq!(r.core_index, 4);
    assert_eq!(r.core_mask, 0b10000);
    assert!(r.is_heterogeneous_target);
}

#[test]
fn heterogeneous_topology_tie_break_is_highest_index() {
    let t = topology(6, Some(vec![1, 2, 0, 2, 1, 0]));
    let r = select_target_core(&t, ClassRank::Highest);
    assert_eq!(r.core_index, 3);
    assert_eq!(r.core_mask, 0b1000);
    assert!(r.is_heterogeneous_target);
}

#[test]
fn lowest_rank_prefers_smallest_class() {
    let t = topology(5, Some(vec![0, 0, 0, 1, 1]));
    let r = select_target_core(&t, ClassRank::Lowest);
    assert_eq!(r.core_index, 2);
    assert_eq!(r.core_mask, 0b100);
    assert!(r.is_heterogeneous_target);
}

#[test]
fn zero_cores_selects_core_zero() {
    let r = select_target_core(&topology(0, None), ClassRank::Highest);
    assert_eq!(r.core_index, 0);
    assert_eq!(r.core_mask, 1);
    assert!(!r.is_heterogeneous_target);
}

#[test]
fn more_cores_than_mask_bits_selects_last_addressable_core() {
    let r = select_target_core(&topology(128, None), ClassRank::Highest);
    assert_eq!(r.core_index, 63);
    assert_eq!(r.core_mask, 1u64 << 63);
    assert_eq!(last_core_index(64), 63);
    assert_eq!(last_core_index(65), 63);
}

#[test]
fn find_target_core_gives_last_core_and_mask() {
    assert_eq!(find_target_core(8), (7, 0b1000_0000));
    assert_eq!(find_target_core(1), (0, 1));
    assert_eq!(find_target_core(0), (0, 1));
    for n in 1u32..=64 {
        assert_eq!(find_target_core(n), (n - 1, 1u64 << (n - 1)));
    }
}

#[test]
fn single_core_mask_has_one_bit() {
    assert_eq!(single_core_mask(0), 1);
    assert_eq!(single_core_mask(5), 32);
    assert_eq!(single_core_mask(63), 0x8000_0000_0000_0000);
    let f = fallback_selection(24);
    assert_eq!(f.core_index, 23);
    assert_eq!(f.core_mask, 1u64 << 23);
    assert!(!f.is_heterogeneous_target);
}
