use fuck_ace::matcher::{
    contains_folded, find_matches, find_spec_matches, image_name_matches, matches_any_spec,
    select_monitored, ProcessEntry, TargetProcessSpec,
};

fn entry(pid: u32, name: &str) -> ProcessEntry {
    ProcessEntry { pid, image_name: name.to_string() }
}

fn spec(pattern: &str, display: &str) -> TargetProcessSpec {
    TargetProcessSpec { match_pattern: pattern.to_string(), display_name: display.to_string() }
}

#[test]
fn matching_is_case_insensitive_substring_containment() {
    let table = vec![entry(10, "SGuard64.exe"), entry(11, "notSGuard64x.exe"), entry(12, "other.exe")];
    let pids = find_spec_matches(&spec("sguard64.exe", "SGuard64.exe"), &table);
    // "notsguard64x.exe" holds "sguard64x.exe", not "sguard64.exe".
    assert_eq!(pids, vec![10]);
    assert!(!image_name_matches("sguard64.exe", "other.exe"));
}

#[test]
fn name_containing_the_pattern_matches() {
    let table = vec![entry(1, "notSGuard64.exe"), entry(2, "SGUARD64.EXE"), entry(3, "SGuard64.ex")];
    let pids = find_spec_matches(&spec("sguard64.exe", "SGuard64.exe"), &table);
    assert_eq!(pids, vec![1, 2]);
}

#[test]
fn pattern_case_is_folded_too() {
    assert!(image_name_matches("SGuardSvc64.EXE", "sguardsvc64.exe"));
    assert!(!image_name_matches("weixin.exe", "wechat.exe"));
}

#[test]
fn contains_folded_compares_as_given() {
    assert!(contains_folded("guard", "sguard64.exe"));
    assert!(!contains_folded("Guard", "sguard64.exe"));
    assert!(contains_folded("", "x"));
}

#[test]
fn find_matches_lists_every_spec_in_order() {
    let specs = vec![
        spec("sguard64.exe", "SGuard64.exe"),
        spec("sguardsvc64.exe", "SGuardSvc64.exe"),
        spec("weixin.exe", "Weixin.exe"),
    ];
    let table = vec![entry(5, "Weixin.exe"), entry(7, "SGuardSvc64.exe"), entry(9, "SGuard64.exe"), entry(4, "weixin.exe")];
    let m = find_matches(&specs, &table);
    assert_eq!(m, vec![vec![9], vec![7], vec![5, 4]]);
}

#[test]
fn empty_table_matches_nothing() {
    let specs = vec![spec("sguard64.exe", "SGuard64.exe")];
    let m = find_matches(&specs, &Vec::new());
    assert_eq!(m, vec![Vec::<u32>::new()]);
}

#[test]
fn monitored_positions_keep_table_order() {
    let specs = vec![spec("sguard64.exe", "SGuard64.exe"), spec("weixin.exe", "Weixin.exe")];
    let table = vec![entry(1, "explorer.exe"), entry(2, "WeiXin.exe"), entry(3, "sguard64.exe"), entry(4, "code.exe")];
    assert_eq!(select_monitored(&specs, &table), vec![1, 2]);
    assert!(matches_any_spec(&specs, "SGUARD64.EXE"));
    assert!(!matches_any_spec(&specs, "code.exe"));
}
