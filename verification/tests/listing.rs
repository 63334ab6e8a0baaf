use procdir::snapshot::{find_pid, records_of, RawProcess};

fn sample() -> Vec<RawProcess> {
    vec![
        RawProcess { pid: 7, name: "Init".to_string() },
        RawProcess { pid: 4242, name: "FireFox".to_string() },
        RawProcess { pid: 19, name: "BASH".to_string() },
    ]
}

#[test]
fn listing_renders_ids_and_lowercases_names() {
    let rs = records_of(&sample());
    assert_eq!(rs.len(), 3);
    assert_eq!(rs[0].id, "7");
    assert_eq!(rs[0].name, "init");
    assert_eq!(rs[1].id, "4242");
    assert_eq!(rs[1].name, "firefox");
    assert_eq!(rs[2].id, "19");
    assert_eq!(rs[2].name, "bash");
}

#[test]
fn listing_of_empty_snapshot_is_empty() {
    let rs = records_of(&Vec::new());
    assert_eq!(rs.len(), 0);
}

#[test]
fn find_present_id() {
    assert_eq!(find_pid(&sample(), "19"), Some(19));
    assert_eq!(find_pid(&sample(), "4242"), Some(4242));
}

#[test]
fn find_absent_id() {
    assert_eq!(find_pid(&sample(), "20"), None);
    assert_eq!(find_pid(&sample(), "999999999"), None);
}

#[test]
fn find_malformed_id() {
    assert_eq!(find_pid(&sample(), ""), None);
    assert_eq!(find_pid(&sample(), "19a"), None);
    assert_eq!(find_pid(&sample(), "-19"), None);
}

#[test]
fn find_treats_case_as_equal() {
    let snap = sample();
    assert_eq!(find_pid(&snap, "ABC"), find_pid(&snap, "abc"));
    assert_eq!(find_pid(&snap, "ABC"), None);
}

#[test]
fn find_after_removal_is_none() {
    let mut snap = sample();
    assert_eq!(find_pid(&snap, "4242"), Some(4242));
    snap.retain(|r| r.pid != 4242);
    assert_eq!(find_pid(&snap, "4242"), None);
}
