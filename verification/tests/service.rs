use procdir::directory::{get_os_name, kill_by_id, list_processes};

#[test]
fn os_name_is_nonempty() {
    assert!(!get_os_name().is_empty());
}

#[test]
fn os_name_is_stable_within_a_run() {
    assert_eq!(get_os_name(), get_os_name());
}

#[test]
fn listing_contains_this_process() {
    let own = sysinfo::get_current_pid().expect("no pid for this process");
    let own_id = own.as_u32().to_string();
    let rs = list_processes();
    assert!(rs.iter().any(|r| r.id == own_id));
}

#[test]
fn listing_ids_are_decimal_and_names_lowercase() {
    for r in list_processes() {
        assert!(!r.id.is_empty());
        assert!(r.id.chars().all(|c| c.is_ascii_digit()));
        assert!(!r.name.chars().any(|c| c.is_ascii_uppercase()));
    }
}

#[test]
fn kill_of_absent_id_is_false() {
    assert!(!kill_by_id("999999999"));
}

#[test]
fn kill_of_malformed_id_is_false() {
    assert!(!kill_by_id("not-a-pid"));
    assert!(!kill_by_id(""));
}

#[test]
fn kill_of_absent_id_ignores_case() {
    assert_eq!(kill_by_id("ABCDEF"), kill_by_id("abcdef"));
}
