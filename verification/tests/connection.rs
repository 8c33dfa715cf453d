use dahara_fuel_calc::connection::{
    format_error_chain, windows_error_hint, ConnectRetry, HINT_ACCESS_DENIED, HINT_NOT_RUNNING,
};

#[test]
fn error_chain_joined_with_arrows() {
    let msgs = vec!["connect failed".to_string(), "os error 2".to_string(), "file not found".to_string()];
    assert_eq!(format_error_chain(&msgs), "connect failed -> os error 2 -> file not found");
}

#[test]
fn error_chain_single_and_empty() {
    assert_eq!(format_error_chain(&["only".to_string()]), "only");
    assert_eq!(format_error_chain(&[]), "");
}

#[test]
fn hints_by_low_word_of_hresult() {
    assert_eq!(windows_error_hint(2).as_deref(), Some(HINT_NOT_RUNNING));
    assert_eq!(windows_error_hint(0x8007_0002u32 as i32).as_deref(), Some(HINT_NOT_RUNNING));
    assert_eq!(windows_error_hint(0x8007_0005u32 as i32).as_deref(), Some(HINT_ACCESS_DENIED));
    assert_eq!(windows_error_hint(0x8007_0006u32 as i32), None);
    assert_eq!(windows_error_hint(0), None);
}

#[test]
fn hint_texts() {
    assert_eq!(
        HINT_NOT_RUNNING,
        "iRacing is not running - start it and the overlay will connect automatically."
    );
    assert!(HINT_ACCESS_DENIED.starts_with("Access denied opening iRacing shared memory"));
}

#[test]
fn attempts_count_from_one() {
    let mut r = ConnectRetry::new();
    assert_eq!(r.begin_attempt(), 1);
    assert_eq!(r.begin_attempt(), 2);
    assert_eq!(r.begin_attempt(), 3);
}

#[test]
fn same_hint_not_shown_twice_in_a_row() {
    let mut r = ConnectRetry::new();
    let a = HINT_NOT_RUNNING.to_string();
    let b = HINT_ACCESS_DENIED.to_string();
    assert_eq!(r.hint_to_show(Some(a.clone())), Some(a.clone()));
    assert_eq!(r.hint_to_show(Some(a.clone())), None);
    assert_eq!(r.hint_to_show(None), None);
    assert_eq!(r.hint_to_show(Some(a.clone())), None);
    assert_eq!(r.hint_to_show(Some(b.clone())), Some(b.clone()));
    assert_eq!(r.hint_to_show(Some(a.clone())), Some(a));
}

#[test]
fn attempts_made_reads_the_counter() {
    let mut r = ConnectRetry::new();
    assert_eq!(r.attempts_made(), 0);
    r.begin_attempt();
    assert_eq!(r.attempts_made(), 1);
}
