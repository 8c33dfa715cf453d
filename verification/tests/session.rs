use dahara_fuel_calc::telemetry::session::{parse_laps, session_kind};

fn laps_as_std(s: &str) -> Option<i32> {
    let t = s.trim();
    if t.is_empty() || t.eq_ignore_ascii_case("unlimited") {
        return None;
    }
    t.parse::<i32>().ok().filter(|&n| n > 0)
}

#[test]
fn parse_laps_counts() {
    assert_eq!(parse_laps("20"), Some(20));
    assert_eq!(parse_laps(" 35 "), Some(35));
    assert_eq!(parse_laps("+3"), Some(3));
}

#[test]
fn parse_laps_unlimited_and_empty() {
    assert_eq!(parse_laps("unlimited"), None);
    assert_eq!(parse_laps("  Unlimited\t"), None);
    assert_eq!(parse_laps(""), None);
    assert_eq!(parse_laps("   "), None);
}

#[test]
fn parse_laps_rejects_non_positive_and_junk() {
    assert_eq!(parse_laps("0"), None);
    assert_eq!(parse_laps("-5"), None);
    assert_eq!(parse_laps("20 laps"), None);
    assert_eq!(parse_laps("2147483648"), None);
    assert_eq!(parse_laps("12.0"), None);
}

#[test]
fn parse_laps_agrees_with_std_formulation() {
    for s in [
        "", "1", " 1", "1 ", "unlimited", "UNLIMITED", "x", "-0", "+0", "2147483647", "\u{2028}8\u{2029}",
        "1000", "٣", "0x10",
    ] {
        assert_eq!(parse_laps(s), laps_as_std(s), "{:?}", s);
    }
}

#[test]
fn session_kinds() {
    assert_eq!(session_kind("Race"), "race");
    assert_eq!(session_kind("Practice"), "practice");
    assert_eq!(session_kind("OfflineTesting"), "practice");
    assert_eq!(session_kind("Qualify"), "qualifying");
    assert_eq!(session_kind("Lone Qualify"), "other");
    assert_eq!(session_kind("race"), "other");
    assert_eq!(session_kind(""), "other");
}

#[test]
fn surrounding_white_space_does_not_change_laps() {
    for s in ["20", "unlimited", "-3", "x", "", "7 7"] {
        let padded = format!("\u{a0} \t{}\n\u{2029}", s);
        assert_eq!(parse_laps(&padded), parse_laps(s), "{:?}", s);
    }
}

use dahara_fuel_calc::telemetry::session::current_session_index;

#[test]
fn current_session_index_clamps_negative() {
    assert_eq!(current_session_index(-1), 0);
    assert_eq!(current_session_index(0), 0);
    assert_eq!(current_session_index(2), 2);
}
