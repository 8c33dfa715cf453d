use dahara_fuel_calc::json::{json_i64_field_of, parse_json};
use dahara_fuel_calc::sidecar::{pump_line, PumpStep};

#[test]
fn blank_lines_are_skipped() {
    assert!(matches!(pump_line(""), PumpStep::Skip));
    assert!(matches!(pump_line("   \t"), PumpStep::Skip));
}

#[test]
fn json_lines_are_forwarded_unchanged() {
    match pump_line("  {\"type\":\"state\",\"lap\":3}\r") {
        PumpStep::Emit(v) => {
            assert_eq!(v["type"], "state");
            assert_eq!(v["lap"], 3);
        }
        _ => panic!("expected Emit"),
    }
    assert!(matches!(pump_line("42"), PumpStep::Emit(_)));
}

#[test]
fn other_lines_are_reported() {
    assert!(matches!(pump_line("iRacing SDK is Windows-only"), PumpStep::Malformed(_)));
    assert!(matches!(pump_line("{\"type\":"), PumpStep::Malformed(_)));
}

#[test]
fn parse_json_agrees_with_serde_json() {
    for s in ["{}", "[1,2]", "null", "", "{", "1 2", "\"x\""] {
        assert_eq!(
            parse_json(s).is_ok(),
            serde_json::from_str::<serde_json::Value>(s).is_ok(),
            "{:?}",
            s
        );
    }
}

#[test]
fn integer_fields() {
    assert_eq!(json_i64_field_of("{\"x\": -12}", "x"), Some(-12));
    assert_eq!(json_i64_field_of("{\"x\": -12}", "y"), None);
    assert_eq!(json_i64_field_of("{\"x\": 18446744073709551615}", "x"), None);
    assert_eq!(json_i64_field_of("{\"x\": 2.0}", "x"), None);
    assert_eq!(json_i64_field_of("oops", "x"), None);
}

use dahara_fuel_calc::sidecar::{first_existing, sidecar_exe_name, sidecar_search_order, SidecarLocation};

#[test]
fn sidecar_names() {
    assert_eq!(sidecar_exe_name(true), "dahara-fuel-calc-sidecar-x86_64-pc-windows-msvc.exe");
    assert_eq!(sidecar_exe_name(false), "dahara-fuel-calc-sidecar");
}

#[test]
fn sidecar_search_order_starts_with_bundled_binaries() {
    assert_eq!(
        sidecar_search_order(),
        vec![
            SidecarLocation::ResourceBinaries,
            SidecarLocation::ResourceDir,
            SidecarLocation::ResourceParent,
            SidecarLocation::ResourceResourcesBinaries,
            SidecarLocation::CurrentDirBinaries,
            SidecarLocation::ExeDir,
        ]
    );
}

#[test]
fn first_existing_candidate() {
    assert_eq!(first_existing(&[false, true, true]), Some(1));
    assert_eq!(first_existing(&[true]), Some(0));
    assert_eq!(first_existing(&[false, false]), None);
    assert_eq!(first_existing(&[]), None);
}
