use dahara_fuel_calc::text::{eq_ignore_ascii_case, is_white_space, parse_i32, str_eq, trim_white_space};

#[test]
fn white_space_matches_std_for_every_char() {
    for code in 0u32..=0x10FFFF {
        if let Some(c) = char::from_u32(code) {
            assert_eq!(is_white_space(c), c.is_whitespace(), "U+{:04X}", code);
        }
    }
}

const SAMPLES: &[&str] = &[
    "",
    " ",
    "0",
    "20",
    " 20 ",
    "\t20\n",
    "+7",
    "-7",
    "+",
    "-",
    "+-1",
    "-+1",
    "--1",
    "007",
    "-0",
    "2147483647",
    "2147483648",
    "-2147483648",
    "-2147483649",
    "99999999999999999999",
    "1e3",
    "12.5",
    "1 2",
    "unlimited",
    " Unlimited ",
    "UNLIMITED",
    "unlimite",
    "20 laps",
    "\u{a0}15\u{3000}",
    "\u{2003}9\u{85}",
    "٣",
    "ｕnlimited",
    "20.00 sec",
];

#[test]
fn trim_matches_std() {
    for s in SAMPLES {
        assert_eq!(trim_white_space(s), s.trim(), "{:?}", s);
    }
}

#[test]
fn parse_i32_matches_std() {
    for s in SAMPLES {
        assert_eq!(parse_i32(s), s.parse::<i32>().ok(), "{:?}", s);
    }
    for n in [i32::MIN, -1000, -1, 0, 1, 42, 1000, i32::MAX] {
        assert_eq!(parse_i32(&n.to_string()), Some(n));
    }
}

#[test]
fn eq_ignore_ascii_case_matches_std() {
    for a in SAMPLES {
        for b in SAMPLES {
            assert_eq!(eq_ignore_ascii_case(a, b), a.eq_ignore_ascii_case(b), "{:?} {:?}", a, b);
        }
    }
    assert!(eq_ignore_ascii_case("UnLiMiTeD", "unlimited"));
    assert!(!eq_ignore_ascii_case("ÄB", "äb"));
}

#[test]
fn str_eq_matches_std() {
    for a in SAMPLES {
        for b in SAMPLES {
            assert_eq!(str_eq(a, b), a == b);
        }
    }
}
