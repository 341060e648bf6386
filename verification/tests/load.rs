use easy_envar::{Envar, EnvarError, IntWidth, LoadedEnvar};

fn text(s: &str) -> Option<String> {
    Some(s.to_string())
}

fn bad_bool(name: &str, raw: &str) -> EnvarError {
    EnvarError::InvalidBoolValue { name: name.to_string(), raw: raw.to_string() }
}

fn bad_int(name: &str, raw: &str, width: IntWidth) -> EnvarError {
    EnvarError::InvalidIntegerValue { name: name.to_string(), raw: raw.to_string(), width }
}

#[test]
fn string_is_loaded_unchanged() {
    let texts =
        ["localhost", "", "  padded  ", "true", "65536", "a=b", "caf\u{e9} \u{1f980}", "line\nbreak"];
    for v in texts {
        assert_eq!(
            Envar::String("HOST").load(text(v)),
            Ok(LoadedEnvar::String("HOST", v.to_string()))
        );
    }
}

#[test]
fn bool_true_and_false() {
    assert_eq!(Envar::Bool("SECURE").load(text("true")), Ok(LoadedEnvar::Bool("SECURE", true)));
    assert_eq!(Envar::Bool("SECURE").load(text("false")), Ok(LoadedEnvar::Bool("SECURE", false)));
}

#[test]
fn bool_rejects_every_other_text() {
    let texts = [
        "True", "1", "", "TRUE", "False", "0", "yes", " true", "true ", "tru", "truee", "fals", "t",
        "true\n",
    ];
    for v in texts {
        assert_eq!(Envar::Bool("SECURE").load(text(v)), Err(bad_bool("SECURE", v)));
    }
}

#[test]
fn u16_bounds() {
    assert_eq!(Envar::U16("PORT").load(text("0")), Ok(LoadedEnvar::U16("PORT", 0)));
    assert_eq!(Envar::U16("PORT").load(text("65535")), Ok(LoadedEnvar::U16("PORT", 65535)));
    assert_eq!(
        Envar::U16("PORT").load(text("65536")),
        Err(bad_int("PORT", "65536", IntWidth::U16))
    );
    assert_eq!(Envar::U16("PORT").load(text("-1")), Err(bad_int("PORT", "-1", IntWidth::U16)));
    assert_eq!(Envar::U16("PORT").load(text("abc")), Err(bad_int("PORT", "abc", IntWidth::U16)));
}

#[test]
fn u32_bounds() {
    assert_eq!(Envar::U32("DATA").load(text("0")), Ok(LoadedEnvar::U32("DATA", 0)));
    assert_eq!(
        Envar::U32("DATA").load(text("4294967295")),
        Ok(LoadedEnvar::U32("DATA", 4294967295))
    );
    assert_eq!(
        Envar::U32("DATA").load(text("4294967296")),
        Err(bad_int("DATA", "4294967296", IntWidth::U32))
    );
    assert_eq!(Envar::U32("DATA").load(text("65536")), Ok(LoadedEnvar::U32("DATA", 65536)));
    assert_eq!(Envar::U32("DATA").load(text("-1")), Err(bad_int("DATA", "-1", IntWidth::U32)));
}

#[test]
fn missing_variable_whatever_the_kind() {
    let missing = || EnvarError::MissingVariable { name: "ABSENT".to_string() };
    assert_eq!(Envar::Bool("ABSENT").load(None), Err(missing()));
    assert_eq!(Envar::String("ABSENT").load(None), Err(missing()));
    assert_eq!(Envar::U16("ABSENT").load(None), Err(missing()));
    assert_eq!(Envar::U32("ABSENT").load(None), Err(missing()));
}

#[test]
fn numeral_may_have_a_plus_sign_and_leading_zeros() {
    assert_eq!(Envar::U16("N").load(text("+5")), Ok(LoadedEnvar::U16("N", 5)));
    assert_eq!(Envar::U16("N").load(text("007")), Ok(LoadedEnvar::U16("N", 7)));
    assert_eq!(Envar::U16("N").load(text("+00065535")), Ok(LoadedEnvar::U16("N", 65535)));
    assert_eq!(
        Envar::U16("N").load(text("0000000000000000000000000")),
        Ok(LoadedEnvar::U16("N", 0))
    );
    assert_eq!(
        Envar::U32("N").load(text("000000000000000000004294967295")),
        Ok(LoadedEnvar::U32("N", 4294967295))
    );
}

#[test]
fn numeral_rejects_what_is_not_digits() {
    for v in [
        "", "+", "-", "++1", "+-1", "-0", "1+", "1_000", " 1", "1 ", "1.0", "0x10", "1e3", "12a",
        "\u{663}", "1\u{663}", "\u{ff11}", "99999999999999999999999999",
    ] {
        assert_eq!(Envar::U16("N").load(text(v)), Err(bad_int("N", v, IntWidth::U16)));
        assert_eq!(Envar::U32("N").load(text(v)), Err(bad_int("N", v, IntWidth::U32)));
    }
}

#[test]
fn u16_agrees_with_the_standard_parser() {
    for n in 0u32..=70000 {
        let raw = n.to_string();
        let got = Envar::U16("N").load(Some(raw.clone()));
        match raw.parse::<u16>() {
            Ok(v) => assert_eq!(got, Ok(LoadedEnvar::U16("N", v))),
            Err(_) => assert_eq!(got, Err(bad_int("N", &raw, IntWidth::U16))),
        }
    }
}

#[test]
fn u32_agrees_with_the_standard_parser() {
    let mut n: u64 = 0;
    while n <= 5_000_000_000 {
        let texts =
            [n.to_string(), format!("+{}", n), format!("0{}", n), format!("-{}", n), format!("{} ", n)];
        for raw in texts {
            let got = Envar::U32("N").load(Some(raw.clone()));
            match raw.parse::<u32>() {
                Ok(v) => assert_eq!(got, Ok(LoadedEnvar::U32("N", v))),
                Err(_) => assert_eq!(got, Err(bad_int("N", &raw, IntWidth::U32))),
            }
        }
        n = n * 3 + 1;
    }
    for n in 4294967200u64..=4294967400 {
        let raw = n.to_string();
        let got = Envar::U32("N").load(Some(raw.clone()));
        match raw.parse::<u32>() {
            Ok(v) => assert_eq!(got, Ok(LoadedEnvar::U32("N", v))),
            Err(_) => assert_eq!(got, Err(bad_int("N", &raw, IntWidth::U32))),
        }
    }
}

#[test]
fn odd_texts_agree_with_the_standard_parsers() {
    let texts = [
        "", "+", "+0", "-0", "00", "+00", "true", "false", "True", " 7", "7 ", "\u{0}", "9\u{0}",
        "+\u{e9}",
    ];
    for raw in texts {
        let got16 = Envar::U16("N").load(text(raw));
        assert_eq!(got16.is_ok(), raw.parse::<u16>().is_ok());
        if let Ok(v) = raw.parse::<u16>() {
            assert_eq!(got16, Ok(LoadedEnvar::U16("N", v)));
        }
        let got32 = Envar::U32("N").load(text(raw));
        assert_eq!(got32.is_ok(), raw.parse::<u32>().is_ok());
        if let Ok(v) = raw.parse::<u32>() {
            assert_eq!(got32, Ok(LoadedEnvar::U32("N", v)));
        }
        let got_bool = Envar::Bool("N").load(text(raw));
        assert_eq!(got_bool.is_ok(), raw.parse::<bool>().is_ok());
        if let Ok(v) = raw.parse::<bool>() {
            assert_eq!(got_bool, Ok(LoadedEnvar::Bool("N", v)));
        }
    }
}

#[test]
fn loaded_value_keeps_the_declared_name() {
    assert_eq!(Envar::Bool("A").name(), "A");
    assert_eq!(Envar::String("B_C").name(), "B_C");
    assert_eq!(Envar::U16("").name(), "");
    assert_eq!(Envar::U32("caf\u{e9}").name(), "caf\u{e9}");
    assert_eq!(Envar::U32("PORT").load(text("8080")).unwrap().name(), "PORT");
    assert_eq!(Envar::String("HOST").load(text("h")).unwrap().name(), "HOST");
    assert_eq!(Envar::Bool("SECURE").load(text("true")).unwrap().name(), "SECURE");
    assert_eq!(Envar::U16("N").load(text("1")).unwrap().name(), "N");
}
