use tap_parser::line::{classify, CharClass, LineKind};

fn test_line(failed_prefix: bool, name: Option<&str>, directive: Option<&str>) -> LineKind {
    LineKind::Test {
        failed_prefix,
        name: name.map(|n| n.to_string()),
        directive: directive.map(|d| d.to_string()),
    }
}

fn diagnostic(message: &str) -> LineKind {
    LineKind::Diagnostic {
        message: message.to_string(),
    }
}

#[test]
fn plan_lines_declare_their_second_number() {
    assert_eq!(classify("1..14"), LineKind::Plan { planned_count: 14 });
    assert_eq!(classify("1..0"), LineKind::Plan { planned_count: 0 });
    assert_eq!(classify("0..1"), LineKind::Plan { planned_count: 1 });
    assert_eq!(classify("27..3"), LineKind::Plan { planned_count: 3 });
    assert_eq!(classify("1..0005"), LineKind::Plan { planned_count: 5 });
    assert_eq!(
        classify("1..00000000000000000000000000000012"),
        LineKind::Plan { planned_count: 12 }
    );
}

#[test]
fn plan_count_is_bounded_by_u64() {
    assert_eq!(
        classify("1..18446744073709551615"),
        LineKind::Plan {
            planned_count: u64::MAX
        }
    );
    assert_eq!(classify("1..18446744073709551616"), LineKind::Unrecognized);
    assert_eq!(classify("1..99999999999999999999999"), LineKind::Unrecognized);
    assert_eq!(
        classify("99999999999999999999999..1"),
        LineKind::Plan { planned_count: 1 }
    );
}

#[test]
fn malformed_plan_lines_are_unrecognized() {
    for line in [
        "1..", "..5", "..", "1.5", "1...5", "1..5 ", " 1..5", "1..5x", "a..5", "1..-5", "1.. 5",
        "1 ..5", "1ab5", "1..5\n", "1..5..6", "15", "1..٣",
    ] {
        assert_eq!(classify(line), LineKind::Unrecognized, "{:?}", line);
    }
}

#[test]
fn diagnostic_lines_keep_their_message() {
    assert_eq!(classify("# hello"), diagnostic("hello"));
    assert_eq!(classify("# "), diagnostic(""));
    assert_eq!(classify("#   indented"), diagnostic("  indented"));
    assert_eq!(classify("# ok 1"), diagnostic("ok 1"));
    assert_eq!(classify("# 1..5"), diagnostic("1..5"));
    assert_eq!(classify("# a # b"), diagnostic("a # b"));
    assert_eq!(classify("# first\nsecond"), diagnostic("first"));
    assert_eq!(classify("# caf\u{e9} \u{2713}"), diagnostic("caf\u{e9} \u{2713}"));
}

#[test]
fn lines_without_hash_and_space_are_no_diagnostics() {
    for line in ["#", "#x", "#\t", " # x", "## x"] {
        assert_eq!(classify(line), LineKind::Unrecognized, "{:?}", line);
    }
}

#[test]
fn test_lines_begin_with_ok_or_not_ok() {
    assert_eq!(classify("ok"), test_line(false, None, None));
    assert_eq!(classify("not ok"), test_line(true, None, None));
    assert_eq!(classify("okay"), test_line(false, Some("ay"), None));
    assert_eq!(classify("not okay"), test_line(true, Some("ay"), None));
    for line in ["", "o", "no", "not", "not ", "not o", "notok", "not  ok", "Ok", "OK", " ok", "nok"] {
        assert_eq!(classify(line), LineKind::Unrecognized, "{:?}", line);
    }
}

#[test]
fn name_runs_from_the_number_to_the_first_hash() {
    assert_eq!(classify("ok 1 - a"), test_line(false, Some("- a"), None));
    assert_eq!(classify("ok - a"), test_line(false, Some("- a"), None));
    assert_eq!(classify("ok 12abc"), test_line(false, Some("abc"), None));
    assert_eq!(classify("ok12"), test_line(false, None, None));
    assert_eq!(classify("ok  5"), test_line(false, Some("5"), None));
    assert_eq!(classify("ok 5  x"), test_line(false, Some(" x"), None));
    assert_eq!(classify("ok   "), test_line(false, Some(" "), None));
    assert_eq!(classify("ok  "), test_line(false, None, None));
    assert_eq!(
        classify("not ok 3 - Test something broken"),
        test_line(true, Some("- Test something broken"), None)
    );
    assert_eq!(
        classify("ok 1 two\nlines"),
        test_line(false, Some("two\nlines"), None)
    );
    assert_eq!(classify("ok 7 caf\u{e9}"), test_line(false, Some("caf\u{e9}"), None));
}

#[test]
fn directive_is_the_word_after_hash_and_space() {
    assert_eq!(
        classify("ok 1 this is a skipped test # SKIP no db available"),
        test_line(false, Some("this is a skipped test "), Some("SKIP"))
    );
    assert_eq!(
        classify("ok this is a skipped test # TODO not finished"),
        test_line(false, Some("this is a skipped test "), Some("TODO"))
    );
    assert_eq!(classify("ok # SKIP"), test_line(false, None, Some("SKIP")));
    assert_eq!(classify("ok 3 # TODO"), test_line(false, None, Some("TODO")));
    assert_eq!(classify("ok # SKIP-ped"), test_line(false, None, Some("SKIP")));
    assert_eq!(classify("ok # SKIPPED"), test_line(false, None, Some("SKIPPED")));
    assert_eq!(classify("ok # skip_2x"), test_line(false, None, Some("skip_2x")));
    assert_eq!(classify("ok a #SKIP"), test_line(false, Some("a "), None));
    assert_eq!(classify("ok a # "), test_line(false, Some("a "), None));
    assert_eq!(classify("ok a #"), test_line(false, Some("a "), None));
    assert_eq!(classify("ok a #  SKIP"), test_line(false, Some("a "), None));
    assert_eq!(classify("ok a # -SKIP"), test_line(false, Some("a "), None));
    assert_eq!(classify("ok a #b # SKIP"), test_line(false, Some("a "), None));
}

#[test]
fn digits_and_words_are_ascii() {
    assert_eq!(
        classify("ok \u{663} name"),
        test_line(false, Some("\u{663} name"), None)
    );
    assert_eq!(classify("ok # SKIP\u{e9}"), test_line(false, None, Some("SKIP")));
    assert_eq!(classify("ok # \u{e9}"), test_line(false, None, None));
}

#[test]
fn character_classes_hold_what_they_name() {
    for c in ['0', '5', '9'] {
        assert!(CharClass::Digit.contains(c));
        assert!(CharClass::Word.contains(c));
    }
    for c in ['a', 'z', 'A', 'Z', '_'] {
        assert!(!CharClass::Digit.contains(c));
        assert!(CharClass::Word.contains(c));
    }
    for c in ['/', ':', '@', '[', '`', '{', ' ', '-', '#', '\n', '\u{e9}', '\u{663}'] {
        assert!(!CharClass::Digit.contains(c));
        assert!(!CharClass::Word.contains(c));
    }
    assert!(!CharClass::NotHash.contains('#'));
    assert!(CharClass::NotHash.contains('\n'));
    assert!(CharClass::NotNewline.contains('#'));
    assert!(!CharClass::NotNewline.contains('\n'));
    assert!(CharClass::NotNewline.contains('\r'));
}
