use fskit_rs::info::{parse_u16, parse_u16_decimal, Error as InfoError, Info, PlistValue};
use fskit_rs::paths::{appex_path, application_path, info_plist_path, join_path};
use fskit_rs::text::{chars_of, join_with_spaces, split_lines, str_contains, str_eq, string_of, trim_chars};

fn s(x: &str) -> String {
    x.to_string()
}

fn dict(entries: Vec<(&str, PlistValue)>) -> PlistValue {
    PlistValue::Dictionary(entries.into_iter().map(|(k, v)| (k.to_string(), v)).collect())
}

fn trimmed(x: &str) -> String {
    string_of(&trim_chars(&chars_of(x)))
}

#[test]
fn trim_removes_unicode_white_space_at_both_ends() {
    assert_eq!(trimmed("  /dev/disk4 \n"), "/dev/disk4");
    assert_eq!(trimmed("\u{3000}\u{a0}x y\t\r"), "x y");
    assert_eq!(trimmed(" \n\t "), "");
    assert_eq!(trimmed(""), "");
    assert_eq!(trimmed("a"), "a");
}

#[test]
fn lines_split_like_str_lines() {
    let cases = ["", "a", "a\n", "\n", "a\r\nb", "a\rb\n\nc", "x\r"];
    for c in cases {
        let got: Vec<String> = split_lines(&chars_of(c)).iter().map(|l| string_of(l)).collect();
        let want: Vec<String> = c.lines().map(|l| l.to_string()).collect();
        assert_eq!(got, want, "input {:?}", c);
    }
}

#[test]
fn contains_and_equality() {
    assert!(str_contains("mount: Resource busy", "Resource busy"));
    assert!(!str_contains("Resource bus", "Resource busy"));
    assert!(str_contains("abc", ""));
    assert!(str_eq("abc", "abc"));
    assert!(!str_eq("abc", "abd"));
    assert!(!str_eq("abc", "ab"));
}

#[test]
fn join_with_spaces_matches_slice_join() {
    let v = vec![s("-m"), s("-i"), s("id"), s("--raw")];
    assert_eq!(string_of(&join_with_spaces(&v)), "-m -i id --raw");
    assert_eq!(string_of(&join_with_spaces(&vec![])), "");
    assert_eq!(string_of(&join_with_spaces(&vec![s("x")])), "x");
}

#[test]
fn paths_join_like_path_join() {
    assert_eq!(join_path("/Applications", "My.app"), "/Applications/My.app");
    assert_eq!(join_path("/Applications/", "My.app"), "/Applications/My.app");
    assert_eq!(join_path("", "My.app"), "My.app");
    assert_eq!(join_path("/Applications", "/opt/My.app"), "/opt/My.app");
    assert_eq!(application_path("My.app"), "/Applications/My.app");
    assert_eq!(appex_path("/Applications/My.app"), "/Applications/My.app/Contents/Extensions/FSKitExt.appex");
    assert_eq!(info_plist_path("/a/b.appex"), "/a/b.appex/Contents/Info.plist");
    for (b, r) in [("/x", "y"), ("x/", "y"), ("", ""), ("/", "a/b")] {
        let want = std::path::Path::new(b).join(r).to_string_lossy().into_owned();
        assert_eq!(join_path(b, r), want);
    }
}

#[test]
fn parse_u16_decimal_like_str_parse() {
    for t in ["0", "8080", "65535", "65536", "+80", "+", "", "-1", "-0", "0080", "12a", " 1", "99999999999", "\u{661}"] {
        assert_eq!(parse_u16_decimal(t), t.parse::<u16>().ok(), "input {:?}", t);
    }
}

#[test]
fn port_text_round_trip_on_examples() {
    for p in [0u16, 7, 10, 8080, 65535] {
        assert_eq!(parse_u16_decimal(&p.to_string()), Some(p));
        assert_eq!(parse_u16_decimal(&format!("+{}", p)), Some(p));
    }
}

#[test]
fn parse_u16_reads_integers_and_strings() {
    assert_eq!(parse_u16(&PlistValue::Integer(8080)), Some(8080));
    assert_eq!(parse_u16(&PlistValue::Integer(0)), Some(0));
    assert_eq!(parse_u16(&PlistValue::Integer(65535)), Some(65535));
    assert_eq!(parse_u16(&PlistValue::Integer(65536)), None);
    assert_eq!(parse_u16(&PlistValue::Integer(-1)), None);
    assert_eq!(parse_u16(&PlistValue::String(s("443"))), Some(443));
    assert_eq!(parse_u16(&PlistValue::String(s("x"))), None);
    assert_eq!(parse_u16(&PlistValue::Other), None);
}

fn sample_info() -> Info {
    let root = dict(vec![
        ("CFBundleIdentifier", PlistValue::String(s("network.debox.fskitbridge.fskitext"))),
        ("Configuration", dict(vec![("serverPort", PlistValue::String(s("35367")))])),
        ("EXAppExtensionAttributes", dict(vec![("FSFileSystemType", PlistValue::String(s("fskitbridge")))])),
    ]);
    Info::new(root).unwrap()
}

#[test]
fn info_reads_the_three_values() {
    let info = sample_info();
    assert_eq!(info.bundle_id(), Ok(s("network.debox.fskitbridge.fskitext")));
    assert_eq!(info.server_port(), Ok(35367));
    assert_eq!(info.fs_type(), Ok(s("fskitbridge")));
}

#[test]
fn info_root_must_be_a_dictionary() {
    assert!(matches!(Info::new(PlistValue::Other), Err(InfoError::Invalid)));
    assert!(matches!(Info::new(PlistValue::String(s("x"))), Err(InfoError::Invalid)));
}

#[test]
fn info_rejects_missing_empty_and_mistyped_values() {
    let info = Info::new(dict(vec![
        ("CFBundleIdentifier", PlistValue::String(s(""))),
        ("Configuration", PlistValue::String(s("8080"))),
        ("EXAppExtensionAttributes", dict(vec![("FSFileSystemType", PlistValue::Integer(3))])),
    ]))
    .unwrap();
    assert_eq!(info.bundle_id(), Err(InfoError::Invalid));
    assert_eq!(info.server_port(), Err(InfoError::Invalid));
    assert_eq!(info.fs_type(), Err(InfoError::Invalid));
    let empty = Info::new(dict(vec![])).unwrap();
    assert_eq!(empty.bundle_id(), Err(InfoError::Invalid));
    assert_eq!(empty.server_port(), Err(InfoError::Invalid));
    assert_eq!(empty.fs_type(), Err(InfoError::Invalid));
    let big = Info::new(dict(vec![("Configuration", dict(vec![("serverPort", PlistValue::Integer(70000))]))])).unwrap();
    assert_eq!(big.server_port(), Err(InfoError::Invalid));
}

#[test]
fn info_lookup_takes_the_first_entry() {
    let info = Info::new(dict(vec![
        ("CFBundleIdentifier", PlistValue::String(s("first"))),
        ("CFBundleIdentifier", PlistValue::String(s("second"))),
    ]))
    .unwrap();
    assert_eq!(info.bundle_id(), Ok(s("first")));
}
