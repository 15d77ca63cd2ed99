use lname::entry::diagnostic_line;
use lname::text::to_text;
use lname::wildcard::compile;
use lname::{read_link_target, Entry, LinkError, LinkErrorKind, MatcherIO, PatternSyntaxError};

#[test]
fn resolver_yields_the_raw_target() {
    let entry = Entry {
        path: "a/link".to_string(),
        link: Ok(b"../does/not/exist".to_vec()),
    };
    let mut io = MatcherIO::new();
    assert_eq!(read_link_target(&entry, &mut io), Some(&b"../does/not/exist"[..]));
    assert!(io.diagnostics().is_empty());
}

#[test]
fn resolver_keeps_ill_formed_bytes() {
    let entry = Entry {
        path: "a/link".to_string(),
        link: Ok(vec![0x66, 0xff, 0x6f]),
    };
    let mut io = MatcherIO::new();
    assert_eq!(read_link_target(&entry, &mut io), Some(&[0x66u8, 0xff, 0x6f][..]));
}

#[test]
fn resolver_is_silent_on_non_links() {
    let entry = Entry {
        path: "a/file".to_string(),
        link: Err(LinkError {
            kind: LinkErrorKind::InvalidInput,
            detail: "Invalid argument (os error 22)".to_string(),
        }),
    };
    let mut io = MatcherIO::new();
    assert_eq!(read_link_target(&entry, &mut io), None);
    assert!(io.diagnostics().is_empty());
}

#[test]
fn resolver_reports_other_failures_and_goes_on() {
    let entry = Entry {
        path: "a/secret".to_string(),
        link: Err(LinkError {
            kind: LinkErrorKind::Other,
            detail: "Permission denied (os error 13)".to_string(),
        }),
    };
    let mut io = MatcherIO::new();
    assert_eq!(read_link_target(&entry, &mut io), None);
    assert_eq!(
        io.diagnostics(),
        &vec!["Error reading target of a/secret: Permission denied (os error 13)".to_string()]
    );
}

#[test]
fn diagnostic_line_has_path_then_detail() {
    assert_eq!(
        diagnostic_line("x/y", "boom"),
        "Error reading target of x/y: boom"
    );
    assert_eq!(diagnostic_line("", ""), "Error reading target of : ");
}

#[test]
fn new_sink_is_empty_and_report_appends() {
    let mut io = MatcherIO::new();
    assert!(io.diagnostics().is_empty());
    io.report("one".to_string());
    io.report("two".to_string());
    assert_eq!(io.diagnostics(), &vec!["one".to_string(), "two".to_string()]);
}

#[test]
fn to_text_decodes_and_replaces() {
    assert_eq!(to_text(b"abbbc"), "abbbc");
    assert_eq!(to_text("\u{e9}t\u{e9}".as_bytes()), "\u{e9}t\u{e9}");
    assert_eq!(to_text(b"a\xffb"), "a\u{fffd}b");
    assert_eq!(to_text(b""), "");
}

#[test]
fn compile_keeps_the_source_text() {
    let pattern = compile("ab?bc").unwrap();
    assert_eq!(pattern.as_str(), "ab?bc");
    assert!(pattern.matches("abbbc"));
}

#[test]
fn compile_maps_the_engine_error() {
    assert_eq!(
        compile("[abc").unwrap_err(),
        PatternSyntaxError { pos: 0, msg: "invalid range pattern" }
    );
}

#[test]
fn from_glob_takes_over_both_fields() {
    let err = glob::Pattern::new("x[").unwrap_err();
    let own = PatternSyntaxError::from_glob(err);
    assert_eq!(own.pos, 1);
    assert_eq!(own.msg, "invalid range pattern");
}
