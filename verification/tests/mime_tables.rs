use unsafe_space::mime::MimeTypes;

fn table(text: &str) -> MimeTypes {
    MimeTypes::from_text(text).ok().expect("reading a table never fails")
}

fn lookup(m: &MimeTypes, ext: &str) -> Option<String> {
    m.mimetype(ext).cloned()
}

#[test]
fn reads_types_and_extensions() {
    let m = table("text/html html htm\napplication/json json\ntext/plain txt\n");
    assert_eq!(lookup(&m, "html").as_deref(), Some("text/html"));
    assert_eq!(lookup(&m, "htm").as_deref(), Some("text/html"));
    assert_eq!(lookup(&m, "json").as_deref(), Some("application/json"));
    assert_eq!(lookup(&m, "txt").as_deref(), Some("text/plain"));
    assert_eq!(lookup(&m, "png"), None);
    assert_eq!(
        m.extensions("text/html").cloned(),
        Some(vec!["html".to_string(), "htm".to_string()])
    );
    assert_eq!(m.extensions("image/png"), None);
}

#[test]
fn comments_and_blank_lines_are_skipped() {
    let m = table("# text/x-comment cmt\n   # indented comment xyz\n\n   \t \ntext/css css\n#\n");
    assert_eq!(lookup(&m, "cmt"), None);
    assert_eq!(lookup(&m, "xyz"), None);
    assert_eq!(m.extensions("#"), None);
    assert_eq!(lookup(&m, "css").as_deref(), Some("text/css"));
}

#[test]
fn later_lines_win() {
    let m = table("a/b x y\nc/d x\na/b z");
    assert_eq!(lookup(&m, "x").as_deref(), Some("c/d"));
    assert_eq!(lookup(&m, "y").as_deref(), Some("a/b"));
    assert_eq!(lookup(&m, "z").as_deref(), Some("a/b"));
    assert_eq!(m.extensions("a/b").cloned(), Some(vec!["z".to_string()]));
    assert_eq!(m.extensions("c/d").cloned(), Some(vec!["x".to_string()]));
}

#[test]
fn type_without_extensions_is_listed_empty() {
    let m = table("application/x-empty\n");
    assert_eq!(m.extensions("application/x-empty").cloned(), Some(Vec::<String>::new()));
}

#[test]
fn whitespace_handling() {
    // tabs and several spaces separate words; CR LF line ends are accepted
    let m = table("text/html\t\thtml   shtml\r\ntext/css css\r\n");
    assert_eq!(lookup(&m, "shtml").as_deref(), Some("text/html"));
    assert_eq!(lookup(&m, "css").as_deref(), Some("text/css"));
    assert_eq!(lookup(&m, "css\r"), None);
    // a leading no-break space is trimmed, but one between words does not split them
    let m = table("\u{a0}text/x-a a\ntext/x-b\u{a0}b\n");
    assert_eq!(lookup(&m, "a").as_deref(), Some("text/x-a"));
    assert_eq!(lookup(&m, "b"), None);
    assert_eq!(m.extensions("text/x-b\u{a0}b").cloned(), Some(Vec::<String>::new()));
    // a comment sign after leading unicode whitespace still marks a comment
    let m = table("\u{2003}# text/x-c c\n");
    assert_eq!(lookup(&m, "c"), None);
}

#[test]
fn empty_text_gives_empty_tables() {
    let m = table("");
    assert_eq!(lookup(&m, ""), None);
    assert_eq!(m.extensions(""), None);
}

#[test]
fn non_ascii_words() {
    let m = table("text/ü ö äää\n");
    assert_eq!(lookup(&m, "ö").as_deref(), Some("text/ü"));
    assert_eq!(lookup(&m, "äää").as_deref(), Some("text/ü"));
}

#[test]
fn blank_and_spaced_keys_never_match() {
    let m = table("text/a a b\n\na b c\n");
    assert_eq!(lookup(&m, ""), None);
    assert_eq!(lookup(&m, "a b"), None);
    assert_eq!(m.extensions(""), None);
    assert_eq!(m.extensions("text/a a"), None);
}

#[test]
fn appended_text_overrides_entry_by_entry() {
    let a = "text/a x y\ntext/b z";
    let b = "text/c y\ntext/b w";
    let m = table(&format!("{}\n{}", a, b));
    assert_eq!(lookup(&m, "x").as_deref(), Some("text/a"));
    assert_eq!(lookup(&m, "y").as_deref(), Some("text/c"));
    assert_eq!(lookup(&m, "z").as_deref(), Some("text/b"));
    assert_eq!(lookup(&m, "w").as_deref(), Some("text/b"));
    assert_eq!(m.extensions("text/b").cloned(), Some(vec!["w".to_string()]));
    assert_eq!(m.extensions("text/a").cloned(), Some(vec!["x".to_string(), "y".to_string()]));
    assert_eq!(m.extensions("text/c").cloned(), Some(vec!["y".to_string()]));
}
