use loth::spicedb::schema::{normalize_schema, SchemaAction, SchemaManager, SchemaMode};
use loth::types::AuthError;

fn reference(s: &str) -> String {
    s.lines()
        .map(str::trim_end)
        .filter(|l| !l.is_empty())
        .collect::<Vec<_>>()
        .join("\n")
}

#[test]
fn normalize_schema_removes_empty_lines_and_trailing_ws() {
    let a = "definition user {}\n\n  \n";
    let b = "definition user {}\n";
    assert_eq!(normalize_schema(a), normalize_schema(b));
}

#[test]
fn normal_form_is_exact() {
    assert_eq!(normalize_schema("  a \t\r\n\n\r\n b\r"), "  a\n b");
    assert_eq!(normalize_schema(""), "");
    assert_eq!(normalize_schema("\n\n"), "");
    assert_eq!(normalize_schema("x"), "x");
    assert_eq!(normalize_schema("a\rb"), "a\rb");
}

#[test]
fn normal_form_agrees_with_std() {
    let samples = [
        "", "\n", "a", "a\n", "\na", "a\n\nb", "a \n b\t\n", "a\r\nb\r\n", "\u{3000}\nq\u{a0}\n",
        "definition user {}\n\ndefinition doc {\n  relation reader: user\n}\n", "a\u{b}b\u{c}\n",
        "\u{feff}a\u{feff}\n", "a\u{200b}", " \t", "e\u{2028}f\u{2028}",
    ];
    for s in samples {
        assert_eq!(normalize_schema(s), reference(s), "{s:?}");
    }
}

#[test]
fn white_space_is_that_of_std() {
    for c in '\0'..=char::MAX {
        let text = format!("x{c}");
        let trimmed = normalize_schema(&text) == "x";
        assert_eq!(trimmed, c.is_whitespace(), "{c:?}");
    }
}

#[test]
fn normalizing_twice_changes_nothing() {
    let once = normalize_schema("a  \n\n b \n");
    assert_eq!(normalize_schema(&once), once);
}

#[test]
fn matching_schema_needs_nothing() {
    for mode in [SchemaMode::VerifyOnly, SchemaMode::ApplyIfDifferent] {
        let action = SchemaManager::ensure_schema(Ok("a \n\nb".to_string()), "a\nb\n", mode);
        assert!(matches!(action, Ok(SchemaAction::UpToDate)));
    }
}

#[test]
fn different_schema_is_refused_or_written() {
    let e = SchemaManager::ensure_schema(Ok("a".to_string()), "b", SchemaMode::VerifyOnly)
        .unwrap_err();
    assert_eq!(
        e.to_text(),
        "SpiceDB protocol/validation error while ensure_schema: spicedb schema mismatch (VerifyOnly)"
    );
    match SchemaManager::ensure_schema(Ok("a".to_string()), "b \n", SchemaMode::ApplyIfDifferent) {
        Ok(SchemaAction::Write(request)) => assert_eq!(request.schema, "b \n"),
        other => panic!("{other:?}"),
    }
}

#[test]
fn indentation_and_order_count() {
    let read = |t: &str| Ok(t.to_string());
    assert!(SchemaManager::ensure_schema(read(" a"), "a", SchemaMode::VerifyOnly).is_err());
    assert!(SchemaManager::ensure_schema(read("a\nb"), "b\na", SchemaMode::VerifyOnly).is_err());
}

#[test]
fn unreadable_schema_counts_as_empty() {
    let failed = || SchemaManager::read_schema_reply(Err("not found".to_string()));
    assert!(matches!(
        SchemaManager::ensure_schema(failed(), "  \n", SchemaMode::VerifyOnly),
        Ok(SchemaAction::UpToDate)
    ));
    assert!(SchemaManager::ensure_schema(failed(), "a", SchemaMode::VerifyOnly).is_err());
    assert!(matches!(
        SchemaManager::ensure_schema(failed(), "a", SchemaMode::ApplyIfDifferent),
        Ok(SchemaAction::Write(_))
    ));
}

#[test]
fn schema_replies() {
    assert_eq!(SchemaManager::read_schema_reply(Ok("z".to_string())).unwrap(), "z");
    let e = SchemaManager::read_schema_reply(Err("down".to_string())).unwrap_err();
    assert!(matches!(e, AuthError::SpiceDbStatus { operation: "read_schema", .. }));
    assert!(SchemaManager::write_schema_reply(Ok(())).is_ok());
    let e = SchemaManager::write_schema_reply(Err("down".to_string())).unwrap_err();
    assert_eq!(e.to_text(), "SpiceDB gRPC status while write_schema: down");
    assert_eq!(SchemaManager::write_schema("text").schema, "text");
    let _ = SchemaManager::read_schema();
}
