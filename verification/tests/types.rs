use std::borrow::Cow;
use std::path::{Path, PathBuf};

use chrono::{TimeZone, Timelike};
use loth::types::{
    cow_to_string, text_read, AuthError, CedarContext, CedarContextBuilder, CedarValueRef,
    EvaluationContext, LothConfig, TextLoad, TextSource, Timestamp,
};

#[derive(Debug)]
struct DemoCtx<'a> {
    ok: bool,
    hour: i64,
    ip: &'a str,
}

impl<'a> CedarContext<'a> for DemoCtx<'a> {
    fn write_to(&self, out: &mut CedarContextBuilder<'a>) -> Result<(), AuthError> {
        out.insert_bool("ok", self.ok);
        out.insert_i64("hour", self.hour);
        out.insert_str("ip", self.ip);
        Ok(())
    }
}

#[test]
fn cedar_context_builder_collects_entries() -> Result<(), AuthError> {
    let ctx = DemoCtx {
        ok: true,
        hour: 9,
        ip: "203.0.113.10",
    };

    let mut b = CedarContextBuilder::with_capacity(3);
    ctx.write_to(&mut b)?;

    assert_eq!(b.entries.len(), 3);
    assert_eq!(b.entries[0].0, "ok");
    Ok(())
}

#[test]
fn builder_keeps_order_keys_and_values() {
    let mut b = CedarContextBuilder::with_capacity(0);
    b.insert_str("s", "x");
    b.insert_i64("i", i64::MIN);
    b.insert_bool("b", false);
    b.insert_bool("b", true);
    assert_eq!(b.entries.len(), 4);
    assert_eq!(b.entries[0].0, "s");
    assert!(matches!(b.entries[0].1, CedarValueRef::Str("x")));
    assert!(matches!(b.entries[1].1, CedarValueRef::I64(i64::MIN)));
    assert!(matches!(b.entries[2].1, CedarValueRef::Bool(false)));
    assert!(matches!(b.entries[3].1, CedarValueRef::Bool(true)));
}

#[test]
fn entry_size_is_the_stated_bound() {
    let entry = std::mem::size_of::<(&str, CedarValueRef<'_>)>();
    assert!(entry <= loth::types::ENTRY_BYTES);
}

#[test]
fn unit_context_writes_nothing() {
    let mut b = CedarContextBuilder::with_capacity(1);
    b.insert_bool("before", true);
    assert!(().write_to(&mut b).is_ok());
    assert_eq!(b.entries.len(), 1);
}

#[test]
fn timestamp_formats_as_rfc3339() {
    let noon = chrono::Utc.with_ymd_and_hms(2026, 5, 24, 12, 0, 0).unwrap();
    let t = Timestamp::from_unix(noon.timestamp(), 0).expect("in range");
    assert_eq!(t.to_rfc3339(), "2026-05-24T12:00:00+00:00");
    let half = Timestamp::from_unix(0, 500_000_000).expect("in range");
    assert_eq!(half.to_rfc3339(), "1970-01-01T00:00:00.500+00:00");
    let before = Timestamp::from_unix(-1, 0).expect("in range");
    assert_eq!(before.to_rfc3339(), "1969-12-31T23:59:59+00:00");
}

#[test]
fn any_second_may_be_a_leap_second() {
    let noon = chrono::Utc.with_ymd_and_hms(2026, 5, 24, 12, 0, 30).unwrap();
    for nanos in [0, 999_999_999, 1_000_000_000, 1_500_000_000, 1_999_999_999] {
        let moment = noon.with_nanosecond(nanos).expect("nanoseconds");
        let t = Timestamp::from_unix(moment.timestamp(), moment.timestamp_subsec_nanos());
        assert_eq!(t.expect("in range").to_rfc3339(), moment.to_rfc3339());
    }
    let t = Timestamp::from_unix(noon.timestamp(), 1_500_000_000).expect("in range");
    assert_eq!(t.to_rfc3339(), "2026-05-24T12:00:31.500+00:00");
}

#[test]
fn first_and_last_moment_can_be_written() {
    for moment in [chrono::DateTime::<chrono::Utc>::MIN_UTC, chrono::DateTime::<chrono::Utc>::MAX_UTC] {
        let t = Timestamp::from_unix(moment.timestamp(), moment.timestamp_subsec_nanos());
        assert_eq!(t.expect("in range").to_rfc3339(), moment.to_rfc3339());
    }
    let last = chrono::DateTime::<chrono::Utc>::MAX_UTC.timestamp();
    assert!(Timestamp::from_unix(last + 1, 0).is_none());
    assert_eq!(last, loth::types::LAST_SECOND);
    let first = chrono::DateTime::<chrono::Utc>::MIN_UTC.timestamp();
    assert!(Timestamp::from_unix(first - 1, 0).is_none());
    assert_eq!(first, loth::types::FIRST_SECOND);
    let leap = Timestamp::from_unix(last, 1_999_999_999).expect("in range");
    assert_eq!(leap.to_rfc3339(), "+262142-12-31T23:59:60.999999999+00:00");
}

#[test]
fn timestamp_out_of_range_is_none() {
    assert!(Timestamp::from_unix(i64::MAX, 0).is_none());
    assert!(Timestamp::from_unix(i64::MIN, 0).is_none());
    assert!(Timestamp::from_unix(0, 2_000_000_000).is_none());
}

#[test]
fn evaluation_context_clones() {
    let ctx = EvaluationContext {
        ip_address: "203.0.113.10".to_string(),
        timestamp: Timestamp::from_unix(0, 0).unwrap(),
        device_compliant: true,
    };
    let copy = ctx.clone();
    assert_eq!(copy.ip_address, "203.0.113.10");
    assert_eq!(copy.timestamp.to_rfc3339(), "1970-01-01T00:00:00+00:00");
    assert!(copy.device_compliant);
}

#[test]
fn inline_text_is_ready() {
    let borrowed = TextSource::from_inline("definition user {}");
    let owned = TextSource::from_inline(String::from("permit(principal, action, resource);"));
    match borrowed.load_to_string() {
        TextLoad::Ready(text) => assert_eq!(text, "definition user {}"),
        TextLoad::Read(_) => panic!("inline"),
    }
    match owned.clone().load_to_string() {
        TextLoad::Ready(text) => assert_eq!(text, "permit(principal, action, resource);"),
        TextLoad::Read(_) => panic!("inline"),
    }
    assert!(matches!(borrowed, TextSource::Inline(Cow::Borrowed(_))));
    assert!(matches!(owned, TextSource::Inline(Cow::Owned(_))));
}

#[test]
fn path_text_is_to_be_read() {
    let source = TextSource::from_path("examples/policies/intel.cedar");
    for s in [source.clone(), source, TextSource::from_path(PathBuf::from("examples/policies/intel.cedar"))] {
        match s.load_to_string() {
            TextLoad::Read(path) => {
                assert_eq!(path.as_path(), Path::new("examples/policies/intel.cedar"))
            }
            TextLoad::Ready(_) => panic!("path"),
        }
    }
}

#[test]
fn read_outcome_becomes_text_or_io_error() {
    assert_eq!(text_read("a.zed", Ok("x".to_string())).unwrap(), "x");
    let e = text_read("a.zed", Err("not found".to_string())).unwrap_err();
    assert!(matches!(e, AuthError::Io { operation: "read_to_string", .. }));
    assert_eq!(e.to_text(), "I/O error while read_to_string (a.zed): not found");
}

#[test]
fn config_starts_without_schema_and_policies() {
    let cfg = LothConfig::new("http://127.0.0.1:50051", String::from("token"));
    assert_eq!(cfg.spicedb_endpoint, "http://127.0.0.1:50051");
    assert_eq!(cfg.spicedb_token, "token");
    assert!(cfg.zed_schema.is_none());
    assert!(cfg.cedar_policies.is_none());
}

#[test]
fn config_setters_change_one_field() {
    let cfg = LothConfig::new("e", "t")
        .with_zed_schema(TextSource::from_inline("z"))
        .with_cedar_policies(TextSource::from_path("p"))
        .clone();
    assert_eq!(cow_to_string(&cfg.spicedb_endpoint), "e");
    assert_eq!(cow_to_string(&cfg.spicedb_token), "t");
    assert!(matches!(&cfg.zed_schema, Some(TextSource::Inline(z)) if z == "z"));
    assert!(matches!(&cfg.cedar_policies, Some(TextSource::Path(p)) if p == Path::new("p")));
}

#[test]
fn every_error_describes_itself() {
    let s = |t: &str| t.to_string();
    assert_eq!(
        AuthError::spicedb_transport("connect", "http://x", s("refused")).to_text(),
        "SpiceDB transport error while connect (endpoint=http://x)"
    );
    assert_eq!(
        AuthError::spicedb_status("read_schema", s("unavailable")).to_text(),
        "SpiceDB gRPC status while read_schema: unavailable"
    );
    assert_eq!(
        AuthError::spicedb_protocol("ensure_schema", s("mismatch")).to_text(),
        "SpiceDB protocol/validation error while ensure_schema: mismatch"
    );
    assert_eq!(
        AuthError::cedar_validation(s("bad")).to_text(),
        "Cedar validation/parsing error: bad"
    );
    assert_eq!(AuthError::cedar_eval(s("bad")).to_text(), "Cedar evaluation error: bad");
    assert_eq!(AuthError::validation(s("bad")).to_text(), "Invalid input: bad");
    assert_eq!(
        AuthError::io("read_to_string", "p", s("gone")).to_text(),
        "I/O error while read_to_string (p): gone"
    );
}
