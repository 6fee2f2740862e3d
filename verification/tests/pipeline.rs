use import_endpoint::format::{parse_accept, Encoding, Format};
use import_endpoint::pipeline::{Command, Event, Pipeline};
use import_endpoint::ImportError;

const LIMIT: usize = 1024;

fn started(body: &[u8], accept: Option<Format>) -> Pipeline {
    let (p, first) = Pipeline::start(body.to_vec(), accept, LIMIT).unwrap();
    assert_eq!(first, Command::CheckRoute);
    p
}

#[test]
fn oversized_body_is_turned_away() {
    let body = vec![b'x'; LIMIT + 1];
    assert!(Pipeline::start(body, Some(Format::Json), LIMIT).is_none());
}

#[test]
fn body_at_the_limit_is_admitted() {
    let body = vec![b'x'; LIMIT];
    assert!(Pipeline::start(body, Some(Format::Json), LIMIT).is_some());
}

#[test]
fn denied_route_is_forbidden_before_anything_else() {
    // The body is not even valid UTF-8 and the accept header is fine:
    // the capability check still answers first, so the reply is RouteForbidden.
    let p = started(&[0xff, 0xfe], Some(Format::Json));
    let (p, cmd) = p.step(Event::RouteChecked(false));
    assert_eq!(cmd, Command::Respond(Err(ImportError::RouteForbidden)));
    assert!(!p.accepts(&Event::RouteChecked(true)));
    assert!(!p.accepts(&Event::PermissionChecked(true)));
    assert!(!p.accepts(&Event::ImportDone(Ok(()))));
}

#[test]
fn invalid_body_is_a_decode_error_whatever_the_format() {
    for accept in [Some(Format::Json), Some(Format::OctetStream), Some(Format::Native), None] {
        let p = started(&[0x43, 0x80, 0x21], accept);
        let (_, cmd) = p.step(Event::RouteChecked(true));
        assert_eq!(cmd, Command::Respond(Err(ImportError::DecodeError)));
    }
}

#[test]
fn denied_permission_ends_the_run_without_import() {
    let p = started(b"CREATE person SET name = 'Ann';", Some(Format::Json));
    let (p, cmd) = p.step(Event::RouteChecked(true));
    assert_eq!(cmd, Command::CheckPermission);
    let (p, cmd) = p.step(Event::PermissionChecked(false));
    assert_eq!(cmd, Command::Respond(Err(ImportError::PermissionDenied)));
    // The machine is finished: no event can drive it to an import.
    assert!(!p.accepts(&Event::ImportDone(Ok(()))));
    assert!(!p.accepts(&Event::PermissionChecked(true)));
}

#[test]
fn successful_json_import_is_simplified_structured_text() {
    let p = started(b"CREATE person SET name = 'Ann';", Some(Format::Json));
    let (p, cmd) = p.step(Event::RouteChecked(true));
    assert_eq!(cmd, Command::CheckPermission);
    let (p, cmd) = p.step(Event::PermissionChecked(true));
    assert_eq!(cmd, Command::RunImport("CREATE person SET name = 'Ann';".to_string()));
    let (_, cmd) = p.step(Event::ImportDone(Ok(())));
    assert_eq!(cmd, Command::Respond(Ok(Encoding::SimplifiedJson)));
}

#[test]
fn multibyte_body_reaches_the_engine_decoded() {
    let text = "CREATE café SET città = 'São Paulo';";
    let p = started(text.as_bytes(), Some(Format::Cbor));
    let (p, _) = p.step(Event::RouteChecked(true));
    let (_, cmd) = p.step(Event::PermissionChecked(true));
    assert_eq!(cmd, Command::RunImport(text.to_string()));
}

#[test]
fn octet_stream_success_discards_the_result() {
    let p = started(b"CREATE person;", Some(Format::OctetStream));
    let (p, _) = p.step(Event::RouteChecked(true));
    let (p, _) = p.step(Event::PermissionChecked(true));
    let (_, cmd) = p.step(Event::ImportDone(Ok(())));
    assert_eq!(cmd, Command::Respond(Ok(Encoding::Empty)));
}

#[test]
fn native_format_success_keeps_full_fidelity() {
    let p = started(b"CREATE person;", Some(Format::Native));
    let (p, _) = p.step(Event::RouteChecked(true));
    let (p, _) = p.step(Event::PermissionChecked(true));
    let (_, cmd) = p.step(Event::ImportDone(Ok(())));
    assert_eq!(cmd, Command::Respond(Ok(Encoding::Full)));
}

#[test]
fn unrecognized_accept_fails_after_the_import_with_no_fallback() {
    // The header parses to no format; the import still runs, and the run
    // then ends with UnsupportedFormat rather than some default encoding.
    let accept = parse_accept(&"text/html".to_string());
    assert_eq!(accept, None);
    let p = started(b"CREATE person;", accept);
    let (p, _) = p.step(Event::RouteChecked(true));
    let (p, cmd) = p.step(Event::PermissionChecked(true));
    assert_eq!(cmd, Command::RunImport("CREATE person;".to_string()));
    let (p, cmd) = p.step(Event::ImportDone(Ok(())));
    assert_eq!(cmd, Command::Respond(Err(ImportError::UnsupportedFormat)));
    // Terminal: the negotiation failure cannot re-trigger anything.
    assert!(!p.accepts(&Event::ImportDone(Ok(()))));
}

#[test]
fn engine_failure_is_wrapped_verbatim() {
    let p = started(b"NOT REALLY A COMMAND", Some(Format::Json));
    let (p, _) = p.step(Event::RouteChecked(true));
    let (p, _) = p.step(Event::PermissionChecked(true));
    let (_, cmd) = p.step(Event::ImportDone(Err("parse error at line 1".to_string())));
    assert_eq!(
        cmd,
        Command::Respond(Err(ImportError::EngineError("parse error at line 1".to_string())))
    );
}

#[test]
fn fresh_machine_awaits_only_the_route_answer() {
    let p = started(b"x", Some(Format::Json));
    assert!(p.accepts(&Event::RouteChecked(true)));
    assert!(p.accepts(&Event::RouteChecked(false)));
    assert!(!p.accepts(&Event::PermissionChecked(true)));
    assert!(!p.accepts(&Event::ImportDone(Ok(()))));
}
