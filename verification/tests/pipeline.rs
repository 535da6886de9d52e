//! The delivery pipeline's decision logic: dispatch, shutdown, the
//! buffering/sniffing stage, and the metadata plumbing.

use mime_sniffer::pipeline::{
    ControlMsg, LoadData, ManagerAction, MediaType, Metadata, Method, ProgressMsg,
    RequestHeaders, ResourceManager, SnifferManager, Url,
};

fn bogus_load_data() -> LoadData {
    LoadData::for_url("bogus://whatever").expect("an absolute URL")
}

#[test]
fn test_exit() {
    let manager = ResourceManager::new(None);
    let (actions, consumed) = manager.start(vec![ControlMsg::Exit]);
    assert_eq!(consumed, 1);
    assert_eq!(actions.len(), 1);
    assert!(matches!(actions[0], ManagerAction::Shutdown));
}

#[test]
fn test_bad_scheme() {
    // A load for an unsupported scheme is answered, not dropped: the caller
    // gets a response with default metadata whose body stream ends in an
    // error.
    let manager = ResourceManager::new(None);
    let action = manager.load(bogus_load_data());
    match action {
        ManagerAction::RespondNoLoader(metadata, reason) => {
            assert_eq!(metadata.final_url.scheme, "bogus");
            assert!(metadata.content_type.is_none());
            assert_eq!(metadata.status.code, 200);
            assert_eq!(reason, "no loader for scheme");
        },
        other => panic!("expected RespondNoLoader, got {:?}", other),
    }
}

#[test]
fn test_bad_scheme_end_to_end() {
    // The sniffing stage forwards the terminal error: the caller receives a
    // response and a body stream that terminates in Done(Err(_)).
    let manager = ResourceManager::new(None);
    let (metadata, reason) = match manager.load(bogus_load_data()) {
        ManagerAction::RespondNoLoader(metadata, reason) => (metadata, reason),
        other => panic!("expected RespondNoLoader, got {:?}", other),
    };
    let sniffer = SnifferManager::new();
    let upstream = vec![ProgressMsg::Done(Err(reason))];
    let (out_meta, out_msgs) = sniffer.process_response(metadata, upstream);
    assert_eq!(out_meta.final_url.serialization, "bogus://whatever");
    assert_eq!(out_msgs.len(), 2);
    assert!(matches!(&out_msgs[0], ProgressMsg::Payload(chunk) if chunk.is_empty()));
    match &out_msgs[1] {
        ProgressMsg::Done(Err(e)) => assert_eq!(e, "no loader for scheme"),
        other => panic!("expected a terminal error, got {:?}", other),
    }
}

#[test]
fn test_exit_closes_control_loop() {
    // A Load submitted after Exit is never consumed: the sender is left with
    // an observable refusal, not a silently dropped request.
    let manager = ResourceManager::new(None);
    let msgs = vec![ControlMsg::Exit, ControlMsg::Load(bogus_load_data())];
    let (actions, consumed) = manager.start(msgs);
    assert_eq!(consumed, 1);
    assert_eq!(actions.len(), 1);
    assert!(matches!(actions[0], ManagerAction::Shutdown));
}

#[test]
fn test_dispatch_known_schemes() {
    let manager = ResourceManager::new(Some("test-agent".to_string()));
    let cases = [
        ("file:///tmp/x", "File"),
        ("http://host/", "Http"),
        ("https://host/", "Http"),
        ("data:text/plain,hi", "Data"),
        ("about:blank", "About"),
    ];
    for (input, expected) in cases.iter() {
        let ld = LoadData::for_url(input).expect("an absolute URL");
        match manager.load(ld) {
            ManagerAction::Dispatch(kind, prepared) => {
                assert_eq!(format!("{:?}", kind), *expected);
                // The manager injects its user agent before dispatch.
                assert_eq!(prepared.headers.user_agent.as_deref(), Some("test-agent"));
            },
            other => panic!("expected Dispatch for {}, got {:?}", input, other),
        }
    }
}

#[test]
fn test_control_loop_runs_until_exit() {
    let manager = ResourceManager::new(None);
    let msgs = vec![
        ControlMsg::Load(LoadData::for_url("file:///etc/hosts").unwrap()),
        ControlMsg::Exit,
        ControlMsg::Load(bogus_load_data()),
    ];
    let (actions, consumed) = manager.start(msgs);
    assert_eq!(consumed, 2);
    assert!(matches!(actions[0], ManagerAction::Dispatch(..)));
    assert!(matches!(actions[1], ManagerAction::Shutdown));
}

#[test]
fn test_load_data_new_defaults() {
    let url = Url { scheme: "http".to_string(), serialization: "http://h/".to_string() };
    let ld = LoadData::new(url);
    assert_eq!(ld.method, Method::Get);
    assert!(ld.headers.user_agent.is_none());
    assert!(ld.data.is_none());
    assert!(ld.cors.is_none());
    assert_eq!(ld.url.scheme, "http");
}

#[test]
fn test_metadata_default() {
    let url = Url { scheme: "about".to_string(), serialization: "about:blank".to_string() };
    let metadata = Metadata::default(url);
    assert!(metadata.content_type.is_none());
    assert!(metadata.charset.is_none());
    assert!(metadata.headers.is_none());
    assert_eq!(metadata.status.code, 200);
    assert_eq!(metadata.status.reason, "OK");
}

#[test]
fn test_set_content_type() {
    let url = Url { scheme: "http".to_string(), serialization: "http://h/".to_string() };
    let mut metadata = Metadata::default(url);
    metadata.set_content_type(&None);
    assert!(metadata.content_type.is_none());
    let media_type = MediaType {
        type_: "text".to_string(),
        subtype: "html".to_string(),
        parameters: vec![
            ("level".to_string(), "1".to_string()),
            ("charset".to_string(), "utf-8".to_string()),
            ("charset".to_string(), "iso-8859-1".to_string()),
        ],
    };
    metadata.set_content_type(&Some(media_type));
    assert_eq!(metadata.content_type, Some(("text".to_string(), "html".to_string())));
    // The last charset parameter wins.
    assert_eq!(metadata.charset.as_deref(), Some("iso-8859-1"));
}

#[test]
fn test_set_content_type_keeps_charset_without_parameter() {
    let url = Url { scheme: "http".to_string(), serialization: "http://h/".to_string() };
    let mut metadata = Metadata::default(url);
    metadata.charset = Some("utf-16".to_string());
    let media_type = MediaType {
        type_: "text".to_string(),
        subtype: "plain".to_string(),
        parameters: Vec::new(),
    };
    metadata.set_content_type(&Some(media_type));
    assert_eq!(metadata.charset.as_deref(), Some("utf-16"));
}

#[test]
fn test_request_headers_new() {
    assert!(RequestHeaders::new().user_agent.is_none());
}

#[test]
fn test_sniffer_buffers_and_classifies() {
    // The stage drains the upstream stream, re-emits the bytes in order as
    // one payload, keeps the success marker, and resolves the content type.
    let sniffer = SnifferManager::new();
    let url = Url { scheme: "file".to_string(), serialization: "file:///x.gif".to_string() };
    let metadata = Metadata::default(url);
    let upstream = vec![
        ProgressMsg::Payload(b"GIF8".to_vec()),
        ProgressMsg::Payload(b"9a\x10\x00".to_vec()),
        ProgressMsg::Done(Ok(())),
    ];
    let (out_meta, out_msgs) = sniffer.process_response(metadata, upstream);
    assert_eq!(out_meta.content_type, Some(("image".to_string(), "gif".to_string())));
    assert_eq!(out_msgs.len(), 2);
    assert!(matches!(&out_msgs[0], ProgressMsg::Payload(chunk) if chunk == b"GIF89a\x10\x00"));
    assert!(matches!(&out_msgs[1], ProgressMsg::Done(Ok(()))));
}

#[test]
fn test_sniffer_respects_declared_xml() {
    // A declared XML type passes through the sniffing stage unchanged.
    let sniffer = SnifferManager::new();
    let url = Url { scheme: "http".to_string(), serialization: "http://h/a.xml".to_string() };
    let mut metadata = Metadata::default(url);
    metadata.content_type = Some(("text".to_string(), "xml".to_string()));
    let upstream = vec![
        ProgressMsg::Payload(b"GIF89a".to_vec()),
        ProgressMsg::Done(Ok(())),
    ];
    let (out_meta, _) = sniffer.process_response(metadata, upstream);
    assert_eq!(out_meta.content_type, Some(("text".to_string(), "xml".to_string())));
}

#[test]
fn test_for_url_parses_and_normalises() {
    // The scheme comes back lower-cased, so the parse visibly did its work.
    let ld = LoadData::for_url("HTTP://Example.com/Path").expect("an absolute URL");
    assert_eq!(ld.url.scheme, "http");
    assert!(ld.url.serialization.starts_with("http://example.com/"));
    assert!(LoadData::for_url("not a url").is_none());
    assert!(LoadData::for_url("/relative/only").is_none());
}
