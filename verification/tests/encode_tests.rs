use wharf::opts::{ContainerBuilderOpts, DockerOpts};
use wharf::resolve::EngineError;
use wharf::Docker;

#[test]
fn json_body_renders_every_value_shape() {
    let d = Docker::new("http://0.0.0.0:2376").unwrap();
    let cs = d.containers();
    let labels = [("test", "label"), ("tier", "base")];
    let mut opts = ContainerBuilderOpts::new();
    opts.image("alpine")
        .tty(true)
        .stop_timeout(-1)
        .memory(1000000)
        .env(&["A=1", "B=2"])
        .exposed_ports(&["22/tcp", "443/tcp"])
        .labels(&labels);
    let rd = cs.create_request("x", &opts);
    let body = String::from_utf8(rd.body.clone()).unwrap();
    let mut expected = String::new();
    expected.push_str(r#"{"Image":"alpine","Tty":true,"StopTimeout":-1,"HostConfig.Memory":1000000,"#);
    expected.push_str(r#""Env":["A=1","B=2"],"#);
    expected.push_str(r#""HostConfig.PortBindings":{"22/tcp":null,"443/tcp":null},"#);
    expected.push_str(r#""Labels":{"test":"label","tier":"base"}}"#);
    assert_eq!(body, expected);

    let parsed: serde_json::Value = serde_json::from_str(&body).unwrap();
    assert_eq!(parsed.get("Image").and_then(|v| v.as_str()), Some("alpine"));
    assert_eq!(parsed.get("Tty").and_then(|v| v.as_bool()), Some(true));
    assert_eq!(parsed.get("StopTimeout").and_then(|v| v.as_i64()), Some(-1));
    assert_eq!(
        parsed.get("HostConfig.Memory").and_then(|v| v.as_i64()),
        Some(1000000)
    );
    let ports = parsed.get("HostConfig.PortBindings").unwrap();
    assert!(ports.get("22/tcp").unwrap().is_null());
    assert!(ports.get("443/tcp").unwrap().is_null());
    assert_eq!(
        parsed
            .get("Labels")
            .and_then(|l| l.get("tier"))
            .and_then(|v| v.as_str()),
        Some("base")
    );
}

#[test]
fn empty_options_render_as_the_empty_object() {
    let d = Docker::new("http://0.0.0.0:2376").unwrap();
    let cs = d.containers();
    let opts = ContainerBuilderOpts::new();
    let rd = cs.create_request("x", &opts);
    assert_eq!(String::from_utf8(rd.body.clone()).unwrap(), "{}");
    assert_eq!(opts.to_query(), "");
}

#[test]
fn error_messages_are_reachable_as_text() {
    let d = Docker::new("http://0.0.0.0:2376").unwrap();
    let c = d.container("jimmy");
    let err = c.start_response(404, Vec::new()).unwrap_err();
    assert_eq!(err.message(), "no such container");
    let missing = c.file_info_response(200, None, Vec::new()).unwrap_err();
    assert_eq!(
        missing.message(),
        "could not parse FileInfo from base64 encoded header"
    );
    match Docker::new("definitely not a uri") {
        Err(e @ EngineError::Transport(_)) => {
            assert_eq!(e.message(), "invalid endpoint url");
        }
        other => panic!("unexpected construction result: {:?}", other),
    }
}

#[test]
fn envelope_and_reply_records_carry_their_fields() {
    let msg = wharf::Msg::new("engine says no");
    assert_eq!(msg.msg(), "engine says no");

    let reply = wharf::AuthMsg {
        Status: "ok".to_string(),
        IdentityToken: "tok".to_string(),
    };
    assert_eq!(reply.status(), "ok");
    assert_eq!(reply.token(), "tok");
}
