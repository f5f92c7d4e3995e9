use wharf::resolve::{resolve, EngineError, ErrorKind, OpKind, Outcome};
use wharf::Docker;

fn endpoint() -> Docker {
    Docker::new("http://0.0.0.0:2376").unwrap()
}

#[test]
fn start_success_is_empty() {
    let r = resolve(OpKind::Start, 204, Vec::new());
    assert_eq!(r, Ok(Outcome::Empty));
}

#[test]
fn start_already_started_is_exact() {
    let d = endpoint();
    let c = d.container("jimmy");
    let r = c.start_response(304, b"not json at all".to_vec());
    assert_eq!(
        r,
        Err(EngineError::Protocol(
            ErrorKind::AlreadyStarted,
            "container already started".to_string()
        ))
    );
}

#[test]
fn start_not_found_is_not_already_started() {
    let d = endpoint();
    let c = d.container("jimmy");
    let r = c.start_response(404, Vec::new());
    match r {
        Err(EngineError::Protocol(kind, _)) => assert_eq!(kind, ErrorKind::NotFound),
        other => panic!("unexpected resolution: {:?}", other),
    }
}

#[test]
fn start_unmapped_status_carries_the_code() {
    let d = endpoint();
    let c = d.container("jimmy");
    let r = c.start_response(418, Vec::new());
    assert_eq!(r, Err(EngineError::UnexpectedStatus(418, "".to_string())));
}

#[test]
fn stop_already_stopped_is_exact() {
    let d = endpoint();
    let c = d.container("jimmy");
    let r = c.stop_response(304, Vec::new());
    assert_eq!(
        r,
        Err(EngineError::Protocol(
            ErrorKind::AlreadyStopped,
            "container already stopped".to_string()
        ))
    );
}

#[test]
fn enrichment_appends_the_engine_message() {
    let d = endpoint();
    let c = d.container("jimmy");
    let body = br#"{"message":"engine says no"}"#.to_vec();
    let r = c.start_response(404, body);
    assert_eq!(
        r,
        Err(EngineError::Protocol(
            ErrorKind::NotFound,
            "no such container - engine says no".to_string()
        ))
    );
}

#[test]
fn enrichment_failure_keeps_the_default_text() {
    let d = endpoint();
    let c = d.container("jimmy");
    let body = b"{ this is not valid json".to_vec();
    let r = c.start_response(500, body);
    assert_eq!(
        r,
        Err(EngineError::Protocol(
            ErrorKind::ServerError,
            "server error".to_string()
        ))
    );
}

#[test]
fn enrichment_needs_a_string_message_field() {
    let body = br#"{"message":42}"#.to_vec();
    let r = resolve(OpKind::Start, 500, body);
    assert_eq!(
        r,
        Err(EngineError::Protocol(
            ErrorKind::ServerError,
            "server error".to_string()
        ))
    );
}

#[test]
fn rename_success_updates_the_identifier() {
    let d = endpoint();
    let mut c = d.container("boring_johnny");
    let r = c.rename_response("new_name", 204, Vec::new());
    assert!(r.is_ok());
    assert_eq!(c.id(), "new_name");
}

#[test]
fn rename_conflict_keeps_the_identifier() {
    let d = endpoint();
    let mut c = d.container("boring_johnny");
    let r = c.rename_response("new_name", 409, Vec::new());
    assert_eq!(
        r,
        Err(EngineError::Protocol(
            ErrorKind::NameConflict,
            "name already in use".to_string()
        ))
    );
    assert_eq!(c.id(), "boring_johnny");
}

#[test]
fn rename_unmapped_status_keeps_the_identifier() {
    let d = endpoint();
    let mut c = d.container("boring_johnny");
    let r = c.rename_response("new_name", 418, Vec::new());
    assert_eq!(r, Err(EngineError::UnexpectedStatus(418, "".to_string())));
    assert_eq!(c.id(), "boring_johnny");
}

#[test]
fn remove_accepts_both_empty_success_codes() {
    let d = endpoint();
    let c = d.container("jimmy");
    assert!(c.remove_response(204, Vec::new()).is_ok());
    assert!(c.remove_response(200, Vec::new()).is_ok());
    assert_eq!(
        c.remove_response(409, Vec::new()),
        Err(EngineError::Protocol(
            ErrorKind::Conflict,
            "conflict".to_string()
        ))
    );
}

#[test]
fn list_rejects_a_bad_parameter() {
    let d = endpoint();
    let cs = d.containers();
    let r = cs.list_response(400, Vec::new());
    match r {
        Err(EngineError::Protocol(kind, text)) => {
            assert_eq!(kind, ErrorKind::BadParameter);
            assert_eq!(text, "bad parameter");
        }
        other => panic!("unexpected resolution: {:?}", other.map(|cs| cs.len())),
    }
}

#[test]
fn exec_create_reports_a_paused_container() {
    let d = endpoint();
    let c = d.container("jimmy");
    let r = c.exec_create_response(409, Vec::new());
    assert_eq!(
        r,
        Err(EngineError::Protocol(
            ErrorKind::ContainerPaused,
            "container is paused".to_string()
        ))
    );
}

#[test]
fn exec_start_knows_a_missing_instance() {
    let d = endpoint();
    let c = d.container("jimmy");
    let r = c.exec_start_response(404, Vec::new());
    assert_eq!(
        r,
        Err(EngineError::Protocol(
            ErrorKind::NoSuchExec,
            "no such exec instance".to_string()
        ))
    );
}

#[test]
fn exec_start_hands_back_the_raw_body() {
    let d = endpoint();
    let c = d.container("jimmy");
    let r = c.exec_start_response(200, b"raw output".to_vec());
    assert_eq!(r, Ok(b"raw output".to_vec()));
}

#[test]
fn exec_create_extracts_and_trims_the_id() {
    let d = endpoint();
    let c = d.container("jimmy");
    let r = c.exec_create_response(201, br#"{"Id":"abc123"}"#.to_vec());
    assert_eq!(r, Ok("abc123".to_string()));
}

#[test]
fn exec_create_without_id_is_a_decode_error() {
    let d = endpoint();
    let c = d.container("jimmy");
    let r = c.exec_create_response(201, br#"{"NoId":true}"#.to_vec());
    match r {
        Err(EngineError::Decode(_)) => {}
        other => panic!("unexpected resolution: {:?}", other),
    }
}

#[test]
fn network_remove_knows_predefined_networks() {
    let d = endpoint();
    let ns = d.networks();
    let r = ns.remove_response(403, Vec::new());
    assert_eq!(
        r,
        Err(EngineError::Protocol(
            ErrorKind::PredefinedNetwork,
            "operation not supported for pre-defined networks".to_string()
        ))
    );
    assert!(ns.remove_response(204, Vec::new()).is_ok());
    assert_eq!(
        ns.remove_response(404, Vec::new()),
        Err(EngineError::Protocol(
            ErrorKind::NotFound,
            "no such network".to_string()
        ))
    );
}

#[test]
fn image_create_knows_a_missing_repository() {
    let d = endpoint();
    let images = d.images();
    let r = images.create_response(404, Vec::new());
    assert_eq!(
        r,
        Err(EngineError::Protocol(
            ErrorKind::RepoNotFound,
            "repository does not exist or no read access".to_string()
        ))
    );
}

#[test]
fn image_remove_maps_conflict() {
    let d = endpoint();
    let images = d.images();
    assert!(images.remove_response(200, Vec::new()).is_ok());
    assert_eq!(
        images.remove_response(404, Vec::new()),
        Err(EngineError::Protocol(
            ErrorKind::NotFound,
            "no such image".to_string()
        ))
    );
    assert_eq!(
        images.remove_response(409, Vec::new()),
        Err(EngineError::Protocol(
            ErrorKind::Conflict,
            "conflict".to_string()
        ))
    );
}

#[test]
fn signal_operations_use_the_internal_error_text() {
    let d = endpoint();
    let c = d.container("jimmy");
    let r = c.restart_response(500, Vec::new());
    assert_eq!(
        r,
        Err(EngineError::Protocol(
            ErrorKind::ServerError,
            "internal server error".to_string()
        ))
    );
    assert!(c.kill_response(204, Vec::new()).is_ok());
    assert!(c.pause_response(204, Vec::new()).is_ok());
    assert!(c.unpause_response(204, Vec::new()).is_ok());
}

#[test]
fn attach_accepts_only_the_upgrade_status() {
    let d = endpoint();
    let c = d.container("jimmy");
    assert!(c.attach_response(101, Vec::new()).is_ok());
    assert_eq!(
        c.attach_response(400, Vec::new()),
        Err(EngineError::Protocol(
            ErrorKind::BadParameter,
            "bad parameter".to_string()
        ))
    );
}

#[test]
fn upload_archive_reports_a_read_only_target() {
    let d = endpoint();
    let c = d.container("jimmy");
    let r = c.upload_archive_response(403, Vec::new());
    assert_eq!(
        r,
        Err(EngineError::Protocol(
            ErrorKind::PermissionDenied,
            "permission denied, the volume or container rootfs is marked as read-only".to_string()
        ))
    );
}

#[test]
fn archive_fetch_hands_back_the_bytes() {
    let d = endpoint();
    let c = d.container("jimmy");
    let r = c.archive_path_response(200, b"tar bytes".to_vec());
    assert_eq!(r, Ok(b"tar bytes".to_vec()));
    assert_eq!(
        c.archive_path_response(400, Vec::new()),
        Err(EngineError::Protocol(
            ErrorKind::BadParameter,
            "container or path does not exist".to_string()
        ))
    );
}

#[test]
fn authentication_resolves_token_empty_and_errors() {
    let d = endpoint();
    let r = d.authenticate_response(200, br#"{"Status":"ok","IdentityToken":"tok-1"}"#.to_vec());
    assert_eq!(r, Ok("tok-1".to_string()));

    let empty = d.authenticate_response(204, Vec::new());
    assert_eq!(empty, Ok("".to_string()));

    let fault = d.authenticate_response(500, Vec::new());
    assert_eq!(
        fault,
        Err(EngineError::Protocol(
            ErrorKind::ServerError,
            "server error".to_string()
        ))
    );

    let odd = d.authenticate_response(418, Vec::new());
    assert_eq!(
        odd,
        Err(EngineError::UnexpectedStatus(418, "unknown error".to_string()))
    );

    let bad = d.authenticate_response(200, b"not json".to_vec());
    match bad {
        Err(EngineError::Decode(_)) => {}
        other => panic!("unexpected resolution: {:?}", other),
    }
}

#[test]
fn endpoint_construction_validates_the_address() {
    assert!(Docker::new("http://0.0.0.0:2376").is_ok());
    let bad = Docker::new("not a uri at all");
    match bad {
        Err(EngineError::Transport(_)) => {}
        other => panic!("unexpected construction result: {:?}", other),
    }
}
