use wharf::resolve::{EngineError, ErrorKind};
use wharf::result::{FileInfo, Process};
use wharf::Docker;

fn endpoint() -> Docker {
    Docker::new("http://0.0.0.0:2376").unwrap()
}

fn pairs(p: &Process) -> Vec<(String, String)> {
    p.info.clone()
}

#[test]
fn process_zip_pairs_titles_with_columns() {
    let titles = vec!["PID".to_string(), "CMD".to_string()];
    let rows = vec![
        vec!["1".to_string(), "bash".to_string()],
        vec!["2".to_string(), "sh".to_string()],
    ];
    let first = Process::new(&titles, &rows[0]);
    let second = Process::new(&titles, &rows[1]);
    assert_eq!(
        pairs(&first),
        vec![
            ("PID".to_string(), "1".to_string()),
            ("CMD".to_string(), "bash".to_string())
        ]
    );
    assert_eq!(
        pairs(&second),
        vec![
            ("PID".to_string(), "2".to_string()),
            ("CMD".to_string(), "sh".to_string())
        ]
    );
}

#[test]
fn process_zip_truncates_to_the_shorter_row() {
    let titles = vec!["PID".to_string(), "CMD".to_string()];
    let row = vec!["1".to_string()];
    let p = Process::new(&titles, &row);
    assert_eq!(pairs(&p), vec![("PID".to_string(), "1".to_string())]);

    let long_row = vec!["1".to_string(), "bash".to_string(), "extra".to_string()];
    let q = Process::new(&titles, &long_row);
    assert_eq!(
        pairs(&q),
        vec![
            ("PID".to_string(), "1".to_string()),
            ("CMD".to_string(), "bash".to_string())
        ]
    );
}

#[test]
fn ps_resolution_zips_every_row() {
    let d = endpoint();
    let c = d.container("jimmy");
    let body = br#"{"Titles":["PID","CMD"],"Processes":[["1","bash"],["2","sh"]]}"#.to_vec();
    let r = c.ps_response(200, body).unwrap();
    assert_eq!(r.len(), 2);
    assert_eq!(
        pairs(&r[0]),
        vec![
            ("PID".to_string(), "1".to_string()),
            ("CMD".to_string(), "bash".to_string())
        ]
    );
    assert_eq!(
        pairs(&r[1]),
        vec![
            ("PID".to_string(), "2".to_string()),
            ("CMD".to_string(), "sh".to_string())
        ]
    );
}

#[test]
fn ps_resolution_rejects_a_malformed_listing() {
    let d = endpoint();
    let c = d.container("jimmy");
    let r = c.ps_response(200, b"[]".to_vec());
    match r {
        Err(EngineError::Decode(_)) => {}
        other => panic!("unexpected resolution: {:?}", other),
    }
    let missing = c.ps_response(404, Vec::new());
    assert_eq!(
        missing,
        Err(EngineError::Protocol(
            ErrorKind::NotFound,
            "no such container".to_string()
        ))
    );
}

#[test]
fn file_stat_header_decodes_to_the_record() {
    let d = endpoint();
    let c = d.container("jimmy");
    let stat = r#"{"name":"x","size":1,"mode":0,"mtime":"t","linkTarget":""}"#;
    let header = base64::encode(stat);
    let r = c.file_info_response(200, Some(&header), Vec::new()).unwrap();
    assert_eq!(
        r,
        FileInfo {
            name: "x".to_string(),
            size: 1,
            mode: 0,
            mtime: "t".to_string(),
            linkTarget: "".to_string(),
        }
    );
}

#[test]
fn file_stat_without_header_is_the_missing_header_error() {
    let d = endpoint();
    let c = d.container("jimmy");
    let r = c.file_info_response(200, None, Vec::new());
    assert_eq!(r, Err(EngineError::MissingStatHeader));
}

#[test]
fn file_stat_with_a_broken_header_is_a_decode_error() {
    let d = endpoint();
    let c = d.container("jimmy");
    let not_base64 = c.file_info_response(200, Some("!!! not base64 !!!"), Vec::new());
    match not_base64 {
        Err(EngineError::Decode(_)) => {}
        other => panic!("unexpected resolution: {:?}", other),
    }
    let not_json = c.file_info_response(200, Some(&base64::encode("not json")), Vec::new());
    match not_json {
        Err(EngineError::Decode(_)) => {}
        other => panic!("unexpected resolution: {:?}", other),
    }
}

#[test]
fn file_stat_failure_statuses_resolve_by_the_table() {
    let d = endpoint();
    let c = d.container("jimmy");
    assert_eq!(
        c.file_info_response(404, None, Vec::new()),
        Err(EngineError::Protocol(
            ErrorKind::NotFound,
            "container or path does not exist".to_string()
        ))
    );
    assert_eq!(
        c.file_info_response(403, None, Vec::new()),
        Err(EngineError::Protocol(
            ErrorKind::PermissionDenied,
            "permission denied, the volume or container rootfs is marked as read-only".to_string()
        ))
    );
    assert_eq!(
        c.file_info_response(400, None, Vec::new()),
        Err(EngineError::Protocol(
            ErrorKind::BadParameter,
            "bad parameter".to_string()
        ))
    );
}

#[test]
fn container_listing_yields_one_handle_per_id() {
    let d = endpoint();
    let cs = d.containers();
    let body = br#"[{"Id":"aaa","Names":["/one"]},{"Id":"bbb","Names":["/two"]}]"#.to_vec();
    let handles = cs.list_response(200, body).unwrap();
    assert_eq!(handles.len(), 2);
    assert_eq!(handles[0].id(), "aaa");
    assert_eq!(handles[1].id(), "bbb");
}

#[test]
fn container_listing_rejects_a_malformed_body() {
    let d = endpoint();
    let cs = d.containers();
    let r = cs.list_response(200, br#"[{"NoId":1}]"#.to_vec());
    match r {
        Err(EngineError::Decode(_)) => {}
        other => panic!("unexpected resolution: {:?}", other),
    }
}

#[test]
fn inspect_hands_back_the_payload_bytes() {
    let d = endpoint();
    let c = d.container("jimmy");
    let body = br#"{"Id":"jimmy","State":{}}"#.to_vec();
    let r = c.inspect_response(200, body.clone()).unwrap();
    assert_eq!(r, body);
    assert_eq!(
        c.inspect_response(404, Vec::new()),
        Err(EngineError::Protocol(
            ErrorKind::NotFound,
            "no such container".to_string()
        ))
    );
}

#[test]
fn image_listings_hand_back_the_payload_bytes() {
    let d = endpoint();
    let images = d.images();
    let body = br#"[{"Id":"sha256:1"}]"#.to_vec();
    assert_eq!(images.list_response(200, body.clone()).unwrap(), body);
    assert_eq!(images.search_response(200, body.clone()).unwrap(), body);
    assert_eq!(images.history_response(200, body.clone()).unwrap(), body);
    assert_eq!(images.inspect_response(200, body.clone()).unwrap(), body);
    assert_eq!(images.prune_response(200, body.clone()).unwrap(), body);
    assert_eq!(
        images.history_response(404, Vec::new()),
        Err(EngineError::Protocol(
            ErrorKind::NotFound,
            "no such image".to_string()
        ))
    );
}

#[test]
fn images_deleted_defaults_to_empty_fields() {
    let r = wharf::result::ImagesDeleted::default();
    assert_eq!(r.untagged, "");
    assert_eq!(r.deleted, "");
}
