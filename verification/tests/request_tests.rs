use wharf::api::Method;
use wharf::encode::{i64_to_dec, u64_to_dec};
use wharf::opts::{
    AttachOpts, AuthOpts, ContainerBuilderOpts, CreateImageOpts, DockerOpts, ListContainersOpts,
    RmContainerOpts, UploadArchiveOpts,
};
use wharf::Docker;

fn endpoint() -> Docker {
    Docker::new("http://0.0.0.0:2376").unwrap()
}

#[test]
fn start_request_shape() {
    let d = endpoint();
    let c = d.container("jimmy");
    let rd = c.start_request();
    assert_eq!(rd.method, Method::Post);
    assert_eq!(rd.path, "/containers/jimmy/start");
    assert_eq!(rd.query, None);
    assert!(rd.body.is_empty());
    assert!(rd.headers.is_empty());
    assert_eq!(rd.target(), "/containers/jimmy/start");
}

#[test]
fn rename_request_carries_the_new_name() {
    let d = endpoint();
    let c = d.container("boring_johnny");
    let rd = c.rename_request("new_name");
    assert_eq!(rd.method, Method::Post);
    assert_eq!(rd.path, "/containers/boring_johnny/rename");
    assert_eq!(rd.query, Some("name=new_name".to_string()));
    assert_eq!(rd.target(), "/containers/boring_johnny/rename?name=new_name");
}

#[test]
fn remove_request_uses_delete_with_the_options() {
    let d = endpoint();
    let c = d.container("jimmy");
    let mut opts = RmContainerOpts::new();
    opts.volumes(true).force(false).link(true);
    let rd = c.remove_request(&opts);
    assert_eq!(rd.method, Method::Delete);
    assert_eq!(rd.path, "/containers/jimmy");
    assert_eq!(
        rd.query,
        Some("volumes=true&force=false&link=true".to_string())
    );
}

#[test]
fn query_construction_renders_booleans_as_literals() {
    let mut opts = ListContainersOpts::new();
    opts.all(true).size(false).limit(10);
    assert_eq!(opts.to_query(), "all=true&size=false&limit=10");
}

#[test]
fn query_construction_renders_strings_unquoted() {
    let mut opts = UploadArchiveOpts::new();
    opts.path("/some/dir").no_overwrite("true");
    assert_eq!(opts.to_query(), "path=/some/dir&noOverwriteDirNonDir=true");
}

#[test]
fn container_create_request_posts_the_json_body() {
    let d = endpoint();
    let cs = d.containers();
    let mut opts = ContainerBuilderOpts::new();
    opts.image("alpine").cmd(&["/bin/echo", "hello"]);
    let rd = cs.create_request("jimmy-falcon", &opts);
    assert_eq!(rd.method, Method::Post);
    assert_eq!(rd.path, "/containers/create");
    assert_eq!(rd.query, Some("name=jimmy-falcon".to_string()));
    assert_eq!(
        String::from_utf8(rd.body.clone()).unwrap(),
        r#"{"Image":"alpine","Cmd":["/bin/echo","hello"]}"#
    );
    assert_eq!(
        rd.headers,
        vec![("Content-type".to_string(), "application/json".to_string())]
    );
}

#[test]
fn json_body_escapes_special_characters() {
    let d = endpoint();
    let cs = d.containers();
    let mut opts = ContainerBuilderOpts::new();
    opts.hostname("with\"quote\\and\nnewline");
    let rd = cs.create_request("x", &opts);
    let body = String::from_utf8(rd.body.clone()).unwrap();
    assert_eq!(body, "{\"Hostname\":\"with\\\"quote\\\\and\\nnewline\"}");
    let parsed: serde_json::Value = serde_json::from_str(&body).unwrap();
    assert_eq!(
        parsed.get("Hostname").and_then(|v| v.as_str()),
        Some("with\"quote\\and\nnewline")
    );
}

#[test]
fn json_body_escapes_control_characters() {
    let d = endpoint();
    let cs = d.containers();
    let mut opts = ContainerBuilderOpts::new();
    opts.hostname("a\u{1}b\u{1f}c");
    let rd = cs.create_request("x", &opts);
    let body = String::from_utf8(rd.body.clone()).unwrap();
    assert_eq!(body, "{\"Hostname\":\"a\\u0001b\\u001fc\"}");
    let parsed: serde_json::Value = serde_json::from_str(&body).unwrap();
    assert_eq!(
        parsed.get("Hostname").and_then(|v| v.as_str()),
        Some("a\u{1}b\u{1f}c")
    );
}

#[test]
fn image_remove_request_renders_both_flags() {
    let d = endpoint();
    let images = d.images();
    let rd = images.remove_request("alpine", true, false);
    assert_eq!(rd.method, Method::Delete);
    assert_eq!(rd.path, "/images/alpine");
    assert_eq!(rd.query, Some("force=true&no_prune=false".to_string()));
}

#[test]
fn image_search_request_renders_the_limit() {
    let d = endpoint();
    let images = d.images();
    let rd = images.search_request("alpine", 25, "{}");
    assert_eq!(rd.path, "/images/search");
    assert_eq!(rd.query, Some("term=alpine&limit=25&filters={}".to_string()));
}

#[test]
fn image_tag_request_shape() {
    let d = endpoint();
    let images = d.images();
    let rd = images.tag_request("someimage:sometag", "someuser/someimage", "newtag");
    assert_eq!(rd.method, Method::Post);
    assert_eq!(rd.path, "/images/someimage:sometag/tag");
    assert_eq!(rd.query, Some("repo=someuser/someimage&tag=newtag".to_string()));
}

#[test]
fn attach_request_asks_for_the_upgrade() {
    let d = endpoint();
    let c = d.container("jimmy");
    let mut opts = AttachOpts::new();
    opts.stream(true).stdout(true);
    let rd = c.attach_request(&opts);
    assert_eq!(rd.path, "/containers/jimmy/attach");
    assert_eq!(rd.query, Some("stream=true&stdout=true".to_string()));
    assert_eq!(
        rd.headers,
        vec![
            ("Connection".to_string(), "Upgrade".to_string()),
            ("Upgrade".to_string(), "tcp".to_string())
        ]
    );
}

#[test]
fn image_create_request_sends_credentials_only_for_pulls() {
    let d = endpoint();
    let images = d.images();

    let mut import = CreateImageOpts::new();
    import.from_src("-");
    let rd = images.create_request(&import);
    assert!(rd.headers.is_empty());
    assert_eq!(rd.query, Some("fromSrc=-".to_string()));

    let mut auth = AuthOpts::new();
    auth.username("user").password("pass");
    let rd = images.pull_request("ubuntu", "latest", &auth);
    assert_eq!(rd.path, "/images/create");
    assert_eq!(rd.query, Some("fromImage=ubuntu&tag=latest".to_string()));
    assert_eq!(rd.headers.len(), 1);
    assert_eq!(rd.headers[0].0, "X-Registry-Auth");
    assert_eq!(rd.headers[0].1, auth.serialize().unwrap());
}

#[test]
fn auth_header_blob_decodes_to_the_posted_body() {
    let d = endpoint();
    let mut auth = AuthOpts::new();
    auth.username("user")
        .password("pass")
        .email("email@random.co")
        .server_address("http://0.0.0.0:666");

    let rd = d.authenticate_request(&auth);
    assert_eq!(rd.path, "/auth");
    let header_blob = auth.serialize().unwrap();
    let decoded = base64::decode(&header_blob).unwrap();
    assert_eq!(decoded, rd.body);

    let from_body: serde_json::Value = serde_json::from_slice(&rd.body).unwrap();
    let from_header: serde_json::Value = serde_json::from_slice(&decoded).unwrap();
    assert_eq!(from_body, from_header);
    assert_eq!(from_body.get("username").and_then(|v| v.as_str()), Some("user"));
    assert_eq!(from_body.get("password").and_then(|v| v.as_str()), Some("pass"));
    assert_eq!(
        from_body.get("email").and_then(|v| v.as_str()),
        Some("email@random.co")
    );
    assert_eq!(
        from_body.get("serveraddress").and_then(|v| v.as_str()),
        Some("http://0.0.0.0:666")
    );
}

#[test]
fn decimal_rendering_is_exact() {
    assert_eq!(u64_to_dec(0), "0");
    assert_eq!(u64_to_dec(10), "10");
    assert_eq!(u64_to_dec(90125), "90125");
    assert_eq!(u64_to_dec(u64::MAX), "18446744073709551615");
    assert_eq!(i64_to_dec(0), "0");
    assert_eq!(i64_to_dec(-1), "-1");
    assert_eq!(i64_to_dec(i64::MIN), "-9223372036854775808");
    assert_eq!(i64_to_dec(i64::MAX), "9223372036854775807");
}

#[test]
fn upload_archive_request_carries_the_bytes() {
    let d = endpoint();
    let c = d.container("jimmy");
    let mut opts = UploadArchiveOpts::new();
    opts.path("/tmp");
    let rd = c.upload_archive_request(b"tar bytes", &opts);
    assert_eq!(rd.method, Method::Put);
    assert_eq!(rd.path, "/containers/jimmy/archive");
    assert_eq!(rd.query, Some("path=/tmp".to_string()));
    assert_eq!(rd.body, b"tar bytes".to_vec());
}

#[test]
fn file_info_request_uses_head() {
    let d = endpoint();
    let c = d.container("jimmy");
    let rd = c.file_info_request("/etc");
    assert_eq!(rd.method, Method::Head);
    assert_eq!(rd.path, "/containers/jimmy/archive");
    assert_eq!(rd.query, Some("path=/etc".to_string()));
}

#[test]
fn exec_requests_post_json_bodies() {
    let d = endpoint();
    let c = d.container("jimmy");
    let mut opts = wharf::opts::ExecOpts::new();
    opts.cmd(&["/bin/true".to_string()]);
    let create = c.exec_create_request(&opts);
    assert_eq!(create.path, "/containers/jimmy/exec");
    assert_eq!(
        String::from_utf8(create.body.clone()).unwrap(),
        r#"{"Cmd":["/bin/true"]}"#
    );
    assert_eq!(
        create.headers,
        vec![("Content-type".to_string(), "application/json".to_string())]
    );
    let start = c.exec_start_request("abc123", &opts);
    assert_eq!(start.path, "/exec/abc123/start");
}
