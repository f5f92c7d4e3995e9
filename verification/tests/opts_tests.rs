use wharf::json::JsonVal;
use wharf::opts::{
    AuthOpts, ContainerBuilderOpts, CreateImageOpts, DockerOpts, ExecOpts, ListContainersOpts,
    RmContainerOpts, UploadArchiveOpts,
};

#[test]
fn upload_archive_opts_work() {
    let mut opts = UploadArchiveOpts::new();
    opts.path("/example/path")
        .no_overwrite("true")
        .copy_uid_gid("true");

    let m = opts.opts();
    assert_eq!(m.len(), 3);
    assert_eq!(m.get("path"), Some(&JsonVal::Str("/example/path".to_string())));
    assert_eq!(
        m.get("noOverwriteDirNonDir"),
        Some(&JsonVal::Str("true".to_string()))
    );
    assert_eq!(m.get("copyUIDGID"), Some(&JsonVal::Str("true".to_string())));
}

#[test]
fn list_container_opts_work() {
    let mut opts = ListContainersOpts::new();
    opts.all(true).size(true).limit(10000).filters("");

    let m = opts.opts();
    assert_eq!(m.len(), 4);
    assert_eq!(m.get("all"), Some(&JsonVal::Bool(true)));
    assert_eq!(m.get("size"), Some(&JsonVal::Bool(true)));
    assert_eq!(m.get("limit"), Some(&JsonVal::UInt(10000)));
    assert_eq!(m.get("filters"), Some(&JsonVal::Str("".to_string())));
}

#[test]
fn rm_container_opts_work() {
    let mut opts = RmContainerOpts::new();
    opts.volumes(true).force(false).link(true);

    let m = opts.opts();
    assert_eq!(m.len(), 3);
    assert_eq!(m.get("volumes"), Some(&JsonVal::Bool(true)));
    assert_eq!(m.get("force"), Some(&JsonVal::Bool(false)));
    assert_eq!(m.get("link"), Some(&JsonVal::Bool(true)));
}

#[test]
fn container_builder_opts_work() {
    let labels = [("test", "label")];

    let mut opts = ContainerBuilderOpts::new();
    opts.hostname("test_hostname")
        .domain_name("test_domain_name")
        .user("test_user")
        .attach_stdin(false)
        .attach_stdout(true)
        .attach_stderr(true)
        .tty(false)
        .open_stdin(true)
        .stdin_once(false)
        .env(&["ENV=Vars", "FLAG=test"])
        .cmd(&["/bin/bash"])
        .args_escaped(false)
        .image("alpine")
        .working_dir("/home/test")
        .entrypoint(&[""])
        .network_disabled(false)
        .mac_address("39:74:C9:17:87:9F")
        .on_build(&[""])
        .stop_signal("SIGSTOP")
        .shell(&[""])
        .labels(&labels)
        .exposed_ports(&["22/tcp", "443/tcp"])
        .volumes(&["/home/host/path:/home/container/path"])
        .memory(1000000)
        .network_mode("bridge");

    let m = opts.opts();
    assert_eq!(
        m.get("Hostname"),
        Some(&JsonVal::Str("test_hostname".to_string()))
    );
    assert_eq!(
        m.get("DomainName"),
        Some(&JsonVal::Str("test_domain_name".to_string()))
    );
    assert_eq!(m.get("User"), Some(&JsonVal::Str("test_user".to_string())));
    assert_eq!(m.get("AttachStdin"), Some(&JsonVal::Bool(false)));
    assert_eq!(m.get("AttachStdout"), Some(&JsonVal::Bool(true)));
    assert_eq!(m.get("AttachStderr"), Some(&JsonVal::Bool(true)));
    assert_eq!(m.get("Tty"), Some(&JsonVal::Bool(false)));
    assert_eq!(m.get("OpenStdin"), Some(&JsonVal::Bool(true)));
    assert_eq!(m.get("StdinOnce"), Some(&JsonVal::Bool(false)));
    assert_eq!(
        m.get("Env"),
        Some(&JsonVal::StrArr(vec![
            "ENV=Vars".to_string(),
            "FLAG=test".to_string()
        ]))
    );
    assert_eq!(
        m.get("Cmd"),
        Some(&JsonVal::StrArr(vec!["/bin/bash".to_string()]))
    );
    assert_eq!(m.get("ArgsEscaped"), Some(&JsonVal::Bool(false)));
    assert_eq!(m.get("Image"), Some(&JsonVal::Str("alpine".to_string())));
    assert_eq!(
        m.get("WorkingDir"),
        Some(&JsonVal::Str("/home/test".to_string()))
    );
    assert_eq!(
        m.get("Entrypoint"),
        Some(&JsonVal::StrArr(vec!["".to_string()]))
    );
    assert_eq!(m.get("NetworkDisabled"), Some(&JsonVal::Bool(false)));
    assert_eq!(
        m.get("MacAddress"),
        Some(&JsonVal::Str("39:74:C9:17:87:9F".to_string()))
    );
    assert_eq!(
        m.get("OnBuild"),
        Some(&JsonVal::StrArr(vec!["".to_string()]))
    );
    assert_eq!(
        m.get("StopSignal"),
        Some(&JsonVal::Str("SIGSTOP".to_string()))
    );
    assert_eq!(m.get("Shell"), Some(&JsonVal::StrArr(vec!["".to_string()])));
    assert_eq!(
        m.get("Labels"),
        Some(&JsonVal::StrObj(vec![(
            "test".to_string(),
            "label".to_string()
        )]))
    );
    assert_eq!(
        m.get("HostConfig.PortBindings"),
        Some(&JsonVal::NullObj(vec![
            "22/tcp".to_string(),
            "443/tcp".to_string()
        ]))
    );
    assert_eq!(
        m.get("HostConfig.Binds"),
        Some(&JsonVal::NullObj(vec![
            "/home/host/path:/home/container/path".to_string()
        ]))
    );
    assert_eq!(m.get("HostConfig.Memory"), Some(&JsonVal::Int(1000000)));
    assert_eq!(
        m.get("HostConfig.NetworkMode"),
        Some(&JsonVal::Str("bridge".to_string()))
    );
}

#[test]
fn auth_opts_work() {
    let mut opts = AuthOpts::new();
    opts.username("user")
        .password("pass")
        .email("email@random.co")
        .server_address("http://0.0.0.0:666");

    let m = opts.opts();
    assert_eq!(m.len(), 4);
    assert_eq!(m.get("username"), Some(&JsonVal::Str("user".to_string())));
    assert_eq!(m.get("password"), Some(&JsonVal::Str("pass".to_string())));
    assert_eq!(
        m.get("email"),
        Some(&JsonVal::Str("email@random.co".to_string()))
    );
    assert_eq!(
        m.get("serveraddress"),
        Some(&JsonVal::Str("http://0.0.0.0:666".to_string()))
    );

    let serialized = opts.serialize().unwrap();
    let decoded = base64::decode(&serialized).unwrap();
    let deserialized: serde_json::Value =
        serde_json::from_str(std::str::from_utf8(&decoded).unwrap()).unwrap();
    assert_eq!(
        deserialized.get("username").and_then(|v| v.as_str()),
        Some("user")
    );
    assert_eq!(
        deserialized.get("password").and_then(|v| v.as_str()),
        Some("pass")
    );
    assert_eq!(
        deserialized.get("email").and_then(|v| v.as_str()),
        Some("email@random.co")
    );
    assert_eq!(
        deserialized.get("serveraddress").and_then(|v| v.as_str()),
        Some("http://0.0.0.0:666")
    );
}

#[test]
fn create_image_opts_work() {
    let mut opts = CreateImageOpts::new();
    opts.from_image("alpine").from_src("-").repo("repo").tag("tag");

    let m = opts.opts();
    assert_eq!(m.len(), 4);
    assert_eq!(m.get("fromImage"), Some(&JsonVal::Str("alpine".to_string())));
    assert_eq!(m.get("fromSrc"), Some(&JsonVal::Str("-".to_string())));
    assert_eq!(m.get("repo"), Some(&JsonVal::Str("repo".to_string())));
    assert_eq!(m.get("tag"), Some(&JsonVal::Str("tag".to_string())));
}

#[test]
fn exec_opts_work() {
    let mut opts = ExecOpts::new();
    opts.attach_stdin(false)
        .attach_stdout(true)
        .attach_stderr(true)
        .tty(true)
        .env(&["TEST=var".to_string()])
        .cmd(&["/bin/echo".to_string(), "this definitely works".to_string()])
        .privileged(false)
        .user("test_user")
        .working_dir("/tmp/dir");

    let m = opts.opts();
    assert_eq!(m.get("AttachStdin"), Some(&JsonVal::Bool(false)));
    assert_eq!(m.get("AttachStdout"), Some(&JsonVal::Bool(true)));
    assert_eq!(m.get("AttachStderr"), Some(&JsonVal::Bool(true)));
    assert_eq!(m.get("Tty"), Some(&JsonVal::Bool(true)));
    assert_eq!(
        m.get("Env"),
        Some(&JsonVal::StrArr(vec!["TEST=var".to_string()]))
    );
    assert_eq!(
        m.get("Cmd"),
        Some(&JsonVal::StrArr(vec![
            "/bin/echo".to_string(),
            "this definitely works".to_string()
        ]))
    );
    assert_eq!(m.get("Privileged"), Some(&JsonVal::Bool(false)));
    assert_eq!(m.get("User"), Some(&JsonVal::Str("test_user".to_string())));
    assert_eq!(
        m.get("WorkingDir"),
        Some(&JsonVal::Str("/tmp/dir".to_string()))
    );
}

#[test]
fn insert_replaces_a_present_key() {
    let mut opts = ListContainersOpts::new();
    opts.all(true);
    opts.all(false);
    let m = opts.opts();
    assert_eq!(m.len(), 1);
    assert_eq!(m.get("all"), Some(&JsonVal::Bool(false)));
}

#[test]
fn exec_opts_defaults_are_documented() {
    let opts = ExecOpts::new();
    assert!(!opts.tty_flag());
    assert!(opts.detach_flag());

    let mut set = ExecOpts::new();
    set.tty(true).detach(false);
    assert!(set.tty_flag());
    assert!(!set.detach_flag());
}
