//! Configuration builders for all operations.
//!
//! Each builder owns an ordered key/value map of the recognized options;
//! setters store one entry each, replacing a previous value of the same key.
//! The map renders either as a query string or as a JSON body.

use crate::codec::{b64_decode_of, b64_of, encode_base64};
use crate::json::{json_obj_of, lookup, query_of, spec_insert, JsonVal, JsonValV, OptsMap};
use vstd::prelude::*;
use vstd::string::*;
use vstd::utf8::encode_utf8;

verus! {

/// What every option builder offers: access to its entry map and the query
/// rendering of it.
pub trait DockerOpts {
    /// The entries the builder holds.
    spec fn opts_view(&self) -> Seq<(Seq<char>, JsonValV)>;

    /// The entry map.
    fn opts(&self) -> (m: &OptsMap)
        ensures
            m@ == self.opts_view(),
    ;

    /// The entries rendered as a query string.
    fn to_query(&self) -> (q: String)
        ensures
            q@ == query_of(self.opts_view()),
    ;
}

/// Options for uploading an archive into a container's filesystem.
#[derive(Debug, Clone, PartialEq)]
pub struct UploadArchiveOpts {
    opts: OptsMap,
}

impl View for UploadArchiveOpts {
    type V = Seq<(Seq<char>, JsonValV)>;

    closed spec fn view(&self) -> Seq<(Seq<char>, JsonValV)> {
        self.opts@
    }
}

impl DockerOpts for UploadArchiveOpts {
    open spec fn opts_view(&self) -> Seq<(Seq<char>, JsonValV)> {
        self@
    }

    fn opts(&self) -> (m: &OptsMap) {
        &self.opts
    }

    fn to_query(&self) -> (q: String) {
        self.opts.to_query()
    }
}

impl UploadArchiveOpts {
    /// Keys are unique.
    pub open spec fn wf(&self) -> bool {
        crate::json::keys_distinct(self@)
    }

    /// No options set.
    pub fn new() -> (r: Self)
        ensures
            r@ =~= Seq::<(Seq<char>, JsonValV)>::empty(),
            r.wf(),
    {
        UploadArchiveOpts { opts: OptsMap::new() }
    }

    /// Path to a directory in the container to extract the archive's
    /// contents into.
    pub fn path(&mut self, path: &str) -> (r: &mut Self)
        requires
            old(self).wf(),
        ensures
            r@ == spec_insert(old(self)@, "path"@, JsonValV::Str(path@)),
            r.wf(),
            *final(self) == *final(r),
    {
        self.opts.insert("path", JsonVal::Str(String::from_str(path)));
        self
    }

    /// When `1`, `true` or `True`, refuse to replace an existing directory
    /// with a non-directory and the other way round.
    pub fn no_overwrite(&mut self, no_overwrite: &str) -> (r: &mut Self)
        requires
            old(self).wf(),
        ensures
            r@ == spec_insert(old(self)@, "noOverwriteDirNonDir"@, JsonValV::Str(no_overwrite@)),
            r.wf(),
            *final(self) == *final(r),
    {
        self.opts.insert("noOverwriteDirNonDir", JsonVal::Str(String::from_str(no_overwrite)));
        self
    }

    /// When `1` or `true`, copy UID/GID maps to the destination file or
    /// directory.
    pub fn copy_uid_gid(&mut self, copy_uid_gid: &str) -> (r: &mut Self)
        requires
            old(self).wf(),
        ensures
            r@ == spec_insert(old(self)@, "copyUIDGID"@, JsonValV::Str(copy_uid_gid@)),
            r.wf(),
            *final(self) == *final(r),
    {
        self.opts.insert("copyUIDGID", JsonVal::Str(String::from_str(copy_uid_gid)));
        self
    }
}

/// Clones a slice of string slices into owned strings.
fn strs_to_vec(xs: &[&str]) -> (r: Vec<String>)
    ensures
        r.deep_view() == xs.deep_view(),
{
    let mut out: Vec<String> = Vec::new();
    let mut i: usize = 0;
    while i < xs.len()
        invariant
            i <= xs@.len(),
            out.deep_view() =~= xs.deep_view().take(i as int),
        decreases xs@.len() - i,
    {
        let ghost prev = out.deep_view();
        out.push(String::from_str(xs[i]));
        proof {
            assert(out.deep_view() =~= prev.push(xs@[i as int]@));
            assert(out.deep_view() =~= xs.deep_view().take(i + 1 as int));
        }
        i = i + 1;
    }
    proof {
        assert(xs.deep_view().take(xs@.len() as int) =~= xs.deep_view());
    }
    out
}

/// Clones a slice of owned strings.
fn strings_to_vec(xs: &[String]) -> (r: Vec<String>)
    ensures
        r.deep_view() == xs.deep_view(),
{
    let mut out: Vec<String> = Vec::new();
    let mut i: usize = 0;
    while i < xs.len()
        invariant
            i <= xs@.len(),
            out.deep_view() =~= xs.deep_view().take(i as int),
        decreases xs@.len() - i,
    {
        let ghost prev = out.deep_view();
        out.push(xs[i].clone());
        proof {
            assert(out.deep_view() =~= prev.push(xs@[i as int]@));
            assert(out.deep_view() =~= xs.deep_view().take(i + 1 as int));
        }
        i = i + 1;
    }
    proof {
        assert(xs.deep_view().take(xs@.len() as int) =~= xs.deep_view());
    }
    out
}

/// Clones a slice of string pairs into owned pairs.
fn pairs_to_vec(xs: &[(&str, &str)]) -> (r: Vec<(String, String)>)
    ensures
        r.deep_view() == xs.deep_view(),
{
    let mut out: Vec<(String, String)> = Vec::new();
    let mut i: usize = 0;
    while i < xs.len()
        invariant
            i <= xs@.len(),
            out.deep_view() =~= xs.deep_view().take(i as int),
        decreases xs@.len() - i,
    {
        let ghost prev = out.deep_view();
        let pair = xs[i];
        out.push((String::from_str(pair.0), String::from_str(pair.1)));
        proof {
            assert(out.deep_view() =~= prev.push((xs@[i as int].0@, xs@[i as int].1@)));
            assert(out.deep_view() =~= xs.deep_view().take(i + 1 as int));
        }
        i = i + 1;
    }
    proof {
        assert(xs.deep_view().take(xs@.len() as int) =~= xs.deep_view());
    }
    out
}

/// Options for listing containers.
#[derive(Debug, Clone, PartialEq)]
pub struct ListContainersOpts {
    opts: OptsMap,
}

impl View for ListContainersOpts {
    type V = Seq<(Seq<char>, JsonValV)>;

    closed spec fn view(&self) -> Seq<(Seq<char>, JsonValV)> {
        self.opts@
    }
}

impl DockerOpts for ListContainersOpts {
    open spec fn opts_view(&self) -> Seq<(Seq<char>, JsonValV)> {
        self@
    }

    fn opts(&self) -> (m: &OptsMap) {
        &self.opts
    }

    fn to_query(&self) -> (q: String) {
        self.opts.to_query()
    }
}

impl ListContainersOpts {
    /// Keys are unique.
    pub open spec fn wf(&self) -> bool {
        crate::json::keys_distinct(self@)
    }

    /// No options set.
    pub fn new() -> (r: Self)
        ensures
            r@ =~= Seq::<(Seq<char>, JsonValV)>::empty(),
            r.wf(),
    {
        ListContainersOpts { opts: OptsMap::new() }
    }

    /// Return all containers, not only the running ones.
    pub fn all(&mut self, all: bool) -> (r: &mut Self)
        requires
            old(self).wf(),
        ensures
            r@ == spec_insert(old(self)@, "all"@, JsonValV::Bool(all)),
            r.wf(),
            *final(self) == *final(r),
    {
        self.opts.insert("all", JsonVal::Bool(all));
        self
    }

    /// Return this number of most recently created containers, including
    /// non-running ones.
    pub fn limit(&mut self, limit: usize) -> (r: &mut Self)
        requires
            old(self).wf(),
        ensures
            r@ == spec_insert(old(self)@, "limit"@, JsonValV::UInt(limit as u64)),
            r.wf(),
            *final(self) == *final(r),
    {
        self.opts.insert("limit", JsonVal::UInt(limit as u64));
        self
    }

    /// Report the container's size fields.
    pub fn size(&mut self, size: bool) -> (r: &mut Self)
        requires
            old(self).wf(),
        ensures
            r@ == spec_insert(old(self)@, "size"@, JsonValV::Bool(size)),
            r.wf(),
            *final(self) == *final(r),
    {
        self.opts.insert("size", JsonVal::Bool(size));
        self
    }

    /// Filters on the container list, as the engine's JSON filter text.
    pub fn filters(&mut self, filters: &str) -> (r: &mut Self)
        requires
            old(self).wf(),
        ensures
            r@ == spec_insert(old(self)@, "filters"@, JsonValV::Str(filters@)),
            r.wf(),
            *final(self) == *final(r),
    {
        self.opts.insert("filters", JsonVal::Str(String::from_str(filters)));
        self
    }
}

/// Options for removing a container.
#[derive(Debug, Clone, PartialEq)]
pub struct RmContainerOpts {
    opts: OptsMap,
}

impl View for RmContainerOpts {
    type V = Seq<(Seq<char>, JsonValV)>;

    closed spec fn view(&self) -> Seq<(Seq<char>, JsonValV)> {
        self.opts@
    }
}

impl DockerOpts for RmContainerOpts {
    open spec fn opts_view(&self) -> Seq<(Seq<char>, JsonValV)> {
        self@
    }

    fn opts(&self) -> (m: &OptsMap) {
        &self.opts
    }

    fn to_query(&self) -> (q: String) {
        self.opts.to_query()
    }
}

impl RmContainerOpts {
    /// Keys are unique.
    pub open spec fn wf(&self) -> bool {
        crate::json::keys_distinct(self@)
    }

    /// No options set.
    pub fn new() -> (r: Self)
        ensures
            r@ =~= Seq::<(Seq<char>, JsonValV)>::empty(),
            r.wf(),
    {
        RmContainerOpts { opts: OptsMap::new() }
    }

    /// Remove the volumes associated with the container.
    pub fn volumes(&mut self, v: bool) -> (r: &mut Self)
        requires
            old(self).wf(),
        ensures
            r@ == spec_insert(old(self)@, "volumes"@, JsonValV::Bool(v)),
            r.wf(),
            *final(self) == *final(r),
    {
        self.opts.insert("volumes", JsonVal::Bool(v));
        self
    }

    /// Kill the container first when it is running.
    pub fn force(&mut self, force: bool) -> (r: &mut Self)
        requires
            old(self).wf(),
        ensures
            r@ == spec_insert(old(self)@, "force"@, JsonValV::Bool(force)),
            r.wf(),
            *final(self) == *final(r),
    {
        self.opts.insert("force", JsonVal::Bool(force));
        self
    }

    /// Remove the specified link associated with the container.
    pub fn link(&mut self, link: bool) -> (r: &mut Self)
        requires
            old(self).wf(),
        ensures
            r@ == spec_insert(old(self)@, "link"@, JsonValV::Bool(link)),
            r.wf(),
            *final(self) == *final(r),
    {
        self.opts.insert("link", JsonVal::Bool(link));
        self
    }
}

/// Options for reading a container's logs.
#[derive(Debug, Clone, PartialEq)]
pub struct ContainerLogsOpts {
    opts: OptsMap,
}

impl View for ContainerLogsOpts {
    type V = Seq<(Seq<char>, JsonValV)>;

    closed spec fn view(&self) -> Seq<(Seq<char>, JsonValV)> {
        self.opts@
    }
}

impl DockerOpts for ContainerLogsOpts {
    open spec fn opts_view(&self) -> Seq<(Seq<char>, JsonValV)> {
        self@
    }

    fn opts(&self) -> (m: &OptsMap) {
        &self.opts
    }

    fn to_query(&self) -> (q: String) {
        self.opts.to_query()
    }
}

impl ContainerLogsOpts {
    /// Keys are unique.
    pub open spec fn wf(&self) -> bool {
        crate::json::keys_distinct(self@)
    }

    /// No options set.
    pub fn new() -> (r: Self)
        ensures
            r@ =~= Seq::<(Seq<char>, JsonValV)>::empty(),
            r.wf(),
    {
        ContainerLogsOpts { opts: OptsMap::new() }
    }

    /// Keep the connection open after returning the logs.
    pub fn follow(&mut self, follow: bool) -> (r: &mut Self)
        requires
            old(self).wf(),
        ensures
            r@ == spec_insert(old(self)@, "follow"@, JsonValV::Bool(follow)),
            r.wf(),
            *final(self) == *final(r),
    {
        self.opts.insert("follow", JsonVal::Bool(follow));
        self
    }

    /// Return logs from stdout.
    pub fn stdout(&mut self, stdout: bool) -> (r: &mut Self)
        requires
            old(self).wf(),
        ensures
            r@ == spec_insert(old(self)@, "stdout"@, JsonValV::Bool(stdout)),
            r.wf(),
            *final(self) == *final(r),
    {
        self.opts.insert("stdout", JsonVal::Bool(stdout));
        self
    }

    /// Return logs from stderr.
    pub fn stderr(&mut self, stderr: bool) -> (r: &mut Self)
        requires
            old(self).wf(),
        ensures
            r@ == spec_insert(old(self)@, "stderr"@, JsonValV::Bool(stderr)),
            r.wf(),
            *final(self) == *final(r),
    {
        self.opts.insert("stderr", JsonVal::Bool(stderr));
        self
    }

    /// Only return logs since this time, as a UNIX timestamp.
    pub fn since(&mut self, since: u32) -> (r: &mut Self)
        requires
            old(self).wf(),
        ensures
            r@ == spec_insert(old(self)@, "since"@, JsonValV::UInt(since as u64)),
            r.wf(),
            *final(self) == *final(r),
    {
        self.opts.insert("since", JsonVal::UInt(since as u64));
        self
    }

    /// Only return logs before this time, as a UNIX timestamp.
    pub fn until(&mut self, until: u32) -> (r: &mut Self)
        requires
            old(self).wf(),
        ensures
            r@ == spec_insert(old(self)@, "until"@, JsonValV::UInt(until as u64)),
            r.wf(),
            *final(self) == *final(r),
    {
        self.opts.insert("until", JsonVal::UInt(until as u64));
        self
    }

    /// Add a timestamp to every log line.
    pub fn timestamps(&mut self, timestamps: bool) -> (r: &mut Self)
        requires
            old(self).wf(),
        ensures
            r@ == spec_insert(old(self)@, "timestamps"@, JsonValV::Bool(timestamps)),
            r.wf(),
            *final(self) == *final(r),
    {
        self.opts.insert("timestamps", JsonVal::Bool(timestamps));
        self
    }

    /// Only return this many log lines from the end of the logs.
    pub fn tail(&mut self, tail: String) -> (r: &mut Self)
        requires
            old(self).wf(),
        ensures
            r@ == spec_insert(old(self)@, "tail"@, JsonValV::Str(tail@)),
            r.wf(),
            *final(self) == *final(r),
    {
        self.opts.insert("tail", JsonVal::Str(tail));
        self
    }
}

/// Options for attaching to a container's standard streams.
#[derive(Debug, Clone, PartialEq)]
pub struct AttachOpts {
    opts: OptsMap,
}

impl View for AttachOpts {
    type V = Seq<(Seq<char>, JsonValV)>;

    closed spec fn view(&self) -> Seq<(Seq<char>, JsonValV)> {
        self.opts@
    }
}

impl DockerOpts for AttachOpts {
    open spec fn opts_view(&self) -> Seq<(Seq<char>, JsonValV)> {
        self@
    }

    fn opts(&self) -> (m: &OptsMap) {
        &self.opts
    }

    fn to_query(&self) -> (q: String) {
        self.opts.to_query()
    }
}

impl AttachOpts {
    /// Keys are unique.
    pub open spec fn wf(&self) -> bool {
        crate::json::keys_distinct(self@)
    }

    /// No options set.
    pub fn new() -> (r: Self)
        ensures
            r@ =~= Seq::<(Seq<char>, JsonValV)>::empty(),
            r.wf(),
    {
        AttachOpts { opts: OptsMap::new() }
    }

    /// Stream the attached output rather than returning it at once.
    pub fn stream(&mut self, stream: bool) -> (r: &mut Self)
        requires
            old(self).wf(),
        ensures
            r@ == spec_insert(old(self)@, "stream"@, JsonValV::Bool(stream)),
            r.wf(),
            *final(self) == *final(r),
    {
        self.opts.insert("stream", JsonVal::Bool(stream));
        self
    }

    /// Attach to stdin.
    pub fn stdin(&mut self, stdin: bool) -> (r: &mut Self)
        requires
            old(self).wf(),
        ensures
            r@ == spec_insert(old(self)@, "stdin"@, JsonValV::Bool(stdin)),
            r.wf(),
            *final(self) == *final(r),
    {
        self.opts.insert("stdin", JsonVal::Bool(stdin));
        self
    }

    /// Attach to stdout.
    pub fn stdout(&mut self, stdout: bool) -> (r: &mut Self)
        requires
            old(self).wf(),
        ensures
            r@ == spec_insert(old(self)@, "stdout"@, JsonValV::Bool(stdout)),
            r.wf(),
            *final(self) == *final(r),
    {
        self.opts.insert("stdout", JsonVal::Bool(stdout));
        self
    }

    /// Attach to stderr.
    pub fn stderr(&mut self, stderr: bool) -> (r: &mut Self)
        requires
            old(self).wf(),
        ensures
            r@ == spec_insert(old(self)@, "stderr"@, JsonValV::Bool(stderr)),
            r.wf(),
            *final(self) == *final(r),
    {
        self.opts.insert("stderr", JsonVal::Bool(stderr));
        self
    }

    /// Replay the logs kept so far before attaching.
    pub fn logs(&mut self, logs: bool) -> (r: &mut Self)
        requires
            old(self).wf(),
        ensures
            r@ == spec_insert(old(self)@, "logs"@, JsonValV::Bool(logs)),
            r.wf(),
            *final(self) == *final(r),
    {
        self.opts.insert("logs", JsonVal::Bool(logs));
        self
    }
}

/// Options for authenticating against a registry: the credentials record.
#[derive(Debug, PartialEq)]
pub struct AuthOpts {
    opts: OptsMap,
}

impl View for AuthOpts {
    type V = Seq<(Seq<char>, JsonValV)>;

    closed spec fn view(&self) -> Seq<(Seq<char>, JsonValV)> {
        self.opts@
    }
}

impl DockerOpts for AuthOpts {
    open spec fn opts_view(&self) -> Seq<(Seq<char>, JsonValV)> {
        self@
    }

    fn opts(&self) -> (m: &OptsMap) {
        &self.opts
    }

    fn to_query(&self) -> (q: String) {
        self.opts.to_query()
    }
}

impl Clone for AuthOpts {
    /// The clone keeps every credential field.
    fn clone(&self) -> (r: Self)
        ensures
            r@ == self@,
    {
        AuthOpts { opts: self.opts.clone() }
    }
}

impl AuthOpts {
    /// Keys are unique.
    pub open spec fn wf(&self) -> bool {
        crate::json::keys_distinct(self@)
    }

    /// No credentials set.
    pub fn new() -> (r: Self)
        ensures
            r@ =~= Seq::<(Seq<char>, JsonValV)>::empty(),
            r.wf(),
    {
        AuthOpts { opts: OptsMap::new() }
    }

    /// The account name.
    pub fn username(&mut self, username: &str) -> (r: &mut Self)
        requires
            old(self).wf(),
        ensures
            r@ == spec_insert(old(self)@, "username"@, JsonValV::Str(username@)),
            r.wf(),
            *final(self) == *final(r),
    {
        self.opts.insert("username", JsonVal::Str(String::from_str(username)));
        self
    }

    /// The account password.
    pub fn password(&mut self, password: &str) -> (r: &mut Self)
        requires
            old(self).wf(),
        ensures
            r@ == spec_insert(old(self)@, "password"@, JsonValV::Str(password@)),
            r.wf(),
            *final(self) == *final(r),
    {
        self.opts.insert("password", JsonVal::Str(String::from_str(password)));
        self
    }

    /// The account email.
    pub fn email(&mut self, email: &str) -> (r: &mut Self)
        requires
            old(self).wf(),
        ensures
            r@ == spec_insert(old(self)@, "email"@, JsonValV::Str(email@)),
            r.wf(),
            *final(self) == *final(r),
    {
        self.opts.insert("email", JsonVal::Str(String::from_str(email)));
        self
    }

    /// The registry's address.
    pub fn server_address(&mut self, server_address: &str) -> (r: &mut Self)
        requires
            old(self).wf(),
        ensures
            r@ == spec_insert(old(self)@, "serveraddress"@, JsonValV::Str(server_address@)),
            r.wf(),
            *final(self) == *final(r),
    {
        self.opts.insert("serveraddress", JsonVal::Str(String::from_str(server_address)));
        self
    }

    /// The JSON text of the credentials record: what an authentication call
    /// posts as its body.
    pub fn body_json(&self) -> (r: String)
        ensures
            r@ == json_obj_of(self@),
    {
        self.opts.to_json()
    }

    /// The header encoding of the same credentials record: the base64 of the
    /// very JSON text that [`Self::body_json`] posts, so decoding the header
    /// blob yields the posted body byte for byte.
    pub fn serialize(&self) -> (r: Result<String, crate::resolve::EngineError>)
        ensures
            r matches Ok(s) && s@ == b64_of(encode_utf8(json_obj_of(self@))),
            r matches Ok(s) && b64_decode_of(s@) == Some(encode_utf8(json_obj_of(self@))),
    {
        let json = self.opts.to_json();
        let bytes = json.as_str().as_bytes_vec();
        Ok(encode_base64(&bytes))
    }
}

/// Options for executing a command inside a running container.
#[derive(Debug, Clone, PartialEq)]
pub struct ExecOpts {
    opts: OptsMap,
}

impl View for ExecOpts {
    type V = Seq<(Seq<char>, JsonValV)>;

    closed spec fn view(&self) -> Seq<(Seq<char>, JsonValV)> {
        self.opts@
    }
}

impl DockerOpts for ExecOpts {
    open spec fn opts_view(&self) -> Seq<(Seq<char>, JsonValV)> {
        self@
    }

    fn opts(&self) -> (m: &OptsMap) {
        &self.opts
    }

    fn to_query(&self) -> (q: String) {
        self.opts.to_query()
    }
}

impl ExecOpts {
    /// Keys are unique.
    pub open spec fn wf(&self) -> bool {
        crate::json::keys_distinct(self@)
    }

    /// No options set.
    pub fn new() -> (r: Self)
        ensures
            r@ =~= Seq::<(Seq<char>, JsonValV)>::empty(),
            r.wf(),
    {
        ExecOpts { opts: OptsMap::new() }
    }

    /// Attach to stdin of the exec command.
    pub fn attach_stdin(&mut self, attach: bool) -> (r: &mut Self)
        requires
            old(self).wf(),
        ensures
            r@ == spec_insert(old(self)@, "AttachStdin"@, JsonValV::Bool(attach)),
            r.wf(),
            *final(self) == *final(r),
    {
        self.opts.insert("AttachStdin", JsonVal::Bool(attach));
        self
    }

    /// Attach to stdout of the exec command.
    pub fn attach_stdout(&mut self, attach: bool) -> (r: &mut Self)
        requires
            old(self).wf(),
        ensures
            r@ == spec_insert(old(self)@, "AttachStdout"@, JsonValV::Bool(attach)),
            r.wf(),
            *final(self) == *final(r),
    {
        self.opts.insert("AttachStdout", JsonVal::Bool(attach));
        self
    }

    /// Attach to stderr of the exec command.
    pub fn attach_stderr(&mut self, attach: bool) -> (r: &mut Self)
        requires
            old(self).wf(),
        ensures
            r@ == spec_insert(old(self)@, "AttachStderr"@, JsonValV::Bool(attach)),
            r.wf(),
            *final(self) == *final(r),
    {
        self.opts.insert("AttachStderr", JsonVal::Bool(attach));
        self
    }

    /// Detach from the command.
    pub fn detach(&mut self, detach: bool) -> (r: &mut Self)
        requires
            old(self).wf(),
        ensures
            r@ == spec_insert(old(self)@, "detach"@, JsonValV::Bool(detach)),
            r.wf(),
            *final(self) == *final(r),
    {
        self.opts.insert("detach", JsonVal::Bool(detach));
        self
    }

    /// Allocate a pseudo-TTY.
    pub fn tty(&mut self, tty: bool) -> (r: &mut Self)
        requires
            old(self).wf(),
        ensures
            r@ == spec_insert(old(self)@, "Tty"@, JsonValV::Bool(tty)),
            r.wf(),
            *final(self) == *final(r),
    {
        self.opts.insert("Tty", JsonVal::Bool(tty));
        self
    }

    /// Environment variables, each in the form `VAR=value`.
    pub fn env(&mut self, env: &[String]) -> (r: &mut Self)
        requires
            old(self).wf(),
        ensures
            r@ == spec_insert(old(self)@, "Env"@, JsonValV::StrArr(env.deep_view())),
            r.wf(),
            *final(self) == *final(r),
    {
        self.opts.insert("Env", JsonVal::StrArr(strings_to_vec(env)));
        self
    }

    /// The command to run, as an array of strings.
    pub fn cmd(&mut self, cmd: &[String]) -> (r: &mut Self)
        requires
            old(self).wf(),
        ensures
            r@ == spec_insert(old(self)@, "Cmd"@, JsonValV::StrArr(cmd.deep_view())),
            r.wf(),
            *final(self) == *final(r),
    {
        self.opts.insert("Cmd", JsonVal::StrArr(strings_to_vec(cmd)));
        self
    }

    /// Run the exec process with extended privileges.
    pub fn privileged(&mut self, allow: bool) -> (r: &mut Self)
        requires
            old(self).wf(),
        ensures
            r@ == spec_insert(old(self)@, "Privileged"@, JsonValV::Bool(allow)),
            r.wf(),
            *final(self) == *final(r),
    {
        self.opts.insert("Privileged", JsonVal::Bool(allow));
        self
    }

    /// The user, and optionally group, to run the exec process as.
    pub fn user(&mut self, user: &str) -> (r: &mut Self)
        requires
            old(self).wf(),
        ensures
            r@ == spec_insert(old(self)@, "User"@, JsonValV::Str(user@)),
            r.wf(),
            *final(self) == *final(r),
    {
        self.opts.insert("User", JsonVal::Str(String::from_str(user)));
        self
    }

    /// The working directory for the exec process inside the container.
    pub fn working_dir(&mut self, dir: &str) -> (r: &mut Self)
        requires
            old(self).wf(),
        ensures
            r@ == spec_insert(old(self)@, "WorkingDir"@, JsonValV::Str(dir@)),
            r.wf(),
            *final(self) == *final(r),
    {
        self.opts.insert("WorkingDir", JsonVal::Str(String::from_str(dir)));
        self
    }

    /// Whether a pseudo-TTY was requested; `false` when unset.
    pub fn tty_flag(&self) -> (r: bool)
        requires
            self.wf(),
        ensures
            r == (match lookup(self@, "Tty"@) {
                Some(JsonValV::Bool(b)) => b,
                _ => false,
            }),
    {
        match self.opts.get("Tty") {
            Some(JsonVal::Bool(b)) => *b,
            _ => false,
        }
    }

    /// Whether the caller detaches from the command; `true` when unset: a
    /// plain exec runs detached unless attachment was asked for.
    pub fn detach_flag(&self) -> (r: bool)
        requires
            self.wf(),
        ensures
            r == (match lookup(self@, "detach"@) {
                Some(JsonValV::Bool(b)) => b,
                _ => true,
            }),
    {
        match self.opts.get("detach") {
            Some(JsonVal::Bool(b)) => *b,
            _ => true,
        }
    }
}

/// Options for building a container.
#[derive(Debug, Clone, PartialEq)]
pub struct ContainerBuilderOpts {
    opts: OptsMap,
}

impl View for ContainerBuilderOpts {
    type V = Seq<(Seq<char>, JsonValV)>;

    closed spec fn view(&self) -> Seq<(Seq<char>, JsonValV)> {
        self.opts@
    }
}

impl DockerOpts for ContainerBuilderOpts {
    open spec fn opts_view(&self) -> Seq<(Seq<char>, JsonValV)> {
        self@
    }

    fn opts(&self) -> (m: &OptsMap) {
        &self.opts
    }

    fn to_query(&self) -> (q: String) {
        self.opts.to_query()
    }
}

impl ContainerBuilderOpts {
    /// Keys are unique.
    pub open spec fn wf(&self) -> bool {
        crate::json::keys_distinct(self@)
    }

    /// No options set.
    pub fn new() -> (r: Self)
        ensures
            r@ =~= Seq::<(Seq<char>, JsonValV)>::empty(),
            r.wf(),
    {
        ContainerBuilderOpts { opts: OptsMap::new() }
    }

    /// The hostname to use for the container.
    pub fn hostname(&mut self, hostname: &str) -> (r: &mut Self)
        requires
            old(self).wf(),
        ensures
            r@ == spec_insert(old(self)@, "Hostname"@, JsonValV::Str(hostname@)),
            r.wf(),
            *final(self) == *final(r),
    {
        self.opts.insert("Hostname", JsonVal::Str(String::from_str(hostname)));
        self
    }

    /// The domain name to use for the container.
    pub fn domain_name(&mut self, domain_name: &str) -> (r: &mut Self)
        requires
            old(self).wf(),
        ensures
            r@ == spec_insert(old(self)@, "DomainName"@, JsonValV::Str(domain_name@)),
            r.wf(),
            *final(self) == *final(r),
    {
        self.opts.insert("DomainName", JsonVal::Str(String::from_str(domain_name)));
        self
    }

    /// The user that commands run as inside the container.
    pub fn user(&mut self, user: &str) -> (r: &mut Self)
        requires
            old(self).wf(),
        ensures
            r@ == spec_insert(old(self)@, "User"@, JsonValV::Str(user@)),
            r.wf(),
            *final(self) == *final(r),
    {
        self.opts.insert("User", JsonVal::Str(String::from_str(user)));
        self
    }

    /// Whether to attach to stdin.
    pub fn attach_stdin(&mut self, attach: bool) -> (r: &mut Self)
        requires
            old(self).wf(),
        ensures
            r@ == spec_insert(old(self)@, "AttachStdin"@, JsonValV::Bool(attach)),
            r.wf(),
            *final(self) == *final(r),
    {
        self.opts.insert("AttachStdin", JsonVal::Bool(attach));
        self
    }

    /// Whether to attach to stdout.
    pub fn attach_stdout(&mut self, attach: bool) -> (r: &mut Self)
        requires
            old(self).wf(),
        ensures
            r@ == spec_insert(old(self)@, "AttachStdout"@, JsonValV::Bool(attach)),
            r.wf(),
            *final(self) == *final(r),
    {
        self.opts.insert("AttachStdout", JsonVal::Bool(attach));
        self
    }

    /// Whether to attach to stderr.
    pub fn attach_stderr(&mut self, attach: bool) -> (r: &mut Self)
        requires
            old(self).wf(),
        ensures
            r@ == spec_insert(old(self)@, "AttachStderr"@, JsonValV::Bool(attach)),
            r.wf(),
            *final(self) == *final(r),
    {
        self.opts.insert("AttachStderr", JsonVal::Bool(attach));
        self
    }

    /// Attach the standard streams to a TTY.
    pub fn tty(&mut self, tty: bool) -> (r: &mut Self)
        requires
            old(self).wf(),
        ensures
            r@ == spec_insert(old(self)@, "Tty"@, JsonValV::Bool(tty)),
            r.wf(),
            *final(self) == *final(r),
    {
        self.opts.insert("Tty", JsonVal::Bool(tty));
        self
    }

    /// Open stdin.
    pub fn open_stdin(&mut self, open: bool) -> (r: &mut Self)
        requires
            old(self).wf(),
        ensures
            r@ == spec_insert(old(self)@, "OpenStdin"@, JsonValV::Bool(open)),
            r.wf(),
            *final(self) == *final(r),
    {
        self.opts.insert("OpenStdin", JsonVal::Bool(open));
        self
    }

    /// Close stdin after one attached client disconnects.
    pub fn stdin_once(&mut self, stdin_once: bool) -> (r: &mut Self)
        requires
            old(self).wf(),
        ensures
            r@ == spec_insert(old(self)@, "StdinOnce"@, JsonValV::Bool(stdin_once)),
            r.wf(),
            *final(self) == *final(r),
    {
        self.opts.insert("StdinOnce", JsonVal::Bool(stdin_once));
        self
    }

    /// Environment variables to set inside the container, each in the form
    /// `VAR=value`.
    pub fn env(&mut self, env: &[&str]) -> (r: &mut Self)
        requires
            old(self).wf(),
        ensures
            r@ == spec_insert(old(self)@, "Env"@, JsonValV::StrArr(env.deep_view())),
            r.wf(),
            *final(self) == *final(r),
    {
        self.opts.insert("Env", JsonVal::StrArr(strs_to_vec(env)));
        self
    }

    /// The command to run, as an array of strings.
    pub fn cmd(&mut self, cmd: &[&str]) -> (r: &mut Self)
        requires
            old(self).wf(),
        ensures
            r@ == spec_insert(old(self)@, "Cmd"@, JsonValV::StrArr(cmd.deep_view())),
            r.wf(),
            *final(self) == *final(r),
    {
        self.opts.insert("Cmd", JsonVal::StrArr(strs_to_vec(cmd)));
        self
    }

    /// The command is already escaped (Windows only).
    pub fn args_escaped(&mut self, escaped: bool) -> (r: &mut Self)
        requires
            old(self).wf(),
        ensures
            r@ == spec_insert(old(self)@, "ArgsEscaped"@, JsonValV::Bool(escaped)),
            r.wf(),
            *final(self) == *final(r),
    {
        self.opts.insert("ArgsEscaped", JsonVal::Bool(escaped));
        self
    }

    /// The name of the image to create the container from.
    pub fn image(&mut self, image: &str) -> (r: &mut Self)
        requires
            old(self).wf(),
        ensures
            r@ == spec_insert(old(self)@, "Image"@, JsonValV::Str(image@)),
            r.wf(),
            *final(self) == *final(r),
    {
        self.opts.insert("Image", JsonVal::Str(String::from_str(image)));
        self
    }

    /// The working directory for commands to run in.
    pub fn working_dir(&mut self, dir: &str) -> (r: &mut Self)
        requires
            old(self).wf(),
        ensures
            r@ == spec_insert(old(self)@, "WorkingDir"@, JsonValV::Str(dir@)),
            r.wf(),
            *final(self) == *final(r),
    {
        self.opts.insert("WorkingDir", JsonVal::Str(String::from_str(dir)));
        self
    }

    /// The entry point for the container, as an array of strings; an array
    /// of exactly one empty string resets it to the system default.
    pub fn entrypoint(&mut self, entrypoint: &[&str]) -> (r: &mut Self)
        requires
            old(self).wf(),
        ensures
            r@ == spec_insert(old(self)@, "Entrypoint"@, JsonValV::StrArr(entrypoint.deep_view())),
            r.wf(),
            *final(self) == *final(r),
    {
        self.opts.insert("Entrypoint", JsonVal::StrArr(strs_to_vec(entrypoint)));
        self
    }

    /// Disable networking for the container.
    pub fn network_disabled(&mut self, disabled: bool) -> (r: &mut Self)
        requires
            old(self).wf(),
        ensures
            r@ == spec_insert(old(self)@, "NetworkDisabled"@, JsonValV::Bool(disabled)),
            r.wf(),
            *final(self) == *final(r),
    {
        self.opts.insert("NetworkDisabled", JsonVal::Bool(disabled));
        self
    }

    /// The MAC address of the container.
    pub fn mac_address(&mut self, addr: &str) -> (r: &mut Self)
        requires
            old(self).wf(),
        ensures
            r@ == spec_insert(old(self)@, "MacAddress"@, JsonValV::Str(addr@)),
            r.wf(),
            *final(self) == *final(r),
    {
        self.opts.insert("MacAddress", JsonVal::Str(String::from_str(addr)));
        self
    }

    /// ONBUILD metadata defined in the image's build file.
    pub fn on_build(&mut self, md: &[&str]) -> (r: &mut Self)
        requires
            old(self).wf(),
        ensures
            r@ == spec_insert(old(self)@, "OnBuild"@, JsonValV::StrArr(md.deep_view())),
            r.wf(),
            *final(self) == *final(r),
    {
        self.opts.insert("OnBuild", JsonVal::StrArr(strs_to_vec(md)));
        self
    }

    /// The signal used to stop the container.
    pub fn stop_signal(&mut self, signal: &str) -> (r: &mut Self)
        requires
            old(self).wf(),
        ensures
            r@ == spec_insert(old(self)@, "StopSignal"@, JsonValV::Str(signal@)),
            r.wf(),
            *final(self) == *final(r),
    {
        self.opts.insert("StopSignal", JsonVal::Str(String::from_str(signal)));
        self
    }

    /// The timeout to stop the container, in seconds.
    pub fn stop_timeout(&mut self, timeout: i64) -> (r: &mut Self)
        requires
            old(self).wf(),
        ensures
            r@ == spec_insert(old(self)@, "StopTimeout"@, JsonValV::Int(timeout)),
            r.wf(),
            *final(self) == *final(r),
    {
        self.opts.insert("StopTimeout", JsonVal::Int(timeout));
        self
    }

    /// The shell used when RUN, CMD and ENTRYPOINT need one.
    pub fn shell(&mut self, s: &[&str]) -> (r: &mut Self)
        requires
            old(self).wf(),
        ensures
            r@ == spec_insert(old(self)@, "Shell"@, JsonValV::StrArr(s.deep_view())),
            r.wf(),
            *final(self) == *final(r),
    {
        self.opts.insert("Shell", JsonVal::StrArr(strs_to_vec(s)));
        self
    }

    /// Port bindings, each in the form `port/<tcp|udp|sctp>`.
    pub fn exposed_ports(&mut self, ports: &[&str]) -> (r: &mut Self)
        requires
            old(self).wf(),
        ensures
            r@ == spec_insert(
                old(self)@,
                "HostConfig.PortBindings"@,
                JsonValV::NullObj(ports.deep_view()),
            ),
            r.wf(),
            *final(self) == *final(r),
    {
        self.opts.insert("HostConfig.PortBindings", JsonVal::NullObj(strs_to_vec(ports)));
        self
    }

    /// Mounts into the container, each in the form
    /// `/host/path:/container/path`.
    pub fn volumes(&mut self, mounts: &[&str]) -> (r: &mut Self)
        requires
            old(self).wf(),
        ensures
            r@ == spec_insert(
                old(self)@,
                "HostConfig.Binds"@,
                JsonValV::NullObj(mounts.deep_view()),
            ),
            r.wf(),
            *final(self) == *final(r),
    {
        self.opts.insert("HostConfig.Binds", JsonVal::NullObj(strs_to_vec(mounts)));
        self
    }

    /// User-defined key/value metadata.
    pub fn labels(&mut self, labels: &[(&str, &str)]) -> (r: &mut Self)
        requires
            old(self).wf(),
        ensures
            r@ == spec_insert(old(self)@, "Labels"@, JsonValV::StrObj(labels.deep_view())),
            r.wf(),
            *final(self) == *final(r),
    {
        self.opts.insert("Labels", JsonVal::StrObj(pairs_to_vec(labels)));
        self
    }

    /// The memory limit, in bytes.
    pub fn memory(&mut self, limit: i64) -> (r: &mut Self)
        requires
            old(self).wf(),
        ensures
            r@ == spec_insert(old(self)@, "HostConfig.Memory"@, JsonValV::Int(limit)),
            r.wf(),
            *final(self) == *final(r),
    {
        self.opts.insert("HostConfig.Memory", JsonVal::Int(limit));
        self
    }

    /// The network mode: `bridge`, `host`, `none`, `container:<name|id>`, or
    /// a custom network's name.
    pub fn network_mode(&mut self, mode: &str) -> (r: &mut Self)
        requires
            old(self).wf(),
        ensures
            r@ == spec_insert(old(self)@, "HostConfig.NetworkMode"@, JsonValV::Str(mode@)),
            r.wf(),
            *final(self) == *final(r),
    {
        self.opts.insert("HostConfig.NetworkMode", JsonVal::Str(String::from_str(mode)));
        self
    }
}

/// Options for building an image.
#[derive(Debug, Clone, PartialEq)]
pub struct ImageBuilderOpts {
    opts: OptsMap,
}

impl View for ImageBuilderOpts {
    type V = Seq<(Seq<char>, JsonValV)>;

    closed spec fn view(&self) -> Seq<(Seq<char>, JsonValV)> {
        self.opts@
    }
}

impl DockerOpts for ImageBuilderOpts {
    open spec fn opts_view(&self) -> Seq<(Seq<char>, JsonValV)> {
        self@
    }

    fn opts(&self) -> (m: &OptsMap) {
        &self.opts
    }

    fn to_query(&self) -> (q: String) {
        self.opts.to_query()
    }
}

impl Default for ImageBuilderOpts {
    /// No options set.
    fn default() -> (r: Self)
        ensures
            r@ =~= Seq::<(Seq<char>, JsonValV)>::empty(),
            r.wf(),
    {
        ImageBuilderOpts { opts: OptsMap::new() }
    }
}

impl ImageBuilderOpts {
    /// Keys are unique.
    pub open spec fn wf(&self) -> bool {
        crate::json::keys_distinct(self@)
    }

    /// No options set.
    pub fn new() -> (r: Self)
        ensures
            r@ =~= Seq::<(Seq<char>, JsonValV)>::empty(),
            r.wf(),
    {
        ImageBuilderOpts { opts: OptsMap::new() }
    }

    /// The path of the build file within the build context.
    pub fn dockerfile(&mut self, path: String) -> (r: &mut Self)
        requires
            old(self).wf(),
        ensures
            r@ == spec_insert(old(self)@, "dockerfile"@, JsonValV::Str(path@)),
            r.wf(),
            *final(self) == *final(r),
    {
        self.opts.insert("dockerfile", JsonVal::Str(path));
        self
    }

    /// A name and optional tag for the image, in `name:tag` form.
    pub fn name(&mut self, name: String) -> (r: &mut Self)
        requires
            old(self).wf(),
        ensures
            r@ == spec_insert(old(self)@, "t"@, JsonValV::Str(name@)),
            r.wf(),
            *final(self) == *final(r),
    {
        self.opts.insert("t", JsonVal::Str(name));
        self
    }

    /// A Git repository URI or HTTP/HTTPS context URI to build from.
    pub fn remote(&mut self, repo: &str) -> (r: &mut Self)
        requires
            old(self).wf(),
        ensures
            r@ == spec_insert(old(self)@, "remote"@, JsonValV::Str(repo@)),
            r.wf(),
            *final(self) == *final(r),
    {
        self.opts.insert("remote", JsonVal::Str(String::from_str(repo)));
        self
    }

    /// Extra hosts to add to the container's hosts file.
    pub fn extra_hosts(&mut self, hosts: String) -> (r: &mut Self)
        requires
            old(self).wf(),
        ensures
            r@ == spec_insert(old(self)@, "extrahosts"@, JsonValV::Str(hosts@)),
            r.wf(),
            *final(self) == *final(r),
    {
        self.opts.insert("extrahosts", JsonVal::Str(hosts));
        self
    }

    /// Suppress verbose build output.
    pub fn quiet(&mut self, q: bool) -> (r: &mut Self)
        requires
            old(self).wf(),
        ensures
            r@ == spec_insert(old(self)@, "q"@, JsonValV::Bool(q)),
            r.wf(),
            *final(self) == *final(r),
    {
        self.opts.insert("q", JsonVal::Bool(q));
        self
    }

    /// Do not use the cache when building the image.
    pub fn no_cache(&mut self, no_cache: bool) -> (r: &mut Self)
        requires
            old(self).wf(),
        ensures
            r@ == spec_insert(old(self)@, "no_cache"@, JsonValV::Bool(no_cache)),
            r.wf(),
            *final(self) == *final(r),
    {
        self.opts.insert("no_cache", JsonVal::Bool(no_cache));
        self
    }

    /// Remove intermediate containers after a successful build.
    pub fn rm(&mut self, rm: bool) -> (r: &mut Self)
        requires
            old(self).wf(),
        ensures
            r@ == spec_insert(old(self)@, "rm"@, JsonValV::Bool(rm)),
            r.wf(),
            *final(self) == *final(r),
    {
        self.opts.insert("rm", JsonVal::Bool(rm));
        self
    }

    /// Always remove intermediate containers, even upon failure.
    pub fn forcerm(&mut self, force: bool) -> (r: &mut Self)
        requires
            old(self).wf(),
        ensures
            r@ == spec_insert(old(self)@, "forcerm"@, JsonValV::Bool(force)),
            r.wf(),
            *final(self) == *final(r),
    {
        self.opts.insert("forcerm", JsonVal::Bool(force));
        self
    }

    /// The memory limit for the build.
    pub fn memory(&mut self, limit: u64) -> (r: &mut Self)
        requires
            old(self).wf(),
        ensures
            r@ == spec_insert(old(self)@, "memory"@, JsonValV::UInt(limit)),
            r.wf(),
            *final(self) == *final(r),
    {
        self.opts.insert("memory", JsonVal::UInt(limit));
        self
    }

    /// Total memory including swap.
    pub fn mem_swap(&mut self, swap: u64) -> (r: &mut Self)
        requires
            old(self).wf(),
        ensures
            r@ == spec_insert(old(self)@, "memswap"@, JsonValV::UInt(swap)),
            r.wf(),
            *final(self) == *final(r),
    {
        self.opts.insert("memswap", JsonVal::UInt(swap));
        self
    }

    /// CPU shares (relative weight).
    pub fn cpu_shares(&mut self, shares: u64) -> (r: &mut Self)
        requires
            old(self).wf(),
        ensures
            r@ == spec_insert(old(self)@, "cpushares"@, JsonValV::UInt(shares)),
            r.wf(),
            *final(self) == *final(r),
    {
        self.opts.insert("cpushares", JsonVal::UInt(shares));
        self
    }

    /// The CPUs in which to allow execution, as a list or range text.
    pub fn cpusetcpus(&mut self, setcpus: String) -> (r: &mut Self)
        requires
            old(self).wf(),
        ensures
            r@ == spec_insert(old(self)@, "cpusetcpus"@, JsonValV::Str(setcpus@)),
            r.wf(),
            *final(self) == *final(r),
    {
        self.opts.insert("cpusetcpus", JsonVal::Str(setcpus));
        self
    }

    /// The length of a CPU period, in microseconds.
    pub fn cpu_period(&mut self, period: u64) -> (r: &mut Self)
        requires
            old(self).wf(),
        ensures
            r@ == spec_insert(old(self)@, "cpuperiod"@, JsonValV::UInt(period)),
            r.wf(),
            *final(self) == *final(r),
    {
        self.opts.insert("cpuperiod", JsonVal::UInt(period));
        self
    }

    /// Microseconds of CPU time the container can get in a CPU period.
    pub fn cpu_quota(&mut self, quota: u64) -> (r: &mut Self)
        requires
            old(self).wf(),
        ensures
            r@ == spec_insert(old(self)@, "cpuquota"@, JsonValV::UInt(quota)),
            r.wf(),
            *final(self) == *final(r),
    {
        self.opts.insert("cpuquota", JsonVal::UInt(quota));
        self
    }

    /// Build-time variables, used as the environment of RUN instructions.
    pub fn build_args(&mut self, args: &[(&str, &str)]) -> (r: &mut Self)
        requires
            old(self).wf(),
        ensures
            r@ == spec_insert(old(self)@, "build_args"@, JsonValV::StrObj(args.deep_view())),
            r.wf(),
            *final(self) == *final(r),
    {
        self.opts.insert("build_args", JsonVal::StrObj(pairs_to_vec(args)));
        self
    }

    /// The size of the shared-memory filesystem, in bytes.
    pub fn shmsize(&mut self, size: u64) -> (r: &mut Self)
        requires
            old(self).wf(),
        ensures
            r@ == spec_insert(old(self)@, "shmsize"@, JsonValV::UInt(size)),
            r.wf(),
            *final(self) == *final(r),
    {
        self.opts.insert("shmsize", JsonVal::UInt(size));
        self
    }

    /// Arbitrary key/value labels to set on the image.
    pub fn labels(&mut self, labels: &[(&str, &str)]) -> (r: &mut Self)
        requires
            old(self).wf(),
        ensures
            r@ == spec_insert(old(self)@, "labels"@, JsonValV::StrObj(labels.deep_view())),
            r.wf(),
            *final(self) == *final(r),
    {
        self.opts.insert("labels", JsonVal::StrObj(pairs_to_vec(labels)));
        self
    }

    /// The networking mode for the RUN instructions during build.
    pub fn network_mode(&mut self, mode: &str) -> (r: &mut Self)
        requires
            old(self).wf(),
        ensures
            r@ == spec_insert(old(self)@, "networkmode"@, JsonValV::Str(mode@)),
            r.wf(),
            *final(self) == *final(r),
    {
        self.opts.insert("networkmode", JsonVal::Str(String::from_str(mode)));
        self
    }

    /// The platform, in `os[/arch[/variant]]` form.
    pub fn platform(&mut self, p: &str) -> (r: &mut Self)
        requires
            old(self).wf(),
        ensures
            r@ == spec_insert(old(self)@, "platform"@, JsonValV::Str(p@)),
            r.wf(),
            *final(self) == *final(r),
    {
        self.opts.insert("platform", JsonVal::Str(String::from_str(p)));
        self
    }

    /// The target build stage.
    pub fn target(&mut self, t: &str) -> (r: &mut Self)
        requires
            old(self).wf(),
        ensures
            r@ == spec_insert(old(self)@, "target"@, JsonValV::Str(t@)),
            r.wf(),
            *final(self) == *final(r),
    {
        self.opts.insert("target", JsonVal::Str(String::from_str(t)));
        self
    }
}

/// Options for creating an image, by pull or by import, together with the
/// registry credentials a pull may need.
#[derive(Debug, Clone, PartialEq)]
pub struct CreateImageOpts {
    opts: OptsMap,
    auth: AuthOpts,
}

impl View for CreateImageOpts {
    type V = Seq<(Seq<char>, JsonValV)>;

    closed spec fn view(&self) -> Seq<(Seq<char>, JsonValV)> {
        self.opts@
    }
}

impl DockerOpts for CreateImageOpts {
    open spec fn opts_view(&self) -> Seq<(Seq<char>, JsonValV)> {
        self@
    }

    fn opts(&self) -> (m: &OptsMap) {
        &self.opts
    }

    fn to_query(&self) -> (q: String) {
        self.opts.to_query()
    }
}

impl CreateImageOpts {
    /// The credentials record the pull sends along.
    pub closed spec fn auth_view(&self) -> Seq<(Seq<char>, JsonValV)> {
        self.auth@
    }

    /// Keys are unique, in the options and in the credentials.
    pub open spec fn wf(&self) -> bool {
        crate::json::keys_distinct(self@) && crate::json::keys_distinct(self.auth_view())
    }

    /// No options set, no credentials.
    pub fn new() -> (r: Self)
        ensures
            r@ =~= Seq::<(Seq<char>, JsonValV)>::empty(),
            r.auth_view() =~= Seq::<(Seq<char>, JsonValV)>::empty(),
            r.wf(),
    {
        CreateImageOpts { opts: OptsMap::new(), auth: AuthOpts::new() }
    }

    /// The name of the image to pull, optionally with a tag or digest.
    pub fn from_image(&mut self, from_image: &str) -> (r: &mut Self)
        requires
            old(self).wf(),
        ensures
            r@ == spec_insert(old(self)@, "fromImage"@, JsonValV::Str(from_image@)),
            r.auth_view() == old(self).auth_view(),
            r.wf(),
            *final(self) == *final(r),
    {
        self.opts.insert("fromImage", JsonVal::Str(String::from_str(from_image)));
        self
    }

    /// The source to import: a URL, or `-` for the request body.
    pub fn from_src(&mut self, from_src: &str) -> (r: &mut Self)
        requires
            old(self).wf(),
        ensures
            r@ == spec_insert(old(self)@, "fromSrc"@, JsonValV::Str(from_src@)),
            r.auth_view() == old(self).auth_view(),
            r.wf(),
            *final(self) == *final(r),
    {
        self.opts.insert("fromSrc", JsonVal::Str(String::from_str(from_src)));
        self
    }

    /// The repository name given to an imported image.
    pub fn repo(&mut self, repo: &str) -> (r: &mut Self)
        requires
            old(self).wf(),
        ensures
            r@ == spec_insert(old(self)@, "repo"@, JsonValV::Str(repo@)),
            r.auth_view() == old(self).auth_view(),
            r.wf(),
            *final(self) == *final(r),
    {
        self.opts.insert("repo", JsonVal::Str(String::from_str(repo)));
        self
    }

    /// The tag or digest; empty when pulling means all tags.
    pub fn tag(&mut self, tag: &str) -> (r: &mut Self)
        requires
            old(self).wf(),
        ensures
            r@ == spec_insert(old(self)@, "tag"@, JsonValV::Str(tag@)),
            r.auth_view() == old(self).auth_view(),
            r.wf(),
            *final(self) == *final(r),
    {
        self.opts.insert("tag", JsonVal::Str(String::from_str(tag)));
        self
    }

    /// The platform, in `os[/arch[/variant]]` form.
    pub fn platform(&mut self, platform: &str) -> (r: &mut Self)
        requires
            old(self).wf(),
        ensures
            r@ == spec_insert(old(self)@, "platform"@, JsonValV::Str(platform@)),
            r.auth_view() == old(self).auth_view(),
            r.wf(),
            *final(self) == *final(r),
    {
        self.opts.insert("platform", JsonVal::Str(String::from_str(platform)));
        self
    }

    /// The account name for the registry.
    pub fn username(&mut self, username: &str) -> (r: &mut Self)
        requires
            old(self).wf(),
        ensures
            r.auth_view() == spec_insert(old(self).auth_view(), "username"@, JsonValV::Str(username@)),
            r@ == old(self)@,
            r.wf(),
            *final(self) == *final(r),
    {
        self.auth.username(username);
        self
    }

    /// The account password for the registry.
    pub fn password(&mut self, password: &str) -> (r: &mut Self)
        requires
            old(self).wf(),
        ensures
            r.auth_view() == spec_insert(old(self).auth_view(), "password"@, JsonValV::Str(password@)),
            r@ == old(self)@,
            r.wf(),
            *final(self) == *final(r),
    {
        self.auth.password(password);
        self
    }

    /// The account email for the registry.
    pub fn email(&mut self, email: &str) -> (r: &mut Self)
        requires
            old(self).wf(),
        ensures
            r.auth_view() == spec_insert(old(self).auth_view(), "email"@, JsonValV::Str(email@)),
            r@ == old(self)@,
            r.wf(),
            *final(self) == *final(r),
    {
        self.auth.email(email);
        self
    }

    /// The registry's address.
    pub fn server_address(&mut self, server_address: &str) -> (r: &mut Self)
        requires
            old(self).wf(),
        ensures
            r.auth_view() == spec_insert(
                old(self).auth_view(),
                "serveraddress"@,
                JsonValV::Str(server_address@),
            ),
            r@ == old(self)@,
            r.wf(),
            *final(self) == *final(r),
    {
        self.auth.server_address(server_address);
        self
    }

    /// The credentials record.
    pub(crate) fn auth_ref(&self) -> (r: &AuthOpts)
        ensures
            r@ == self.auth_view(),
    {
        &self.auth
    }

    /// Replaces the credentials record wholesale.
    pub(crate) fn set_auth(&mut self, auth: &AuthOpts) -> (r: &mut Self)
        requires
            old(self).wf(),
            auth.wf(),
        ensures
            r.auth_view() == auth@,
            r@ == old(self)@,
            r.wf(),
            *final(self) == *final(r),
    {
        self.auth = auth.clone();
        self
    }
}

} // verus!
