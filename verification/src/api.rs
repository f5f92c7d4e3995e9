//! Resource handles, their request descriptors, and their per-operation
//! outcome resolvers.
//!
//! Each operation splits into two pure functions: a `*_request` builder that
//! shapes the one outbound request, and a `*_response` resolver that
//! classifies the raw response against the operation's status table. The
//! transport between them is the caller's collaborator.

use crate::codec::{
    b64_decode_of, b64_of, decode_base64, exec_id_of, file_stat_of, message_of, parse_exec_id,
    parse_file_stat, parse_process_table, parse_summary_ids, process_table_of, summary_ids_of,
};
use crate::encode::{bool_literal, dec_of, spec_bool_literal, u64_to_dec};
use crate::json::{json_obj_of, query_of};
use crate::opts::{
    AttachOpts, AuthOpts, ContainerBuilderOpts, CreateImageOpts, DockerOpts, ExecOpts,
    ImageBuilderOpts, ListContainersOpts, RmContainerOpts, UploadArchiveOpts,
};
use crate::resolve::{
    is_success, payload_success, resolve, resolve_spec, EngineError, EngineErrorV, OpKind, Outcome,
    OutcomeV,
};
use crate::result::{zip_titles, FileInfo, Process};
use crate::Docker;
use vstd::prelude::*;
use vstd::slice::slice_to_vec;
use vstd::string::*;

verus! {

/// The request methods the engine's API uses.
#[derive(Debug, Clone, Copy, PartialEq, Eq, Structural)]
pub enum Method {
    Get,
    Post,
    Put,
    Delete,
    Head,
}

/// One outbound request: built per call, dispatched once, never reused.
#[derive(Debug, Clone, PartialEq, Eq)]
pub struct RequestDescriptor {
    pub method: Method,
    /// The path, relative to the endpoint's base.
    pub path: String,
    /// An already-encoded query string, when the operation has one.
    pub query: Option<String>,
    /// The request body bytes; empty for most operations.
    pub body: Vec<u8>,
    /// Extra header name/value pairs.
    pub headers: Vec<(String, String)>,
}

/// The request target: the path, then `?` and the query when one is present.
pub open spec fn spec_target(path: Seq<char>, query: Option<Seq<char>>) -> Seq<char> {
    match query {
        Some(q) => path + "?"@ + q,
        None => path,
    }
}

impl RequestDescriptor {
    /// Joins path and query into the request target.
    pub fn target(&self) -> (r: String)
        ensures
            r@ == spec_target(self.path@, match self.query {
                Some(ref q) => Some(q@),
                None => None,
            }),
    {
        match &self.query {
            Some(q) => {
                let mut out = self.path.clone();
                out.append("?");
                out.append(q.as_str());
                out
            },
            None => self.path.clone(),
        }
    }
}

/// Concatenates two pieces into an owned string.
fn join2(a: &str, b: &str) -> (r: String)
    ensures
        r@ == a@ + b@,
{
    let mut out = String::from_str(a);
    out.append(b);
    out
}

/// Concatenates three pieces into an owned string.
fn join3(a: &str, b: &str, c: &str) -> (r: String)
    ensures
        r@ == a@ + b@ + c@,
{
    let mut out = String::from_str(a);
    out.append(b);
    out.append(c);
    out
}

/// An empty body.
fn no_body() -> (r: Vec<u8>)
    ensures
        r@ == Seq::<u8>::empty(),
{
    Vec::new()
}

/// No extra headers.
fn no_headers() -> (r: Vec<(String, String)>)
    ensures
        r@.len() == 0,
{
    Vec::new()
}

/// The one extra header a JSON-bodied request needs.
pub open spec fn json_content_header() -> Seq<(Seq<char>, Seq<char>)> {
    seq![("Content-type"@, "application/json"@)]
}

fn json_headers() -> (r: Vec<(String, String)>)
    ensures
        r.deep_view() == json_content_header(),
{
    let mut out: Vec<(String, String)> = Vec::new();
    out.push((String::from_str("Content-type"), String::from_str("application/json")));
    proof {
        assert(out.deep_view() =~= json_content_header());
    }
    out
}

/// The stripped form of a sequence: all leading double quotes removed.
pub open spec fn drop_leading_quotes(s: Seq<char>) -> Seq<char>
    decreases s.len(),
{
    if s.len() > 0 && s[0] == '"' {
        drop_leading_quotes(s.drop_first())
    } else {
        s
    }
}

/// The stripped form of a sequence: all trailing double quotes removed.
pub open spec fn drop_trailing_quotes(s: Seq<char>) -> Seq<char>
    decreases s.len(),
{
    if s.len() > 0 && s[s.len() - 1] == '"' {
        drop_trailing_quotes(s.drop_last())
    } else {
        s
    }
}

/// The sequence with all leading and trailing double quotes removed.
pub open spec fn trim_quotes_spec(s: Seq<char>) -> Seq<char> {
    drop_trailing_quotes(drop_leading_quotes(s))
}

proof fn lemma_drop_leading(s: Seq<char>, a: int)
    requires
        0 <= a <= s.len(),
        forall|j: int| 0 <= j < a ==> s[j] == '"',
        a < s.len() ==> s[a] != '"',
    ensures
        drop_leading_quotes(s) == s.skip(a),
    decreases a,
{
    if a == 0 {
        assert(s.skip(0) =~= s);
    } else {
        assert(s[0] == '"');
        let t = s.drop_first();
        assert forall|j: int| 0 <= j < a - 1 implies t[j] == '"' by {
            assert(t[j] == s[j + 1]);
        }
        lemma_drop_leading(t, a - 1);
        assert(t.skip(a - 1) =~= s.skip(a));
    }
}

proof fn lemma_drop_trailing(s: Seq<char>, b: int)
    requires
        0 <= b <= s.len(),
        forall|j: int| b <= j < s.len() ==> s[j] == '"',
        b > 0 ==> s[b - 1] != '"',
    ensures
        drop_trailing_quotes(s) == s.take(b),
    decreases s.len() - b,
{
    if b == s.len() {
        assert(s.take(b) =~= s);
    } else {
        assert(s[s.len() - 1] == '"');
        let t = s.drop_last();
        lemma_drop_trailing(t, b);
        assert(t.take(b) =~= s.take(b));
    }
}

/// Strips surrounding double quotes, as many as stand on either side.
fn trim_quotes(s: &str) -> (r: String)
    ensures
        r@ == trim_quotes_spec(s@),
{
    let n = s.unicode_len();
    let mut a: usize = 0;
    while a < n && s.get_char(a) == '"'
        invariant
            n == s@.len(),
            a <= n,
            forall|j: int| 0 <= j < a ==> s@[j] == '"',
        decreases n - a,
    {
        a = a + 1;
    }
    let mut b: usize = n;
    while b > a && s.get_char(b - 1) == '"'
        invariant
            n == s@.len(),
            a <= b <= n,
            forall|j: int| b <= j < n ==> s@[j] == '"',
        decreases b,
    {
        b = b - 1;
    }
    let out = s.substring_char(a, b);
    proof {
        lemma_drop_leading(s@, a as int);
        let t = s@.skip(a as int);
        assert forall|j: int| b - a <= j < t.len() implies t[j] == '"' by {
            assert(t[j] == s@[j + a]);
        }
        if b > a {
            assert(t[b - a - 1] == s@[b - 1]);
        }
        lemma_drop_trailing(t, b - a);
        assert(t.take(b - a) =~= s@.subrange(a as int, b as int));
    }
    String::from_str(out)
}

/// Resolves a response for an operation whose success is empty.
fn unit_response(op: OpKind, status: u16, body: Vec<u8>) -> (r: Result<(), EngineError>)
    ensures
        r is Ok <==> is_success(op, status),
        r matches Err(e) ==> resolve_spec(op, status, body@, message_of(body@)) == Result::<
            OutcomeV,
            EngineErrorV,
        >::Err(e@),
{
    match resolve(op, status, body) {
        Ok(_) => Ok(()),
        Err(e) => Err(e),
    }
}

/// Resolves a response for an operation whose success carries the body.
fn payload_response(op: OpKind, status: u16, body: Vec<u8>) -> (r: Result<Vec<u8>, EngineError>)
    ensures
        r is Ok <==> is_success(op, status),
        payload_success(op, status) ==> (r matches Ok(b) ==> b@ == body@),
        !payload_success(op, status) ==> (r matches Ok(b) ==> b@ == Seq::<u8>::empty()),
        r matches Err(e) ==> resolve_spec(op, status, body@, message_of(body@)) == Result::<
            OutcomeV,
            EngineErrorV,
        >::Err(e@),
{
    match resolve(op, status, body) {
        Ok(Outcome::Payload(b)) => Ok(b),
        Ok(Outcome::Empty) => {
            let empty = no_body();
            Ok(empty)
        },
        Err(e) => Err(e),
    }
}

/// A handle onto one container: its identifier, borrowing the endpoint it
/// lives on. The handle owns no remote state; a successful rename updates
/// the identifier in place.
#[derive(Debug)]
pub struct Container<'d> {
    docker: &'d Docker,
    id: String,
}

impl<'d> View for Container<'d> {
    type V = Seq<char>;

    closed spec fn view(&self) -> Seq<char> {
        self.id@
    }
}

impl<'d> Container<'d> {
    /// The endpoint the handle borrows.
    pub closed spec fn endpoint(&self) -> Docker {
        *self.docker
    }

    /// A handle onto the container with this identifier or name.
    pub fn new(docker: &'d Docker, id: &str) -> (c: Container<'d>)
        ensures
            c@ == id@,
            c.endpoint() == *docker,
    {
        Container { docker, id: String::from_str(id) }
    }

    /// The current identifier.
    pub fn id(&self) -> (r: &String)
        ensures
            r@ == self@,
    {
        &self.id
    }

    /// The request that starts the container.
    pub fn start_request(&self) -> (rd: RequestDescriptor)
        ensures
            rd.method == Method::Post,
            rd.path@ == "/containers/"@ + self@ + "/start"@,
            rd.query is None,
            rd.body@ == Seq::<u8>::empty(),
            rd.headers@.len() == 0,
    {
        RequestDescriptor {
            method: Method::Post,
            path: join3("/containers/", self.id.as_str(), "/start"),
            query: None,
            body: no_body(),
            headers: no_headers(),
        }
    }

    /// Resolves a start response: empty success on 204, the table's error
    /// otherwise (304 already started, 404 not found, 500 server fault).
    pub fn start_response(&self, status: u16, body: Vec<u8>) -> (r: Result<(), EngineError>)
        ensures
            r is Ok <==> status == 204,
            r matches Err(e) ==> resolve_spec(OpKind::Start, status, body@, message_of(body@))
                == Result::<OutcomeV, EngineErrorV>::Err(e@),
    {
        unit_response(OpKind::Start, status, body)
    }

    /// The request that stops the container.
    pub fn stop_request(&self) -> (rd: RequestDescriptor)
        ensures
            rd.method == Method::Post,
            rd.path@ == "/containers/"@ + self@ + "/stop"@,
            rd.query is None,
            rd.body@ == Seq::<u8>::empty(),
            rd.headers@.len() == 0,
    {
        RequestDescriptor {
            method: Method::Post,
            path: join3("/containers/", self.id.as_str(), "/stop"),
            query: None,
            body: no_body(),
            headers: no_headers(),
        }
    }

    /// Resolves a stop response: empty success on 204, the table's error
    /// otherwise (304 already stopped, 404 not found, 500 server fault).
    pub fn stop_response(&self, status: u16, body: Vec<u8>) -> (r: Result<(), EngineError>)
        ensures
            r is Ok <==> status == 204,
            r matches Err(e) ==> resolve_spec(OpKind::Stop, status, body@, message_of(body@))
                == Result::<OutcomeV, EngineErrorV>::Err(e@),
    {
        unit_response(OpKind::Stop, status, body)
    }

    /// The request that asks for the container's low-level details.
    pub fn inspect_request(&self) -> (rd: RequestDescriptor)
        ensures
            rd.method == Method::Get,
            rd.path@ == "/containers/"@ + self@ + "/json"@,
            rd.query is None,
            rd.body@ == Seq::<u8>::empty(),
            rd.headers@.len() == 0,
    {
        RequestDescriptor {
            method: Method::Get,
            path: join3("/containers/", self.id.as_str(), "/json"),
            query: None,
            body: no_body(),
            headers: no_headers(),
        }
    }

    /// Resolves an inspect response: the payload bytes on 200, the table's
    /// error otherwise. Decoding the payload into a typed record is the
    /// caller's wire-format concern.
    pub fn inspect_response(&self, status: u16, body: Vec<u8>) -> (r: Result<Vec<u8>, EngineError>)
        ensures
            r is Ok <==> status == 200,
            r matches Ok(b) ==> b@ == body@,
            r matches Err(e) ==> resolve_spec(OpKind::Inspect, status, body@, message_of(body@))
                == Result::<OutcomeV, EngineErrorV>::Err(e@),
    {
        payload_response(OpKind::Inspect, status, body)
    }

    /// The request that restarts the container.
    pub fn restart_request(&self) -> (rd: RequestDescriptor)
        ensures
            rd.method == Method::Post,
            rd.path@ == "/containers/"@ + self@ + "/restart"@,
            rd.query is None,
            rd.body@ == Seq::<u8>::empty(),
            rd.headers@.len() == 0,
    {
        RequestDescriptor {
            method: Method::Post,
            path: join3("/containers/", self.id.as_str(), "/restart"),
            query: None,
            body: no_body(),
            headers: no_headers(),
        }
    }

    /// Resolves a restart response.
    pub fn restart_response(&self, status: u16, body: Vec<u8>) -> (r: Result<(), EngineError>)
        ensures
            r is Ok <==> status == 204,
            r matches Err(e) ==> resolve_spec(OpKind::Restart, status, body@, message_of(body@))
                == Result::<OutcomeV, EngineErrorV>::Err(e@),
    {
        unit_response(OpKind::Restart, status, body)
    }

    /// The request that kills the container.
    pub fn kill_request(&self) -> (rd: RequestDescriptor)
        ensures
            rd.method == Method::Post,
            rd.path@ == "/containers/"@ + self@ + "/kill"@,
            rd.query is None,
            rd.body@ == Seq::<u8>::empty(),
            rd.headers@.len() == 0,
    {
        RequestDescriptor {
            method: Method::Post,
            path: join3("/containers/", self.id.as_str(), "/kill"),
            query: None,
            body: no_body(),
            headers: no_headers(),
        }
    }

    /// Resolves a kill response.
    pub fn kill_response(&self, status: u16, body: Vec<u8>) -> (r: Result<(), EngineError>)
        ensures
            r is Ok <==> status == 204,
            r matches Err(e) ==> resolve_spec(OpKind::Kill, status, body@, message_of(body@))
                == Result::<OutcomeV, EngineErrorV>::Err(e@),
    {
        unit_response(OpKind::Kill, status, body)
    }

    /// The request that pauses the container.
    pub fn pause_request(&self) -> (rd: RequestDescriptor)
        ensures
            rd.method == Method::Post,
            rd.path@ == "/containers/"@ + self@ + "/pause"@,
            rd.query is None,
            rd.body@ == Seq::<u8>::empty(),
            rd.headers@.len() == 0,
    {
        RequestDescriptor {
            method: Method::Post,
            path: join3("/containers/", self.id.as_str(), "/pause"),
            query: None,
            body: no_body(),
            headers: no_headers(),
        }
    }

    /// Resolves a pause response.
    pub fn pause_response(&self, status: u16, body: Vec<u8>) -> (r: Result<(), EngineError>)
        ensures
            r is Ok <==> status == 204,
            r matches Err(e) ==> resolve_spec(OpKind::Pause, status, body@, message_of(body@))
                == Result::<OutcomeV, EngineErrorV>::Err(e@),
    {
        unit_response(OpKind::Pause, status, body)
    }

    /// The request that unpauses the container.
    pub fn unpause_request(&self) -> (rd: RequestDescriptor)
        ensures
            rd.method == Method::Post,
            rd.path@ == "/containers/"@ + self@ + "/unpause"@,
            rd.query is None,
            rd.body@ == Seq::<u8>::empty(),
            rd.headers@.len() == 0,
    {
        RequestDescriptor {
            method: Method::Post,
            path: join3("/containers/", self.id.as_str(), "/unpause"),
            query: None,
            body: no_body(),
            headers: no_headers(),
        }
    }

    /// Resolves an unpause response.
    pub fn unpause_response(&self, status: u16, body: Vec<u8>) -> (r: Result<(), EngineError>)
        ensures
            r is Ok <==> status == 204,
            r matches Err(e) ==> resolve_spec(OpKind::Unpause, status, body@, message_of(body@))
                == Result::<OutcomeV, EngineErrorV>::Err(e@),
    {
        unit_response(OpKind::Unpause, status, body)
    }

    /// The request that renames the container.
    pub fn rename_request(&self, new_name: &str) -> (rd: RequestDescriptor)
        ensures
            rd.method == Method::Post,
            rd.path@ == "/containers/"@ + self@ + "/rename"@,
            rd.query matches Some(q) && q@ == "name="@ + new_name@,
            rd.body@ == Seq::<u8>::empty(),
            rd.headers@.len() == 0,
    {
        RequestDescriptor {
            method: Method::Post,
            path: join3("/containers/", self.id.as_str(), "/rename"),
            query: Some(join2("name=", new_name)),
            body: no_body(),
            headers: no_headers(),
        }
    }

    /// Resolves a rename response. On 204 — and only then — the handle's
    /// identifier becomes the new name; on every other status it is
    /// unchanged and the table's error comes back.
    pub fn rename_response(&mut self, new_name: &str, status: u16, body: Vec<u8>) -> (r: Result<
        (),
        EngineError,
    >)
        ensures
            r is Ok <==> status == 204,
            status == 204 ==> final(self)@ == new_name@,
            status != 204 ==> final(self)@ == old(self)@,
            final(self).endpoint() == old(self).endpoint(),
            r matches Err(e) ==> resolve_spec(OpKind::Rename, status, body@, message_of(body@))
                == Result::<OutcomeV, EngineErrorV>::Err(e@),
    {
        match unit_response(OpKind::Rename, status, body) {
            Ok(()) => {
                self.id = String::from_str(new_name);
                Ok(())
            },
            Err(e) => Err(e),
        }
    }

    /// The request that removes the container.
    pub fn remove_request(&self, opts: &RmContainerOpts) -> (rd: RequestDescriptor)
        ensures
            rd.method == Method::Delete,
            rd.path@ == "/containers/"@ + self@,
            rd.query matches Some(q) && q@ == query_of(opts@),
            rd.body@ == Seq::<u8>::empty(),
            rd.headers@.len() == 0,
    {
        let path = join2("/containers/", self.id.as_str());
        RequestDescriptor {
            method: Method::Delete,
            path,
            query: Some(opts.to_query()),
            body: no_body(),
            headers: no_headers(),
        }
    }

    /// Resolves a remove response: empty success on 204 or 200, the table's
    /// error otherwise (404 not found, 409 conflict, 500 server fault).
    pub fn remove_response(&self, status: u16, body: Vec<u8>) -> (r: Result<(), EngineError>)
        ensures
            r is Ok <==> status == 204 || status == 200,
            r matches Err(e) ==> resolve_spec(OpKind::Remove, status, body@, message_of(body@))
                == Result::<OutcomeV, EngineErrorV>::Err(e@),
    {
        unit_response(OpKind::Remove, status, body)
    }

    /// The request that fetches a path of the container's filesystem as an
    /// archive.
    pub fn archive_path_request(&self, path: &str) -> (rd: RequestDescriptor)
        ensures
            rd.method == Method::Get,
            rd.path@ == "/containers/"@ + self@ + "/archive"@,
            rd.query matches Some(q) && q@ == "path="@ + path@,
            rd.body@ == Seq::<u8>::empty(),
            rd.headers@.len() == 0,
    {
        RequestDescriptor {
            method: Method::Get,
            path: join3("/containers/", self.id.as_str(), "/archive"),
            query: Some(join2("path=", path)),
            body: no_body(),
            headers: no_headers(),
        }
    }

    /// Resolves an archive-fetch response: the archive bytes on 200, the
    /// table's error otherwise.
    pub fn archive_path_response(&self, status: u16, body: Vec<u8>) -> (r: Result<
        Vec<u8>,
        EngineError,
    >)
        ensures
            r is Ok <==> status == 200,
            r matches Ok(b) ==> b@ == body@,
            r matches Err(e) ==> resolve_spec(OpKind::ArchiveGet, status, body@, message_of(body@))
                == Result::<OutcomeV, EngineErrorV>::Err(e@),
    {
        payload_response(OpKind::ArchiveGet, status, body)
    }

    /// The request that uploads an archive into the container's filesystem.
    pub fn upload_archive_request(&self, archive: &[u8], opts: &UploadArchiveOpts) -> (rd:
        RequestDescriptor)
        ensures
            rd.method == Method::Put,
            rd.path@ == "/containers/"@ + self@ + "/archive"@,
            rd.query matches Some(q) && q@ == query_of(opts@),
            rd.body@ == archive@,
            rd.headers@.len() == 0,
    {
        RequestDescriptor {
            method: Method::Put,
            path: join3("/containers/", self.id.as_str(), "/archive"),
            query: Some(opts.to_query()),
            body: slice_to_vec(archive),
            headers: no_headers(),
        }
    }

    /// Resolves an archive-upload response: empty success on 200, the
    /// table's error otherwise (400 bad path, 403 read-only target, 404 not
    /// found, 500 server fault).
    pub fn upload_archive_response(&self, status: u16, body: Vec<u8>) -> (r: Result<
        (),
        EngineError,
    >)
        ensures
            r is Ok <==> status == 200,
            r matches Err(e) ==> resolve_spec(
                OpKind::ArchiveWrite,
                status,
                body@,
                message_of(body@),
            ) == Result::<OutcomeV, EngineErrorV>::Err(e@),
    {
        unit_response(OpKind::ArchiveWrite, status, body)
    }

    /// The request that asks for filesystem metadata about a path of the
    /// container, answered through the stat header.
    pub fn file_info_request(&self, path: &str) -> (rd: RequestDescriptor)
        ensures
            rd.method == Method::Head,
            rd.path@ == "/containers/"@ + self@ + "/archive"@,
            rd.query matches Some(q) && q@ == "path="@ + path@,
            rd.body@ == Seq::<u8>::empty(),
            rd.headers@.len() == 0,
    {
        RequestDescriptor {
            method: Method::Head,
            path: join3("/containers/", self.id.as_str(), "/archive"),
            query: Some(join2("path=", path)),
            body: no_body(),
            headers: no_headers(),
        }
    }

    /// Resolves a file-stat response. On 200 the stat record is decoded from
    /// the header value: base64, then JSON. A 200 without the header is the
    /// missing-header error — not a decode failure; a header that does not
    /// decode is a decode error. Any other status resolves by the table.
    pub fn file_info_response(&self, status: u16, header: Option<&str>, body: Vec<u8>) -> (r:
        Result<FileInfo, EngineError>)
        ensures
            status == 200 && header is None ==> (r matches Err(e) && e@
                == EngineErrorV::MissingStatHeader),
            status == 200 ==> (header matches Some(h) ==> match b64_decode_of(h@) {
                Some(bytes) => match file_stat_of(bytes) {
                    Some(v) => r matches Ok(f) && f@ == v,
                    None => r matches Err(e) && e@ is Decode,
                },
                None => r matches Err(e) && e@ is Decode,
            }),
            status != 200 ==> (r matches Err(e) && resolve_spec(
                OpKind::ArchiveStat,
                status,
                body@,
                message_of(body@),
            ) == Result::<OutcomeV, EngineErrorV>::Err(e@)),
    {
        if status == 200 {
            match header {
                None => Err(EngineError::MissingStatHeader),
                Some(h) => match decode_base64(h) {
                    Some(bytes) => match parse_file_stat(&bytes) {
                        Some(info) => Ok(info),
                        None => Err(
                            EngineError::Decode(
                                String::from_str(
                                    "could not parse FileInfo from base64 encoded header",
                                ),
                            ),
                        ),
                    },
                    None => Err(
                        EngineError::Decode(
                            String::from_str("could not parse FileInfo from base64 encoded header"),
                        ),
                    ),
                },
            }
        } else {
            match unit_response(OpKind::ArchiveStat, status, body) {
                Ok(()) => {
                    proof {
                        assert(false);
                    }
                    Err(EngineError::MissingStatHeader)
                },
                Err(e) => Err(e),
            }
        }
    }

    /// The request that lists the processes running inside the container.
    pub fn ps_request(&self, ps_args: &str) -> (rd: RequestDescriptor)
        ensures
            rd.method == Method::Get,
            rd.path@ == "/containers/"@ + self@ + "/top"@,
            rd.query matches Some(q) && q@ == "ps_args="@ + ps_args@,
            rd.body@ == Seq::<u8>::empty(),
            rd.headers@.len() == 0,
    {
        RequestDescriptor {
            method: Method::Get,
            path: join3("/containers/", self.id.as_str(), "/top"),
            query: Some(join2("ps_args=", ps_args)),
            body: no_body(),
            headers: no_headers(),
        }
    }

    /// Resolves a process-listing response. On 200 the body's titles row is
    /// zipped against every process row, position by position, truncating to
    /// the shorter side; a body that does not parse is a decode error. Any
    /// other status resolves by the table.
    pub fn ps_response(&self, status: u16, body: Vec<u8>) -> (r: Result<Vec<Process>, EngineError>)
        ensures
            status == 200 ==> match process_table_of(body@) {
                Some(table) => r matches Ok(ps) && ps@.len() == table.1.len() && forall|i: int|
                    0 <= i < table.1.len() ==> ps@[i]@ == zip_titles(table.0, table.1[i]),
                None => r matches Err(e) && e@ is Decode,
            },
            status != 200 ==> (r matches Err(e) && resolve_spec(
                OpKind::Ps,
                status,
                body@,
                message_of(body@),
            ) == Result::<OutcomeV, EngineErrorV>::Err(e@)),
    {
        match resolve(OpKind::Ps, status, body) {
            Ok(Outcome::Payload(b)) => match parse_process_table(&b) {
                Some(table) => {
                    let (titles, rows) = table;
                    let ghost titles_v = titles.deep_view();
                    let ghost rows_v = rows.deep_view();
                    let mut out: Vec<Process> = Vec::new();
                    let mut i: usize = 0;
                    while i < rows.len()
                        invariant
                            i <= rows@.len(),
                            titles_v == titles.deep_view(),
                            rows_v == rows.deep_view(),
                            rows_v.len() == rows@.len(),
                            forall|j: int| 0 <= j < rows@.len() ==> rows_v[j] == rows@[j].deep_view(),
                            out@.len() == i,
                            forall|j: int|
                                0 <= j < i ==> out@[j]@ == zip_titles(titles_v, rows_v[j]),
                        decreases rows@.len() - i,
                    {
                        let row = &rows[i];
                        out.push(Process::new(titles.as_slice(), row.as_slice()));
                        i = i + 1;
                    }
                    Ok(out)
                },
                None => Err(
                    EngineError::Decode(String::from_str("could not decode the process listing")),
                ),
            },
            Ok(Outcome::Empty) => {
                proof {
                    assert(false);
                }
                Err(EngineError::Decode(String::from_str("could not decode the process listing")))
            },
            Err(e) => Err(e),
        }
    }

    /// The request that attaches to the container: an upgrade request whose
    /// accepted response turns the connection into a raw byte stream.
    pub fn attach_request(&self, opts: &AttachOpts) -> (rd: RequestDescriptor)
        ensures
            rd.method == Method::Post,
            rd.path@ == "/containers/"@ + self@ + "/attach"@,
            rd.query matches Some(q) && q@ == query_of(opts@),
            rd.body@ == Seq::<u8>::empty(),
            rd.headers.deep_view() == seq![
                ("Connection"@, "Upgrade"@),
                ("Upgrade"@, "tcp"@),
            ],
    {
        let mut headers: Vec<(String, String)> = Vec::new();
        headers.push((String::from_str("Connection"), String::from_str("Upgrade")));
        headers.push((String::from_str("Upgrade"), String::from_str("tcp")));
        proof {
            assert(headers.deep_view() =~= seq![("Connection"@, "Upgrade"@), ("Upgrade"@, "tcp"@)]);
        }
        RequestDescriptor {
            method: Method::Post,
            path: join3("/containers/", self.id.as_str(), "/attach"),
            query: Some(opts.to_query()),
            body: no_body(),
            headers,
        }
    }

    /// Resolves an attach response: success on 101 — the caller then owns
    /// the upgraded stream — and the table's error on anything else.
    pub fn attach_response(&self, status: u16, body: Vec<u8>) -> (r: Result<(), EngineError>)
        ensures
            r is Ok <==> status == 101,
            r matches Err(e) ==> resolve_spec(OpKind::Attach, status, body@, message_of(body@))
                == Result::<OutcomeV, EngineErrorV>::Err(e@),
    {
        unit_response(OpKind::Attach, status, body)
    }

    /// The request that creates an exec instance inside the container.
    pub fn exec_create_request(&self, opts: &ExecOpts) -> (rd: RequestDescriptor)
        ensures
            rd.method == Method::Post,
            rd.path@ == "/containers/"@ + self@ + "/exec"@,
            rd.query is None,
            rd.body@ == vstd::utf8::encode_utf8(json_obj_of(opts@)),
            rd.headers.deep_view() == json_content_header(),
    {
        RequestDescriptor {
            method: Method::Post,
            path: join3("/containers/", self.id.as_str(), "/exec"),
            query: None,
            body: opts.opts().to_json().as_str().as_bytes_vec(),
            headers: json_headers(),
        }
    }

    /// Resolves an exec-create response. On 201 the instance identifier is
    /// read from the payload's `Id` field, stripped of its JSON quotes; a
    /// payload without that field is a decode error. Any other status
    /// resolves by the table.
    pub fn exec_create_response(&self, status: u16, body: Vec<u8>) -> (r: Result<
        String,
        EngineError,
    >)
        ensures
            status == 201 ==> match exec_id_of(body@) {
                Some(id) => r matches Ok(s) && s@ == trim_quotes_spec(id),
                None => r matches Err(e) && e@ is Decode,
            },
            status != 201 ==> (r matches Err(e) && resolve_spec(
                OpKind::ExecCreate,
                status,
                body@,
                message_of(body@),
            ) == Result::<OutcomeV, EngineErrorV>::Err(e@)),
    {
        match resolve(OpKind::ExecCreate, status, body) {
            Ok(Outcome::Payload(b)) => match parse_exec_id(&b) {
                Some(id) => Ok(trim_quotes(id.as_str())),
                None => Err(
                    EngineError::Decode(
                        String::from_str("there was no field Id in the response body."),
                    ),
                ),
            },
            Ok(Outcome::Empty) => {
                proof {
                    assert(false);
                }
                Err(
                    EngineError::Decode(
                        String::from_str("there was no field Id in the response body."),
                    ),
                )
            },
            Err(e) => Err(e),
        }
    }

    /// The request that starts an exec instance.
    pub fn exec_start_request(&self, exec_id: &str, opts: &ExecOpts) -> (rd: RequestDescriptor)
        ensures
            rd.method == Method::Post,
            rd.path@ == "/exec/"@ + exec_id@ + "/start"@,
            rd.query is None,
            rd.body@ == vstd::utf8::encode_utf8(json_obj_of(opts@)),
            rd.headers.deep_view() == json_content_header(),
    {
        RequestDescriptor {
            method: Method::Post,
            path: join3("/exec/", exec_id, "/start"),
            query: None,
            body: opts.opts().to_json().as_str().as_bytes_vec(),
            headers: json_headers(),
        }
    }

    /// Resolves an exec-start response: the raw output bytes on 200, the
    /// table's error otherwise (404 no such exec instance, 409 container
    /// paused).
    pub fn exec_start_response(&self, status: u16, body: Vec<u8>) -> (r: Result<
        Vec<u8>,
        EngineError,
    >)
        ensures
            r is Ok <==> status == 200,
            r matches Ok(b) ==> b@ == body@,
            r matches Err(e) ==> resolve_spec(OpKind::ExecStart, status, body@, message_of(body@))
                == Result::<OutcomeV, EngineErrorV>::Err(e@),
    {
        payload_response(OpKind::ExecStart, status, body)
    }
}

/// The containers interface: listing and creation.
pub struct Containers<'d> {
    docker: &'d Docker,
}

impl<'d> Containers<'d> {
    /// The endpoint the handle borrows.
    pub closed spec fn endpoint(&self) -> Docker {
        *self.docker
    }

    /// The containers interface of an endpoint.
    pub fn new(docker: &'d Docker) -> (c: Containers<'d>)
        ensures
            c.endpoint() == *docker,
    {
        Containers { docker }
    }

    /// The request that lists containers.
    pub fn list_request(&self, opts: &ListContainersOpts) -> (rd: RequestDescriptor)
        ensures
            rd.method == Method::Get,
            rd.path@ == "/containers/json"@,
            rd.query matches Some(q) && q@ == query_of(opts@),
            rd.body@ == Seq::<u8>::empty(),
            rd.headers@.len() == 0,
    {
        RequestDescriptor {
            method: Method::Get,
            path: String::from_str("/containers/json"),
            query: Some(opts.to_query()),
            body: no_body(),
            headers: no_headers(),
        }
    }

    /// Resolves a list response. On 200 one handle per listed container
    /// comes back, carrying that container's identifier and borrowing this
    /// endpoint; a body that does not parse is a decode error. Any other
    /// status resolves by the table (400 bad parameter, 500 server fault).
    pub fn list_response(&self, status: u16, body: Vec<u8>) -> (r: Result<
        Vec<Container<'d>>,
        EngineError,
    >)
        ensures
            status == 200 ==> match summary_ids_of(body@) {
                Some(ids) => r matches Ok(cs) && cs@.len() == ids.len() && forall|i: int|
                    0 <= i < ids.len() ==> cs@[i]@ == ids[i] && cs@[i].endpoint()
                        == self.endpoint(),
                None => r matches Err(e) && e@ is Decode,
            },
            status != 200 ==> (r matches Err(e) && resolve_spec(
                OpKind::List,
                status,
                body@,
                message_of(body@),
            ) == Result::<OutcomeV, EngineErrorV>::Err(e@)),
    {
        match resolve(OpKind::List, status, body) {
            Ok(Outcome::Payload(b)) => match parse_summary_ids(&b) {
                Some(ids) => {
                    let ghost ids_v = ids.deep_view();
                    let mut out: Vec<Container<'d>> = Vec::new();
                    let mut i: usize = 0;
                    while i < ids.len()
                        invariant
                            i <= ids@.len(),
                            ids_v == ids.deep_view(),
                            ids_v.len() == ids@.len(),
                            forall|j: int| 0 <= j < ids@.len() ==> ids_v[j] == ids@[j]@,
                            out@.len() == i,
                            forall|j: int|
                                0 <= j < i ==> out@[j]@ == ids_v[j] && out@[j].endpoint()
                                    == self.endpoint(),
                        decreases ids@.len() - i,
                    {
                        out.push(Container::new(self.docker, ids[i].as_str()));
                        i = i + 1;
                    }
                    Ok(out)
                },
                None => Err(
                    EngineError::Decode(String::from_str("could not decode the container list")),
                ),
            },
            Ok(Outcome::Empty) => {
                proof {
                    assert(false);
                }
                Err(EngineError::Decode(String::from_str("could not decode the container list")))
            },
            Err(e) => Err(e),
        }
    }

    /// The request that creates a container under a name, from a JSON body
    /// of build options.
    pub fn create_request(&self, name: &str, opts: &ContainerBuilderOpts) -> (rd: RequestDescriptor)
        ensures
            rd.method == Method::Post,
            rd.path@ == "/containers/create"@,
            rd.query matches Some(q) && q@ == "name="@ + name@,
            rd.body@ == vstd::utf8::encode_utf8(json_obj_of(opts@)),
            rd.headers.deep_view() == json_content_header(),
    {
        RequestDescriptor {
            method: Method::Post,
            path: String::from_str("/containers/create"),
            query: Some(join2("name=", name)),
            body: opts.opts().to_json().as_str().as_bytes_vec(),
            headers: json_headers(),
        }
    }

    /// Resolves a create response: empty success on 201, the table's error
    /// otherwise (400 bad parameter, 404 not found, 409 conflict, 500 server
    /// fault).
    pub fn create_response(&self, status: u16, body: Vec<u8>) -> (r: Result<(), EngineError>)
        ensures
            r is Ok <==> status == 201,
            r matches Err(e) ==> resolve_spec(OpKind::Create, status, body@, message_of(body@))
                == Result::<OutcomeV, EngineErrorV>::Err(e@),
    {
        unit_response(OpKind::Create, status, body)
    }
}

/// The networks interface: listing and removal.
pub struct Networks<'d> {
    docker: &'d Docker,
}

impl<'d> Networks<'d> {
    /// The endpoint the handle borrows.
    pub closed spec fn endpoint(&self) -> Docker {
        *self.docker
    }

    /// The networks interface of an endpoint.
    pub fn new(docker: &'d Docker) -> (c: Networks<'d>)
        ensures
            c.endpoint() == *docker,
    {
        Networks { docker }
    }

    /// The request that lists networks.
    pub fn list_request(&self) -> (rd: RequestDescriptor)
        ensures
            rd.method == Method::Get,
            rd.path@ == "/networks"@,
            rd.query is None,
            rd.body@ == Seq::<u8>::empty(),
            rd.headers@.len() == 0,
    {
        RequestDescriptor {
            method: Method::Get,
            path: String::from_str("/networks"),
            query: None,
            body: no_body(),
            headers: no_headers(),
        }
    }

    /// Resolves a list response: the payload bytes on 200, the table's error
    /// otherwise.
    pub fn list_response(&self, status: u16, body: Vec<u8>) -> (r: Result<Vec<u8>, EngineError>)
        ensures
            r is Ok <==> status == 200,
            r matches Ok(b) ==> b@ == body@,
            r matches Err(e) ==> resolve_spec(
                OpKind::NetworkList,
                status,
                body@,
                message_of(body@),
            ) == Result::<OutcomeV, EngineErrorV>::Err(e@),
    {
        payload_response(OpKind::NetworkList, status, body)
    }

    /// The request that removes a network.
    pub fn remove_request(&self, id: &str) -> (rd: RequestDescriptor)
        ensures
            rd.method == Method::Delete,
            rd.path@ == "/networks/"@ + id@,
            rd.query is None,
            rd.body@ == Seq::<u8>::empty(),
            rd.headers@.len() == 0,
    {
        RequestDescriptor {
            method: Method::Delete,
            path: join2("/networks/", id),
            query: None,
            body: no_body(),
            headers: no_headers(),
        }
    }

    /// Resolves a network-removal response: empty success on 204, the
    /// table's error otherwise (403 predefined network, 404 not found, 500
    /// server fault).
    pub fn remove_response(&self, status: u16, body: Vec<u8>) -> (r: Result<(), EngineError>)
        ensures
            r is Ok <==> status == 204,
            r matches Err(e) ==> resolve_spec(
                OpKind::NetworkRemove,
                status,
                body@,
                message_of(body@),
            ) == Result::<OutcomeV, EngineErrorV>::Err(e@),
    {
        unit_response(OpKind::NetworkRemove, status, body)
    }
}

/// The images interface.
pub struct Images<'d> {
    docker: &'d Docker,
}

impl<'d> Images<'d> {
    /// The endpoint the handle borrows.
    pub closed spec fn endpoint(&self) -> Docker {
        *self.docker
    }

    /// The images interface of an endpoint.
    pub fn new(docker: &'d Docker) -> (c: Images<'d>)
        ensures
            c.endpoint() == *docker,
    {
        Images { docker }
    }

    /// The request that lists images.
    pub fn list_request(&self) -> (rd: RequestDescriptor)
        ensures
            rd.method == Method::Get,
            rd.path@ == "/images/json"@,
            rd.query is None,
            rd.body@ == Seq::<u8>::empty(),
            rd.headers@.len() == 0,
    {
        RequestDescriptor {
            method: Method::Get,
            path: String::from_str("/images/json"),
            query: None,
            body: no_body(),
            headers: no_headers(),
        }
    }

    /// Resolves an image-list response: the payload bytes on 200, the
    /// table's error otherwise.
    pub fn list_response(&self, status: u16, body: Vec<u8>) -> (r: Result<Vec<u8>, EngineError>)
        ensures
            r is Ok <==> status == 200,
            r matches Ok(b) ==> b@ == body@,
            r matches Err(e) ==> resolve_spec(OpKind::ImageList, status, body@, message_of(body@))
                == Result::<OutcomeV, EngineErrorV>::Err(e@),
    {
        payload_response(OpKind::ImageList, status, body)
    }

    /// The request that creates an image, by pull or by import. When the
    /// options name an image to pull, the credentials record rides along in
    /// the registry-auth header, base64-encoded exactly as the
    /// authentication body would be posted.
    pub fn create_request(&self, opts: &CreateImageOpts) -> (rd: RequestDescriptor)
        requires
            opts.wf(),
        ensures
            rd.method == Method::Post,
            rd.path@ == "/images/create"@,
            rd.query matches Some(q) && q@ == query_of(opts@),
            rd.body@ == Seq::<u8>::empty(),
            crate::json::has_key(opts@, "fromImage"@) ==> rd.headers.deep_view() == seq![
                ("X-Registry-Auth"@, b64_of(vstd::utf8::encode_utf8(json_obj_of(opts.auth_view())))),
            ],
            !crate::json::has_key(opts@, "fromImage"@) ==> rd.headers@.len() == 0,
    {
        let mut headers: Vec<(String, String)> = Vec::new();
        if opts.opts().contains_key("fromImage") {
            let blob = match opts.auth_ref().serialize() {
                Ok(b) => b,
                Err(_) => String::new(),
            };
            headers.push((String::from_str("X-Registry-Auth"), blob));
            proof {
                assert(headers.deep_view() =~= seq![
                    (
                        "X-Registry-Auth"@,
                        b64_of(vstd::utf8::encode_utf8(json_obj_of(opts.auth_view()))),
                    ),
                ]);
            }
        }
        RequestDescriptor {
            method: Method::Post,
            path: String::from_str("/images/create"),
            query: Some(opts.to_query()),
            body: no_body(),
            headers,
        }
    }

    /// Resolves an image-create response: empty success on 200, the table's
    /// error otherwise (404 repository missing or unreadable, 500 server
    /// fault).
    pub fn create_response(&self, status: u16, body: Vec<u8>) -> (r: Result<(), EngineError>)
        ensures
            r is Ok <==> status == 200,
            r matches Err(e) ==> resolve_spec(
                OpKind::ImageCreate,
                status,
                body@,
                message_of(body@),
            ) == Result::<OutcomeV, EngineErrorV>::Err(e@),
    {
        unit_response(OpKind::ImageCreate, status, body)
    }

    /// The request that pulls an image from a registry: an image-create
    /// request for exactly the named image and tag, with the credentials.
    /// An empty tag pulls every tag of the image.
    pub fn pull_request(&self, image: &str, tag: &str, auth: &AuthOpts) -> (rd: RequestDescriptor)
        requires
            auth.wf(),
        ensures
            rd.method == Method::Post,
            rd.path@ == "/images/create"@,
            rd.query matches Some(q) && q@ == query_of(
                seq![
                    ("fromImage"@, crate::json::JsonValV::Str(image@)),
                    ("tag"@, crate::json::JsonValV::Str(tag@)),
                ],
            ),
            rd.body@ == Seq::<u8>::empty(),
            rd.headers.deep_view() == seq![
                ("X-Registry-Auth"@, b64_of(vstd::utf8::encode_utf8(json_obj_of(auth@)))),
            ],
    {
        let mut opts = CreateImageOpts::new();
        opts.from_image(image);
        opts.tag(tag);
        opts.set_auth(auth);
        proof {
            reveal_strlit("fromImage");
            reveal_strlit("tag");
            assert("fromImage"@.len() != "tag"@.len());
            assert(opts@ =~= seq![
                ("fromImage"@, crate::json::JsonValV::Str(image@)),
                ("tag"@, crate::json::JsonValV::Str(tag@)),
            ]);
            assert(crate::json::has_key(opts@, "fromImage"@));
        }
        self.create_request(&opts)
    }

    /// Resolves a pull response, by the image-create table.
    pub fn pull_response(&self, status: u16, body: Vec<u8>) -> (r: Result<(), EngineError>)
        ensures
            r is Ok <==> status == 200,
            r matches Err(e) ==> resolve_spec(
                OpKind::ImageCreate,
                status,
                body@,
                message_of(body@),
            ) == Result::<OutcomeV, EngineErrorV>::Err(e@),
    {
        unit_response(OpKind::ImageCreate, status, body)
    }

    /// The request that removes an image.
    pub fn remove_request(&self, image: &str, force: bool, no_prune: bool) -> (rd:
        RequestDescriptor)
        ensures
            rd.method == Method::Delete,
            rd.path@ == "/images/"@ + image@,
            rd.query matches Some(q) && q@ == "force="@ + spec_bool_literal(force) + "&no_prune="@
                + spec_bool_literal(no_prune),
            rd.body@ == Seq::<u8>::empty(),
            rd.headers@.len() == 0,
    {
        let mut query = String::from_str("force=");
        query.append(bool_literal(force));
        query.append("&no_prune=");
        query.append(bool_literal(no_prune));
        RequestDescriptor {
            method: Method::Delete,
            path: join2("/images/", image),
            query: Some(query),
            body: no_body(),
            headers: no_headers(),
        }
    }

    /// Resolves an image-removal response: empty success on 200, the table's
    /// error otherwise (404 no such image, 409 conflict, 500 server fault).
    pub fn remove_response(&self, status: u16, body: Vec<u8>) -> (r: Result<(), EngineError>)
        ensures
            r is Ok <==> status == 200,
            r matches Err(e) ==> resolve_spec(
                OpKind::ImageRemove,
                status,
                body@,
                message_of(body@),
            ) == Result::<OutcomeV, EngineErrorV>::Err(e@),
    {
        unit_response(OpKind::ImageRemove, status, body)
    }

    /// The request that loads a set of images and tags from an archive.
    pub fn import_request(&self, archive: &[u8]) -> (rd: RequestDescriptor)
        ensures
            rd.method == Method::Post,
            rd.path@ == "/images/load"@,
            rd.query is None,
            rd.body@ == archive@,
            rd.headers@.len() == 0,
    {
        RequestDescriptor {
            method: Method::Post,
            path: String::from_str("/images/load"),
            query: None,
            body: slice_to_vec(archive),
            headers: no_headers(),
        }
    }

    /// Resolves an import response: empty success on 200, the table's error
    /// otherwise.
    pub fn import_response(&self, status: u16, body: Vec<u8>) -> (r: Result<(), EngineError>)
        ensures
            r is Ok <==> status == 200,
            r matches Err(e) ==> resolve_spec(
                OpKind::ImageImport,
                status,
                body@,
                message_of(body@),
            ) == Result::<OutcomeV, EngineErrorV>::Err(e@),
    {
        unit_response(OpKind::ImageImport, status, body)
    }

    /// The request that tags an image into a repository.
    pub fn tag_request(&self, image: &str, repo: &str, tag: &str) -> (rd: RequestDescriptor)
        ensures
            rd.method == Method::Post,
            rd.path@ == "/images/"@ + image@ + "/tag"@,
            rd.query matches Some(q) && q@ == "repo="@ + repo@ + "&tag="@ + tag@,
            rd.body@ == Seq::<u8>::empty(),
            rd.headers@.len() == 0,
    {
        let mut query = String::from_str("repo=");
        query.append(repo);
        query.append("&tag=");
        query.append(tag);
        RequestDescriptor {
            method: Method::Post,
            path: join3("/images/", image, "/tag"),
            query: Some(query),
            body: no_body(),
            headers: no_headers(),
        }
    }

    /// Resolves a tag response: empty success on 201, the table's error
    /// otherwise (400 bad parameter, 404 no such image, 409 conflict, 500
    /// server fault).
    pub fn tag_response(&self, status: u16, body: Vec<u8>) -> (r: Result<(), EngineError>)
        ensures
            r is Ok <==> status == 201,
            r matches Err(e) ==> resolve_spec(OpKind::ImageTag, status, body@, message_of(body@))
                == Result::<OutcomeV, EngineErrorV>::Err(e@),
    {
        unit_response(OpKind::ImageTag, status, body)
    }

    /// The request that asks for an image's low-level details.
    pub fn inspect_request(&self, image: &str) -> (rd: RequestDescriptor)
        ensures
            rd.method == Method::Get,
            rd.path@ == "/images/"@ + image@ + "/json"@,
            rd.query is None,
            rd.body@ == Seq::<u8>::empty(),
            rd.headers@.len() == 0,
    {
        RequestDescriptor {
            method: Method::Get,
            path: join3("/images/", image, "/json"),
            query: None,
            body: no_body(),
            headers: no_headers(),
        }
    }

    /// Resolves an image-inspect response: the payload bytes on 200, the
    /// table's error otherwise.
    pub fn inspect_response(&self, status: u16, body: Vec<u8>) -> (r: Result<Vec<u8>, EngineError>)
        ensures
            r is Ok <==> status == 200,
            r matches Ok(b) ==> b@ == body@,
            r matches Err(e) ==> resolve_spec(
                OpKind::ImageInspect,
                status,
                body@,
                message_of(body@),
            ) == Result::<OutcomeV, EngineErrorV>::Err(e@),
    {
        payload_response(OpKind::ImageInspect, status, body)
    }

    /// The request that asks for an image's parent layers.
    pub fn history_request(&self, image: &str) -> (rd: RequestDescriptor)
        ensures
            rd.method == Method::Get,
            rd.path@ == "/images/"@ + image@ + "/history"@,
            rd.query is None,
            rd.body@ == Seq::<u8>::empty(),
            rd.headers@.len() == 0,
    {
        RequestDescriptor {
            method: Method::Get,
            path: join3("/images/", image, "/history"),
            query: None,
            body: no_body(),
            headers: no_headers(),
        }
    }

    /// Resolves a history response: the payload bytes on 200, the table's
    /// error otherwise.
    pub fn history_response(&self, status: u16, body: Vec<u8>) -> (r: Result<Vec<u8>, EngineError>)
        ensures
            r is Ok <==> status == 200,
            r matches Ok(b) ==> b@ == body@,
            r matches Err(e) ==> resolve_spec(
                OpKind::ImageHistory,
                status,
                body@,
                message_of(body@),
            ) == Result::<OutcomeV, EngineErrorV>::Err(e@),
    {
        payload_response(OpKind::ImageHistory, status, body)
    }

    /// The request that searches the public registry for images.
    pub fn search_request(&self, term: &str, limit: u64, filters: &str) -> (rd: RequestDescriptor)
        ensures
            rd.method == Method::Get,
            rd.path@ == "/images/search"@,
            rd.query matches Some(q) && q@ == "term="@ + term@ + "&limit="@ + dec_of(limit as int)
                + "&filters="@ + filters@,
            rd.body@ == Seq::<u8>::empty(),
            rd.headers@.len() == 0,
    {
        let mut query = String::from_str("term=");
        query.append(term);
        query.append("&limit=");
        query.append(u64_to_dec(limit).as_str());
        query.append("&filters=");
        query.append(filters);
        RequestDescriptor {
            method: Method::Get,
            path: String::from_str("/images/search"),
            query: Some(query),
            body: no_body(),
            headers: no_headers(),
        }
    }

    /// Resolves a search response: the payload bytes on 200, the table's
    /// error otherwise.
    pub fn search_response(&self, status: u16, body: Vec<u8>) -> (r: Result<Vec<u8>, EngineError>)
        ensures
            r is Ok <==> status == 200,
            r matches Ok(b) ==> b@ == body@,
            r matches Err(e) ==> resolve_spec(
                OpKind::ImageSearch,
                status,
                body@,
                message_of(body@),
            ) == Result::<OutcomeV, EngineErrorV>::Err(e@),
    {
        payload_response(OpKind::ImageSearch, status, body)
    }

    /// The request that deletes unused images.
    pub fn prune_request(&self, filters: &str) -> (rd: RequestDescriptor)
        ensures
            rd.method == Method::Post,
            rd.path@ == "/images/prune"@,
            rd.query matches Some(q) && q@ == "filters="@ + filters@,
            rd.body@ == Seq::<u8>::empty(),
            rd.headers@.len() == 0,
    {
        RequestDescriptor {
            method: Method::Post,
            path: String::from_str("/images/prune"),
            query: Some(join2("filters=", filters)),
            body: no_body(),
            headers: no_headers(),
        }
    }

    /// Resolves a prune response: the payload bytes on 200, the table's
    /// error otherwise.
    pub fn prune_response(&self, status: u16, body: Vec<u8>) -> (r: Result<Vec<u8>, EngineError>)
        ensures
            r is Ok <==> status == 200,
            r matches Ok(b) ==> b@ == body@,
            r matches Err(e) ==> resolve_spec(OpKind::ImagePrune, status, body@, message_of(body@))
                == Result::<OutcomeV, EngineErrorV>::Err(e@),
    {
        payload_response(OpKind::ImagePrune, status, body)
    }

    /// The request that builds an image from an archive with a build file in
    /// it.
    pub fn build_request(&self, opts: &ImageBuilderOpts) -> (rd: RequestDescriptor)
        ensures
            rd.method == Method::Post,
            rd.path@ == "/build"@,
            rd.query matches Some(q) && q@ == query_of(opts@),
            rd.body@ == Seq::<u8>::empty(),
            rd.headers.deep_view() == seq![("Content-type"@, "application/x-tar"@)],
    {
        let mut headers: Vec<(String, String)> = Vec::new();
        headers.push((String::from_str("Content-type"), String::from_str("application/x-tar")));
        proof {
            assert(headers.deep_view() =~= seq![("Content-type"@, "application/x-tar"@)]);
        }
        RequestDescriptor {
            method: Method::Post,
            path: String::from_str("/build"),
            query: Some(opts.to_query()),
            body: no_body(),
            headers,
        }
    }

    /// Resolves a build response: empty success on 200, the table's error
    /// otherwise.
    pub fn build_response(&self, status: u16, body: Vec<u8>) -> (r: Result<(), EngineError>)
        ensures
            r is Ok <==> status == 200,
            r matches Err(e) ==> resolve_spec(OpKind::ImageBuild, status, body@, message_of(body@))
                == Result::<OutcomeV, EngineErrorV>::Err(e@),
    {
        unit_response(OpKind::ImageBuild, status, body)
    }
}

} // verus!
