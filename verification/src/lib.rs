//! A typed client core for a container-engine HTTP API.
//!
//! Every operation funnels through one design: build a request descriptor,
//! hand it to a transport, then resolve the numeric response status against
//! the operation's fixed status table into a typed success or a typed error.
//! The transport itself — sockets, connection reuse, TLS — is the caller's
//! collaborator; this crate owns the request shapes, the status tables, and
//! the decoding rules.

pub mod api;
pub mod codec;
pub mod encode;
pub mod json;
pub mod opts;
pub mod resolve;
pub mod result;

use crate::api::{Container, Containers, Images, Networks, RequestDescriptor};
use crate::codec::{auth_reply_of, check_uri, message_of, parse_auth_reply, uri_valid};
use crate::json::json_obj_of;
use crate::opts::AuthOpts;
use crate::resolve::{resolve, resolve_spec, EngineError, EngineErrorV, OpKind, Outcome, OutcomeV};
use vstd::prelude::*;
use vstd::string::*;
use vstd::utf8::encode_utf8;

verus! {

/// The main interface to one instance of the engine: the endpoint
/// configuration every resource handle borrows.
#[derive(Debug)]
pub struct Docker {
    url: String,
}

impl View for Docker {
    type V = Seq<char>;

    closed spec fn view(&self) -> Seq<char> {
        self.url@
    }
}

impl Docker {
    /// Configures an endpoint. Construction fails — with a transport error —
    /// exactly when the address is not a syntactically valid URI.
    pub fn new(url: &str) -> (r: Result<Docker, EngineError>)
        ensures
            uri_valid(url@) ==> (r matches Ok(d) && d@ == url@),
            !uri_valid(url@) ==> (r matches Err(e) && e@ == EngineErrorV::Transport(
                "invalid endpoint url"@,
            )),
    {
        if check_uri(url) {
            Ok(Docker { url: String::from_str(url) })
        } else {
            Err(EngineError::Transport(String::from_str("invalid endpoint url")))
        }
    }

    /// The configured base address.
    pub fn url(&self) -> (r: &String)
        ensures
            r@ == self@,
    {
        &self.url
    }

    /// A handle onto one container.
    pub fn container<'d>(&'d self, id: &str) -> (c: Container<'d>)
        ensures
            c@ == id@,
            c.endpoint() == *self,
    {
        Container::new(self, id)
    }

    /// The containers interface.
    pub fn containers<'d>(&'d self) -> (c: Containers<'d>)
        ensures
            c.endpoint() == *self,
    {
        Containers::new(self)
    }

    /// The images interface.
    pub fn images<'d>(&'d self) -> (c: Images<'d>)
        ensures
            c.endpoint() == *self,
    {
        Images::new(self)
    }

    /// The networks interface.
    pub fn networks<'d>(&'d self) -> (c: Networks<'d>)
        ensures
            c.endpoint() == *self,
    {
        Networks::new(self)
    }

    /// The request that asks the engine for an identity token: the
    /// credentials record posted as a JSON body.
    pub fn authenticate_request(&self, opts: &AuthOpts) -> (rd: RequestDescriptor)
        ensures
            rd.method == crate::api::Method::Post,
            rd.path@ == "/auth"@,
            rd.query is None,
            rd.body@ == encode_utf8(json_obj_of(opts@)),
            rd.headers@.len() == 0,
    {
        RequestDescriptor {
            method: crate::api::Method::Post,
            path: String::from_str("/auth"),
            query: None,
            body: opts.body_json().as_str().as_bytes_vec(),
            headers: Vec::new(),
        }
    }

    /// Resolves an authentication response: the identity token on a token
    /// reply, the empty token on an empty success, the table's error
    /// otherwise; a token reply whose body does not parse is a decode error.
    pub fn authenticate_response(&self, status: u16, body: Vec<u8>) -> (r: Result<
        String,
        EngineError,
    >)
        ensures
            status == 200 ==> match auth_reply_of(body@) {
                Some(p) => r matches Ok(t) && t@ == p.1,
                None => r matches Err(e) && e@ is Decode,
            },
            status == 204 ==> (r matches Ok(t) && t@ == Seq::<char>::empty()),
            status != 200 && status != 204 ==> (r matches Err(e) && resolve_spec(
                OpKind::Auth,
                status,
                body@,
                message_of(body@),
            ) == Result::<OutcomeV, EngineErrorV>::Err(e@)),
    {
        match resolve(OpKind::Auth, status, body) {
            Ok(Outcome::Payload(b)) => match parse_auth_reply(&b) {
                Some(p) => {
                    let reply = AuthMsg { Status: p.0, IdentityToken: p.1 };
                    Ok(reply.token())
                },
                None => Err(
                    EngineError::Decode(
                        String::from_str("could not decode the authentication reply"),
                    ),
                ),
            },
            Ok(Outcome::Empty) => Ok(String::new()),
            Err(e) => Err(e),
        }
    }
}

/// The engine's error envelope: the optional `{message}` object many failure
/// responses carry.
#[derive(Debug, Clone, PartialEq, Eq)]
pub struct Msg {
    message: String,
}

impl View for Msg {
    type V = Seq<char>;

    closed spec fn view(&self) -> Seq<char> {
        self.message@
    }
}

impl Msg {
    /// Wraps a message text.
    pub fn new(message: &str) -> (r: Msg)
        ensures
            r@ == message@,
    {
        Msg { message: String::from_str(message) }
    }

    /// The carried text.
    pub fn msg(self) -> (r: String)
        ensures
            r@ == self@,
    {
        self.message
    }
}

/// The engine's authentication reply: a status line and an identity token.
#[allow(non_snake_case)]
#[derive(Debug, Clone, PartialEq, Eq)]
pub struct AuthMsg {
    pub Status: String,
    pub IdentityToken: String,
}

impl AuthMsg {
    /// The reply's status line.
    pub fn status(&self) -> (r: String)
        ensures
            r@ == self.Status@,
    {
        self.Status.clone()
    }

    /// The identity token.
    pub fn token(&self) -> (r: String)
        ensures
            r@ == self.IdentityToken@,
    {
        self.IdentityToken.clone()
    }
}

} // verus!
