//! Calls to a personal data server: the request each call sends, and the
//! session that the server's answer opens.

use vstd::prelude::*;
use crate::json::{
    json_merged, json_with_member, json_wrapped, merge_member, set_member, text_view,
    wrap_member,
};
use crate::text::join;

verus! {

/// A session with a personal data server.
#[derive(Debug, Clone, PartialEq, Eq)]
pub struct PdsClient {
    /// The base URL of the data server.
    pub pds: String,
    /// The token that authorises calls in this session.
    pub access_jwt: String,
}

/// An operation as the data server sends and takes it: wrapped in an object
/// under `operation`.
#[derive(Debug, Clone, PartialEq, Eq)]
pub struct WrappedOperation {
    /// The operation, as JSON text.
    pub operation: String,
}

/// A request to a data server.
#[derive(Debug, PartialEq, Eq)]
pub struct XrpcRequest {
    /// Where the request goes.
    pub url: String,
    /// The value of the `Authorization` header, where the call needs one.
    pub authorization: Option<String>,
    /// The JSON body, where the call has one.
    pub body: Option<String>,
}

/// The ways in which preparing a call or reading its answer fails.
#[derive(Debug, Clone, Copy, PartialEq, Eq, Structural)]
pub enum XrpcError {
    /// The server's answer has not the shape that the call expects.
    UnexpectedResponse,
    /// A document to send is not JSON text.
    MalformedDocument,
}

/// The mathematical form of a request.
pub struct Request {
    pub url: Seq<char>,
    pub authorization: Option<Seq<char>>,
    pub body: Option<Seq<char>>,
}

impl View for XrpcRequest {
    type V = Request;

    open spec fn view(&self) -> Request {
        Request {
            url: self.url@,
            authorization: match self.authorization {
                Some(a) => Some(a@),
                None => None,
            },
            body: match self.body {
                Some(b) => Some(b@),
                None => None,
            },
        }
    }
}

/// The URL of method `method` at the server with base URL `pds`.
pub open spec fn endpoint(pds: Seq<char>, method: Seq<char>) -> Seq<char> {
    pds + "/xrpc/"@ + method
}

/// The `Authorization` header of a session.
pub open spec fn bearer(access_jwt: Seq<char>) -> Seq<char> {
    "Bearer "@ + access_jwt
}

/// `document` with the string member `key` set, where `value` is given;
/// `document` itself where it is not.
pub open spec fn with_optional_member(
    document: Option<Seq<char>>,
    key: Seq<char>,
    value: Option<Seq<char>>,
) -> Option<Seq<char>> {
    match (document, value) {
        (Some(text), Some(v)) => json_with_member(text, key, v),
        (Some(text), None) => Some(text),
        (None, _) => None,
    }
}

/// The body that opens a session: an object of `identifier` and `password`.
pub open spec fn session_body(did: Seq<char>, password: Seq<char>) -> Option<Seq<char>> {
    with_optional_member(json_with_member("{}"@, "identifier"@, did), "password"@, Some(password))
}

/// The body that creates an account: an object of `handle`, `email`,
/// `password` and `recoveryKey`, and of `did` and `inviteCode` where they
/// are given.
pub open spec fn account_body(
    handle: Seq<char>,
    email: Seq<char>,
    password: Seq<char>,
    recovery_key: Seq<char>,
    invite_code: Option<Seq<char>>,
    did: Option<Seq<char>>,
) -> Option<Seq<char>> {
    let with_handle = json_with_member("{}"@, "handle"@, handle);
    let with_email = with_optional_member(with_handle, "email"@, Some(email));
    let with_did = with_optional_member(with_email, "did"@, did);
    let with_invite = with_optional_member(with_did, "inviteCode"@, invite_code);
    let with_password = with_optional_member(with_invite, "password"@, Some(password));
    with_optional_member(with_password, "recoveryKey"@, Some(recovery_key))
}

/// What a call with a body comes to: the request, where the body could be
/// made; `MalformedDocument` where it could not.
pub open spec fn call_with_body(
    url: Seq<char>,
    authorization: Option<Seq<char>>,
    body: Option<Seq<char>>,
    out: Result<XrpcRequest, XrpcError>,
) -> bool {
    match out {
        Ok(request) => body is Some && request@ == (Request { url, authorization, body }),
        Err(e) => body is None && e == XrpcError::MalformedDocument,
    }
}

fn endpoint_url(pds: &str, method: &str) -> (url: String)
    ensures
        url@ == endpoint(pds@, method@),
{
    let mut url = join(pds, "/xrpc/");
    url.append(method);
    url
}

fn set_optional_member(document: Option<String>, key: &str, value: &Option<String>) -> (out: Option<
    String,
>)
    ensures
        text_view(out) == with_optional_member(
            text_view(document),
            key@,
            text_view(*value),
        ),
{
    match document {
        None => None,
        Some(text) => match value {
            Some(v) => set_member(text.as_str(), key, v.as_str()),
            None => Some(text),
        },
    }
}

fn request_with_body(url: String, authorization: Option<String>, body: Option<String>) -> (out:
    Result<XrpcRequest, XrpcError>)
    ensures
        call_with_body(
            url@,
            text_view(authorization),
            text_view(body),
            out,
        ),
{
    match body {
        None => Err(XrpcError::MalformedDocument),
        Some(text) => Ok(XrpcRequest { url, authorization, body: Some(text) }),
    }
}

/// The request that describes the server at `pds_hostname`.
pub fn describe_server(pds_hostname: &str) -> (out: XrpcRequest)
    ensures
        out@ == (Request {
            url: endpoint("https://"@ + pds_hostname@, "com.atproto.server.describeServer"@),
            authorization: None,
            body: None,
        }),
{
    let base = join("https://", pds_hostname);
    XrpcRequest {
        url: endpoint_url(base.as_str(), "com.atproto.server.describeServer"),
        authorization: None,
        body: None,
    }
}

/// The request that creates an account on the server at `pds_hostname`.
pub fn create_account(
    pds_hostname: &str,
    handle: &str,
    password: &str,
    email: &str,
    recovery_key: &str,
    invite_code: Option<String>,
    did: Option<String>,
) -> (out: Result<XrpcRequest, XrpcError>)
    ensures
        call_with_body(
            endpoint("https://"@ + pds_hostname@, "com.atproto.server.createAccount"@),
            None,
            account_body(
                handle@,
                email@,
                password@,
                recovery_key@,
                text_view(invite_code),
                text_view(did),
            ),
            out,
        ),
{
    let base = join("https://", pds_hostname);
    let url = endpoint_url(base.as_str(), "com.atproto.server.createAccount");
    let body = set_member("{}", "handle", handle);
    let body = set_optional_member(body, "email", &Some(email.to_owned()));
    let body = set_optional_member(body, "did", &did);
    let body = set_optional_member(body, "inviteCode", &invite_code);
    let body = set_optional_member(body, "password", &Some(password.to_owned()));
    let body = set_optional_member(body, "recoveryKey", &Some(recovery_key.to_owned()));
    request_with_body(url, None, body)
}

impl PdsClient {
    /// The request that opens a session for `did` at the server `pds`.
    pub fn session_request(pds: &str, did: &str, password: &str) -> (out: Result<
        XrpcRequest,
        XrpcError,
    >)
        ensures
            call_with_body(
                endpoint(pds@, "com.atproto.server.createSession"@),
                None,
                session_body(did@, password@),
                out,
            ),
    {
        let url = endpoint_url(pds, "com.atproto.server.createSession");
        let body = set_member("{}", "identifier", did);
        let body = set_optional_member(body, "password", &Some(password.to_owned()));
        request_with_body(url, None, body)
    }

    /// The session that the server's answer opens: `access_jwt` is the
    /// token of the answer, or `None` where the answer held none.
    pub fn from_credentials(pds: &str, access_jwt: Option<String>) -> (out: Result<
        PdsClient,
        XrpcError,
    >)
        ensures
            match out {
                Ok(client) => access_jwt matches Some(token) && client.pds@ == pds@
                    && client.access_jwt@ == token@,
                Err(e) => access_jwt is None && e == XrpcError::UnexpectedResponse,
            },
    {
        match access_jwt {
            Some(token) => Ok(PdsClient { pds: pds.to_owned(), access_jwt: token }),
            None => Err(XrpcError::UnexpectedResponse),
        }
    }

    fn authorization(&self) -> (out: String)
        ensures
            out@ == bearer(self.access_jwt@),
    {
        join("Bearer ", self.access_jwt.as_str())
    }

    /// The request that asks the server to mail a confirmation code for
    /// signing an operation.
    pub fn request_plc_op_sig(&self) -> (out: XrpcRequest)
        ensures
            out@ == (Request {
                url: endpoint(self.pds@, "com.atproto.identity.requestPlcOperationSignature"@),
                authorization: Some(bearer(self.access_jwt@)),
                body: None,
            }),
    {
        XrpcRequest {
            url: endpoint_url(
                self.pds.as_str(),
                "com.atproto.identity.requestPlcOperationSignature",
            ),
            authorization: Some(self.authorization()),
            body: None,
        }
    }

    /// The request that has the server sign an operation: the document with
    /// the confirmation code merged in as its `token`.
    pub fn sign_plc_op(&self, did_doc: &str, token: &str) -> (out: Result<XrpcRequest, XrpcError>)
        ensures
            call_with_body(
                endpoint(self.pds@, "com.atproto.identity.signPlcOperation"@),
                Some(bearer(self.access_jwt@)),
                json_merged(did_doc@, "token"@, token@),
                out,
            ),
    {
        let url = endpoint_url(self.pds.as_str(), "com.atproto.identity.signPlcOperation");
        let body = merge_member(did_doc, "token", token);
        request_with_body(url, Some(self.authorization()), body)
    }

    /// The request that has the server submit a signed operation: the
    /// operation wrapped under `operation`.
    pub fn submit_plc_op(&self, operation: &str) -> (out: Result<XrpcRequest, XrpcError>)
        ensures
            call_with_body(
                endpoint(self.pds@, "com.atproto.identity.submitPlcOperation"@),
                Some(bearer(self.access_jwt@)),
                json_wrapped("operation"@, operation@),
                out,
            ),
    {
        let url = endpoint_url(self.pds.as_str(), "com.atproto.identity.submitPlcOperation");
        let body = wrap_member("operation", operation);
        request_with_body(url, Some(self.authorization()), body)
    }
}

impl WrappedOperation {
    /// The JSON text that wraps the operation under `operation`.
    pub fn to_json(&self) -> (out: Result<String, XrpcError>)
        ensures
            match out {
                Ok(text) => json_wrapped("operation"@, self.operation@) == Some(text@),
                Err(e) => json_wrapped("operation"@, self.operation@) is None && e
                    == XrpcError::MalformedDocument,
            },
    {
        match wrap_member("operation", self.operation.as_str()) {
            Some(text) => Ok(text),
            None => Err(XrpcError::MalformedDocument),
        }
    }
}

} // verus!
