//! Request descriptors and the error taxonomy of the HTTP layer.
//!
//! A [`RequestData`] holds everything a transport needs to execute one
//! call: method, path, headers and a structured body. Encoding the body
//! as JSON bytes and running the call belong to the transport outside
//! this crate; every builder here pins the descriptor's content exactly.

use vstd::prelude::*;
use crate::auth::{HumanVerification, HumanVerificationLoginData};
use crate::message::{DraftMessage, MessageId, MessagePackage};

verus! {

/// HTTP method of a request descriptor.
#[derive(Debug, Clone, Copy, PartialEq, Eq, Structural)]
pub enum Method {
    Get,
    Put,
    Post,
    Delete,
}

/// One request header.
#[derive(Debug)]
pub struct Header {
    pub name: String,
    pub value: String,
}

impl Clone for Header {
    fn clone(&self) -> (r: Self)
        ensures
            r == *self,
    {
        Header { name: self.name.clone(), value: self.value.clone() }
    }
}

/// Structured request body. The transport serializes it; nothing in this
/// crate turns it into bytes.
#[derive(Debug)]
pub enum RequestBody {
    /// IDs of messages to mark as read.
    MarkRead { ids: Vec<MessageId> },
    /// IDs of messages to mark as unread.
    MarkUnread { ids: Vec<MessageId> },
    /// A label to add to the given messages.
    Label { label_id: String, ids: Vec<MessageId> },
    /// A label to remove from the given messages.
    Unlabel { label_id: String, ids: Vec<MessageId> },
    /// IDs of messages to delete permanently.
    Delete { ids: Vec<MessageId> },
    /// A draft to create.
    CreateDraft { message: DraftMessage },
    /// Replacement content for an existing draft.
    UpdateDraft { message: DraftMessage },
    /// Encrypted packages of a message to send.
    SendPackages { packages: Vec<MessagePackage> },
    /// Username whose SRP challenge is requested.
    AuthInfo { username: String },
    /// The SRP proof submission.
    Auth {
        username: String,
        client_ephemeral: String,
        client_proof: String,
        srp_session: String,
        human_verification: Option<HumanVerificationLoginData>,
    },
    /// The credential refresh submission.
    AuthRefresh { uid: String, refresh_token: String },
    /// A second-factor code submission.
    Totp { code: String },
}

/// Mathematical model of a [`RequestBody`].
pub enum RequestBodyView {
    MarkRead { ids: Seq<Seq<char>> },
    MarkUnread { ids: Seq<Seq<char>> },
    Label { label_id: Seq<char>, ids: Seq<Seq<char>> },
    Unlabel { label_id: Seq<char>, ids: Seq<Seq<char>> },
    Delete { ids: Seq<Seq<char>> },
    CreateDraft { message: crate::message::DraftMessageView },
    UpdateDraft { message: crate::message::DraftMessageView },
    SendPackages { packages: Seq<crate::message::MessagePackageView> },
    AuthInfo { username: Seq<char> },
    Auth {
        username: Seq<char>,
        client_ephemeral: Seq<char>,
        client_proof: Seq<char>,
        srp_session: Seq<char>,
        human_verification: Option<crate::auth::HumanVerificationLoginDataView>,
    },
    AuthRefresh { uid: Seq<char>, refresh_token: Seq<char> },
    Totp { code: Seq<char> },
}

impl View for RequestBody {
    type V = RequestBodyView;

    open spec fn view(&self) -> RequestBodyView {
        match self {
            RequestBody::MarkRead { ids } => RequestBodyView::MarkRead {
                ids: ids@.map_values(|i: MessageId| i@),
            },
            RequestBody::MarkUnread { ids } => RequestBodyView::MarkUnread {
                ids: ids@.map_values(|i: MessageId| i@),
            },
            RequestBody::Label { label_id, ids } => RequestBodyView::Label {
                label_id: label_id@,
                ids: ids@.map_values(|i: MessageId| i@),
            },
            RequestBody::Unlabel { label_id, ids } => RequestBodyView::Unlabel {
                label_id: label_id@,
                ids: ids@.map_values(|i: MessageId| i@),
            },
            RequestBody::Delete { ids } => RequestBodyView::Delete {
                ids: ids@.map_values(|i: MessageId| i@),
            },
            RequestBody::CreateDraft { message } => RequestBodyView::CreateDraft {
                message: message@,
            },
            RequestBody::UpdateDraft { message } => RequestBodyView::UpdateDraft {
                message: message@,
            },
            RequestBody::SendPackages { packages } => RequestBodyView::SendPackages {
                packages: packages@.map_values(|p: MessagePackage| p@),
            },
            RequestBody::AuthInfo { username } => RequestBodyView::AuthInfo {
                username: username@,
            },
            RequestBody::Auth {
                username,
                client_ephemeral,
                client_proof,
                srp_session,
                human_verification,
            } => RequestBodyView::Auth {
                username: username@,
                client_ephemeral: client_ephemeral@,
                client_proof: client_proof@,
                srp_session: srp_session@,
                human_verification: match human_verification {
                    Option::Some(hv) => Option::Some(hv@),
                    Option::None => Option::None,
                },
            },
            RequestBody::AuthRefresh { uid, refresh_token } => RequestBodyView::AuthRefresh {
                uid: uid@,
                refresh_token: refresh_token@,
            },
            RequestBody::Totp { code } => RequestBodyView::Totp { code: code@ },
        }
    }
}

/// Everything a transport needs to execute one API call.
#[derive(Debug)]
pub struct RequestData {
    pub method: Method,
    pub url: String,
    pub headers: Vec<Header>,
    pub body: Option<RequestBody>,
}

/// Mathematical model of a [`Header`].
pub struct HeaderView {
    pub name: Seq<char>,
    pub value: Seq<char>,
}

impl View for Header {
    type V = HeaderView;

    open spec fn view(&self) -> HeaderView {
        HeaderView { name: self.name@, value: self.value@ }
    }
}

/// Mathematical model of a [`RequestData`].
pub struct RequestDataView {
    pub method: Method,
    pub url: Seq<char>,
    pub headers: Seq<HeaderView>,
    pub body: Option<RequestBodyView>,
}

impl View for RequestData {
    type V = RequestDataView;

    open spec fn view(&self) -> RequestDataView {
        RequestDataView {
            method: self.method,
            url: self.url@,
            headers: self.headers@.map_values(|h: Header| h@),
            body: match &self.body {
                Option::Some(b) => Option::Some(b@),
                Option::None => Option::None,
            },
        }
    }
}

/// Holds when `post` extends `pre` by exactly one header `name: value`.
pub open spec fn headers_extended(
    pre: Seq<Header>,
    post: Seq<Header>,
    name: Seq<char>,
    value: Seq<char>,
) -> bool {
    &&& post.len() == pre.len() + 1
    &&& post.subrange(0, pre.len() as int) == pre
    &&& post.last().name@ == name
    &&& post.last().value@ == value
}

impl RequestData {
    /// A descriptor with no headers and no body.
    pub fn new(method: Method, url: String) -> (r: Self)
        ensures
            r.method == method,
            r.url@ == url@,
            r.headers@ == Seq::<Header>::empty(),
            r.body is None,
    {
        RequestData { method, url, headers: Vec::new(), body: Option::None }
    }

    /// Append one header; everything else is unchanged.
    pub fn header(self, name: &str, value: &str) -> (r: Self)
        ensures
            r.method == self.method,
            r.url@ == self.url@,
            r.body == self.body,
            headers_extended(self.headers@, r.headers@, name@, value@),
    {
        let ghost pre = self.headers@;
        let mut headers = self.headers;
        headers.push(Header { name: String::from_str(name), value: String::from_str(value) });
        proof {
            assert(headers@.subrange(0, pre.len() as int) =~= pre);
        }
        RequestData { method: self.method, url: self.url, headers, body: self.body }
    }

    /// Append the bearer authorization header for `token`.
    pub fn bearer_token(self, token: &str) -> (r: Self)
        ensures
            r.method == self.method,
            r.url@ == self.url@,
            r.body == self.body,
            headers_extended(self.headers@, r.headers@, "authorization"@, "Bearer "@ + token@),
    {
        let mut value = String::from_str("Bearer ");
        value.append(token);
        let ghost pre = self.headers@;
        let mut headers = self.headers;
        headers.push(Header { name: String::from_str("authorization"), value });
        proof {
            assert(headers@.subrange(0, pre.len() as int) =~= pre);
        }
        RequestData { method: self.method, url: self.url, headers, body: self.body }
    }

    /// Attach a structured body to be sent JSON-encoded.
    pub fn json(self, body: RequestBody) -> (r: Self)
        ensures
            r.method == self.method,
            r.url@ == self.url@,
            r.headers@ == self.headers@,
            r.body == Option::Some(body),
    {
        RequestData { method: self.method, url: self.url, headers: self.headers, body: Option::Some(body) }
    }
}

impl Clone for RequestBody {
    fn clone(&self) -> (r: Self)
        ensures
            r@ == self@,
    {
        match self {
            RequestBody::MarkRead { ids } => RequestBody::MarkRead {
                ids: crate::message::clone_message_ids(ids.as_slice()),
            },
            RequestBody::MarkUnread { ids } => RequestBody::MarkUnread {
                ids: crate::message::clone_message_ids(ids.as_slice()),
            },
            RequestBody::Label { label_id, ids } => RequestBody::Label {
                label_id: label_id.clone(),
                ids: crate::message::clone_message_ids(ids.as_slice()),
            },
            RequestBody::Unlabel { label_id, ids } => RequestBody::Unlabel {
                label_id: label_id.clone(),
                ids: crate::message::clone_message_ids(ids.as_slice()),
            },
            RequestBody::Delete { ids } => RequestBody::Delete {
                ids: crate::message::clone_message_ids(ids.as_slice()),
            },
            RequestBody::CreateDraft { message } => RequestBody::CreateDraft {
                message: message.clone(),
            },
            RequestBody::UpdateDraft { message } => RequestBody::UpdateDraft {
                message: message.clone(),
            },
            RequestBody::SendPackages { packages } => RequestBody::SendPackages {
                packages: crate::message::clone_packages(packages.as_slice()),
            },
            RequestBody::AuthInfo { username } => RequestBody::AuthInfo {
                username: username.clone(),
            },
            RequestBody::Auth {
                username,
                client_ephemeral,
                client_proof,
                srp_session,
                human_verification,
            } => RequestBody::Auth {
                username: username.clone(),
                client_ephemeral: client_ephemeral.clone(),
                client_proof: client_proof.clone(),
                srp_session: srp_session.clone(),
                human_verification: match human_verification {
                    Option::Some(hv) => Option::Some(hv.clone()),
                    Option::None => Option::None,
                },
            },
            RequestBody::AuthRefresh { uid, refresh_token } => RequestBody::AuthRefresh {
                uid: uid.clone(),
                refresh_token: refresh_token.clone(),
            },
            RequestBody::Totp { code } => RequestBody::Totp { code: code.clone() },
        }
    }
}

/// Copy a header list element by element.
fn clone_headers(v: &Vec<Header>) -> (r: Vec<Header>)
    ensures
        r@ == v@,
{
    let mut out: Vec<Header> = Vec::new();
    let mut i: usize = 0;
    while i < v.len()
        invariant
            i <= v.len(),
            out@ == v@.subrange(0, i as int),
        decreases v.len() - i,
    {
        out.push(v[i].clone());
        i += 1;
        proof {
            assert(out@ =~= v@.subrange(0, i as int));
        }
    }
    proof {
        assert(out@ =~= v@);
    }
    out
}

impl Clone for RequestData {
    fn clone(&self) -> (r: Self)
        ensures
            r@ == self@,
    {
        RequestData {
            method: self.method,
            url: self.url.clone(),
            headers: clone_headers(&self.headers),
            body: match &self.body {
                Option::Some(b) => Option::Some(b.clone()),
                Option::None => Option::None,
            },
        }
    }
}

/// A structured error response from the server.
#[derive(Debug)]
pub struct ApiError {
    /// HTTP status code of the response.
    pub http_code: u16,
    /// Machine-readable error code from the response body.
    pub api_code: u64,
    /// Human-readable message from the response body.
    pub message: String,
    /// A human-verification challenge, when the server demands one.
    pub human_verification: Option<HumanVerification>,
}

impl ApiError {
    /// The human-verification challenge carried by this error, if any.
    pub fn try_get_human_verification_details(&self) -> (r: Option<&HumanVerification>)
        ensures
            match r {
                Option::Some(hv) => self.human_verification == Option::Some(*hv),
                Option::None => self.human_verification is None,
            },
    {
        match &self.human_verification {
            Option::Some(hv) => Option::Some(hv),
            Option::None => Option::None,
        }
    }
}

/// An error surfaced by executing a request: either the transport failed,
/// or the server answered with a structured error.
#[derive(Debug)]
pub enum HttpError {
    /// Network or I/O failure; never retried by this layer.
    Transport(String),
    /// Structured server error.
    Api(ApiError),
}

/// The decimal digit character for `d`.
pub open spec fn spec_digit(d: nat) -> char {
    if d == 0 {
        '0'
    } else if d == 1 {
        '1'
    } else if d == 2 {
        '2'
    } else if d == 3 {
        '3'
    } else if d == 4 {
        '4'
    } else if d == 5 {
        '5'
    } else if d == 6 {
        '6'
    } else if d == 7 {
        '7'
    } else if d == 8 {
        '8'
    } else {
        '9'
    }
}

/// The decimal representation of `n`, most significant digit first.
pub open spec fn spec_decimal(n: nat) -> Seq<char>
    decreases n,
{
    if n < 10 {
        seq![spec_digit(n)]
    } else {
        spec_decimal(n / 10).push(spec_digit(n % 10))
    }
}

fn digit_string(d: u32) -> (r: String)
    requires
        d < 10,
    ensures
        r@ == seq![spec_digit(d as nat)],
{
    let s = match d {
        0 => "0",
        1 => "1",
        2 => "2",
        3 => "3",
        4 => "4",
        5 => "5",
        6 => "6",
        7 => "7",
        8 => "8",
        _ => "9",
    };
    proof {
        reveal_strlit("0");
        reveal_strlit("1");
        reveal_strlit("2");
        reveal_strlit("3");
        reveal_strlit("4");
        reveal_strlit("5");
        reveal_strlit("6");
        reveal_strlit("7");
        reveal_strlit("8");
        reveal_strlit("9");
        assert(s@ =~= seq![spec_digit(d as nat)]);
    }
    String::from_str(s)
}

/// Render `n` in decimal.
pub fn u32_to_string(n: u32) -> (r: String)
    ensures
        r@ == spec_decimal(n as nat),
    decreases n,
{
    if n < 10 {
        digit_string(n)
    } else {
        let mut s = u32_to_string(n / 10);
        let d = digit_string(n % 10);
        s.append(d.as_str());
        proof {
            assert(s@ =~= spec_decimal(n as nat));
        }
        s
    }
}

} // verus!
