//! The request assembler: the transport request around a signed payload.

use vstd::prelude::*;
use vstd::string::*;
use crate::canonical::RequestKind;
use crate::numbers::{decimal_string, decimal_text};

verus! {

/// A request as the transport has to send it. The library builds it and
/// sends nothing itself.
#[derive(Debug, PartialEq, Eq)]
pub struct Request {
    /// A write travels by POST, a read by GET.
    pub kind: RequestKind,
    /// The full URL; for a read it ends in `?` and the canonical query string.
    pub url: String,
    /// The headers by name and value, in the order in which they were set.
    pub headers: Vec<(&'static str, String)>,
    /// The canonical JSON body of a write; a read has none.
    pub body: Option<String>,
    /// The timestamp that was signed and that the timestamp header carries.
    pub timestamp: u128,
}

/// A request as plain values.
pub struct RequestView {
    pub kind: RequestKind,
    pub url: Seq<char>,
    pub headers: Seq<(Seq<char>, Seq<char>)>,
    pub body: Option<Seq<char>>,
    pub timestamp: u128,
}

impl View for Request {
    type V = RequestView;

    open spec fn view(&self) -> RequestView {
        RequestView {
            kind: self.kind,
            url: self.url@,
            headers: Seq::new(
                self.headers@.len(),
                |i: int| (self.headers@[i].0@, self.headers@[i].1@),
            ),
            body: match self.body {
                Some(body) => Some(body@),
                None => None,
            },
            timestamp: self.timestamp,
        }
    }
}

/// The headers of a request: API key, timestamp, receive window and
/// signature, and for a write the content type.
pub open spec fn headers_of(
    kind: RequestKind,
    api_key: Seq<char>,
    timestamp: u128,
    recv_window: Seq<char>,
    signature: Seq<char>,
) -> Seq<(Seq<char>, Seq<char>)> {
    let signed = seq![
        ("X-BAPI-API-KEY"@, api_key),
        ("X-BAPI-TIMESTAMP"@, decimal_text(timestamp as nat)),
        ("X-BAPI-RECV-WINDOW"@, recv_window),
        ("X-BAPI-SIGN"@, signature),
    ];
    match kind {
        RequestKind::Write => signed.push(("Content-Type"@, "application/json"@)),
        RequestKind::Read => signed,
    }
}

/// The request that carries a payload: a write has the payload as its body,
/// a read has it behind the URL's `?`, character for character.
pub open spec fn assembled(
    base_url: Seq<char>,
    endpoint: Seq<char>,
    kind: RequestKind,
    api_key: Seq<char>,
    timestamp: u128,
    recv_window: Seq<char>,
    signature: Seq<char>,
    payload: Seq<char>,
) -> RequestView {
    RequestView {
        kind,
        url: match kind {
            RequestKind::Write => base_url + endpoint,
            RequestKind::Read => base_url + endpoint + "?"@ + payload,
        },
        headers: headers_of(kind, api_key, timestamp, recv_window, signature),
        body: match kind {
            RequestKind::Write => Some(payload),
            RequestKind::Read => None,
        },
        timestamp,
    }
}

/// Builds the transport request around a payload and its signature. The
/// payload goes in as it is: nothing is escaped or re-serialized.
pub fn assemble(
    base_url: &str,
    endpoint: &str,
    kind: RequestKind,
    api_key: &str,
    timestamp: u128,
    recv_window: &str,
    signature: &str,
    payload: String,
) -> (r: Request)
    ensures
        r@ == assembled(
            base_url@,
            endpoint@,
            kind,
            api_key@,
            timestamp,
            recv_window@,
            signature@,
            payload@,
        ),
{
    let mut url = String::from_str(base_url);
    url.append(endpoint);
    let mut headers: Vec<(&'static str, String)> = Vec::new();
    headers.push(("X-BAPI-API-KEY", String::from_str(api_key)));
    headers.push(("X-BAPI-TIMESTAMP", decimal_string(timestamp)));
    headers.push(("X-BAPI-RECV-WINDOW", String::from_str(recv_window)));
    headers.push(("X-BAPI-SIGN", String::from_str(signature)));
    let body = match kind {
        RequestKind::Write => {
            headers.push(("Content-Type", String::from_str("application/json")));
            Some(payload)
        },
        RequestKind::Read => {
            url.append("?");
            url.append(payload.as_str());
            None
        },
    };
    let r = Request { kind, url, headers, body, timestamp };
    assert(r@.headers =~= headers_of(kind, api_key@, timestamp, recv_window@, signature@));
    r
}

} // verus!
