//! A client that sends requests from a file.

use std::collections::HashMap;

use vstd::prelude::*;
use vstd::string::*;
use vstd::utf8::*;

use crate::metrics::Nanoseconds;
use crate::text::{concat, concat3, itoa_u64, zero_padded};
use crate::worker::issuer::Request;

verus! {

/// How many digits the name of an invocation has that was given none.
pub const INVOCATION_ID_WIDTH: usize = 20;

/// A request in a file; its payload is a JSON text.
#[derive(Debug, PartialEq, Eq)]
pub struct JsonSnaplaceGrpcRequest {
    pub invocation_id: Option<String>,
    pub function_id: String,
    pub headers: Option<HashMap<String, String>>,
    pub payload: String,
}

/// What a JSON text is, as a payload.
#[derive(Debug)]
pub enum Payload {
    /// An object, as the bytes of a text without white space.
    Object(Vec<u8>),
    Text(String),
    /// An array: its items that are unsigned numbers, and how the others are shown.
    Array(Vec<Result<u64, String>>),
    Null,
    /// Any other value, as it is shown.
    Other(String),
    /// No JSON text.
    Failed(String),
}

/// What a JSON text is, as a payload.
pub enum PayloadView {
    Object(Seq<u8>),
    Text(Seq<char>),
    Array(Seq<Result<u64, Seq<char>>>),
    Null,
    Other(Seq<char>),
    Failed(Seq<char>),
}

/// An item of an array.
pub open spec fn item_view(item: Result<u64, String>) -> Result<u64, Seq<char>> {
    match item {
        Ok(n) => Ok(n),
        Err(shown) => Err(shown@),
    }
}

impl View for Payload {
    type V = PayloadView;

    open spec fn view(&self) -> PayloadView {
        match *self {
            Payload::Object(bytes) => PayloadView::Object(bytes@),
            Payload::Text(s) => PayloadView::Text(s@),
            Payload::Array(items) => PayloadView::Array(
                items@.map_values(|item: Result<u64, String>| item_view(item)),
            ),
            Payload::Null => PayloadView::Null,
            Payload::Other(shown) => PayloadView::Other(shown@),
            Payload::Failed(err) => PayloadView::Failed(err@),
        }
    }
}

/// What a JSON text is, as a payload.
pub uninterp spec fn payload_of(text: Seq<char>) -> PayloadView;

/// Calls `serde_json::from_str` for a `serde_json::Value`. An object goes through
/// `serde_json::to_vec`; the items of an array go through `serde_json::Value::as_u64`, or are
/// shown with `{}`; any other value is shown with `{:?}`, and an error with `{:#}`.
#[verifier::external_body]
pub(crate) fn parse_payload(text: &str) -> (r: Payload)
    ensures
        r@ == payload_of(text@),
{
    match serde_json::from_str(text) {
        Ok(serde_json::Value::Object(m)) => match serde_json::to_vec(&m) {
            Ok(bytes) => Payload::Object(bytes),
            Err(err) => Payload::Failed(format!("{err:#}")),
        },
        Ok(serde_json::Value::String(s)) => Payload::Text(s),
        Ok(serde_json::Value::Array(items)) => Payload::Array(
            items.iter().map(|v| v.as_u64().ok_or_else(|| v.to_string())).collect(),
        ),
        Ok(serde_json::Value::Null) => Payload::Null,
        Ok(value) => Payload::Other(format!("{value:?}")),
        Err(err) => Payload::Failed(format!("{err:#}")),
    }
}

/// Why bytes are no text.
pub uninterp spec fn utf8_error(bytes: Seq<u8>) -> Seq<char>;

/// Calls `std::str::from_utf8`: there is an error if and only if the bytes are not valid
/// UTF-8; it is shown with `{}`.
#[verifier::external_body]
pub(crate) fn check_utf8(bytes: &Vec<u8>) -> (r: Option<String>)
    ensures
        r is None == valid_utf8(bytes@),
        r is Some ==> r->0@ == utf8_error(bytes@),
{
    std::str::from_utf8(bytes).err().map(|err| err.to_string())
}

/// Why a request cannot be sent.
#[derive(Debug)]
#[allow(inconsistent_fields)]
pub enum RequestError {
    NoInvocationId,
    /// An item of the payload is no unsigned number.
    NotUnsigned(String),
    /// The items of the payload are no text.
    NotUtf8 { bytes: Vec<u8>, err: String },
    /// The payload is neither an object, a text, an array nor nothing.
    InvalidPayload(String),
    /// The payload is no JSON text.
    BrokenPayload(String),
}

/// Bytes as they are shown in a list.
pub open spec fn shown_bytes(bytes: Seq<u8>) -> Seq<char> {
    "["@ + shown_items(bytes) + "]"@
}

/// The items of a list of bytes.
pub open spec fn shown_items(bytes: Seq<u8>) -> Seq<char>
    decreases bytes.len(),
{
    if bytes.len() == 0 {
        ""@
    } else if bytes.len() == 1 {
        crate::text::decimal(bytes[0] as nat)
    } else {
        shown_items(bytes.drop_last()) + ", "@ + crate::text::decimal(bytes.last() as nat)
    }
}

/// Bytes as they are shown in a list.
pub fn show_bytes(bytes: &Vec<u8>) -> (r: String)
    ensures
        r@ == shown_bytes(bytes@),
{
    let mut items = "".to_owned();
    let mut i: usize = 0;
    assert(bytes@.take(0) =~= Seq::<u8>::empty());
    while i < bytes.len()
        invariant
            i <= bytes.len(),
            items@ == shown_items(bytes@.take(i as int)),
        decreases bytes.len() - i,
    {
        proof {
            let next = bytes@.take(i + 1);
            assert(next.drop_last() =~= bytes@.take(i as int));
            assert(next.last() == bytes@[i as int]);
            if i == 0 {
                assert(next[0] == bytes@[0]);
                reveal_strlit("");
            }
        }
        if i > 0 {
            items.append(", ");
        }
        items.append(itoa_u64(bytes[i] as u64).as_str());
        assert(i == 0 ==> items@ =~= crate::text::decimal(bytes@[0] as nat)) by {
            reveal_strlit("");
        }
        i = i + 1;
    }
    assert(bytes@.take(i as int) =~= bytes@);
    concat3("[", items.as_str(), "]")
}

impl RequestError {
    /// The error in words.
    pub open spec fn text(self) -> Seq<char> {
        match self {
            RequestError::NoInvocationId => "InvocationID still unset"@,
            RequestError::NotUnsigned(shown) => "JSON value '"@ + shown@
                + "' in payload array is not unsigned integer"@,
            RequestError::NotUtf8 { bytes, err } => "failed to convert byte array '"@
                + shown_bytes(bytes@) + "' to String: "@ + err@,
            RequestError::InvalidPayload(shown) => "invalid payload '"@ + shown@ + "'"@,
            RequestError::BrokenPayload(err) => err@,
        }
    }

    /// The error in words.
    pub fn message(&self) -> (r: String)
        ensures
            r@ == self.text(),
    {
        match self {
            RequestError::NoInvocationId => "InvocationID still unset".to_owned(),
            RequestError::NotUnsigned(shown) => concat3(
                "JSON value '",
                shown.as_str(),
                "' in payload array is not unsigned integer",
            ),
            RequestError::NotUtf8 { bytes, err } => {
                let mut r = concat(
                    "failed to convert byte array '",
                    show_bytes(bytes).as_str(),
                );
                r.append("' to String: ");
                r.append(err.as_str());
                r
            },
            RequestError::InvalidPayload(shown) => concat3("invalid payload '", shown.as_str(), "'"),
            RequestError::BrokenPayload(err) => err.clone(),
        }
    }
}

/// The first item of an array that is no unsigned number, if there is one.
pub open spec fn is_first_bad(items: Seq<Result<u64, Seq<char>>>, i: int) -> bool {
    0 <= i < items.len() && items[i] is Err && forall|j: int|
        0 <= j < i ==> (#[trigger] items[j]) is Ok
}

/// The items of an array, each cut to eight bits.
pub open spec fn item_bytes(items: Seq<Result<u64, Seq<char>>>) -> Seq<u8> {
    Seq::new(items.len(), |i: int| (items[i]->Ok_0 % 256) as u8)
}

/// What a payload is sent as: an object as its text, a text as its bytes, an array of numbers
/// as the bytes in it if they are a text, and nothing as no bytes at all.
pub open spec fn sent_as(payload: PayloadView, r: Result<Vec<u8>, RequestError>) -> bool {
    match payload {
        PayloadView::Object(bytes) => r is Ok && r->Ok_0@ == bytes,
        PayloadView::Text(s) => r is Ok && r->Ok_0@ == encode_utf8(s),
        PayloadView::Array(items) => {
            if exists|i: int| is_first_bad(items, i) {
                r is Err && r->Err_0 is NotUnsigned && exists|i: int| #[trigger]
                    is_first_bad(items, i) && (r->Err_0->NotUnsigned_0)@ == items[i]->Err_0
            } else if valid_utf8(item_bytes(items)) {
                r is Ok && r->Ok_0@ == item_bytes(items)
            } else {
                r is Err && r->Err_0 is NotUtf8 && r->Err_0->bytes@ == item_bytes(items)
                    && r->Err_0->err@ == utf8_error(item_bytes(items))
            }
        },
        PayloadView::Null => r is Ok && r->Ok_0@.len() == 0,
        PayloadView::Other(shown) => r is Err && r->Err_0 is InvalidPayload
            && (r->Err_0->InvalidPayload_0)@ == shown,
        PayloadView::Failed(err) => r is Err && r->Err_0 is BrokenPayload
            && (r->Err_0->BrokenPayload_0)@ == err,
    }
}

fn array_bytes(items: Vec<Result<u64, String>>) -> (r: Result<Vec<u8>, RequestError>)
    ensures
        sent_as(Payload::Array(items)@, r),
{
    let ghost view = items@.map_values(|item: Result<u64, String>| item_view(item));
    let mut bytes: Vec<u8> = Vec::new();
    let mut i: usize = 0;
    while i < items.len()
        invariant
            view == items@.map_values(|item: Result<u64, String>| item_view(item)),
            Payload::Array(items)@ == PayloadView::Array(view),
            i <= items.len(),
            bytes@.len() == i,
            forall|j: int| 0 <= j < i ==> (#[trigger] view[j]) is Ok,
            forall|j: int| 0 <= j < i ==> #[trigger] bytes@[j] == (view[j]->Ok_0 % 256) as u8,
        decreases items.len() - i,
    {
        assert(view[i as int] == item_view(items@[i as int]));
        match &items[i] {
            Ok(n) => {
                let n: u64 = *n;
                assert(n as u8 == n % 256) by (bit_vector);
                bytes.push(#[verifier::truncate] (n as u8));
            },
            Err(shown) => {
                assert(is_first_bad(view, i as int));
                return Err(RequestError::NotUnsigned(shown.clone()));
            },
        }
        i = i + 1;
    }
    assert(bytes@ =~= item_bytes(view));
    assert(!exists|k: int| is_first_bad(view, k));
    match check_utf8(&bytes) {
        None => Ok(bytes),
        Some(err) => Err(RequestError::NotUtf8 { bytes, err }),
    }
}

/// What a payload is sent as.
pub fn payload_bytes(payload: Payload) -> (r: Result<Vec<u8>, RequestError>)
    ensures
        sent_as(payload@, r),
{
    match payload {
        Payload::Object(bytes) => Ok(bytes),
        Payload::Text(s) => Ok(s.as_str().as_bytes_vec()),
        Payload::Array(items) => array_bytes(items),
        Payload::Null => Ok(Vec::new()),
        Payload::Other(shown) => Err(RequestError::InvalidPayload(shown)),
        Payload::Failed(err) => Err(RequestError::BrokenPayload(err)),
    }
}

/// What a request is sent as.
pub open spec fn sends(jreq: JsonSnaplaceGrpcRequest, r: Result<Request, RequestError>) -> bool {
    if jreq.invocation_id is None {
        r is Err && r->Err_0 is NoInvocationId
    } else {
        match r {
            Ok(req) => {
                &&& req.invocation_id@ == jreq.invocation_id->0@
                &&& req.function_id == jreq.function_id
                &&& match jreq.headers {
                    Some(headers) => req.metadata_map == headers,
                    None => req.metadata_map@ == Map::<String, String>::empty(),
                }
                &&& sent_as(payload_of(jreq.payload@), Ok(req.payload))
            },
            Err(err) => sent_as(payload_of(jreq.payload@), Err(err)),
        }
    }
}

/// What a request is sent as, given its payload.
pub fn with_payload(jreq: JsonSnaplaceGrpcRequest, payload: Payload) -> (r: Result<
    Request,
    RequestError,
>)
    ensures
        match (jreq.invocation_id, r) {
            (None, _) => r is Err && r->Err_0 is NoInvocationId,
            (Some(id), Ok(req)) => {
                &&& req.invocation_id == id
                &&& req.function_id == jreq.function_id
                &&& match jreq.headers {
                    Some(headers) => req.metadata_map == headers,
                    None => req.metadata_map@ == Map::<String, String>::empty(),
                }
                &&& sent_as(payload@, Ok(req.payload))
            },
            (Some(_), Err(err)) => sent_as(payload@, Err(err)),
        },
{
    let invocation_id = match jreq.invocation_id {
        Some(id) => id,
        None => {
            return Err(RequestError::NoInvocationId);
        },
    };
    let metadata_map = match jreq.headers {
        Some(headers) => headers,
        None => HashMap::new(),
    };
    match payload_bytes(payload) {
        Ok(payload) => Ok(
            Request { invocation_id, function_id: jreq.function_id, metadata_map, payload },
        ),
        Err(err) => Err(err),
    }
}

impl JsonSnaplaceGrpcRequest {
    /// The request as it is sent.
    pub fn try_into_request(self) -> (r: Result<Request, RequestError>)
        ensures
            sends(self, r),
    {
        let payload = parse_payload(self.payload.as_str());
        with_payload(self, payload)
    }
}

/// The request with a name: its own, or its number if it has none.
pub open spec fn is_numbered(
    jreq: JsonSnaplaceGrpcRequest,
    i: int,
    out: JsonSnaplaceGrpcRequest,
) -> bool {
    &&& out.function_id == jreq.function_id
    &&& out.headers == jreq.headers
    &&& out.payload == jreq.payload
    &&& out.invocation_id is Some
    &&& match jreq.invocation_id {
        Some(id) => out.invocation_id == jreq.invocation_id,
        None => out.invocation_id->0@ == crate::text::padded(
            i as nat,
            INVOCATION_ID_WIDTH as nat,
        ),
    }
}

/// The request with number `i` is sent as `r`.
pub open spec fn sends_numbered(
    jreq: JsonSnaplaceGrpcRequest,
    i: int,
    r: Result<Request, RequestError>,
) -> bool {
    exists|out: JsonSnaplaceGrpcRequest| #[trigger] is_numbered(jreq, i, out) && sends(out, r)
}

/// The request with number `i` can be sent.
pub open spec fn can_be_sent(jreq: JsonSnaplaceGrpcRequest, i: int) -> bool {
    exists|req: Request| #[trigger] sends_numbered(jreq, i, Ok::<Request, RequestError>(req))
}

/// The requests in a file as they are sent; those without a name are numbered. The first that
/// cannot be sent stops it.
pub fn json_snap_reqs(jreqs: Vec<JsonSnaplaceGrpcRequest>) -> (r: Result<Vec<Request>, RequestError>)
    ensures
        match r {
            Ok(reqs) => reqs@.len() == jreqs@.len() && forall|i: int|
                0 <= i < jreqs@.len() ==> sends_numbered(
                    #[trigger] jreqs@[i],
                    i,
                    Ok::<Request, RequestError>(reqs@[i]),
                ),
            Err(err) => exists|i: int|
                0 <= i < jreqs@.len() && sends_numbered(
                    #[trigger] jreqs@[i],
                    i,
                    Err::<Request, RequestError>(err),
                ) && forall|j: int| 0 <= j < i ==> can_be_sent(#[trigger] jreqs@[j], j),
        },
{
    let ghost all = jreqs@;
    let mut reqs: Vec<Request> = Vec::new();
    for jreq in it: jreqs
        invariant
            it.seq() == all,
            reqs@.len() == it.index(),
            forall|i: int|
                0 <= i < it.index() ==> sends_numbered(
                    #[trigger] all[i],
                    i,
                    Ok::<Request, RequestError>(reqs@[i]),
                ),
    {
        let i: usize = reqs.len();
        let mut out = jreq;
        if out.invocation_id.is_none() {
            out.invocation_id = Some(zero_padded(i as u64, INVOCATION_ID_WIDTH));
        }
        let ghost numbered = out;
        assert(is_numbered(all[i as int], i as int, numbered));
        match out.try_into_request() {
            Ok(req) => {
                let ghost before = reqs@;
                reqs.push(req);
                assert(sends_numbered(all[i as int], i as int, Ok::<Request, RequestError>(req)));
                assert forall|j: int| 0 <= j < it.index() + 1 implies sends_numbered(
                    #[trigger] all[j],
                    j,
                    Ok::<Request, RequestError>(reqs@[j]),
                ) by {
                    if j < i {
                        assert(reqs@[j] == before[j]);
                    }
                }
            },
            Err(err) => {
                assert(sends_numbered(
                    all[i as int],
                    i as int,
                    Err::<Request, RequestError>(err),
                ));
                assert forall|j: int| 0 <= j < i implies can_be_sent(#[trigger] all[j], j) by {
                    assert(sends_numbered(all[j], j, Ok::<Request, RequestError>(reqs@[j])));
                }
                return Err(err);
            },
        }
    }
    Ok(reqs)
}

/// Requests without names of their own get different ones.
pub proof fn law_numbers_are_unique(
    a: JsonSnaplaceGrpcRequest,
    b: JsonSnaplaceGrpcRequest,
    i: int,
    j: int,
    out_a: JsonSnaplaceGrpcRequest,
    out_b: JsonSnaplaceGrpcRequest,
)
    requires
        0 <= i,
        0 <= j,
        i != j,
        a.invocation_id is None,
        b.invocation_id is None,
        is_numbered(a, i, out_a),
        is_numbered(b, j, out_b),
    ensures
        out_a.invocation_id->0@ != out_b.invocation_id->0@,
{
    if out_a.invocation_id->0@ == out_b.invocation_id->0@ {
        crate::text::law_padded_is_injective(i as nat, j as nat, INVOCATION_ID_WIDTH as nat);
    }
}

/// How long a request took as the client sees it.
pub open spec fn latency(sent: Option<Nanoseconds>, received: Option<Nanoseconds>) -> Option<
    Nanoseconds,
> {
    match (sent, received) {
        (Some(sent), Some(received)) => Some(
            if received > sent {
                (received - sent) as u64
            } else {
                0
            },
        ),
        _ => None,
    }
}

/// How long a request took as the client sees it, given when it was sent and when its response
/// came; `None` if one of these is not known.
pub fn perceived_latency(sent: Option<Nanoseconds>, received: Option<Nanoseconds>) -> (r: Option<
    Nanoseconds,
>)
    ensures
        r == (match (sent, received) {
            (Some(sent), Some(received)) => Some(
                if received > sent {
                    (received - sent) as u64
                } else {
                    0
                },
            ),
            _ => None,
        }),
        r == latency(sent, received),
{
    match (sent, received) {
        (Some(sent), Some(received)) => Some(received.saturating_sub(sent)),
        _ => None,
    }
}

/// An array is sent as bytes, one for each of its numbers, if these are a text: a number that is a
/// byte is sent as that byte.
pub proof fn law_bytes_of_an_array(items: Seq<Result<u64, Seq<char>>>, i: int)
    requires
        0 <= i < items.len(),
        items[i] is Ok,
    ensures
        item_bytes(items).len() == items.len(),
        items[i]->Ok_0 < 256 ==> item_bytes(items)[i] == items[i]->Ok_0,
        item_bytes(items)[i] % 2 == items[i]->Ok_0 % 2,
        (items[i]->Ok_0 - item_bytes(items)[i]) % 256 == 0,
{
}

/// What becomes of a payload. Objects and texts are always sent, and so is nothing, as nothing; what
/// is no JSON text is not, nor is any other value. An array is sent if all of it are unsigned
/// numbers that make up a text; if not all are, it is told which is the first that is not.
pub proof fn law_what_becomes_of_a_payload(
    payload: PayloadView,
    r: Result<Vec<u8>, RequestError>,
    i: int,
)
    requires
        sent_as(payload, r),
    ensures
        payload is Object ==> r is Ok && r->Ok_0@ == payload->Object_0,
        payload is Text ==> r is Ok && r->Ok_0@ == encode_utf8(payload->Text_0),
        payload is Null ==> r is Ok && r->Ok_0@ == Seq::<u8>::empty(),
        payload is Other ==> r is Err && r->Err_0 is InvalidPayload
            && r->Err_0->InvalidPayload_0@ == payload->Other_0,
        payload is Failed ==> r is Err && r->Err_0 is BrokenPayload
            && r->Err_0->BrokenPayload_0@ == payload->Failed_0,
        payload is Array ==> {
            let items = payload->Array_0;
            &&& r is Ok ==> (forall|k: int|
                0 <= k < items.len() ==> (#[trigger] items[k]) is Ok) && valid_utf8(r->Ok_0@)
                && r->Ok_0@.len() == items.len()
            &&& r is Err ==> r->Err_0 is NotUnsigned || r->Err_0 is NotUtf8
            &&& 0 <= i < items.len() && items[i] is Err && (forall|k: int|
                0 <= k < i ==> (#[trigger] items[k]) is Ok) ==> r is Err && r->Err_0 is NotUnsigned
                && r->Err_0->NotUnsigned_0@ == items[i]->Err_0
        },
{
    if payload is Array {
        let items = payload->Array_0;
        if !(exists|k: int| is_first_bad(items, k)) {
            lemma_all_are_good(items, items.len());
        }
        if 0 <= i < items.len() && items[i] is Err && (forall|k: int|
            0 <= k < i ==> (#[trigger] items[k]) is Ok) {
            assert(is_first_bad(items, i));
            assert forall|k: int| #[trigger] is_first_bad(items, k) implies k == i by {
                if k < i {
                    assert(items[k] is Ok);
                }
                if i < k {
                    assert(items[i] is Ok);
                }
            }
        }
    }
}

proof fn lemma_all_are_good(items: Seq<Result<u64, Seq<char>>>, n: nat)
    requires
        n <= items.len(),
        !exists|k: int| is_first_bad(items, k),
    ensures
        forall|k: int| 0 <= k < n ==> (#[trigger] items[k]) is Ok,
    decreases n,
{
    if n > 0 {
        lemma_all_are_good(items, (n - 1) as nat);
        assert(!is_first_bad(items, n - 1));
    }
}

/// A request keeps the name that it has; one without gets the number that it has in the file, in
/// twenty digits. Nothing else of it changes.
pub proof fn law_how_requests_are_named(
    jreq: JsonSnaplaceGrpcRequest,
    i: u64,
    out: JsonSnaplaceGrpcRequest,
)
    requires
        is_numbered(jreq, i as int, out),
    ensures
        out == (JsonSnaplaceGrpcRequest { invocation_id: out.invocation_id, ..jreq }),
        out.invocation_id is Some,
        jreq.invocation_id is Some ==> out == jreq,
        jreq.invocation_id is None ==> out.invocation_id->0@.len() == 20 && crate::text::u64_of_text(
            out.invocation_id->0@,
        ) == Some(i),
{
    crate::text::law_what_is_padded(i as nat, 20);
    crate::text::law_digits_of_64_bits(i);
}

/// Bytes are shown one after another, with a comma and a space between any two.
pub proof fn law_how_bytes_are_shown(bytes: Seq<u8>, b: u8)
    ensures
        shown_items(seq![b]) == crate::text::decimal(b as nat),
        bytes.len() > 0 ==> shown_items(bytes.push(b)) == shown_items(bytes) + ", "@
            + crate::text::decimal(b as nat),
        shown_bytes(bytes) == "["@ + shown_items(bytes) + "]"@,
{
    assert(bytes.push(b).drop_last() =~= bytes);
}

/// A latency is known exactly if both times are. It is what was between them, and none if the
/// response came before the request.
pub proof fn law_latency(sent: Option<Nanoseconds>, received: Option<Nanoseconds>)
    ensures
        latency(sent, received) is Some <==> sent is Some && received is Some,
        sent is Some && received is Some && sent->0 <= received->0 ==> sent->0 + latency(
            sent,
            received,
        )->0 == received->0,
        sent is Some && received is Some && sent->0 > received->0 ==> latency(sent, received)->0
            == 0,
{
}

} // verus!
