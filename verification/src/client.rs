use vstd::prelude::*;
use vstd::string::StringExecFns;
use crate::decode::{require_text, text_field};
use crate::errors::{classify, ClientError, ClientErrorView, DecodeError, DecodeErrorView};
use crate::json::{member_views, Json, JsonView, Member, MemberView};
use crate::parse::parsed_document;
use crate::text::str_eq;
use crate::types::{decode_error_response, ErrorResponse, Method, NotionResponse};

verus! {

/// A request that is ready to be sent: the method, the path below the base
/// address, and the body.
#[derive(Debug, PartialEq, Eq)]
pub struct Request {
    method: Method,
    endpoint: String,
    body: Json,
}

/// The mathematical value of a [`Request`].
pub struct RequestView {
    pub method: Method,
    pub endpoint: Seq<char>,
    pub body: JsonView,
}

impl View for Request {
    type V = RequestView;

    closed spec fn view(&self) -> RequestView {
        RequestView { method: self.method, endpoint: self.endpoint@, body: self.body@ }
    }
}

impl Request {
    /// A request with the given method, path and body.
    pub fn new(method: Method, endpoint: String, body: Json) -> (res: Request)
        ensures
            res@ == (RequestView { method, endpoint: endpoint@, body: body@ }),
    {
        Request { method, endpoint, body }
    }

    /// The method of the request.
    pub fn get_method(&self) -> (res: Method)
        ensures
            res == self@.method,
    {
        self.method
    }

    /// The path of the request, below the base address.
    pub fn get_endpoint(&self) -> (res: &str)
        ensures
            res@ == self@.endpoint,
    {
        self.endpoint.as_str()
    }

    /// The body of the request.
    pub fn get_body(&self) -> (res: &Json)
        ensures
            res@ == self@.body,
    {
        &self.body
    }
}

/// The address of a path: the base address, `/`, and the path.
pub fn url_for(base_url: &str, endpoint: &str) -> (res: String)
    ensures
        res@ == base_url@ + "/"@ + endpoint@,
{
    let mut url = String::from_str(base_url);
    url.append("/");
    url.append(endpoint);
    url
}

/// An empty object, the body of a request that asks without saying more.
pub fn empty_body() -> (res: Json)
    ensures
        res@ == JsonView::Object(Seq::empty()),
{
    let members: Vec<Member> = Vec::new();
    assert(member_views(members@) =~= Seq::<MemberView>::empty());
    Json::object(members)
}

/// Whether a status reports success: the statuses from 200 to 299.
pub open spec fn is_success(status: u16) -> bool {
    200 <= status < 300
}

/// Whether a member belongs to the envelope and not to the payload.
pub open spec fn is_envelope_key(key: Seq<char>) -> bool {
    key == "object"@ || key == "request_id"@
}

/// The members of an answer that make up its payload: all but `object` and
/// `request_id`, in their order.
pub open spec fn payload_members(members: Seq<MemberView>) -> Seq<MemberView> {
    members.filter(|entry: MemberView| !is_envelope_key(entry.key))
}

/// The three parts of an answer that reports success: the kind of object,
/// the id of the request, and the payload.
pub struct EnvelopeView {
    pub object: Seq<char>,
    pub request_id: Seq<char>,
    pub data: JsonView,
}

/// The answer that a document holds where the call succeeded: `object` and
/// `request_id`, both strings, and for the payload the other members of the
/// document.
pub open spec fn decode_envelope(doc: JsonView) -> Result<EnvelopeView, DecodeErrorView> {
    match require_text(doc, "object"@) {
        Err(error) => Err(error),
        Ok(object) => match require_text(doc, "request_id"@) {
            Err(error) => Err(error),
            Ok(request_id) => Ok(
                EnvelopeView {
                    object,
                    request_id,
                    data: JsonView::Object(payload_members(doc->Object_0)),
                },
            ),
        },
    }
}

/// What a status and a document amount to. The status alone decides
/// between success and failure. On success the document must be an answer
/// with its payload; on failure it must describe the failure, and the
/// error is the one that its code stands for. A document of another shape
/// than the status calls for is a decode error, on either side.
pub open spec fn unwrap_document(status: u16, doc: JsonView) -> Result<
    EnvelopeView,
    ClientErrorView,
> {
    if is_success(status) {
        match decode_envelope(doc) {
            Ok(envelope) => Ok(envelope),
            Err(error) => Err(ClientErrorView::DecodeError(error)),
        }
    } else {
        match decode_error_response(doc) {
            Ok(failure) => Err(classify(failure.code, failure.message)),
            Err(error) => Err(ClientErrorView::DecodeError(error)),
        }
    }
}

/// The status alone decides between a result and a failure reported by
/// the service: under a status that reports success nothing but a decode
/// error can go wrong, whatever the document holds; under any other status
/// there is no result, whatever the document holds.
pub proof fn lemma_status_decides(status: u16, doc: JsonView)
    ensures
        is_success(status) ==> (unwrap_document(status, doc) is Ok || unwrap_document(
            status,
            doc,
        )->Err_0 is DecodeError),
        !is_success(status) ==> unwrap_document(status, doc) is Err,
{
}

/// The members of an object without those of the envelope.
fn payload_of(members: &Vec<Member>) -> (res: Vec<Member>)
    ensures
        member_views(res@) == payload_members(member_views(members@)),
{
    let mut kept: Vec<Member> = Vec::new();
    let mut i: usize = 0;
    let ghost all = member_views(members@);
    let ghost keep = |entry: MemberView| !is_envelope_key(entry.key);
    proof {
        reveal(Seq::filter);
        assert(all.subrange(0, 0) =~= Seq::<MemberView>::empty());
        assert(member_views(kept@) =~= Seq::<MemberView>::empty());
    }
    while i < members.len()
        invariant
            i <= members@.len(),
            all == member_views(members@),
            keep == |entry: MemberView| !is_envelope_key(entry.key),
            member_views(kept@) == all.subrange(0, i as int).filter(keep),
        decreases members@.len() - i,
    {
        let ghost before = member_views(kept@);
        proof {
            reveal(Seq::filter);
            let next = all.subrange(0, i as int + 1);
            assert(next.drop_last() =~= all.subrange(0, i as int));
            assert(next.last() == members@[i as int]@);
        }
        let key = members[i].key.as_str();
        if !(str_eq(key, "object") || str_eq(key, "request_id")) {
            kept.push(Member::new(key, members[i].value.clone()));
            assert(member_views(kept@) =~= before.push(members@[i as int]@));
        }
        i += 1;
    }
    assert(all.subrange(0, members@.len() as int) =~= all);
    kept
}

/// Reads the answer that a document holds where the call succeeded.
pub fn read_envelope(doc: &Json) -> (res: Result<NotionResponse<Json>, DecodeError>)
    ensures
        match res {
            Ok(response) => decode_envelope(doc@) == Ok::<EnvelopeView, DecodeErrorView>(
                EnvelopeView {
                    object: response.object(),
                    request_id: response.request_id(),
                    data: response.data()@,
                },
            ),
            Err(error) => decode_envelope(doc@) == Err::<EnvelopeView, DecodeErrorView>(error@),
        },
{
    let members = match doc.as_object() {
        Some(members) => members,
        None => {
            return Err(DecodeError::MissingField(String::from_str("object")));
        },
    };
    let object = match text_field(doc, "object") {
        Ok(object) => object,
        Err(error) => {
            return Err(error);
        },
    };
    match text_field(doc, "request_id") {
        Err(error) => Err(error),
        Ok(request_id) => Ok(
            NotionResponse::new(object, request_id, Json::object(payload_of(members))),
        ),
    }
}

/// Turns a status and the document of an answer into the result of the
/// call: the answer with its payload, or the error.
pub fn unwrap_parsed(status: u16, doc: &Json) -> (res: Result<NotionResponse<Json>, ClientError>)
    ensures
        match res {
            Ok(response) => unwrap_document(status, doc@) == Ok::<EnvelopeView, ClientErrorView>(
                EnvelopeView {
                    object: response.object(),
                    request_id: response.request_id(),
                    data: response.data()@,
                },
            ),
            Err(error) => unwrap_document(status, doc@) == Err::<EnvelopeView, ClientErrorView>(
                error@,
            ),
        },
{
    if 200 <= status && status < 300 {
        match read_envelope(doc) {
            Ok(response) => Ok(response),
            Err(error) => Err(ClientError::DecodeError(error)),
        }
    } else {
        match ErrorResponse::decode(doc) {
            Ok(failure) => Err(ClientError::from(failure)),
            Err(error) => Err(ClientError::DecodeError(error)),
        }
    }
}

/// Turns a status and the text of an answer into the result of the call.
/// The text is read as JSON first: a text that is no JSON is a decode
/// error whatever the status says; any other text gives what its document
/// amounts to under the status.
pub fn unwrap(status: u16, body: &str) -> (res: Result<NotionResponse<Json>, ClientError>)
    ensures
        match parsed_document(body@) {
            None => res matches Err(ClientError::DecodeError(DecodeError::MalformedJson(_))),
            Some(doc) => match res {
                Ok(response) => unwrap_document(status, doc) == Ok::<
                    EnvelopeView,
                    ClientErrorView,
                >(
                    EnvelopeView {
                        object: response.object(),
                        request_id: response.request_id(),
                        data: response.data()@,
                    },
                ),
                Err(error) => unwrap_document(status, doc) == Err::<
                    EnvelopeView,
                    ClientErrorView,
                >(error@),
            },
        },
{
    match Json::parse(body) {
        Err(error) => Err(ClientError::DecodeError(error)),
        Ok(doc) => unwrap_parsed(status, &doc),
    }
}

} // verus!
