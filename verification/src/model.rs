//! Data model of one challenge exchange: the inbound request, the response
//! envelope, and the spec-level views the contracts are stated over.

use vstd::prelude::*;

verus! {

/// One inbound unit of work, already decoded from the wire into plain values.
/// Immutable once built; `config` carries any provider-specific JSON as raw
/// text, unread by this library.
pub struct ChallengeRequest {
    pub uid: Option<String>,
    pub action: String,
    pub challenge_type: String,
    pub dns_name: String,
    pub key: String,
    pub resolved_fqdn: String,
    pub resolved_zone: String,
    pub resource_namespace: String,
    pub allow_ambient_credentials: bool,
    pub config: Option<String>,
}

/// Error detail carried by a failed response.
pub struct ErrorStatus {
    pub message: String,
    pub reason: String,
    pub code: i32,
}

/// The response produced for every request: `status` is present exactly when
/// `success` is false.
pub struct ChallengeResponse {
    pub uid: String,
    pub success: bool,
    pub status: Option<ErrorStatus>,
}

/// Spec-level image of `ErrorStatus`.
pub struct StatusView {
    pub message: Seq<char>,
    pub reason: Seq<char>,
    pub code: int,
}

/// Spec-level image of `ChallengeResponse`.
pub struct ResponseView {
    pub uid: Seq<char>,
    pub success: bool,
    pub status: Option<StatusView>,
}

impl View for ErrorStatus {
    type V = StatusView;

    open spec fn view(&self) -> StatusView {
        StatusView { message: self.message@, reason: self.reason@, code: self.code as int }
    }
}

impl View for ChallengeResponse {
    type V = ResponseView;

    open spec fn view(&self) -> ResponseView {
        ResponseView {
            uid: self.uid@,
            success: self.success,
            status: match self.status {
                Some(st) => Some(st@),
                None => None,
            },
        }
    }
}

/// The envelope reporting success: empty `uid`, no status detail.
pub open spec fn success_view() -> ResponseView {
    ResponseView { uid: Seq::<char>::empty(), success: true, status: None }
}

/// The envelope reporting failure: empty `uid`, and `message` and `reason`
/// both carrying the same text, as the wire protocol does.
pub open spec fn failure_view(msg: Seq<char>, code: int) -> ResponseView {
    ResponseView {
        uid: Seq::<char>::empty(),
        success: false,
        status: Some(StatusView { message: msg, reason: msg, code }),
    }
}

/// The fixed envelope answering any GET probe.
pub open spec fn not_implemented_view() -> ResponseView {
    ResponseView {
        uid: "1"@,
        success: false,
        status: Some(
            StatusView { message: "Not implemented"@, reason: "Not implemented"@, code: 501 },
        ),
    }
}

/// A response carries error detail exactly when it reports failure.
pub open spec fn envelope_well_formed(r: ResponseView) -> bool {
    r.success <==> r.status is None
}

/// Every envelope this library produces is well-formed: status detail is
/// present exactly on failure.
pub proof fn lemma_envelopes_well_formed(msg: Seq<char>, code: int)
    ensures
        envelope_well_formed(success_view()),
        envelope_well_formed(failure_view(msg, code)),
        envelope_well_formed(not_implemented_view()),
{
}

/// A response reporting success.
pub fn success_response() -> (r: ChallengeResponse)
    ensures
        r@ == success_view(),
{
    ChallengeResponse { uid: String::new(), success: true, status: None }
}

/// A response reporting failure with the given message (also used as the
/// reason) and numeric code.
pub fn failure_response(msg: &str, code: i32) -> (r: ChallengeResponse)
    ensures
        r@ == failure_view(msg@, code as int),
{
    ChallengeResponse {
        uid: String::new(),
        success: false,
        status: Some(ErrorStatus { message: msg.to_owned(), reason: msg.to_owned(), code }),
    }
}

/// The fixed answer to any GET under the service's route prefix: it exists for
/// liveness probing only.
pub fn not_implemented_response() -> (r: ChallengeResponse)
    ensures
        r@ == not_implemented_view(),
{
    ChallengeResponse {
        uid: "1".to_owned(),
        success: false,
        status: Some(
            ErrorStatus {
                message: "Not implemented".to_owned(),
                reason: "Not implemented".to_owned(),
                code: 501,
            },
        ),
    }
}

} // verus!
