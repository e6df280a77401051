//! A visit to the tracked link, decided in two steps around the one store
//! operation it may need.
//!
//! [`landing_page`] looks at the request and either answers at once, when
//! the request names nobody, or hands back the click to store. The caller stores it and passes the outcome to
//! [`landing_page_reply`], which gives the answer.

use crate::header::{
    header_text, header_text_of, is_text, is_visible_char, lemma_header_text_is_visible,
};
use crate::record::{
    lemma_unknown_is_not_empty, or_unknown, text_or_unknown, ClickRecord, ClickRecordView, UNKNOWN,
};
use crate::response::{
    invalid_request_view, landing_document_view, store_failure_view, Response, ResponseView,
    STATUS_BAD_REQUEST,
};
use crate::store::StoreError;
use vstd::prelude::*;

verus! {

/// What a visit carries, as the transport delivered it.
#[derive(Debug, PartialEq, Eq)]
pub struct VisitRequest {
    /// The `email` query parameter, if the request has one.
    pub email: Option<String>,
    /// The peer's network address, if the transport knows it.
    pub peer_addr: Option<String>,
    /// The raw value of the `User-Agent` header, if the request has one.
    pub user_agent: Option<Vec<u8>>,
}

/// The mathematical content of a [`VisitRequest`].
pub struct VisitRequestView {
    pub email: Option<Seq<char>>,
    pub peer_addr: Option<Seq<char>>,
    pub user_agent: Option<Seq<u8>>,
}

impl View for VisitRequest {
    type V = VisitRequestView;

    open spec fn view(&self) -> VisitRequestView {
        VisitRequestView {
            email: self.email.deep_view(),
            peer_addr: self.peer_addr.deep_view(),
            user_agent: raw_value(self.user_agent),
        }
    }
}

/// The bytes of an optional raw header value.
pub open spec fn raw_value(value: Option<Vec<u8>>) -> Option<Seq<u8>> {
    match value {
        Some(bytes) => Some(bytes@),
        None => None,
    }
}

/// What to do with a visit.
#[derive(Debug, PartialEq, Eq)]
pub enum LandingStep {
    /// Answer with this; the store is not touched.
    Reject(Response),
    /// Store this click, once, and answer with [`landing_page_reply`].
    Record(ClickRecord),
}

/// The mathematical content of a [`LandingStep`].
pub enum LandingStepView {
    Reject(ResponseView),
    Record(ClickRecordView),
}

impl View for LandingStep {
    type V = LandingStepView;

    open spec fn view(&self) -> LandingStepView {
        match self {
            LandingStep::Reject(response) => LandingStepView::Reject(response@),
            LandingStep::Record(record) => LandingStepView::Record(record@),
        }
    }
}

impl LandingStepView {
    /// The clicks that this step asks the caller to store: one or none.
    pub open spec fn to_store(self) -> Seq<ClickRecordView> {
        match self {
            LandingStepView::Reject(_) => Seq::empty(),
            LandingStepView::Record(record) => seq![record],
        }
    }
}

/// The client agent of a visit: the text of its `User-Agent` header, or
/// [`UNKNOWN`] when the header is missing or is not text.
pub open spec fn client_agent_of(user_agent: Option<Seq<u8>>) -> Seq<char> {
    match user_agent {
        Some(bytes) => text_or_unknown(header_text_of(bytes)),
        None => UNKNOWN@,
    }
}

/// The click that a visit with the identifier `email` leaves behind.
pub open spec fn click_of(email: Seq<char>, request: VisitRequestView) -> ClickRecordView {
    ClickRecordView {
        email,
        ip_address: text_or_unknown(request.peer_addr),
        user_agent: client_agent_of(request.user_agent),
    }
}

/// Whether a request carries an identifier: an `email` parameter that is
/// present and not empty.
pub open spec fn has_email(request: VisitRequestView) -> bool {
    request.email matches Some(email) && email.len() > 0
}

/// What is done with a visit: without an `email` parameter, or with an empty
/// one, it is rejected; with any other, its click is stored.
pub open spec fn landing_step_of(request: VisitRequestView) -> LandingStepView {
    if has_email(request) {
        LandingStepView::Record(click_of(request.email->0, request))
    } else {
        LandingStepView::Reject(invalid_request_view())
    }
}

/// The answer to a visit whose click went to the store with this outcome.
pub open spec fn landing_reply_of(outcome: Result<(), StoreError>) -> ResponseView {
    match outcome {
        Ok(_) => landing_document_view(),
        Err(_) => store_failure_view(),
    }
}

/// The client agent of a visit, from the raw `User-Agent` header.
pub fn client_agent(user_agent: Option<Vec<u8>>) -> (agent: String)
    ensures
        agent@ == client_agent_of(raw_value(user_agent)),
{
    match user_agent {
        Some(bytes) => or_unknown(header_text(bytes.as_slice())),
        None => String::from_str(UNKNOWN),
    }
}

/// Decides a visit to the tracked link.
///
/// A request whose `email` parameter is missing or empty is answered at once
/// with status 400 and the body `Invalid request`, and nothing is stored.
/// Any other request yields the click to store: the email as received, the
/// peer address and the client agent, each of the two replaced by
/// [`UNKNOWN`] when the request does not supply it.
pub fn landing_page(request: VisitRequest) -> (step: LandingStep)
    ensures
        step@ == landing_step_of(request@),
{
    let VisitRequest { email, peer_addr, user_agent } = request;
    match email {
        None => LandingStep::Reject(Response::invalid_request()),
        Some(email) => {
            if email.as_str().is_empty() {
                LandingStep::Reject(Response::invalid_request())
            } else {
                LandingStep::Record(
                    ClickRecord {
                        email,
                        ip_address: or_unknown(peer_addr),
                        user_agent: client_agent(user_agent),
                    },
                )
            }
        },
    }
}

/// Answers a visit once its click went to the store: the landing document
/// when it was stored, status 500 when the store failed.
pub fn landing_page_reply(outcome: Result<(), StoreError>) -> (response: Response)
    ensures
        response@ == landing_reply_of(outcome),
{
    match outcome {
        Ok(_) => Response::landing_document(),
        Err(_) => Response::store_failure(),
    }
}

/// A visit that carries an email that is not empty has exactly one click
/// stored, and that click holds the email exactly as it was supplied.
pub proof fn lemma_visit_with_email_stores_one_click(request: VisitRequestView)
    requires
        has_email(request),
    ensures
        landing_step_of(request).to_store().len() == 1,
        landing_step_of(request).to_store()[0] == click_of(request.email->0, request),
        landing_step_of(request).to_store()[0].email == request.email->0,
{
}

/// A visit whose email is missing or empty has nothing stored: it is
/// rejected with status 400 before the store comes into play.
pub proof fn lemma_visit_without_email_stores_nothing(request: VisitRequestView)
    requires
        !has_email(request),
    ensures
        landing_step_of(request).to_store().len() == 0,
        landing_step_of(request) == LandingStepView::Reject(invalid_request_view()),
        invalid_request_view().status == STATUS_BAD_REQUEST,
{
}

/// No click that is handed to the store has an empty email, whatever the
/// request was.
pub proof fn lemma_stored_email_is_not_empty(request: VisitRequestView)
    ensures
        forall|i: int|
            0 <= i < landing_step_of(request).to_store().len() ==> (
            #[trigger] landing_step_of(request).to_store()[i]).email.len() > 0,
{
}

/// What the request does not supply is stored as [`UNKNOWN`]: the address
/// when the transport has none, the client agent when the header is missing
/// or is not text.
pub proof fn lemma_missing_attributes_are_unknown(email: Seq<char>, request: VisitRequestView)
    ensures
        request.peer_addr is None ==> click_of(email, request).ip_address == UNKNOWN@,
        request.user_agent is None ==> click_of(email, request).user_agent == UNKNOWN@,
        request.user_agent matches Some(bytes) && !is_text(bytes) ==> click_of(
            email,
            request,
        ).user_agent == UNKNOWN@,
{
}

/// The address and the client agent of a stored click are not empty, as long
/// as the request does not supply an empty one: an address or a `User-Agent`
/// header that is present and empty is stored as it is.
pub proof fn lemma_stored_attributes_are_not_empty(email: Seq<char>, request: VisitRequestView)
    requires
        request.peer_addr matches Some(address) ==> address.len() > 0,
        request.user_agent matches Some(bytes) ==> bytes.len() > 0,
    ensures
        click_of(email, request).ip_address.len() > 0,
        click_of(email, request).user_agent.len() > 0,
{
    lemma_unknown_is_not_empty();
}

/// Whatever the `User-Agent` header held, the client agent that is stored
/// consists of visible ASCII characters, spaces and tabs only.
pub proof fn lemma_client_agent_is_visible(user_agent: Option<Seq<u8>>)
    ensures
        forall|i: int|
            0 <= i < client_agent_of(user_agent).len() ==> is_visible_char(
                #[trigger] client_agent_of(user_agent)[i],
            ),
{
    reveal_strlit("unknown");
    match user_agent {
        Some(bytes) => {
            if is_text(bytes) {
                lemma_header_text_is_visible(bytes);
            }
        },
        None => {},
    }
}

} // verus!
