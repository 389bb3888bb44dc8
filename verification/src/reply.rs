//! How outcomes are answered over HTTP.
//!
//! Whatever the pipeline can classify as a fact about the payment is
//! answered with status 200 and a body that says why. Only a fault of the
//! facilitator itself is answered with status 400, and then without detail:
//! clients read the body of a 200 to learn why a payment was turned down
//! and never have to tell ordinary rejections from HTTP errors.

use crate::outcome::{SettleOutcome, SettleOutcomeView, VerifyOutcome, VerifyOutcomeView};
use crate::registry::{SupportedEntry, SupportedEntryView, SupportedRegistry, entry_views};
use crate::taxonomy::{FacilitatorLocalError, FacilitatorLocalErrorView, Severity};
use vstd::prelude::*;
use vstd::string::*;

verus! {

/// Status of an answer that carries an outcome.
pub const STATUS_OK: u16 = 200;

/// Status of an answer to a request that could not be decided.
pub const STATUS_BAD_REQUEST: u16 = 400;

/// The body of a failed request.
#[derive(Debug, PartialEq, Eq)]
pub struct ErrorResponse {
    pub error: String,
}

/// What an answer carries.
#[derive(Debug, PartialEq, Eq)]
pub enum ReplyBody {
    /// The verdict on a payment.
    Verify(VerifyOutcome),
    /// The result of a settlement.
    Settle(SettleOutcome),
    /// A settlement that another request is driving and that has not
    /// ended: no success yet, and no reason for a failure either.
    SettleInProgress,
    /// The accepted (scheme, network) pairs.
    Supported(Vec<SupportedEntry>),
    /// A request that failed.
    Failed(ErrorResponse),
}

/// The model of a [`ReplyBody`].
pub enum ReplyBodyView {
    Verify(VerifyOutcomeView),
    Settle(SettleOutcomeView),
    SettleInProgress,
    Supported(Seq<SupportedEntryView>),
    Failed(Seq<char>),
}

impl View for ReplyBody {
    type V = ReplyBodyView;

    open spec fn view(&self) -> ReplyBodyView {
        match self {
            ReplyBody::Verify(outcome) => ReplyBodyView::Verify(outcome@),
            ReplyBody::Settle(outcome) => ReplyBodyView::Settle(outcome@),
            ReplyBody::SettleInProgress => ReplyBodyView::SettleInProgress,
            ReplyBody::Supported(entries) => ReplyBodyView::Supported(entry_views(entries@)),
            ReplyBody::Failed(response) => ReplyBodyView::Failed(response.error@),
        }
    }
}

/// An answer: a status code and a body.
#[derive(Debug, PartialEq, Eq)]
pub struct HttpReply {
    pub status: u16,
    pub body: ReplyBody,
}

/// The model of an [`HttpReply`].
pub struct HttpReplyView {
    pub status: u16,
    pub body: ReplyBodyView,
}

impl View for HttpReply {
    type V = HttpReplyView;

    open spec fn view(&self) -> HttpReplyView {
        HttpReplyView { status: self.status, body: self.body@ }
    }
}

/// The answer to a request that the facilitator could not decide.
pub open spec fn bad_request_view() -> HttpReplyView {
    HttpReplyView { status: 400, body: ReplyBodyView::Failed("Invalid request"@) }
}

/// The answer to a verification that ended in `outcome`.
pub open spec fn verify_reply_view(outcome: VerifyOutcomeView) -> HttpReplyView {
    match outcome {
        VerifyOutcomeView::Invalid { reason, .. } if reason.severity()
            == Severity::InfrastructureFault => bad_request_view(),
        _ => HttpReplyView { status: 200, body: ReplyBodyView::Verify(outcome) },
    }
}

/// The answer to a settlement that ended in `outcome`.
pub open spec fn settle_reply_view(outcome: SettleOutcomeView) -> HttpReplyView {
    match outcome {
        SettleOutcomeView::Failure { reason, .. } if reason.severity()
            == Severity::InfrastructureFault => bad_request_view(),
        _ => HttpReplyView { status: 200, body: ReplyBodyView::Settle(outcome) },
    }
}

/// The answer to a request to verify that failed with `error`.
pub open spec fn error_reply_view(error: FacilitatorLocalErrorView) -> HttpReplyView {
    verify_reply_view(VerifyOutcomeView::rejected(error))
}

/// The answer to a request to settle that failed with `error`.
pub open spec fn settle_error_reply_view(error: FacilitatorLocalErrorView) -> HttpReplyView {
    settle_reply_view(SettleOutcomeView::rejected(error))
}

/// The answer to a request that the facilitator could not decide.
fn bad_request() -> (reply: HttpReply)
    ensures
        reply@ == bad_request_view(),
{
    HttpReply {
        status: STATUS_BAD_REQUEST,
        body: ReplyBody::Failed(ErrorResponse { error: String::from_str("Invalid request") }),
    }
}

/// `POST /verify`: the answer to a verification that ended in `outcome`.
///
/// A verdict, positive or negative, is answered with status 200 and the
/// verdict itself. A verdict that could not be reached for a fault of the
/// facilitator is answered with status 400 and no detail.
pub fn post_verify(outcome: VerifyOutcome) -> (reply: HttpReply)
    ensures
        reply@ == verify_reply_view(outcome@),
{
    let faulty = match &outcome {
        VerifyOutcome::Valid { .. } => false,
        VerifyOutcome::Invalid { reason, .. } => reason.severity() == Severity::InfrastructureFault,
    };
    if faulty {
        bad_request()
    } else {
        HttpReply { status: STATUS_OK, body: ReplyBody::Verify(outcome) }
    }
}

/// `POST /settle`: the answer to a settlement that ended in `outcome`.
///
/// The split between status 200 and status 400 is that of [`post_verify`].
pub fn post_settle(outcome: SettleOutcome) -> (reply: HttpReply)
    ensures
        reply@ == settle_reply_view(outcome@),
{
    let faulty = match &outcome {
        SettleOutcome::Success { .. } => false,
        SettleOutcome::Failure { reason, .. } => reason.severity() == Severity::InfrastructureFault,
    };
    if faulty {
        bad_request()
    } else {
        HttpReply { status: STATUS_OK, body: ReplyBody::Settle(outcome) }
    }
}

/// `POST /settle`: the answer to a request whose settlement another
/// request is driving and which has not ended when the wait for it is over.
pub fn settle_in_progress() -> (reply: HttpReply)
    ensures
        reply@ == (HttpReplyView { status: 200, body: ReplyBodyView::SettleInProgress }),
{
    HttpReply { status: STATUS_OK, body: ReplyBody::SettleInProgress }
}

/// `GET /supported`: the accepted (scheme, network) pairs.
pub fn get_supported(registry: &SupportedRegistry) -> (reply: HttpReply)
    ensures
        reply@ == (HttpReplyView { status: 200, body: ReplyBodyView::Supported(registry@) }),
{
    HttpReply { status: STATUS_OK, body: ReplyBody::Supported(registry.list_supported()) }
}

/// `GET /health`: answers as [`get_supported`] does, which shows that the
/// registry is loaded.
pub fn get_health(registry: &SupportedRegistry) -> (reply: HttpReply)
    ensures
        reply@ == (HttpReplyView { status: 200, body: ReplyBodyView::Supported(registry@) }),
{
    get_supported(registry)
}

impl FacilitatorLocalError {
    /// The answer to a request to settle that failed with this error: as
    /// [`into_response`](Self::into_response), but in the form of a settlement result.
    pub fn into_settle_response(self) -> (reply: HttpReply)
        ensures
            reply@ == settle_error_reply_view(self@),
            self@.reason().severity() == Severity::ProtocolInvalid ==> reply@ == (HttpReplyView {
                status: 200,
                body: ReplyBodyView::Settle(
                    SettleOutcomeView::Failure { payer: self@.payer(), reason: self@.reason() },
                ),
            }),
            self@.reason().severity() == Severity::InfrastructureFault ==> reply@
                == bad_request_view(),
    {
        post_settle(SettleOutcome::rejected(&self))
    }

    /// The answer to a request to verify that failed with this error.
    ///
    /// A failure that describes the payment becomes a negative verdict with
    /// status 200: the payer, where one is known, and the reason. A failure
    /// of the facilitator becomes status 400 with the body `Invalid request`.
    pub fn into_response(self) -> (reply: HttpReply)
        ensures
            reply@ == error_reply_view(self@),
            self@.reason().severity() == Severity::ProtocolInvalid ==> reply@ == (HttpReplyView {
                status: 200,
                body: ReplyBodyView::Verify(
                    VerifyOutcomeView::Invalid { payer: self@.payer(), reason: self@.reason() },
                ),
            }),
            self@.reason().severity() == Severity::InfrastructureFault ==> reply@
                == bad_request_view(),
    {
        post_verify(VerifyOutcome::rejected(&self))
    }
}

} // verus!
