//! The closed set of reasons for which a payment is turned down, and the
//! split between what is wrong with the payment and what went wrong in the
//! facilitator.

use crate::address::AddressRef;
use vstd::prelude::*;
use vstd::string::*;

verus! {

/// Who is to blame for a failure.
#[derive(Clone, Copy, Debug, PartialEq, Eq, Hash, Structural)]
pub enum Severity {
    /// The payment itself is not acceptable. Reported as a well-formed
    /// negative result.
    ProtocolInvalid,
    /// The facilitator could not reach a decision. Reported as a failed
    /// request, without detail.
    InfrastructureFault,
}

/// Why a payment was turned down: the tag that goes on the wire.
#[derive(Debug, PartialEq, Eq)]
pub enum ErrorReason {
    SchemeMismatch,
    NetworkMismatch,
    UnsupportedNetwork,
    ReceiverMismatch,
    InsufficientValue,
    InvalidSignature,
    InvalidTiming,
    InsufficientFunds,
    /// The payload could not be decoded; the text says what was wrong.
    DecodingError(String),
    ContractCall,
    InvalidAddress,
    ClockError,
}

/// The model of an [`ErrorReason`].
pub enum ErrorReasonView {
    SchemeMismatch,
    NetworkMismatch,
    UnsupportedNetwork,
    ReceiverMismatch,
    InsufficientValue,
    InvalidSignature,
    InvalidTiming,
    InsufficientFunds,
    DecodingError(Seq<char>),
    ContractCall,
    InvalidAddress,
    ClockError,
}

impl View for ErrorReason {
    type V = ErrorReasonView;

    open spec fn view(&self) -> ErrorReasonView {
        match self {
            ErrorReason::SchemeMismatch => ErrorReasonView::SchemeMismatch,
            ErrorReason::NetworkMismatch => ErrorReasonView::NetworkMismatch,
            ErrorReason::UnsupportedNetwork => ErrorReasonView::UnsupportedNetwork,
            ErrorReason::ReceiverMismatch => ErrorReasonView::ReceiverMismatch,
            ErrorReason::InsufficientValue => ErrorReasonView::InsufficientValue,
            ErrorReason::InvalidSignature => ErrorReasonView::InvalidSignature,
            ErrorReason::InvalidTiming => ErrorReasonView::InvalidTiming,
            ErrorReason::InsufficientFunds => ErrorReasonView::InsufficientFunds,
            ErrorReason::DecodingError(detail) => ErrorReasonView::DecodingError(detail@),
            ErrorReason::ContractCall => ErrorReasonView::ContractCall,
            ErrorReason::InvalidAddress => ErrorReasonView::InvalidAddress,
            ErrorReason::ClockError => ErrorReasonView::ClockError,
        }
    }
}

impl ErrorReasonView {
    /// The severity of each reason. A reason has one severity for good.
    pub open spec fn severity(self) -> Severity {
        match self {
            ErrorReasonView::ContractCall => Severity::InfrastructureFault,
            ErrorReasonView::InvalidAddress => Severity::InfrastructureFault,
            ErrorReasonView::ClockError => Severity::InfrastructureFault,
            _ => Severity::ProtocolInvalid,
        }
    }

    /// The identifier of each reason on the wire. A decoding error has no
    /// fixed identifier: its free-form text stands in its place.
    pub open spec fn wire_name(self) -> Seq<char> {
        match self {
            ErrorReasonView::SchemeMismatch => "SchemeMismatch"@,
            ErrorReasonView::NetworkMismatch => "NetworkMismatch"@,
            ErrorReasonView::UnsupportedNetwork => "UnsupportedNetwork"@,
            ErrorReasonView::ReceiverMismatch => "ReceiverMismatch"@,
            ErrorReasonView::InsufficientValue => "InsufficientValue"@,
            ErrorReasonView::InvalidSignature => "InvalidSignature"@,
            ErrorReasonView::InvalidTiming => "InvalidTiming"@,
            ErrorReasonView::InsufficientFunds => "InsufficientFunds"@,
            ErrorReasonView::DecodingError(detail) => detail,
            ErrorReasonView::ContractCall => "ContractCall"@,
            ErrorReasonView::InvalidAddress => "InvalidAddress"@,
            ErrorReasonView::ClockError => "ClockError"@,
        }
    }
}

impl Clone for ErrorReason {
    fn clone(&self) -> (copy: ErrorReason)
        ensures
            copy@ == self@,
    {
        match self {
            ErrorReason::SchemeMismatch => ErrorReason::SchemeMismatch,
            ErrorReason::NetworkMismatch => ErrorReason::NetworkMismatch,
            ErrorReason::UnsupportedNetwork => ErrorReason::UnsupportedNetwork,
            ErrorReason::ReceiverMismatch => ErrorReason::ReceiverMismatch,
            ErrorReason::InsufficientValue => ErrorReason::InsufficientValue,
            ErrorReason::InvalidSignature => ErrorReason::InvalidSignature,
            ErrorReason::InvalidTiming => ErrorReason::InvalidTiming,
            ErrorReason::InsufficientFunds => ErrorReason::InsufficientFunds,
            ErrorReason::DecodingError(detail) => ErrorReason::DecodingError(detail.clone()),
            ErrorReason::ContractCall => ErrorReason::ContractCall,
            ErrorReason::InvalidAddress => ErrorReason::InvalidAddress,
            ErrorReason::ClockError => ErrorReason::ClockError,
        }
    }
}

impl ErrorReason {
    /// Whether the reason describes the payment or the facilitator.
    pub fn severity(&self) -> (severity: Severity)
        ensures
            severity == self@.severity(),
    {
        match self {
            ErrorReason::ContractCall | ErrorReason::InvalidAddress | ErrorReason::ClockError => {
                Severity::InfrastructureFault
            },
            _ => Severity::ProtocolInvalid,
        }
    }

    /// The identifier of the reason on the wire.
    pub fn wire_name(&self) -> (name: String)
        ensures
            name@ == self@.wire_name(),
    {
        match self {
            ErrorReason::SchemeMismatch => String::from_str("SchemeMismatch"),
            ErrorReason::NetworkMismatch => String::from_str("NetworkMismatch"),
            ErrorReason::UnsupportedNetwork => String::from_str("UnsupportedNetwork"),
            ErrorReason::ReceiverMismatch => String::from_str("ReceiverMismatch"),
            ErrorReason::InsufficientValue => String::from_str("InsufficientValue"),
            ErrorReason::InvalidSignature => String::from_str("InvalidSignature"),
            ErrorReason::InvalidTiming => String::from_str("InvalidTiming"),
            ErrorReason::InsufficientFunds => String::from_str("InsufficientFunds"),
            ErrorReason::DecodingError(detail) => detail.clone(),
            ErrorReason::ContractCall => String::from_str("ContractCall"),
            ErrorReason::InvalidAddress => String::from_str("InvalidAddress"),
            ErrorReason::ClockError => String::from_str("ClockError"),
        }
    }
}

/// Which side of a validity window the clock was on.
#[derive(Clone, Copy, Debug, PartialEq, Eq, Hash, Structural)]
pub enum TimingFault {
    /// The window has not opened yet.
    NotYetValid,
    /// The window has closed.
    Expired,
}

/// A failure as the stage that met it describes it, with what is worth
/// logging. What the caller is told is derived from it by [`FacilitatorLocalError::classify`].
#[derive(Debug, PartialEq, Eq)]
#[allow(inconsistent_fields)]
pub enum FacilitatorLocalError {
    SchemeMismatch { payer: Option<AddressRef>, expected: String, actual: String },
    NetworkMismatch { payer: Option<AddressRef>, expected: String, actual: String },
    UnsupportedNetwork { payer: Option<AddressRef> },
    ReceiverMismatch { payer: AddressRef, expected: AddressRef, actual: AddressRef },
    InsufficientValue { payer: AddressRef },
    InvalidSignature { payer: AddressRef },
    InvalidTiming { payer: AddressRef, fault: TimingFault },
    InsufficientFunds { payer: AddressRef },
    DecodingError { detail: String },
    ContractCall { detail: String },
    InvalidAddress { text: String },
    ClockError,
}

/// The model of a [`FacilitatorLocalError`].
#[allow(inconsistent_fields)]
pub enum FacilitatorLocalErrorView {
    SchemeMismatch { payer: Option<AddressRef>, expected: Seq<char>, actual: Seq<char> },
    NetworkMismatch { payer: Option<AddressRef>, expected: Seq<char>, actual: Seq<char> },
    UnsupportedNetwork { payer: Option<AddressRef> },
    ReceiverMismatch { payer: AddressRef, expected: AddressRef, actual: AddressRef },
    InsufficientValue { payer: AddressRef },
    InvalidSignature { payer: AddressRef },
    InvalidTiming { payer: AddressRef, fault: TimingFault },
    InsufficientFunds { payer: AddressRef },
    DecodingError { detail: Seq<char> },
    ContractCall { detail: Seq<char> },
    InvalidAddress { text: Seq<char> },
    ClockError,
}

impl View for FacilitatorLocalError {
    type V = FacilitatorLocalErrorView;

    open spec fn view(&self) -> FacilitatorLocalErrorView {
        match self {
            FacilitatorLocalError::SchemeMismatch { payer, expected, actual } => {
                FacilitatorLocalErrorView::SchemeMismatch {
                    payer: *payer,
                    expected: expected@,
                    actual: actual@,
                }
            },
            FacilitatorLocalError::NetworkMismatch { payer, expected, actual } => {
                FacilitatorLocalErrorView::NetworkMismatch {
                    payer: *payer,
                    expected: expected@,
                    actual: actual@,
                }
            },
            FacilitatorLocalError::UnsupportedNetwork { payer } => {
                FacilitatorLocalErrorView::UnsupportedNetwork { payer: *payer }
            },
            FacilitatorLocalError::ReceiverMismatch { payer, expected, actual } => {
                FacilitatorLocalErrorView::ReceiverMismatch {
                    payer: *payer,
                    expected: *expected,
                    actual: *actual,
                }
            },
            FacilitatorLocalError::InsufficientValue { payer } => {
                FacilitatorLocalErrorView::InsufficientValue { payer: *payer }
            },
            FacilitatorLocalError::InvalidSignature { payer } => {
                FacilitatorLocalErrorView::InvalidSignature { payer: *payer }
            },
            FacilitatorLocalError::InvalidTiming { payer, fault } => {
                FacilitatorLocalErrorView::InvalidTiming { payer: *payer, fault: *fault }
            },
            FacilitatorLocalError::InsufficientFunds { payer } => {
                FacilitatorLocalErrorView::InsufficientFunds { payer: *payer }
            },
            FacilitatorLocalError::DecodingError { detail } => {
                FacilitatorLocalErrorView::DecodingError { detail: detail@ }
            },
            FacilitatorLocalError::ContractCall { detail } => {
                FacilitatorLocalErrorView::ContractCall { detail: detail@ }
            },
            FacilitatorLocalError::InvalidAddress { text } => {
                FacilitatorLocalErrorView::InvalidAddress { text: text@ }
            },
            FacilitatorLocalError::ClockError => FacilitatorLocalErrorView::ClockError,
        }
    }
}

impl FacilitatorLocalErrorView {
    /// The payer that the failure is about, where the stage knew one.
    pub open spec fn payer(self) -> Option<AddressRef> {
        match self {
            FacilitatorLocalErrorView::SchemeMismatch { payer, .. } => payer,
            FacilitatorLocalErrorView::NetworkMismatch { payer, .. } => payer,
            FacilitatorLocalErrorView::UnsupportedNetwork { payer } => payer,
            FacilitatorLocalErrorView::ReceiverMismatch { payer, .. } => Some(payer),
            FacilitatorLocalErrorView::InsufficientValue { payer } => Some(payer),
            FacilitatorLocalErrorView::InvalidSignature { payer } => Some(payer),
            FacilitatorLocalErrorView::InvalidTiming { payer, .. } => Some(payer),
            FacilitatorLocalErrorView::InsufficientFunds { payer } => Some(payer),
            FacilitatorLocalErrorView::DecodingError { .. } => None,
            FacilitatorLocalErrorView::ContractCall { .. } => None,
            FacilitatorLocalErrorView::InvalidAddress { .. } => None,
            FacilitatorLocalErrorView::ClockError => None,
        }
    }

    /// The reason under which the failure is reported.
    pub open spec fn reason(self) -> ErrorReasonView {
        match self {
            FacilitatorLocalErrorView::SchemeMismatch { .. } => ErrorReasonView::SchemeMismatch,
            FacilitatorLocalErrorView::NetworkMismatch { .. } => ErrorReasonView::NetworkMismatch,
            FacilitatorLocalErrorView::UnsupportedNetwork { .. } => {
                ErrorReasonView::UnsupportedNetwork
            },
            FacilitatorLocalErrorView::ReceiverMismatch { .. } => ErrorReasonView::ReceiverMismatch,
            FacilitatorLocalErrorView::InsufficientValue { .. } => {
                ErrorReasonView::InsufficientValue
            },
            FacilitatorLocalErrorView::InvalidSignature { .. } => ErrorReasonView::InvalidSignature,
            FacilitatorLocalErrorView::InvalidTiming { .. } => ErrorReasonView::InvalidTiming,
            FacilitatorLocalErrorView::InsufficientFunds { .. } => {
                ErrorReasonView::InsufficientFunds
            },
            FacilitatorLocalErrorView::DecodingError { detail } => {
                ErrorReasonView::DecodingError(detail)
            },
            FacilitatorLocalErrorView::ContractCall { .. } => ErrorReasonView::ContractCall,
            FacilitatorLocalErrorView::InvalidAddress { .. } => ErrorReasonView::InvalidAddress,
            FacilitatorLocalErrorView::ClockError => ErrorReasonView::ClockError,
        }
    }

    /// The reason and the severity under which the failure is reported.
    pub open spec fn classify(self) -> (ErrorReasonView, Severity) {
        (self.reason(), self.reason().severity())
    }
}

impl FacilitatorLocalError {
    /// The payer that the failure is about, where the stage knew one.
    pub fn payer(&self) -> (payer: Option<AddressRef>)
        ensures
            payer == self@.payer(),
    {
        match self {
            FacilitatorLocalError::SchemeMismatch { payer, .. } => *payer,
            FacilitatorLocalError::NetworkMismatch { payer, .. } => *payer,
            FacilitatorLocalError::UnsupportedNetwork { payer } => *payer,
            FacilitatorLocalError::ReceiverMismatch { payer, .. } => Some(*payer),
            FacilitatorLocalError::InsufficientValue { payer } => Some(*payer),
            FacilitatorLocalError::InvalidSignature { payer } => Some(*payer),
            FacilitatorLocalError::InvalidTiming { payer, .. } => Some(*payer),
            FacilitatorLocalError::InsufficientFunds { payer } => Some(*payer),
            FacilitatorLocalError::DecodingError { .. } => None,
            FacilitatorLocalError::ContractCall { .. } => None,
            FacilitatorLocalError::InvalidAddress { .. } => None,
            FacilitatorLocalError::ClockError => None,
        }
    }

    /// The reason under which the failure is reported.
    pub fn reason(&self) -> (reason: ErrorReason)
        ensures
            reason@ == self@.reason(),
    {
        match self {
            FacilitatorLocalError::SchemeMismatch { .. } => ErrorReason::SchemeMismatch,
            FacilitatorLocalError::NetworkMismatch { .. } => ErrorReason::NetworkMismatch,
            FacilitatorLocalError::UnsupportedNetwork { .. } => ErrorReason::UnsupportedNetwork,
            FacilitatorLocalError::ReceiverMismatch { .. } => ErrorReason::ReceiverMismatch,
            FacilitatorLocalError::InsufficientValue { .. } => ErrorReason::InsufficientValue,
            FacilitatorLocalError::InvalidSignature { .. } => ErrorReason::InvalidSignature,
            FacilitatorLocalError::InvalidTiming { .. } => ErrorReason::InvalidTiming,
            FacilitatorLocalError::InsufficientFunds { .. } => ErrorReason::InsufficientFunds,
            FacilitatorLocalError::DecodingError { detail } => {
                ErrorReason::DecodingError(detail.clone())
            },
            FacilitatorLocalError::ContractCall { .. } => ErrorReason::ContractCall,
            FacilitatorLocalError::InvalidAddress { .. } => ErrorReason::InvalidAddress,
            FacilitatorLocalError::ClockError => ErrorReason::ClockError,
        }
    }

    /// Classifies the failure: the reason that the caller is told, and
    /// whether it is the payment's fault or the facilitator's.
    pub fn classify(&self) -> (class: (ErrorReason, Severity))
        ensures
            class.0@ == self@.reason(),
            class.1 == self@.reason().severity(),
            (class.0@, class.1) == self@.classify(),
    {
        let reason = self.reason();
        let severity = reason.severity();
        (reason, severity)
    }
}

/// Whether a stage's result is the one that `expected` names: success for
/// `None`, and otherwise the failure with that model.
pub open spec fn stage_result_is(
    result: Result<(), FacilitatorLocalError>,
    expected: Option<FacilitatorLocalErrorView>,
) -> bool {
    match result {
        Ok(_) => expected is None,
        Err(error) => expected == Some(error@),
    }
}

/// The identifiers of the reasons are pairwise different, so a reason can
/// be told from its identifier.
pub proof fn lemma_wire_names_distinct(a: ErrorReasonView, b: ErrorReasonView)
    requires
        !(a is DecodingError),
        !(b is DecodingError),
        a.wire_name() == b.wire_name(),
    ensures
        a == b,
{
    reveal_strlit("SchemeMismatch");
    reveal_strlit("NetworkMismatch");
    reveal_strlit("UnsupportedNetwork");
    reveal_strlit("ReceiverMismatch");
    reveal_strlit("InsufficientValue");
    reveal_strlit("InvalidSignature");
    reveal_strlit("InvalidTiming");
    reveal_strlit("InsufficientFunds");
    reveal_strlit("ContractCall");
    reveal_strlit("InvalidAddress");
    reveal_strlit("ClockError");
    let x = a.wire_name();
    let y = b.wire_name();
    assert(x.len() == y.len());
    assert(x[0] == y[0]);
    assert(x[12] == y[12]);
}

} // verus!
