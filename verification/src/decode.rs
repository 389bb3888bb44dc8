//! From the text of a payment payload to typed values.
//!
//! A payload carries addresses and byte strings as hexadecimal text, and
//! amounts and times as decimal text. Text that does not spell an address
//! is an `InvalidAddress`; any other field that cannot be read is a
//! `DecodingError` that names the field. The fields are read in a fixed
//! order and the first that cannot be read is reported.

use crate::address::{AddressRef, is_evm_address_text};
use crate::amount::{TokenAmount, amount_limit};
use crate::payment::{
    PaymentAuthorization, PaymentAuthorizationView, PaymentRequirements, PaymentRequirementsView,
};
use crate::taxonomy::{FacilitatorLocalError, FacilitatorLocalErrorView};
use crate::text::{decimal_value, hex_text_bytes, is_decimal_text, is_hex_text, parse_hex};
use vstd::prelude::*;
use vstd::string::*;

verus! {

/// Payment requirements as they arrive: every field as text.
#[derive(Debug, PartialEq, Eq)]
pub struct RawRequirements {
    pub scheme: String,
    pub network: String,
    pub asset: String,
    pub recipient: String,
    pub minimum_amount: String,
    pub extra: Option<String>,
}

/// The model of [`RawRequirements`].
pub struct RawRequirementsView {
    pub scheme: Seq<char>,
    pub network: Seq<char>,
    pub asset: Seq<char>,
    pub recipient: Seq<char>,
    pub minimum_amount: Seq<char>,
    pub extra: Option<Seq<char>>,
}

impl View for RawRequirements {
    type V = RawRequirementsView;

    open spec fn view(&self) -> RawRequirementsView {
        RawRequirementsView {
            scheme: self.scheme@,
            network: self.network@,
            asset: self.asset@,
            recipient: self.recipient@,
            minimum_amount: self.minimum_amount@,
            extra: match self.extra {
                Some(text) => Some(text@),
                None => None,
            },
        }
    }
}

impl Clone for RawRequirements {
    fn clone(&self) -> (copy: RawRequirements)
        ensures
            copy@ == self@,
    {
        RawRequirements {
            scheme: self.scheme.clone(),
            network: self.network.clone(),
            asset: self.asset.clone(),
            recipient: self.recipient.clone(),
            minimum_amount: self.minimum_amount.clone(),
            extra: match &self.extra {
                Some(text) => Some(text.clone()),
                None => None,
            },
        }
    }
}

/// A payment authorization as it arrives: every field as text.
#[derive(Debug, PartialEq, Eq)]
pub struct RawAuthorization {
    pub scheme: String,
    pub network: String,
    pub payer: String,
    pub recipient: String,
    pub amount: String,
    pub valid_after: String,
    pub valid_before: String,
    pub nonce: String,
    pub signature: String,
}

/// The model of a [`RawAuthorization`].
pub struct RawAuthorizationView {
    pub scheme: Seq<char>,
    pub network: Seq<char>,
    pub payer: Seq<char>,
    pub recipient: Seq<char>,
    pub amount: Seq<char>,
    pub valid_after: Seq<char>,
    pub valid_before: Seq<char>,
    pub nonce: Seq<char>,
    pub signature: Seq<char>,
}

impl View for RawAuthorization {
    type V = RawAuthorizationView;

    open spec fn view(&self) -> RawAuthorizationView {
        RawAuthorizationView {
            scheme: self.scheme@,
            network: self.network@,
            payer: self.payer@,
            recipient: self.recipient@,
            amount: self.amount@,
            valid_after: self.valid_after@,
            valid_before: self.valid_before@,
            nonce: self.nonce@,
            signature: self.signature@,
        }
    }
}

impl Clone for RawAuthorization {
    fn clone(&self) -> (copy: RawAuthorization)
        ensures
            copy@ == self@,
    {
        RawAuthorization {
            scheme: self.scheme.clone(),
            network: self.network.clone(),
            payer: self.payer.clone(),
            recipient: self.recipient.clone(),
            amount: self.amount.clone(),
            valid_after: self.valid_after.clone(),
            valid_before: self.valid_before.clone(),
            nonce: self.nonce.clone(),
            signature: self.signature.clone(),
        }
    }
}

/// The address with the given bytes.
pub open spec fn address_with_bytes(bytes: Seq<u8>) -> AddressRef {
    choose|address: AddressRef| address.bytes() == bytes
}

/// The address that `text` spells, if it spells one.
pub open spec fn address_of(text: Seq<char>) -> Option<AddressRef> {
    if is_evm_address_text(text) {
        Some(address_with_bytes(hex_text_bytes(text)))
    } else {
        None
    }
}

/// The amount that `text` spells, if it spells one.
pub open spec fn amount_of(text: Seq<char>) -> Option<nat> {
    if is_decimal_text(text) && decimal_value(text) < amount_limit() {
        Some(decimal_value(text))
    } else {
        None
    }
}

/// The time that `text` spells, if it spells one: a decimal number of
/// seconds that fits 64 bits.
pub open spec fn timestamp_of(text: Seq<char>) -> Option<u64> {
    if is_decimal_text(text) && decimal_value(text) <= u64::MAX {
        Some(decimal_value(text) as u64)
    } else {
        None
    }
}

/// The bytes that `text` spells, if it spells any.
pub open spec fn bytes_of(text: Seq<char>) -> Option<Seq<u8>> {
    if is_hex_text(text) {
        Some(hex_text_bytes(text))
    } else {
        None
    }
}

/// The failure that reports text which spells no address.
pub open spec fn bad_address(text: Seq<char>) -> FacilitatorLocalErrorView {
    FacilitatorLocalErrorView::InvalidAddress { text }
}

/// The failure that reports a field which cannot be read.
pub open spec fn bad_field(detail: Seq<char>) -> FacilitatorLocalErrorView {
    FacilitatorLocalErrorView::DecodingError { detail }
}

/// The requirements that `raw` spells, or the first field of it that
/// cannot be read: asset, recipient, minimum amount.
pub open spec fn requirements_of(raw: RawRequirementsView) -> Result<
    PaymentRequirementsView,
    FacilitatorLocalErrorView,
> {
    if address_of(raw.asset) is None {
        Err(bad_address(raw.asset))
    } else if address_of(raw.recipient) is None {
        Err(bad_address(raw.recipient))
    } else if amount_of(raw.minimum_amount) is None {
        Err(bad_field("minimum amount is not a decimal number of at most 256 bits"@))
    } else {
        Ok(
            PaymentRequirementsView {
                scheme: raw.scheme,
                network: raw.network,
                asset: address_of(raw.asset).unwrap(),
                recipient: address_of(raw.recipient).unwrap(),
                minimum_amount: amount_of(raw.minimum_amount).unwrap(),
                extra: raw.extra,
            },
        )
    }
}

/// The authorization that `raw` spells, or the first field of it that
/// cannot be read: payer, recipient, amount, start and end of the window,
/// nonce, signature.
pub open spec fn authorization_of(raw: RawAuthorizationView) -> Result<
    PaymentAuthorizationView,
    FacilitatorLocalErrorView,
> {
    if address_of(raw.payer) is None {
        Err(bad_address(raw.payer))
    } else if address_of(raw.recipient) is None {
        Err(bad_address(raw.recipient))
    } else if amount_of(raw.amount) is None {
        Err(bad_field("amount is not a decimal number of at most 256 bits"@))
    } else if timestamp_of(raw.valid_after) is None {
        Err(bad_field("start of the validity window is not a time"@))
    } else if timestamp_of(raw.valid_before) is None {
        Err(bad_field("end of the validity window is not a time"@))
    } else if bytes_of(raw.nonce) is None {
        Err(bad_field("nonce is not hexadecimal"@))
    } else if bytes_of(raw.signature) is None {
        Err(bad_field("signature is not hexadecimal"@))
    } else {
        Ok(
            PaymentAuthorizationView {
                scheme: raw.scheme,
                network: raw.network,
                payer: address_of(raw.payer).unwrap(),
                recipient: address_of(raw.recipient).unwrap(),
                amount: amount_of(raw.amount).unwrap(),
                valid_after: timestamp_of(raw.valid_after).unwrap(),
                valid_before: timestamp_of(raw.valid_before).unwrap(),
                nonce: bytes_of(raw.nonce).unwrap(),
                signature: bytes_of(raw.signature).unwrap(),
            },
        )
    }
}

/// Reads an address.
fn read_address(text: &String) -> (address: Result<AddressRef, FacilitatorLocalError>)
    ensures
        match address {
            Ok(a) => address_of(text@) == Some(a),
            Err(error) => address_of(text@) is None && error@ == bad_address(text@),
        },
{
    match AddressRef::parse(text.as_str()) {
        Some(address) => {
            proof {
                let chosen = address_with_bytes(hex_text_bytes(text@));
                assert(address.bytes() == hex_text_bytes(text@));
                AddressRef::lemma_bytes_decide(chosen, address);
            }
            Ok(address)
        },
        None => Err(FacilitatorLocalError::InvalidAddress { text: text.clone() }),
    }
}

/// Reads a time.
fn read_timestamp(text: &String) -> (time: Option<u64>)
    ensures
        time == timestamp_of(text@),
{
    match TokenAmount::parse(text.as_str()) {
        Some(number) => {
            if number.limbs[1] == 0 && number.limbs[2] == 0 && number.limbs[3] == 0 {
                Some(number.limbs[0])
            } else {
                None
            }
        },
        None => None,
    }
}

/// The failure that reports a field which cannot be read.
fn unreadable(detail: &str) -> (error: FacilitatorLocalError)
    ensures
        error@ == bad_field(detail@),
{
    FacilitatorLocalError::DecodingError { detail: String::from_str(detail) }
}

/// A copy of an optional text.
fn copy_of(text: &Option<String>) -> (copy: Option<String>)
    ensures
        copy is Some <==> text is Some,
        copy matches Some(c) ==> c@ == text.unwrap()@,
{
    match text {
        Some(text) => Some(text.clone()),
        None => None,
    }
}

/// Whether a decoding gave what the model names.
pub open spec fn decoded_requirements_are(
    result: Result<PaymentRequirements, FacilitatorLocalError>,
    expected: Result<PaymentRequirementsView, FacilitatorLocalErrorView>,
) -> bool {
    match result {
        Ok(requirements) => expected == Ok::<
            PaymentRequirementsView,
            FacilitatorLocalErrorView,
        >(requirements@),
        Err(error) => expected == Err::<PaymentRequirementsView, FacilitatorLocalErrorView>(error@),
    }
}

/// Whether a decoding gave what the model names.
pub open spec fn decoded_authorization_is(
    result: Result<PaymentAuthorization, FacilitatorLocalError>,
    expected: Result<PaymentAuthorizationView, FacilitatorLocalErrorView>,
) -> bool {
    match result {
        Ok(authorization) => expected == Ok::<
            PaymentAuthorizationView,
            FacilitatorLocalErrorView,
        >(authorization@),
        Err(error) => expected == Err::<PaymentAuthorizationView, FacilitatorLocalErrorView>(
            error@,
        ),
    }
}

/// Reads payment requirements from their text.
pub fn decode_requirements(raw: &RawRequirements) -> (result: Result<
    PaymentRequirements,
    FacilitatorLocalError,
>)
    ensures
        decoded_requirements_are(result, requirements_of(raw@)),
{
    let asset = match read_address(&raw.asset) {
        Ok(asset) => asset,
        Err(error) => {
            return Err(error);
        },
    };
    let recipient = match read_address(&raw.recipient) {
        Ok(recipient) => recipient,
        Err(error) => {
            return Err(error);
        },
    };
    let minimum_amount = match TokenAmount::parse(raw.minimum_amount.as_str()) {
        Some(amount) => amount,
        None => {
            return Err(unreadable("minimum amount is not a decimal number of at most 256 bits"));
        },
    };
    Ok(
        PaymentRequirements {
            scheme: raw.scheme.clone(),
            network: raw.network.clone(),
            asset,
            recipient,
            minimum_amount,
            extra: copy_of(&raw.extra),
        },
    )
}

/// Reads a payment authorization from its text.
pub fn decode_authorization(raw: &RawAuthorization) -> (result: Result<
    PaymentAuthorization,
    FacilitatorLocalError,
>)
    ensures
        decoded_authorization_is(result, authorization_of(raw@)),
{
    let payer = match read_address(&raw.payer) {
        Ok(payer) => payer,
        Err(error) => {
            return Err(error);
        },
    };
    let recipient = match read_address(&raw.recipient) {
        Ok(recipient) => recipient,
        Err(error) => {
            return Err(error);
        },
    };
    let amount = match TokenAmount::parse(raw.amount.as_str()) {
        Some(amount) => amount,
        None => {
            return Err(unreadable("amount is not a decimal number of at most 256 bits"));
        },
    };
    let valid_after = match read_timestamp(&raw.valid_after) {
        Some(time) => time,
        None => {
            return Err(unreadable("start of the validity window is not a time"));
        },
    };
    let valid_before = match read_timestamp(&raw.valid_before) {
        Some(time) => time,
        None => {
            return Err(unreadable("end of the validity window is not a time"));
        },
    };
    let nonce = match parse_hex(raw.nonce.as_str()) {
        Some(bytes) => bytes,
        None => {
            return Err(unreadable("nonce is not hexadecimal"));
        },
    };
    let signature = match parse_hex(raw.signature.as_str()) {
        Some(bytes) => bytes,
        None => {
            return Err(unreadable("signature is not hexadecimal"));
        },
    };
    Ok(
        PaymentAuthorization {
            scheme: raw.scheme.clone(),
            network: raw.network.clone(),
            payer,
            recipient,
            amount,
            valid_after,
            valid_before,
            nonce,
            signature,
        },
    )
}

} // verus!
