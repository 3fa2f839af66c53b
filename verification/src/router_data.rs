//! The context of one connector operation and the normalized requests and
//! responses that travel in it.

use vstd::prelude::*;
use crate::enums::{
    AttemptStatus, CaptureMethod, CountryAlpha2, Currency, FutureUsage, MandateStatus,
    PaymentMethod, RefundStatus,
};
use crate::errors::ConnectorError;
use crate::payment_method_data::PaymentMethodData;
use crate::redirect::RedirectForm;
use crate::secret::Secret;
use crate::text::{chars_of, string_of};

verus! {

/// The credentials of a merchant at a connector, in one of the stored shapes.
#[derive(PartialEq, Eq)]
pub enum ConnectorAuthType {
    TemporaryAuth,
    HeaderKey { api_key: Secret },
    BodyKey { api_key: Secret, key1: Secret },
    SignatureKey { api_key: Secret, key1: Secret, api_secret: Secret },
    MultiAuthKey { api_key: Secret, key1: Secret, api_secret: Secret, key2: Secret },
    CertificateAuth { certificate: Secret, private_key: Secret },
    NoKey,
}

/// A postal address with the name of the person at it.
#[derive(PartialEq, Eq)]
pub struct AddressDetails {
    pub city: Option<String>,
    pub country: Option<CountryAlpha2>,
    pub line1: Option<Secret>,
    pub line2: Option<Secret>,
    pub zip: Option<Secret>,
    pub state: Option<Secret>,
    pub first_name: Option<Secret>,
    pub last_name: Option<Secret>,
}

/// A telephone number and its country calling code.
#[derive(PartialEq, Eq)]
pub struct PhoneDetails {
    pub number: Option<Secret>,
    pub country_code: Option<String>,
}

/// How to reach the payer.
#[derive(PartialEq, Eq)]
pub struct Address {
    pub address: Option<AddressDetails>,
    pub phone: Option<PhoneDetails>,
    pub email: Option<String>,
}

/// `s` without the plus signs that it begins with.
pub open spec fn without_leading_plus(s: Seq<char>) -> Seq<char>
    decreases s.len(),
{
    if s.len() > 0 && s[0] == '+' {
        without_leading_plus(s.skip(1))
    } else {
        s
    }
}

/// The calling code without its plus signs, a hash sign, and the number.
pub open spec fn number_with_hash_country_code(code: Seq<char>, number: Seq<char>) -> Seq<char> {
    without_leading_plus(code) + seq!['#'] + number
}

impl PhoneDetails {
    /// The telephone number behind its country calling code and a hash sign.
    /// The calling code is asked for first, then the number.
    pub fn get_number_with_hash_country_code(&self) -> (r: Result<Secret, ConnectorError>)
        ensures
            self.country_code is None ==> r == Err::<Secret, ConnectorError>(
                ConnectorError::MissingRequiredField { field_name: "billing.phone.country_code" },
            ),
            self.country_code is Some && self.number is None ==> r == Err::<Secret, ConnectorError>(
                ConnectorError::MissingRequiredField { field_name: "billing.phone.number" },
            ),
            self.country_code is Some && self.number is Some ==> (r matches Ok(s) && s@
                == number_with_hash_country_code(self.country_code->0@, self.number->0@)),
    {
        let code = match &self.country_code {
            Some(c) => chars_of(c.as_str()),
            None => {
                return Err(
                    ConnectorError::MissingRequiredField {
                        field_name: "billing.phone.country_code",
                    },
                );
            },
        };
        let number = match &self.number {
            Some(n) => chars_of(n.peek().as_str()),
            None => {
                return Err(
                    ConnectorError::MissingRequiredField { field_name: "billing.phone.number" },
                );
            },
        };
        let mut start: usize = 0;
        proof {
            assert(code@.skip(0) =~= code@);
        }
        while start < code.len() && code[start] == '+'
            invariant
                start <= code.len(),
                without_leading_plus(code@) == without_leading_plus(code@.skip(start as int)),
            decreases code.len() - start,
        {
            proof {
                assert(code@.skip(start as int).skip(1) =~= code@.skip(start + 1));
            }
            start += 1;
        }
        let mut out: Vec<char> = Vec::new();
        let mut i: usize = start;
        while i < code.len()
            invariant
                start <= i <= code.len(),
                out@ == code@.subrange(start as int, i as int),
            decreases code.len() - i,
        {
            out.push(code[i]);
            i += 1;
            proof {
                assert(out@ =~= code@.subrange(start as int, i as int));
            }
        }
        out.push('#');
        let mut j: usize = 0;
        let ghost head = out@;
        while j < number.len()
            invariant
                j <= number.len(),
                out@ == head + number@.subrange(0, j as int),
            decreases number.len() - j,
        {
            out.push(number[j]);
            j += 1;
            proof {
                assert(out@ =~= head + number@.subrange(0, j as int));
            }
        }
        proof {
            assert(code@.subrange(start as int, code.len() as int) =~= code@.skip(start as int));
            assert(number@.subrange(0, number.len() as int) =~= number@);
            assert(out@ =~= number_with_hash_country_code(code@, number@));
        }
        Ok(Secret::new(string_of(&out)))
    }
}

/// The reference of a mandate at the connector.
#[derive(Clone, Debug, PartialEq, Eq)]
pub struct ConnectorMandateReferenceId {
    pub connector_mandate_id: Option<String>,
    pub payment_method_id: Option<String>,
    pub connector_mandate_request_reference_id: Option<String>,
}

/// What a stored mandate is known by.
#[derive(Clone, Debug, PartialEq, Eq)]
pub enum MandateReferenceId {
    ConnectorMandateId(ConnectorMandateReferenceId),
    NetworkMandateId(String),
}

/// An existing mandate that a payment uses.
#[derive(Clone, Debug, PartialEq, Eq)]
pub struct MandateIds {
    pub mandate_id: Option<String>,
    pub mandate_reference_id: Option<MandateReferenceId>,
}

/// The mandate that a payment sets up.
#[derive(Clone, Debug, PartialEq, Eq)]
pub struct MandateData {
    pub update_mandate_id: Option<String>,
}

/// The customer's consent to store the payment method.
#[derive(Clone, Copy, Debug, PartialEq, Eq, Structural)]
pub struct CustomerAcceptance {
    pub online: bool,
}

/// The request to authorize a payment.
#[derive(PartialEq, Eq)]
pub struct PaymentsAuthorizeData {
    pub payment_method_data: PaymentMethodData,
    pub amount: i64,
    pub currency: Currency,
    pub capture_method: Option<CaptureMethod>,
    pub router_return_url: Option<String>,
    pub complete_authorize_url: Option<String>,
    pub webhook_url: Option<String>,
    pub setup_mandate_details: Option<MandateData>,
    pub mandate_id: Option<MandateIds>,
    pub off_session: Option<bool>,
    pub setup_future_usage: Option<FutureUsage>,
    pub customer_acceptance: Option<CustomerAcceptance>,
    pub order_category: Option<String>,
    pub metadata: Option<String>,
    pub ip_address: Option<Secret>,
}

impl PaymentsAuthorizeData {
    /// The identifier at the connector of the mandate that the payment uses.
    pub open spec fn connector_mandate_id_spec(&self) -> Option<String> {
        match self.mandate_id {
            Some(ids) => match ids.mandate_reference_id {
                Some(MandateReferenceId::ConnectorMandateId(reference)) =>
                    reference.connector_mandate_id,
                _ => None,
            },
            None => None,
        }
    }

    /// Whether the payment sets up a mandate for later use or uses one.
    pub open spec fn is_mandate_payment_spec(&self) -> bool {
        ((self.customer_acceptance is Some || self.setup_mandate_details is Some)
            && self.setup_future_usage == Some(FutureUsage::OffSession)) || (self.mandate_id
            matches Some(ids) && ids.mandate_reference_id is Some)
    }

    /// Whether the funds are captured with the authorization: so it is when the
    /// request asks for automatic capture or does not say.
    pub open spec fn is_auto_capture_spec(&self) -> Result<bool, ConnectorError> {
        match self.capture_method {
            Some(CaptureMethod::Automatic) | Some(CaptureMethod::SequentialAutomatic) | None => Ok(
                true,
            ),
            Some(CaptureMethod::Manual) => Ok(false),
            Some(_) => Err(ConnectorError::CaptureMethodNotSupported),
        }
    }

    /// The identifier at the connector of the mandate that the payment uses.
    pub fn connector_mandate_id(&self) -> (r: Option<String>)
        ensures
            r == self.connector_mandate_id_spec(),
    {
        match &self.mandate_id {
            Some(ids) => match &ids.mandate_reference_id {
                Some(MandateReferenceId::ConnectorMandateId(reference)) => {
                    crate::text::clone_optional_string(&reference.connector_mandate_id)
                },
                _ => None,
            },
            None => None,
        }
    }

    /// Whether the payment sets up a mandate for later use or uses one.
    pub fn is_mandate_payment(&self) -> (r: bool)
        ensures
            r == self.is_mandate_payment_spec(),
    {
        let sets_up = (self.customer_acceptance.is_some() || self.setup_mandate_details.is_some())
            && match self.setup_future_usage {
            Some(FutureUsage::OffSession) => true,
            _ => false,
        };
        let uses = match &self.mandate_id {
            Some(ids) => ids.mandate_reference_id.is_some(),
            None => false,
        };
        sets_up || uses
    }

    /// Whether the funds are captured with the authorization.
    pub fn is_auto_capture(&self) -> (r: Result<bool, ConnectorError>)
        ensures
            r == self.is_auto_capture_spec(),
    {
        match self.capture_method {
            Some(CaptureMethod::Automatic) | Some(CaptureMethod::SequentialAutomatic) | None => Ok(
                true,
            ),
            Some(CaptureMethod::Manual) => Ok(false),
            Some(_) => Err(ConnectorError::CaptureMethodNotSupported),
        }
    }

    /// The address to which the customer returns after a redirect.
    pub fn get_router_return_url(&self) -> (r: Result<String, ConnectorError>)
        ensures
            r == match self.router_return_url {
                Some(url) => Ok::<String, ConnectorError>(url),
                None => Err(ConnectorError::MissingRequiredField { field_name: "return_url" }),
            },
    {
        match &self.router_return_url {
            Some(url) => Ok(url.clone()),
            None => Err(ConnectorError::MissingRequiredField { field_name: "return_url" }),
        }
    }
}

/// One capture among several of a payment.
#[derive(Clone, Debug, PartialEq, Eq)]
pub struct MultipleCaptureRequestData {
    pub capture_sequence: i16,
    pub capture_reference: String,
}

/// The request to capture an authorized payment.
#[derive(Clone, Debug, PartialEq, Eq)]
pub struct PaymentsCaptureData {
    pub amount_to_capture: i64,
    pub currency: Currency,
    pub connector_transaction_id: String,
    pub multiple_capture_data: Option<MultipleCaptureRequestData>,
}

/// The request to cancel an authorized payment.
#[derive(Clone, Debug, PartialEq, Eq)]
pub struct PaymentsCancelData {
    pub amount: Option<i64>,
    pub currency: Option<Currency>,
    pub connector_transaction_id: String,
    pub cancellation_reason: Option<String>,
}

impl PaymentsCancelData {
    /// The amount of the payment that is cancelled.
    pub fn get_amount(&self) -> (r: Result<i64, ConnectorError>)
        ensures
            r == match self.amount {
                Some(a) => Ok::<i64, ConnectorError>(a),
                None => Err(ConnectorError::MissingRequiredField { field_name: "amount" }),
            },
    {
        match self.amount {
            Some(a) => Ok(a),
            None => Err(ConnectorError::MissingRequiredField { field_name: "amount" }),
        }
    }

    /// The currency of the payment that is cancelled.
    pub fn get_currency(&self) -> (r: Result<Currency, ConnectorError>)
        ensures
            r == match self.currency {
                Some(c) => Ok::<Currency, ConnectorError>(c),
                None => Err(ConnectorError::MissingRequiredField { field_name: "currency" }),
            },
    {
        match self.currency {
            Some(c) => Ok(c),
            None => Err(ConnectorError::MissingRequiredField { field_name: "currency" }),
        }
    }

    /// Why the payment is cancelled.
    pub fn get_cancellation_reason(&self) -> (r: Result<String, ConnectorError>)
        ensures
            r == match self.cancellation_reason {
                Some(reason) => Ok::<String, ConnectorError>(reason),
                None => Err(
                    ConnectorError::MissingRequiredField { field_name: "cancellation_reason" },
                ),
            },
    {
        match &self.cancellation_reason {
            Some(reason) => Ok(reason.clone()),
            None => Err(ConnectorError::MissingRequiredField { field_name: "cancellation_reason" }),
        }
    }
}

/// How a connector names a payment in its answer.
#[derive(Clone, Debug, PartialEq, Eq)]
pub enum ResponseId {
    ConnectorTransactionId(String),
    EncodedData(String),
    NoResponseId,
}

/// The request for the current state of a payment.
#[derive(Clone, Debug, PartialEq, Eq)]
pub struct PaymentsSyncData {
    pub connector_transaction_id: ResponseId,
    pub capture_method: Option<CaptureMethod>,
}

impl PaymentsSyncData {
    /// The identifier of the payment at the connector.
    pub fn get_connector_transaction_id(&self) -> (r: Result<String, ConnectorError>)
        ensures
            r == match self.connector_transaction_id {
                ResponseId::ConnectorTransactionId(id) => Ok::<String, ConnectorError>(id),
                _ => Err(ConnectorError::MissingConnectorTransactionID),
            },
    {
        match &self.connector_transaction_id {
            ResponseId::ConnectorTransactionId(id) => Ok(id.clone()),
            _ => Err(ConnectorError::MissingConnectorTransactionID),
        }
    }
}

/// The request to refund a payment, or for the state of a refund.
#[derive(Clone, Debug, PartialEq, Eq)]
pub struct RefundsData {
    pub refund_id: String,
    pub connector_transaction_id: String,
    pub connector_refund_id: Option<String>,
    pub currency: Currency,
    pub refund_amount: i64,
}

/// The request for an access token.
#[derive(Clone, Debug, PartialEq, Eq)]
pub struct AccessTokenRequestData {
    pub app_id: String,
    pub id: Option<String>,
}

/// An access token and the seconds for which it is good.
#[derive(PartialEq, Eq)]
pub struct AccessToken {
    pub token: Secret,
    pub expires: i64,
}

/// The request to revoke a mandate.
#[derive(Clone, Debug, PartialEq, Eq)]
pub struct MandateRevokeRequestData {
    pub mandate_id: String,
    pub connector_mandate_id: Option<String>,
}

impl MandateRevokeRequestData {
    /// The identifier of the mandate at the connector.
    pub fn get_connector_mandate_id(&self) -> (r: Result<String, ConnectorError>)
        ensures
            r == match self.connector_mandate_id {
                Some(id) => Ok::<String, ConnectorError>(id),
                None => Err(
                    ConnectorError::MissingRequiredField { field_name: "connector_mandate_id" },
                ),
            },
    {
        match &self.connector_mandate_id {
            Some(id) => Ok(id.clone()),
            None => Err(ConnectorError::MissingRequiredField { field_name: "connector_mandate_id" }),
        }
    }
}

/// A stored credential at the connector, for later payments without the
/// payment details.
#[derive(Clone, Debug, PartialEq, Eq)]
pub struct MandateReference {
    pub connector_mandate_id: Option<String>,
    pub payment_method_id: Option<String>,
    pub mandate_metadata: Option<String>,
    pub connector_mandate_request_reference_id: Option<String>,
}

/// The mandate reference that holds only the connector's identifier `id`.
pub open spec fn mandate_reference_of(id: Seq<char>, reference: MandateReference) -> bool {
    &&& reference.connector_mandate_id matches Some(stored)
    &&& stored@ == id
    &&& reference.payment_method_id is None
    &&& reference.mandate_metadata is None
    &&& reference.connector_mandate_request_reference_id is None
}

/// The mandate reference that holds only the connector's identifier `id`.
pub fn mandate_reference_from_id(id: String) -> (r: MandateReference)
    ensures
        mandate_reference_of(id@, r),
        r.connector_mandate_id == Some(id),
{
    MandateReference {
        connector_mandate_id: Some(id),
        payment_method_id: None,
        mandate_metadata: None,
        connector_mandate_request_reference_id: None,
    }
}

/// The failure that a connector reported.
#[derive(Clone, Debug, PartialEq, Eq)]
pub struct ErrorResponse {
    pub code: String,
    pub message: String,
    pub reason: Option<String>,
    pub status_code: u16,
    pub attempt_status: Option<AttemptStatus>,
    pub connector_transaction_id: Option<String>,
    pub network_advice_code: Option<String>,
    pub network_decline_code: Option<String>,
    pub network_error_message: Option<String>,
}

/// The normalized answer to a payment operation. What the connector keeps
/// about the payment between two calls travels as JSON text.
#[derive(Clone, Debug, PartialEq, Eq)]
pub enum PaymentsResponseData {
    TransactionResponse {
        resource_id: ResponseId,
        redirection_data: Option<RedirectForm>,
        mandate_reference: Option<MandateReference>,
        connector_metadata: Option<String>,
        network_txn_id: Option<String>,
        connector_response_reference_id: Option<String>,
        incremental_authorization_allowed: Option<bool>,
    },
    MultipleCaptureResponse { capture_sync_response_list: Vec<CaptureSyncResponse> },
}

impl Default for ErrorResponse {
    fn default() -> (r: Self)
        ensures
            r.code@ == "HE_00"@,
            r.message@ == "Something went wrong"@,
            r.reason is None,
            r.status_code == 500,
            r.attempt_status is None,
            r.connector_transaction_id is None,
            r.network_advice_code is None,
            r.network_decline_code is None,
            r.network_error_message is None,
    {
        ErrorResponse {
            code: String::from_str("HE_00"),
            message: String::from_str("Something went wrong"),
            reason: None,
            status_code: 500,
            attempt_status: None,
            connector_transaction_id: None,
            network_advice_code: None,
            network_decline_code: None,
            network_error_message: None,
        }
    }
}

/// The state of one capture of a payment.
#[derive(Clone, Debug, PartialEq, Eq)]
pub struct CaptureSyncResponse {
    pub resource_id: ResponseId,
    pub status: AttemptStatus,
    pub connector_response_reference_id: Option<String>,
    pub amount: Option<i64>,
}

/// The normalized answer to a refund operation.
#[derive(Clone, Debug, PartialEq, Eq)]
pub struct RefundsResponseData {
    pub connector_refund_id: String,
    pub refund_status: RefundStatus,
}

/// The normalized answer to the revocation of a mandate.
#[derive(Clone, Copy, Debug, PartialEq, Eq, Structural)]
pub struct MandateRevokeResponseData {
    pub mandate_status: MandateStatus,
}

/// The context of one connector operation: who calls, what is asked, and what
/// came back.
#[derive(PartialEq, Eq)]
pub struct RouterData<Request, Response> {
    pub status: AttemptStatus,
    pub payment_method: PaymentMethod,
    pub connector_auth_type: ConnectorAuthType,
    pub description: Option<String>,
    pub billing: Option<Address>,
    pub customer_id: Option<String>,
    pub connector_meta_data: Option<Secret>,
    pub connector_request_reference_id: String,
    pub reference_id: Option<String>,
    pub request: Request,
    pub response: Result<Response, ErrorResponse>,
}

/// The response of a context is a success or an error, never both and never
/// neither; and a success carries no error code at all.
pub proof fn lemma_response_exclusive<Request, Response>(data: RouterData<Request, Response>)
    ensures
        (data.response is Ok) != (data.response is Err),
        data.response matches Ok(response) ==> !(data.response matches Err(_)),
{
}

/// The answer of a connector beside the context of the call that it answers.
pub struct ResponseRouterData<R, Request, Response> {
    pub response: R,
    pub data: RouterData<Request, Response>,
    pub http_code: u16,
}

pub type PaymentsAuthorizeRouterData = RouterData<PaymentsAuthorizeData, PaymentsResponseData>;

pub type PaymentsCaptureRouterData = RouterData<PaymentsCaptureData, PaymentsResponseData>;

pub type PaymentsCancelRouterData = RouterData<PaymentsCancelData, PaymentsResponseData>;

pub type PaymentsSyncRouterData = RouterData<PaymentsSyncData, PaymentsResponseData>;

pub type RefundsRouterData = RouterData<RefundsData, RefundsResponseData>;

pub type RefreshTokenRouterData = RouterData<AccessTokenRequestData, AccessToken>;

pub type MandateRevokeRouterData = RouterData<MandateRevokeRequestData, MandateRevokeResponseData>;

/// The full name that a first and a last name make.
pub open spec fn full_name(first: Option<Secret>, last: Option<Secret>) -> Option<Seq<char>> {
    match (first, last) {
        (Some(f), Some(l)) => Some(f@ + seq![' '] + l@),
        (Some(f), None) => Some(f@),
        (None, Some(l)) => Some(l@),
        (None, None) => None,
    }
}

impl<Request, Response> RouterData<Request, Response> {
    /// Everything but the state and the response is as in `before`.
    pub open spec fn carries_rest_of<Response2>(
        &self,
        before: RouterData<Request, Response2>,
    ) -> bool {
        &&& self.payment_method == before.payment_method
        &&& self.connector_auth_type == before.connector_auth_type
        &&& self.description == before.description
        &&& self.billing == before.billing
        &&& self.customer_id == before.customer_id
        &&& self.connector_meta_data == before.connector_meta_data
        &&& self.connector_request_reference_id == before.connector_request_reference_id
        &&& self.reference_id == before.reference_id
        &&& self.request == before.request
    }

    /// The postal address of the payer.
    pub open spec fn billing_address(&self) -> Option<AddressDetails> {
        match self.billing {
            Some(b) => b.address,
            None => None,
        }
    }

    /// The country of the payer.
    pub open spec fn billing_country(&self) -> Option<CountryAlpha2> {
        match self.billing_address() {
            Some(a) => a.country,
            None => None,
        }
    }

    /// The telephone of the payer.
    pub open spec fn billing_phone(&self) -> Option<PhoneDetails> {
        match self.billing {
            Some(b) => b.phone,
            None => None,
        }
    }

    /// The e-mail address of the payer.
    pub open spec fn billing_email(&self) -> Option<String> {
        match self.billing {
            Some(b) => b.email,
            None => None,
        }
    }

    /// The full name of the payer.
    pub open spec fn billing_full_name(&self) -> Option<Seq<char>> {
        match self.billing_address() {
            Some(a) => full_name(a.first_name, a.last_name),
            None => None,
        }
    }

    /// The same context with a new state and a new response.
    pub fn with_response<Response2>(
        self,
        status: AttemptStatus,
        response: Result<Response2, ErrorResponse>,
    ) -> (r: RouterData<Request, Response2>)
        ensures
            r.status == status,
            r.response == response,
            r.carries_rest_of(self),
    {
        RouterData {
            status,
            payment_method: self.payment_method,
            connector_auth_type: self.connector_auth_type,
            description: self.description,
            billing: self.billing,
            customer_id: self.customer_id,
            connector_meta_data: self.connector_meta_data,
            connector_request_reference_id: self.connector_request_reference_id,
            reference_id: self.reference_id,
            request: self.request,
            response,
        }
    }

    /// The address of the payer, if the request has one.
    pub fn get_optional_billing(&self) -> (r: Option<&Address>)
        ensures
            r is Some <==> self.billing is Some,
            r matches Some(b) ==> *b == self.billing->0,
    {
        self.billing.as_ref()
    }

    /// The country of the payer.
    pub fn get_billing_country(&self) -> (r: Result<CountryAlpha2, ConnectorError>)
        ensures
            r == match self.billing_country() {
                Some(c) => Ok::<CountryAlpha2, ConnectorError>(c),
                None => Err(
                    ConnectorError::MissingRequiredField {
                        field_name: "payment_method_data.billing.address.country",
                    },
                ),
            },
    {
        let missing = ConnectorError::MissingRequiredField {
            field_name: "payment_method_data.billing.address.country",
        };
        match &self.billing {
            Some(b) => match &b.address {
                Some(a) => match a.country {
                    Some(c) => Ok(c),
                    None => Err(missing),
                },
                None => Err(missing),
            },
            None => Err(missing),
        }
    }

    /// The telephone of the payer.
    pub fn get_billing_phone(&self) -> (r: Result<&PhoneDetails, ConnectorError>)
        ensures
            self.billing_phone() is Some ==> (r matches Ok(p) && *p == self.billing_phone()->0),
            self.billing_phone() is None ==> r == Err::<&PhoneDetails, ConnectorError>(
                ConnectorError::MissingRequiredField { field_name: "billing.phone" },
            ),
    {
        let missing = ConnectorError::MissingRequiredField { field_name: "billing.phone" };
        match &self.billing {
            Some(b) => match &b.phone {
                Some(p) => Ok(p),
                None => Err(missing),
            },
            None => Err(missing),
        }
    }

    /// The e-mail address of the payer.
    pub fn get_billing_email(&self) -> (r: Result<String, ConnectorError>)
        ensures
            r == match self.billing_email() {
                Some(e) => Ok::<String, ConnectorError>(e),
                None => Err(
                    ConnectorError::MissingRequiredField {
                        field_name: "payment_method_data.billing.email",
                    },
                ),
            },
    {
        let missing = ConnectorError::MissingRequiredField {
            field_name: "payment_method_data.billing.email",
        };
        match &self.billing {
            Some(b) => match &b.email {
                Some(e) => Ok(e.clone()),
                None => Err(missing),
            },
            None => Err(missing),
        }
    }

    /// The identifier of the customer.
    pub fn get_customer_id(&self) -> (r: Result<String, ConnectorError>)
        ensures
            r == match self.customer_id {
                Some(id) => Ok::<String, ConnectorError>(id),
                None => Err(ConnectorError::MissingRequiredField { field_name: "customer_id" }),
            },
    {
        match &self.customer_id {
            Some(id) => Ok(id.clone()),
            None => Err(ConnectorError::MissingRequiredField { field_name: "customer_id" }),
        }
    }

    /// The description of the order.
    pub fn get_description(&self) -> (r: Result<String, ConnectorError>)
        ensures
            r == match self.description {
                Some(d) => Ok::<String, ConnectorError>(d),
                None => Err(ConnectorError::MissingRequiredField { field_name: "description" }),
            },
    {
        match &self.description {
            Some(d) => Ok(d.clone()),
            None => Err(ConnectorError::MissingRequiredField { field_name: "description" }),
        }
    }

    /// The metadata stored with the merchant's connector account.
    pub fn get_connector_meta(&self) -> (r: Result<Secret, ConnectorError>)
        ensures
            r == match self.connector_meta_data {
                Some(m) => Ok::<Secret, ConnectorError>(m),
                None => Err(
                    ConnectorError::MissingRequiredField { field_name: "connector_meta_data" },
                ),
            },
    {
        match &self.connector_meta_data {
            Some(m) => Ok(m.clone()),
            None => Err(ConnectorError::MissingRequiredField { field_name: "connector_meta_data" }),
        }
    }

    /// The full name of the payer: the first and the last name with a space
    /// between them, or the one that is there.
    pub fn get_optional_billing_full_name(&self) -> (r: Option<Secret>)
        ensures
            r is Some <==> self.billing_full_name() is Some,
            r matches Some(name) ==> name@ == self.billing_full_name()->0,
    {
        let details = match &self.billing {
            Some(b) => match &b.address {
                Some(a) => a,
                None => {
                    return None;
                },
            },
            None => {
                return None;
            },
        };
        match (&details.first_name, &details.last_name) {
            (Some(first), Some(last)) => {
                let mut name = first.peek().clone();
                name.append(" ");
                name.append(last.peek().as_str());
                proof {
                    reveal_strlit(" ");
                    assert(" "@ =~= seq![' ']);
                }
                Some(Secret::new(name))
            },
            (Some(first), None) => Some(first.clone()),
            (None, Some(last)) => Some(last.clone()),
            (None, None) => None,
        }
    }
}

} // verus!
