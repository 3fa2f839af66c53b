//! The Fiserv connector: requests with merchant and terminal details, Google
//! Pay tokens taken apart, and the reading of transaction states.

use vstd::prelude::*;
use crate::amount::DecimalMajorUnit;
use crate::enums::{AttemptStatus, CaptureMethod, Currency, RefundStatus};
use crate::errors::{
    get_unimplemented_payment_method_error_message, missing_field, not_implemented,
    unimplemented_payment_method_message, ConnectorError, ConnectorErrorView,
};
use crate::json::{
    json_member, json_member_of, json_object_text, json_object_text_of, json_string_items,
    json_string_items_of, json_string_member, json_string_member_of,
};
use crate::payment_method_data::{four_digit_year, CardNumber, PaymentMethodData, WalletData};
use crate::router_data::{
    ConnectorAuthType, ErrorResponse as RouterErrorResponse, PaymentsAuthorizeRouterData,
    PaymentsCancelRouterData, PaymentsCaptureRouterData, PaymentsResponseData,
    PaymentsSyncRouterData, RefundsData, RefundsResponseData, RefundsRouterData, ResponseId,
    ResponseRouterData, RouterData,
};
use crate::secret::Secret;
use crate::text::views_of;

verus! {

/// A request context together with its amount in major units.
pub struct FiservRouterData<T> {
    pub amount: DecimalMajorUnit,
    pub router_data: T,
}

impl<T> FiservRouterData<T> {
    /// Pairs an amount with a request context.
    pub fn try_from(pair: (DecimalMajorUnit, T)) -> (r: Result<Self, ConnectorError>)
        ensures
            r matches Ok(item) && item.amount == pair.0 && item.router_data == pair.1,
    {
        Ok(FiservRouterData { amount: pair.0, router_data: pair.1 })
    }
}

/// The credentials that Fiserv takes.
pub struct FiservAuthType {
    pub api_key: Secret,
    pub merchant_account: Secret,
    pub api_secret: Secret,
}

impl FiservAuthType {
    /// Reads the credentials from a signature key; no other shape is accepted.
    pub fn try_from(auth_type: &ConnectorAuthType) -> (r: Result<Self, ConnectorError>)
        ensures
            auth_type is SignatureKey ==> (r matches Ok(auth) && auth.api_key
                == auth_type->SignatureKey_api_key && auth.merchant_account
                == auth_type->SignatureKey_key1 && auth.api_secret
                == auth_type->SignatureKey_api_secret),
            !(auth_type is SignatureKey) ==> (r matches Err(e) && e@
                == ConnectorErrorView::FailedToObtainAuthType),
    {
        match auth_type {
            ConnectorAuthType::SignatureKey { api_key, key1, api_secret } => Ok(
                FiservAuthType {
                    api_key: api_key.clone(),
                    merchant_account: key1.clone(),
                    api_secret: api_secret.clone(),
                },
            ),
            _ => Err(ConnectorError::FailedToObtainAuthType),
        }
    }
}

/// An amount and its currency.
#[derive(Clone, Debug, PartialEq, Eq)]
pub struct Amount {
    pub total: DecimalMajorUnit,
    pub currency: String,
}

/// How a transaction is to be processed.
#[derive(Clone, Debug, PartialEq, Eq)]
pub struct TransactionDetails {
    pub capture_flag: Option<bool>,
    pub reversal_reason_code: Option<String>,
    pub merchant_transaction_id: Option<String>,
}

/// The merchant and the terminal of a transaction.
#[derive(Clone, PartialEq, Eq)]
pub struct MerchantDetails {
    pub merchant_id: Secret,
    pub terminal_id: Option<Secret>,
}

/// Where a transaction comes from.
#[derive(Clone, Copy, Debug, PartialEq, Eq, Structural)]
pub enum TransactionInteractionOrigin {
    Ecom,
}

/// How the card data of a transaction were protected.
#[derive(Clone, Copy, Debug, PartialEq, Eq, Structural)]
pub enum TransactionInteractionEciIndicator {
    ChannelEncrypted,
}

/// Whether the card was present.
#[derive(Clone, Copy, Debug, PartialEq, Eq, Structural)]
pub enum TransactionInteractionPosConditionCode {
    CardNotPresentEcom,
}

/// The circumstances of a transaction.
#[derive(Clone, Copy, Debug, PartialEq, Eq, Structural)]
pub struct TransactionInteraction {
    pub origin: TransactionInteractionOrigin,
    pub eci_indicator: TransactionInteractionEciIndicator,
    pub pos_condition_code: TransactionInteractionPosConditionCode,
}

/// The key that signed a Google Pay token, with its signatures.
#[derive(Clone, PartialEq, Eq)]
pub struct IntermediateSigningKey {
    pub signed_key: Secret,
    pub signatures: Vec<Secret>,
}

/// The signed key of a Google Pay token.
#[derive(Clone, Debug, PartialEq, Eq)]
pub struct SignedKey {
    pub key_value: String,
    pub key_expiration: String,
}

/// The signed message of a Google Pay token.
#[derive(Clone, Debug, PartialEq, Eq)]
pub struct SignedMessage {
    pub encrypted_message: String,
    pub ephemeral_public_key: String,
    pub tag: String,
}

/// A Google Pay token taken apart; a part that could not be read is empty.
#[derive(Clone, PartialEq, Eq)]
pub struct FullyParsedGooglePayToken {
    pub signature: Secret,
    pub protocol_version: String,
    pub encrypted_message: String,
    pub ephemeral_public_key: String,
    pub tag: String,
    pub key_value: String,
    pub key_expiration: String,
    pub signatures: Vec<String>,
}

/// A Google Pay token as it arrives: the signed message and the signed key
/// are JSON text themselves.
#[derive(Clone, PartialEq, Eq)]
pub struct RawGooglePayToken {
    pub signature: Secret,
    pub protocol_version: String,
    pub signed_message: Secret,
    pub intermediate_signing_key: IntermediateSigningKey,
}

/// The signing key of the token `token`, as JSON text.
pub open spec fn token_signing_key(token: Seq<char>) -> Option<Seq<char>> {
    json_member_of(token, "intermediateSigningKey"@)
}

/// The signed key of the token `token`, which is JSON text itself.
pub open spec fn token_signed_key(token: Seq<char>) -> Option<Seq<char>> {
    match token_signing_key(token) {
        Some(key) => json_string_member_of(key, "signedKey"@),
        None => None,
    }
}

/// The signatures of the signing key of the token `token`.
pub open spec fn token_signatures(token: Seq<char>) -> Option<Seq<Seq<char>>> {
    match token_signing_key(token) {
        Some(key) => match json_member_of(key, "signatures"@) {
            Some(list) => json_string_items_of(list),
            None => None,
        },
        None => None,
    }
}

/// Whether the token is a JSON object with a signature, a protocol version,
/// a signed message, and a signing key with a signed key and signatures.
pub open spec fn token_readable(token: Seq<char>) -> bool {
    &&& json_string_member_of(token, "signature"@) is Some
    &&& json_string_member_of(token, "protocolVersion"@) is Some
    &&& json_string_member_of(token, "signedMessage"@) is Some
    &&& token_signed_key(token) is Some
    &&& token_signatures(token) is Some
}

/// Whether the signed key of a readable token is a JSON object with a key
/// value and a key expiration.
pub open spec fn signed_key_readable(token: Seq<char>) -> bool {
    &&& token_readable(token)
    &&& json_string_member_of(token_signed_key(token)->0, "keyValue"@) is Some
    &&& json_string_member_of(token_signed_key(token)->0, "keyExpiration"@) is Some
}

/// Whether the signed message of a readable token is a JSON object with an
/// encrypted message, an ephemeral public key and a tag.
pub open spec fn signed_message_readable(token: Seq<char>) -> bool {
    &&& token_readable(token)
    &&& json_string_member_of(
        json_string_member_of(token, "signedMessage"@)->0,
        "encryptedMessage"@,
    ) is Some
    &&& json_string_member_of(
        json_string_member_of(token, "signedMessage"@)->0,
        "ephemeralPublicKey"@,
    ) is Some
    &&& json_string_member_of(json_string_member_of(token, "signedMessage"@)->0, "tag"@) is Some
}

/// The text `text` when `available`, and no text otherwise.
pub open spec fn text_if(available: bool, text: Option<Seq<char>>) -> Seq<char> {
    if available {
        text->0
    } else {
        Seq::<char>::empty()
    }
}

/// The signature of a token; empty when the token cannot be read.
pub open spec fn parsed_signature(token: Seq<char>) -> Seq<char> {
    text_if(token_readable(token), json_string_member_of(token, "signature"@))
}

/// The protocol version of a token; empty when the token cannot be read.
pub open spec fn parsed_protocol_version(token: Seq<char>) -> Seq<char> {
    text_if(token_readable(token), json_string_member_of(token, "protocolVersion"@))
}

/// The signatures of the signing key of a token; none when the token cannot be read.
pub open spec fn parsed_signatures(token: Seq<char>) -> Seq<Seq<char>> {
    if token_readable(token) {
        token_signatures(token)->0
    } else {
        Seq::<Seq<char>>::empty()
    }
}

/// The value of the signed key of a token; empty when it cannot be read.
pub open spec fn parsed_key_value(token: Seq<char>) -> Seq<char> {
    text_if(
        signed_key_readable(token),
        json_string_member_of(token_signed_key(token)->0, "keyValue"@),
    )
}

/// The expiration of the signed key of a token; empty when it cannot be read.
pub open spec fn parsed_key_expiration(token: Seq<char>) -> Seq<char> {
    text_if(
        signed_key_readable(token),
        json_string_member_of(token_signed_key(token)->0, "keyExpiration"@),
    )
}

/// The encrypted message of a token; empty when it cannot be read.
pub open spec fn parsed_encrypted_message(token: Seq<char>) -> Seq<char> {
    text_if(
        signed_message_readable(token),
        json_string_member_of(
            json_string_member_of(token, "signedMessage"@)->0,
            "encryptedMessage"@,
        ),
    )
}

/// The ephemeral public key of a token; empty when it cannot be read.
pub open spec fn parsed_ephemeral_public_key(token: Seq<char>) -> Seq<char> {
    text_if(
        signed_message_readable(token),
        json_string_member_of(
            json_string_member_of(token, "signedMessage"@)->0,
            "ephemeralPublicKey"@,
        ),
    )
}

/// The tag of the signed message of a token; empty when it cannot be read.
pub open spec fn parsed_tag(token: Seq<char>) -> Seq<char> {
    text_if(
        signed_message_readable(token),
        json_string_member_of(json_string_member_of(token, "signedMessage"@)->0, "tag"@),
    )
}

/// Whether `parsed` is the token `token` taken apart.
pub open spec fn is_parsed_token(parsed: FullyParsedGooglePayToken, token: Seq<char>) -> bool {
    &&& parsed.signature@ == parsed_signature(token)
    &&& parsed.protocol_version@ == parsed_protocol_version(token)
    &&& views_of(parsed.signatures@) == parsed_signatures(token)
    &&& parsed.key_value@ == parsed_key_value(token)
    &&& parsed.key_expiration@ == parsed_key_expiration(token)
    &&& parsed.encrypted_message@ == parsed_encrypted_message(token)
    &&& parsed.ephemeral_public_key@ == parsed_ephemeral_public_key(token)
    &&& parsed.tag@ == parsed_tag(token)
}

/// Reads a Google Pay token as it arrives, if it has all its parts.
pub fn read_raw_googlepay_token(token_json_str: &str) -> (r: Option<RawGooglePayToken>)
    ensures
        r is Some <==> token_readable(token_json_str@),
        r matches Some(raw) ==> {
            &&& raw.signature@ == json_string_member_of(token_json_str@, "signature"@)->0
            &&& raw.protocol_version@ == json_string_member_of(
                token_json_str@,
                "protocolVersion"@,
            )->0
            &&& raw.signed_message@ == json_string_member_of(
                token_json_str@,
                "signedMessage"@,
            )->0
            &&& raw.intermediate_signing_key.signed_key@ == token_signed_key(token_json_str@)->0
            &&& raw.intermediate_signing_key.signatures@.len() == token_signatures(
                token_json_str@,
            )->0.len()
            &&& forall|i: int|
                0 <= i < raw.intermediate_signing_key.signatures@.len()
                    ==> #[trigger] raw.intermediate_signing_key.signatures@[i]@ == token_signatures(
                    token_json_str@,
                )->0[i]
        },
{
    let signature = json_string_member(token_json_str, "signature")?;
    let protocol_version = json_string_member(token_json_str, "protocolVersion")?;
    let signed_message = json_string_member(token_json_str, "signedMessage")?;
    let signing_key = json_member(token_json_str, "intermediateSigningKey")?;
    let signed_key = json_string_member(signing_key.as_str(), "signedKey")?;
    let list = json_member(signing_key.as_str(), "signatures")?;
    let items = json_string_items(list.as_str())?;
    let mut signatures: Vec<Secret> = Vec::new();
    let mut i: usize = 0;
    while i < items.len()
        invariant
            i <= items.len(),
            signatures@.len() == i,
            forall|j: int| 0 <= j < i ==> #[trigger] signatures@[j]@ == items@[j]@,
        decreases items.len() - i,
    {
        signatures.push(Secret::new(items[i].clone()));
        i += 1;
    }
    Some(
        RawGooglePayToken {
            signature: Secret::new(signature),
            protocol_version,
            signed_message: Secret::new(signed_message),
            intermediate_signing_key: IntermediateSigningKey {
                signed_key: Secret::new(signed_key),
                signatures,
            },
        },
    )
}

/// Takes a Google Pay token apart without ever failing. A token that cannot
/// be read gives empty parts; a signed key or a signed message that cannot be
/// read leaves only its own parts empty.
pub fn parse_googlepay_token_safely(token_json_str: &str) -> (r: FullyParsedGooglePayToken)
    ensures
        is_parsed_token(r, token_json_str@),
{
    let mut result = FullyParsedGooglePayToken {
        signature: Secret::new(String::new()),
        protocol_version: String::new(),
        encrypted_message: String::new(),
        ephemeral_public_key: String::new(),
        tag: String::new(),
        key_value: String::new(),
        key_expiration: String::new(),
        signatures: Vec::new(),
    };
    proof {
        assert(views_of(result.signatures@) =~= Seq::<Seq<char>>::empty());
    }
    if let Some(raw_token) = read_raw_googlepay_token(token_json_str) {
        let RawGooglePayToken {
            signature,
            protocol_version,
            signed_message,
            intermediate_signing_key,
        } = raw_token;
        result.signature = signature;
        result.protocol_version = protocol_version;
        let IntermediateSigningKey { signed_key, signatures } = intermediate_signing_key;
        let mut exposed: Vec<String> = Vec::new();
        let mut i: usize = 0;
        while i < signatures.len()
            invariant
                i <= signatures.len(),
                exposed@.len() == i,
                forall|j: int| 0 <= j < i ==> #[trigger] exposed@[j]@ == signatures@[j]@,
            decreases signatures.len() - i,
        {
            exposed.push(signatures[i].peek().clone());
            i += 1;
        }
        proof {
            assert(views_of(exposed@) =~= token_signatures(token_json_str@)->0);
        }
        result.signatures = exposed;
        let key_text = signed_key.expose();
        match (
            json_string_member(key_text.as_str(), "keyValue"),
            json_string_member(key_text.as_str(), "keyExpiration"),
        ) {
            (Some(key_value), Some(key_expiration)) => {
                result.key_value = key_value;
                result.key_expiration = key_expiration;
            },
            _ => {},
        }
        let message_text = signed_message.expose();
        match (
            json_string_member(message_text.as_str(), "encryptedMessage"),
            json_string_member(message_text.as_str(), "ephemeralPublicKey"),
            json_string_member(message_text.as_str(), "tag"),
        ) {
            (Some(encrypted_message), Some(ephemeral_public_key), Some(tag)) => {
                result.encrypted_message = encrypted_message;
                result.ephemeral_public_key = ephemeral_public_key;
                result.tag = tag;
            },
            _ => {},
        }
    }
    result
}

/// The Google Pay payment that Fiserv is sent.
#[derive(Clone, PartialEq, Eq)]
pub struct GooglePayData {
    pub data: Secret,
    pub signature: Secret,
    pub version: String,
    pub intermediate_signing_key: IntermediateSigningKey,
}

/// The card that Fiserv is sent.
#[derive(Clone, PartialEq, Eq)]
pub struct CardData {
    pub card_data: CardNumber,
    pub expiration_month: Secret,
    pub expiration_year: Secret,
    pub security_code: Option<Secret>,
}

/// What the customer pays with, in Fiserv's terms.
#[derive(Clone, PartialEq, Eq)]
pub enum Source {
    GooglePay(GooglePayData),
    PaymentCard { card: CardData },
}

/// The transaction that a request refers to.
#[derive(Clone, Debug, PartialEq, Eq)]
pub struct ReferenceTransactionDetails {
    pub reference_transaction_id: String,
}

/// What is stored with the merchant's account at Fiserv.
#[derive(Clone, PartialEq, Eq)]
pub struct FiservSessionObject {
    pub terminal_id: Secret,
}

/// The terminal that the metadata `metadata` name.
pub open spec fn session_terminal(metadata: Seq<char>) -> Option<Seq<char>> {
    json_string_member_of(metadata, "terminal_id"@)
}

impl FiservSessionObject {
    /// Reads the metadata of the merchant's account: a JSON object that names
    /// the terminal.
    pub fn parse(metadata: &Secret, config: &'static str) -> (r: Result<Self, ConnectorError>)
        ensures
            match session_terminal(metadata@) {
                Some(terminal) => r matches Ok(session) && session.terminal_id@ == terminal,
                None => r matches Err(e) && e@ == (ConnectorErrorView::InvalidConnectorConfig {
                    config: config@,
                }),
            },
    {
        match json_string_member(metadata.peek().as_str(), "terminal_id") {
            Some(terminal) => Ok(FiservSessionObject { terminal_id: Secret::new(terminal) }),
            None => Err(ConnectorError::InvalidConnectorConfig { config }),
        }
    }

    /// Reads the metadata of the merchant's account, if there are any.
    pub fn try_from(meta_data: &Option<Secret>) -> (r: Result<Self, ConnectorError>)
        ensures
            match *meta_data {
                Some(metadata) => match session_terminal(metadata@) {
                    Some(terminal) => r matches Ok(session) && session.terminal_id@ == terminal,
                    None => r matches Err(e) && e@ == (ConnectorErrorView::InvalidConnectorConfig {
                        config: "metadata"@,
                    }),
                },
                None => r matches Err(e) && e@ == (ConnectorErrorView::InvalidConnectorConfig {
                    config: "metadata"@,
                }),
            },
    {
        match meta_data {
            Some(metadata) => Self::parse(metadata, "metadata"),
            None => Err(ConnectorError::InvalidConnectorConfig { config: "metadata" }),
        }
    }
}

/// The request to authorize a payment.
#[derive(Clone, PartialEq, Eq)]
pub struct FiservPaymentsRequest {
    pub amount: Amount,
    pub source: Source,
    pub transaction_details: TransactionDetails,
    pub merchant_details: MerchantDetails,
    pub transaction_interaction: Option<TransactionInteraction>,
}

/// The payment methods that Fiserv takes.
pub open spec fn fiserv_supports(method: PaymentMethodData) -> bool {
    method is Card || (method matches PaymentMethodData::Wallet(wallet) && wallet is GooglePay)
}

/// Whether the funds are captured with the authorization: so it is unless
/// the request asks for a manual or a scheduled capture.
pub open spec fn capture_flag(method: Option<CaptureMethod>) -> bool {
    method is None || method == Some(CaptureMethod::Automatic) || method == Some(
        CaptureMethod::SequentialAutomatic,
    )
}

/// The text of the configuration that an unreadable account names.
pub open spec fn account_metadata() -> Seq<char> {
    "Merchant connector account metadata"@
}

/// Why no payment request can be built, if none can: the credentials are
/// read first, then the metadata of the account, then the payment method.
pub open spec fn payments_request_error(data: PaymentsAuthorizeRouterData) -> Option<
    ConnectorErrorView,
> {
    if !(data.connector_auth_type is SignatureKey) {
        Some(ConnectorErrorView::FailedToObtainAuthType)
    } else if data.connector_meta_data is None {
        Some(missing_field("connector_meta_data"@))
    } else if session_terminal(data.connector_meta_data->0@) is None {
        Some(ConnectorErrorView::InvalidConnectorConfig { config: account_metadata() })
    } else if !fiserv_supports(data.request.payment_method_data) {
        Some(not_implemented(unimplemented_payment_method_message("fiserv"@)))
    } else {
        None
    }
}

/// The JSON text of the signed key that Fiserv is sent for a token.
pub open spec fn signed_key_text(key_value: Seq<char>, key_expiration: Seq<char>) -> Seq<char> {
    json_object_text_of(seq![("keyValue"@, key_value), ("keyExpiration"@, key_expiration)])
}

/// Whether `source` is what Fiserv is told of the payment method `method`.
pub open spec fn is_source_of(source: Source, method: PaymentMethodData) -> bool {
    match method {
        PaymentMethodData::Card(card) => {
            &&& source matches Source::PaymentCard { card: sent }
            &&& sent.card_data == card.card_number
            &&& sent.expiration_month == card.card_exp_month
            &&& sent.expiration_year@ == four_digit_year(card.card_exp_year@)
            &&& sent.security_code == Some(card.card_cvc)
        },
        PaymentMethodData::Wallet(WalletData::GooglePay(data)) => {
            let token = data.tokenization_data.token@;
            &&& source matches Source::GooglePay(sent)
            &&& sent.data@ == parsed_encrypted_message(token)
            &&& sent.signature@ == parsed_signature(token)
            &&& sent.version@ == parsed_protocol_version(token)
            &&& sent.intermediate_signing_key.signed_key@ == signed_key_text(
                parsed_key_value(token),
                parsed_key_expiration(token),
            )
            &&& sent.intermediate_signing_key.signatures@.len() == parsed_signatures(token).len()
            &&& forall|i: int|
                0 <= i < parsed_signatures(token).len()
                    ==> #[trigger] sent.intermediate_signing_key.signatures@[i]@
                    == parsed_signatures(token)[i]
        },
        _ => false,
    }
}

/// Whether `request` is the payment request of `data` with the amount `amount`.
pub open spec fn is_payments_request_of(
    request: FiservPaymentsRequest,
    amount: DecimalMajorUnit,
    data: PaymentsAuthorizeRouterData,
) -> bool {
    &&& request.amount.total == amount
    &&& request.amount.currency@ == data.request.currency.code_spec()
    &&& request.transaction_details.capture_flag == Some(capture_flag(data.request.capture_method))
    &&& request.transaction_details.reversal_reason_code is None
    &&& request.transaction_details.merchant_transaction_id == Some(
        data.connector_request_reference_id,
    )
    &&& request.merchant_details.merchant_id == data.connector_auth_type->SignatureKey_key1
    &&& request.merchant_details.terminal_id matches Some(terminal)
    &&& terminal@ == session_terminal(data.connector_meta_data->0@)->0
    &&& request.transaction_interaction == Some(
        TransactionInteraction {
            origin: TransactionInteractionOrigin::Ecom,
            eci_indicator: TransactionInteractionEciIndicator::ChannelEncrypted,
            pos_condition_code: TransactionInteractionPosConditionCode::CardNotPresentEcom,
        },
    )
    &&& is_source_of(request.source, data.request.payment_method_data)
}

/// The signed key of a memberwise pair.
fn signed_key_members(key_value: String, key_expiration: String) -> (r: Vec<(String, String)>)
    ensures
        crate::redirect::pairs_view(r@) == seq![
            ("keyValue"@, key_value@),
            ("keyExpiration"@, key_expiration@),
        ],
{
    let mut members: Vec<(String, String)> = Vec::new();
    members.push((String::from_str("keyValue"), key_value));
    members.push((String::from_str("keyExpiration"), key_expiration));
    proof {
        assert(crate::redirect::pairs_view(members@) =~= seq![
            ("keyValue"@, key_value@),
            ("keyExpiration"@, key_expiration@),
        ]);
    }
    members
}

impl FiservPaymentsRequest {
    /// Builds the payment request. Fiserv takes cards and Google Pay; for
    /// everything else the request is refused as not implemented.
    pub fn try_from(item: &FiservRouterData<&PaymentsAuthorizeRouterData>) -> (r: Result<
        Self,
        ConnectorError,
    >)
        ensures
            match payments_request_error(*item.router_data) {
                Some(error) => r matches Err(e) && e@ == error,
                None => r matches Ok(request) && is_payments_request_of(
                    request,
                    item.amount,
                    *item.router_data,
                ),
            },
    {
        let data = item.router_data;
        let auth = FiservAuthType::try_from(&data.connector_auth_type)?;
        let amount = Amount { total: item.amount, currency: data.request.currency.to_string() };
        let transaction_details = TransactionDetails {
            capture_flag: Some(
                match data.request.capture_method {
                    Some(CaptureMethod::Automatic)
                    | Some(CaptureMethod::SequentialAutomatic)
                    | None => true,
                    _ => false,
                },
            ),
            reversal_reason_code: None,
            merchant_transaction_id: Some(data.connector_request_reference_id.clone()),
        };
        let metadata = data.get_connector_meta()?;
        let session = FiservSessionObject::parse(&metadata, "Merchant connector account metadata")?;
        let merchant_details = MerchantDetails {
            merchant_id: auth.merchant_account,
            terminal_id: Some(session.terminal_id),
        };
        let transaction_interaction = Some(
            TransactionInteraction {
                //Payment is being made in online mode, card not present
                origin: TransactionInteractionOrigin::Ecom,
                // transaction encryption such as SSL/TLS, but authentication was not performed
                eci_indicator: TransactionInteractionEciIndicator::ChannelEncrypted,
                //card not present in online transaction
                pos_condition_code: TransactionInteractionPosConditionCode::CardNotPresentEcom,
            },
        );
        let source = match &data.request.payment_method_data {
            PaymentMethodData::Card(ccard) => Source::PaymentCard {
                card: CardData {
                    card_data: ccard.card_number.clone(),
                    expiration_month: ccard.card_exp_month.clone(),
                    expiration_year: ccard.get_expiry_year_4_digit(),
                    security_code: Some(ccard.card_cvc.clone()),
                },
            },
            PaymentMethodData::Wallet(wallet_data) => match wallet_data {
                WalletData::GooglePay(google_pay) => {
                    let parsed = parse_googlepay_token_safely(
                        google_pay.tokenization_data.token.as_str(),
                    );
                    let FullyParsedGooglePayToken {
                        signature,
                        protocol_version,
                        encrypted_message,
                        ephemeral_public_key: _,
                        tag: _,
                        key_value,
                        key_expiration,
                        signatures,
                    } = parsed;
                    let members = signed_key_members(key_value, key_expiration);
                    let signed_key = json_object_text(&members);
                    let mut secrets: Vec<Secret> = Vec::new();
                    let mut i: usize = 0;
                    while i < signatures.len()
                        invariant
                            i <= signatures.len(),
                            secrets@.len() == i,
                            forall|j: int| 0 <= j < i ==> #[trigger] secrets@[j]@ == signatures@[j]@,
                        decreases signatures.len() - i,
                    {
                        secrets.push(Secret::new(signatures[i].clone()));
                        i += 1;
                    }
                    proof {
                        let token = google_pay.tokenization_data.token@;
                        assert forall|k: int| 0 <= k < parsed_signatures(token).len() implies (
                        #[trigger] secrets@[k]@) == parsed_signatures(token)[k] by {
                            assert(views_of(signatures@)[k] == signatures@[k]@);
                        }
                        assert(views_of(signatures@).len() == signatures@.len());
                    }
                    Source::GooglePay(
                        GooglePayData {
                            data: Secret::new(encrypted_message),
                            signature,
                            version: protocol_version,
                            intermediate_signing_key: IntermediateSigningKey {
                                signed_key: Secret::new(signed_key),
                                signatures: secrets,
                            },
                        },
                    )
                },
                _ => {
                    return Err(
                        ConnectorError::NotImplemented(
                            get_unimplemented_payment_method_error_message("fiserv"),
                        ),
                    );
                },
            },
            PaymentMethodData::PayLater(_)
            | PaymentMethodData::BankRedirect(_)
            | PaymentMethodData::BankDebit
            | PaymentMethodData::CardRedirect
            | PaymentMethodData::BankTransfer
            | PaymentMethodData::Crypto
            | PaymentMethodData::MandatePayment
            | PaymentMethodData::Reward
            | PaymentMethodData::RealTimePayment
            | PaymentMethodData::Upi
            | PaymentMethodData::MobilePayment
            | PaymentMethodData::Voucher
            | PaymentMethodData::GiftCard
            | PaymentMethodData::OpenBanking
            | PaymentMethodData::CardToken
            | PaymentMethodData::NetworkToken(_)
            | PaymentMethodData::CardDetailsForNetworkTransactionId => {
                return Err(
                    ConnectorError::NotImplemented(
                        get_unimplemented_payment_method_error_message("fiserv"),
                    ),
                );
            },
        };
        Ok(
            FiservPaymentsRequest {
                amount,
                source,
                transaction_details,
                merchant_details,
                transaction_interaction,
            },
        )
    }
}

/// Whatever the customer pays with, the request is built or it is refused as
/// not implemented: a payment method that Fiserv takes is never refused as
/// not implemented, and one that it does not take is never encoded. Left out
/// are only the requests that are refused for another reason: credentials of
/// another shape, or metadata of the account that are missing or unreadable.
pub proof fn lemma_fiserv_payment_method_coverage(data: PaymentsAuthorizeRouterData)
    requires
        payments_request_error(data) != Some(ConnectorErrorView::FailedToObtainAuthType),
        !(payments_request_error(data) matches Some(
            ConnectorErrorView::MissingRequiredField { .. },
        )),
        !(payments_request_error(data) matches Some(
            ConnectorErrorView::InvalidConnectorConfig { .. },
        )),
    ensures
        fiserv_supports(data.request.payment_method_data) ==> payments_request_error(data) is None,
        !fiserv_supports(data.request.payment_method_data) ==> payments_request_error(data)
            matches Some(ConnectorErrorView::NotImplemented(_)),
{
}

/// The request to cancel an authorized payment.
#[derive(Clone, PartialEq, Eq)]
pub struct FiservCancelRequest {
    pub transaction_details: TransactionDetails,
    pub merchant_details: MerchantDetails,
    pub reference_transaction_details: ReferenceTransactionDetails,
}

/// Why no request that needs the merchant and the terminal can be built, if
/// none can; `missing` is the error for an account without metadata.
pub open spec fn merchant_details_error<Request, Response>(
    data: RouterData<Request, Response>,
    missing: ConnectorErrorView,
) -> Option<ConnectorErrorView> {
    if !(data.connector_auth_type is SignatureKey) {
        Some(ConnectorErrorView::FailedToObtainAuthType)
    } else if data.connector_meta_data is None {
        Some(missing)
    } else if session_terminal(data.connector_meta_data->0@) is None {
        Some(ConnectorErrorView::InvalidConnectorConfig { config: account_metadata() })
    } else {
        None
    }
}

/// Whether `details` name the merchant of the credentials and the terminal
/// of the account of `data`.
pub open spec fn is_merchant_details_of<Request, Response>(
    details: MerchantDetails,
    data: RouterData<Request, Response>,
) -> bool {
    &&& details.merchant_id == data.connector_auth_type->SignatureKey_key1
    &&& details.terminal_id matches Some(terminal)
    &&& terminal@ == session_terminal(data.connector_meta_data->0@)->0
}

impl FiservCancelRequest {
    /// The request to cancel the payment of `item`, for the reason that the
    /// request gives.
    pub fn try_from(item: &PaymentsCancelRouterData) -> (r: Result<Self, ConnectorError>)
        ensures
            match merchant_details_error(*item, missing_field("connector_meta_data"@)) {
                Some(error) => r matches Err(e) && e@ == error,
                None => match item.request.cancellation_reason {
                    None => r matches Err(e) && e@ == missing_field("cancellation_reason"@),
                    Some(reason) => {
                        &&& r matches Ok(request)
                        &&& is_merchant_details_of(request.merchant_details, *item)
                        &&& request.reference_transaction_details.reference_transaction_id
                            == item.request.connector_transaction_id
                        &&& request.transaction_details.capture_flag is None
                        &&& request.transaction_details.reversal_reason_code == Some(reason)
                        &&& request.transaction_details.merchant_transaction_id == Some(
                            item.connector_request_reference_id,
                        )
                    },
                },
            },
    {
        let auth = FiservAuthType::try_from(&item.connector_auth_type)?;
        let metadata = item.get_connector_meta()?;
        let session = FiservSessionObject::parse(&metadata, "Merchant connector account metadata")?;
        Ok(
            FiservCancelRequest {
                merchant_details: MerchantDetails {
                    merchant_id: auth.merchant_account,
                    terminal_id: Some(session.terminal_id),
                },
                reference_transaction_details: ReferenceTransactionDetails {
                    reference_transaction_id: item.request.connector_transaction_id.clone(),
                },
                transaction_details: TransactionDetails {
                    capture_flag: None,
                    reversal_reason_code: Some(item.request.get_cancellation_reason()?),
                    merchant_transaction_id: Some(item.connector_request_reference_id.clone()),
                },
            },
        )
    }
}

/// The request to capture an authorized payment.
#[derive(Clone, PartialEq, Eq)]
pub struct FiservCaptureRequest {
    pub amount: Amount,
    pub transaction_details: TransactionDetails,
    pub merchant_details: MerchantDetails,
    pub reference_transaction_details: ReferenceTransactionDetails,
}

impl FiservCaptureRequest {
    /// The request to capture the amount of `item`.
    pub fn try_from(item: &FiservRouterData<&PaymentsCaptureRouterData>) -> (r: Result<
        Self,
        ConnectorError,
    >)
        ensures
            match merchant_details_error(
                *item.router_data,
                ConnectorErrorView::RequestEncodingFailed,
            ) {
                Some(error) => r matches Err(e) && e@ == error,
                None => {
                    &&& r matches Ok(request)
                    &&& request.amount.total == item.amount
                    &&& request.amount.currency@ == item.router_data.request.currency.code_spec()
                    &&& request.transaction_details.capture_flag == Some(true)
                    &&& request.transaction_details.reversal_reason_code is None
                    &&& request.transaction_details.merchant_transaction_id == Some(
                        item.router_data.connector_request_reference_id,
                    )
                    &&& is_merchant_details_of(request.merchant_details, *item.router_data)
                    &&& request.reference_transaction_details.reference_transaction_id
                        == item.router_data.request.connector_transaction_id
                },
            },
    {
        let data = item.router_data;
        let auth = FiservAuthType::try_from(&data.connector_auth_type)?;
        let metadata = match &data.connector_meta_data {
            Some(m) => m,
            None => {
                return Err(ConnectorError::RequestEncodingFailed);
            },
        };
        let session = FiservSessionObject::parse(metadata, "Merchant connector account metadata")?;
        Ok(
            FiservCaptureRequest {
                amount: Amount { total: item.amount, currency: data.request.currency.to_string() },
                transaction_details: TransactionDetails {
                    capture_flag: Some(true),
                    reversal_reason_code: None,
                    merchant_transaction_id: Some(data.connector_request_reference_id.clone()),
                },
                merchant_details: MerchantDetails {
                    merchant_id: auth.merchant_account,
                    terminal_id: Some(session.terminal_id),
                },
                reference_transaction_details: ReferenceTransactionDetails {
                    reference_transaction_id: data.request.connector_transaction_id.clone(),
                },
            },
        )
    }
}

/// The request for the state of a payment or of a refund.
#[derive(Clone, PartialEq, Eq)]
pub struct FiservSyncRequest {
    pub merchant_details: MerchantDetails,
    pub reference_transaction_details: ReferenceTransactionDetails,
}

impl FiservSyncRequest {
    /// The request for the state of the payment of `item`.
    pub fn try_from(item: &PaymentsSyncRouterData) -> (r: Result<Self, ConnectorError>)
        ensures
            if !(item.connector_auth_type is SignatureKey) {
                r matches Err(e) && e@ == ConnectorErrorView::FailedToObtainAuthType
            } else {
                match item.request.connector_transaction_id {
                    ResponseId::ConnectorTransactionId(id) => {
                        &&& r matches Ok(request)
                        &&& request.merchant_details.merchant_id
                            == item.connector_auth_type->SignatureKey_key1
                        &&& request.merchant_details.terminal_id is None
                        &&& request.reference_transaction_details.reference_transaction_id == id
                    },
                    _ => r matches Err(e) && e@ == ConnectorErrorView::MissingConnectorTransactionID,
                }
            },
    {
        let auth = FiservAuthType::try_from(&item.connector_auth_type)?;
        Ok(
            FiservSyncRequest {
                merchant_details: MerchantDetails {
                    merchant_id: auth.merchant_account,
                    terminal_id: None,
                },
                reference_transaction_details: ReferenceTransactionDetails {
                    reference_transaction_id: item.request.get_connector_transaction_id()?,
                },
            },
        )
    }

    /// The request for the state of the refund of `item`.
    pub fn try_from_refund(item: &RefundsRouterData) -> (r: Result<Self, ConnectorError>)
        ensures
            if !(item.connector_auth_type is SignatureKey) {
                r matches Err(e) && e@ == ConnectorErrorView::FailedToObtainAuthType
            } else {
                match item.request.connector_refund_id {
                    Some(id) => {
                        &&& r matches Ok(request)
                        &&& request.merchant_details.merchant_id
                            == item.connector_auth_type->SignatureKey_key1
                        &&& request.merchant_details.terminal_id is None
                        &&& request.reference_transaction_details.reference_transaction_id == id
                    },
                    None => r matches Err(e) && e@ == ConnectorErrorView::RequestEncodingFailed,
                }
            },
    {
        let auth = FiservAuthType::try_from(&item.connector_auth_type)?;
        let reference_transaction_id = match &item.request.connector_refund_id {
            Some(id) => id.clone(),
            None => {
                return Err(ConnectorError::RequestEncodingFailed);
            },
        };
        Ok(
            FiservSyncRequest {
                merchant_details: MerchantDetails {
                    merchant_id: auth.merchant_account,
                    terminal_id: None,
                },
                reference_transaction_details: ReferenceTransactionDetails {
                    reference_transaction_id,
                },
            },
        )
    }
}

/// The request to refund a payment.
#[derive(Clone, PartialEq, Eq)]
pub struct FiservRefundRequest {
    pub amount: Amount,
    pub merchant_details: MerchantDetails,
    pub reference_transaction_details: ReferenceTransactionDetails,
}

impl FiservRefundRequest {
    /// The request to refund the amount of `item`.
    pub fn try_from(item: &FiservRouterData<&RefundsRouterData>) -> (r: Result<
        Self,
        ConnectorError,
    >)
        ensures
            match merchant_details_error(
                *item.router_data,
                ConnectorErrorView::RequestEncodingFailed,
            ) {
                Some(error) => r matches Err(e) && e@ == error,
                None => {
                    &&& r matches Ok(request)
                    &&& request.amount.total == item.amount
                    &&& request.amount.currency@ == item.router_data.request.currency.code_spec()
                    &&& is_merchant_details_of(request.merchant_details, *item.router_data)
                    &&& request.reference_transaction_details.reference_transaction_id
                        == item.router_data.request.connector_transaction_id
                },
            },
    {
        let data = item.router_data;
        let auth = FiservAuthType::try_from(&data.connector_auth_type)?;
        let metadata = match &data.connector_meta_data {
            Some(m) => m,
            None => {
                return Err(ConnectorError::RequestEncodingFailed);
            },
        };
        let session = FiservSessionObject::parse(metadata, "Merchant connector account metadata")?;
        Ok(
            FiservRefundRequest {
                amount: Amount { total: item.amount, currency: data.request.currency.to_string() },
                merchant_details: MerchantDetails {
                    merchant_id: auth.merchant_account,
                    terminal_id: Some(session.terminal_id),
                },
                reference_transaction_details: ReferenceTransactionDetails {
                    reference_transaction_id: data.request.connector_transaction_id.clone(),
                },
            },
        )
    }
}

/// One fault that Fiserv found.
#[derive(Clone, Debug, PartialEq, Eq)]
pub struct ErrorDetails {
    pub error_type: Option<String>,
    pub code: Option<String>,
    pub field: Option<String>,
    pub message: Option<String>,
    pub additional_info: Option<String>,
}

/// Fiserv's answer when it refuses a request.
#[derive(Clone, Debug, PartialEq, Eq)]
pub struct ErrorResponse {
    pub error: Option<Vec<ErrorDetails>>,
}

/// What Fiserv reports of a transaction.
#[derive(Clone, Copy, Debug, PartialEq, Eq, Structural)]
pub enum FiservPaymentStatus {
    Succeeded,
    Failed,
    Captured,
    Declined,
    Voided,
    Authorized,
    Processing,
}

/// The state of an attempt that a state of Fiserv stands for.
pub open spec fn fiserv_attempt_status(item: FiservPaymentStatus) -> AttemptStatus {
    match item {
        FiservPaymentStatus::Captured | FiservPaymentStatus::Succeeded => AttemptStatus::Charged,
        FiservPaymentStatus::Declined | FiservPaymentStatus::Failed => AttemptStatus::Failure,
        FiservPaymentStatus::Processing => AttemptStatus::Authorizing,
        FiservPaymentStatus::Voided => AttemptStatus::Voided,
        FiservPaymentStatus::Authorized => AttemptStatus::Authorized,
    }
}

/// The state of a refund that a state of Fiserv stands for.
pub open spec fn fiserv_refund_status(item: FiservPaymentStatus) -> RefundStatus {
    match item {
        FiservPaymentStatus::Succeeded
        | FiservPaymentStatus::Authorized
        | FiservPaymentStatus::Captured => RefundStatus::Success,
        FiservPaymentStatus::Declined | FiservPaymentStatus::Failed => RefundStatus::Failure,
        FiservPaymentStatus::Voided | FiservPaymentStatus::Processing => RefundStatus::Pending,
    }
}

/// Every state of Fiserv stands for a state of the machine that all
/// connectors share, and for a state of the shared refund machine: the two
/// mappings have no gap.
pub proof fn lemma_fiserv_status_mapping_total(item: FiservPaymentStatus)
    ensures
        fiserv_attempt_status(item).is_shared_state(),
        fiserv_refund_status(item).is_shared_state(),
{
}

impl FiservPaymentStatus {
    /// The state of the attempt that this state stands for.
    pub fn into_attempt_status(self) -> (r: AttemptStatus)
        ensures
            r == fiserv_attempt_status(self),
    {
        match self {
            FiservPaymentStatus::Captured | FiservPaymentStatus::Succeeded => AttemptStatus::Charged,
            FiservPaymentStatus::Declined | FiservPaymentStatus::Failed => AttemptStatus::Failure,
            FiservPaymentStatus::Processing => AttemptStatus::Authorizing,
            FiservPaymentStatus::Voided => AttemptStatus::Voided,
            FiservPaymentStatus::Authorized => AttemptStatus::Authorized,
        }
    }

    /// The state of the refund that this state stands for.
    pub fn into_refund_status(self) -> (r: RefundStatus)
        ensures
            r == fiserv_refund_status(self),
    {
        match self {
            FiservPaymentStatus::Succeeded
            | FiservPaymentStatus::Authorized
            | FiservPaymentStatus::Captured => RefundStatus::Success,
            FiservPaymentStatus::Declined | FiservPaymentStatus::Failed => RefundStatus::Failure,
            FiservPaymentStatus::Voided | FiservPaymentStatus::Processing => RefundStatus::Pending,
        }
    }
}

impl From<FiservPaymentStatus> for AttemptStatus {
    /// The state of the attempt that a state of Fiserv stands for.
    fn from(item: FiservPaymentStatus) -> (r: Self) {
        item.into_attempt_status()
    }
}

impl vstd::std_specs::convert::FromSpecImpl<FiservPaymentStatus> for AttemptStatus {
    open spec fn obeys_from_spec() -> bool {
        true
    }

    open spec fn from_spec(item: FiservPaymentStatus) -> Self {
        fiserv_attempt_status(item)
    }
}

impl From<FiservPaymentStatus> for RefundStatus {
    /// The state of the refund that a state of Fiserv stands for.
    fn from(item: FiservPaymentStatus) -> (r: Self) {
        item.into_refund_status()
    }
}

impl vstd::std_specs::convert::FromSpecImpl<FiservPaymentStatus> for RefundStatus {
    open spec fn obeys_from_spec() -> bool {
        true
    }

    open spec fn from_spec(item: FiservPaymentStatus) -> Self {
        fiserv_refund_status(item)
    }
}

/// One more thing that the processor said.
#[derive(Clone, Debug, PartialEq, Eq)]
pub struct AdditionalInfo {
    pub name: Option<String>,
    pub value: Option<String>,
}

/// What the card association said of the address and the security code.
#[derive(Clone, Debug, PartialEq, Eq)]
pub struct Association {
    pub avs_code: Option<String>,
    pub security_code_response: Option<String>,
}

/// How the address and the security code matched.
#[derive(Clone, Debug, PartialEq, Eq)]
pub struct AvsSecurityCodeResponse {
    pub street_match: Option<String>,
    pub postal_code_match: Option<String>,
    pub security_code_match: Option<String>,
    pub association: Option<Association>,
}

/// What the bank association answered.
#[derive(Clone, Debug, PartialEq, Eq)]
pub struct BankAssociationDetails {
    pub association_response_code: Option<String>,
    pub avs_security_code_response: Option<AvsSecurityCodeResponse>,
}

/// Flags of the processor's answer.
#[derive(Clone, Copy, Debug, PartialEq, Eq, Structural)]
pub struct ResponseIndicators {
    pub alternate_route_debit_indicator: Option<bool>,
    pub signature_line_indicator: Option<bool>,
    pub signature_debit_route_indicator: Option<bool>,
}

/// What the processor answered.
#[derive(Clone, Debug, PartialEq, Eq)]
pub struct ProcessorResponseDetails {
    pub approval_status: Option<String>,
    pub approval_code: Option<String>,
    pub reference_number: Option<String>,
    pub processor: Option<String>,
    pub host: Option<String>,
    pub network_routed: Option<String>,
    pub network_international_id: Option<String>,
    pub response_code: Option<String>,
    pub response_message: Option<String>,
    pub host_response_code: Option<String>,
    pub host_response_message: Option<String>,
    pub additional_info: Option<Vec<AdditionalInfo>>,
    pub bank_association_details: Option<BankAssociationDetails>,
    pub response_indicators: Option<ResponseIndicators>,
}

/// The amount that was approved.
#[derive(Clone, Copy, Debug, PartialEq, Eq, Structural)]
pub struct ApprovedAmount {
    pub total: DecimalMajorUnit,
    pub currency: Currency,
}

/// The receipt of a transaction.
#[derive(Clone, Debug, PartialEq, Eq)]
pub struct PaymentReceipt {
    pub approved_amount: ApprovedAmount,
    pub processor_response_details: Option<ProcessorResponseDetails>,
}

/// The identifiers of a transaction.
#[derive(Clone, Debug, PartialEq, Eq)]
pub struct TransactionProcessingDetails {
    pub order_id: String,
    pub transaction_id: String,
}

/// What the gateway says of a transaction.
#[derive(Clone, Debug, PartialEq, Eq)]
pub struct GatewayResponse {
    pub gateway_transaction_id: Option<String>,
    pub transaction_state: FiservPaymentStatus,
    pub transaction_processing_details: TransactionProcessingDetails,
}

/// Fiserv's answer to a payment request.
#[derive(Clone, Debug, PartialEq, Eq)]
pub struct FiservPaymentsResponse {
    pub gateway_response: GatewayResponse,
    pub payment_receipt: PaymentReceipt,
}

/// Fiserv's answer to a request for the state of a transaction.
#[derive(Clone, Debug, PartialEq, Eq)]
pub struct FiservSyncResponse {
    pub sync_responses: Vec<FiservPaymentsResponse>,
}

/// Fiserv's answer to a refund request.
#[derive(Clone, Debug, PartialEq, Eq)]
pub struct RefundResponse {
    pub gateway_response: GatewayResponse,
    pub payment_receipt: PaymentReceipt,
}

/// The response that tells what the gateway says of a payment.
pub open spec fn transaction_response_of(gateway: GatewayResponse) -> PaymentsResponseData {
    PaymentsResponseData::TransactionResponse {
        resource_id: ResponseId::ConnectorTransactionId(
            gateway.transaction_processing_details.transaction_id,
        ),
        redirection_data: None,
        mandate_reference: None,
        connector_metadata: None,
        network_txn_id: None,
        connector_response_reference_id: Some(gateway.transaction_processing_details.order_id),
        incremental_authorization_allowed: None,
    }
}

/// Translates Fiserv's answer to a payment request: the state of the attempt
/// is what the state of the transaction stands for, and the response names
/// the transaction and the order.
pub fn parse_payments_response<Req>(
    item: ResponseRouterData<FiservPaymentsResponse, Req, PaymentsResponseData>,
) -> (r: Result<RouterData<Req, PaymentsResponseData>, ConnectorError>)
    ensures
        r matches Ok(data) && {
            &&& data.carries_rest_of(item.data)
            &&& data.status == fiserv_attempt_status(
                item.response.gateway_response.transaction_state,
            )
            &&& data.response == Ok::<PaymentsResponseData, RouterErrorResponse>(
                transaction_response_of(item.response.gateway_response),
            )
        },
{
    let ResponseRouterData { response, data, http_code: _ } = item;
    let gateway_resp = response.gateway_response;
    Ok(
        data.with_response(
            gateway_resp.transaction_state.into_attempt_status(),
            Ok(
                PaymentsResponseData::TransactionResponse {
                    resource_id: ResponseId::ConnectorTransactionId(
                        gateway_resp.transaction_processing_details.transaction_id,
                    ),
                    redirection_data: None,
                    mandate_reference: None,
                    connector_metadata: None,
                    network_txn_id: None,
                    connector_response_reference_id: Some(
                        gateway_resp.transaction_processing_details.order_id,
                    ),
                    incremental_authorization_allowed: None,
                },
            ),
        ),
    )
}

impl<Req> TryFrom<ResponseRouterData<FiservPaymentsResponse, Req, PaymentsResponseData>> for RouterData<Req, PaymentsResponseData> {
    type Error = ConnectorError;

    /// Translates Fiserv's answer to a payment request, as
    /// `parse_payments_response` does.
    fn try_from(item: ResponseRouterData<FiservPaymentsResponse, Req, PaymentsResponseData>) -> (r: Result<Self, Self::Error>)
        ensures
            r matches Ok(data) && {
                &&& data.carries_rest_of(item.data)
                &&& data.status == fiserv_attempt_status(
                    item.response.gateway_response.transaction_state,
                )
                &&& data.response == Ok::<PaymentsResponseData, RouterErrorResponse>(
                    transaction_response_of(item.response.gateway_response),
                )
            },
    {
        parse_payments_response(item)
    }
}

/// What `try_from` returns is stated by its own clauses, over the texts that
/// the result holds, and not as one value.
impl<Req> vstd::std_specs::convert::TryFromSpecImpl<ResponseRouterData<FiservPaymentsResponse, Req, PaymentsResponseData>> for RouterData<Req, PaymentsResponseData> {
    open spec fn obeys_try_from_spec() -> bool {
        false
    }

    open spec fn try_from_spec(item: ResponseRouterData<FiservPaymentsResponse, Req, PaymentsResponseData>) -> Result<Self, Self::Error> {
        arbitrary()
    }
}

/// Translates Fiserv's answer to a request for the state of a payment: the
/// first transaction of the answer tells it; an answer without transactions
/// cannot be handled.
pub fn parse_sync_response<Req>(
    item: ResponseRouterData<FiservSyncResponse, Req, PaymentsResponseData>,
) -> (r: Result<RouterData<Req, PaymentsResponseData>, ConnectorError>)
    ensures
        item.response.sync_responses@.len() == 0 ==> (r matches Err(e) && e@
            == ConnectorErrorView::ResponseHandlingFailed),
        item.response.sync_responses@.len() > 0 ==> (r matches Ok(data) && {
            &&& data.carries_rest_of(item.data)
            &&& data.status == fiserv_attempt_status(
                item.response.sync_responses@[0].gateway_response.transaction_state,
            )
            &&& data.response == Ok::<PaymentsResponseData, RouterErrorResponse>(
                transaction_response_of(item.response.sync_responses@[0].gateway_response),
            )
        }),
{
    let ResponseRouterData { response, data, http_code: _ } = item;
    if response.sync_responses.len() == 0 {
        return Err(ConnectorError::ResponseHandlingFailed);
    }
    let gateway_resp = &response.sync_responses[0].gateway_response;
    Ok(
        data.with_response(
            gateway_resp.transaction_state.into_attempt_status(),
            Ok(
                PaymentsResponseData::TransactionResponse {
                    resource_id: ResponseId::ConnectorTransactionId(
                        gateway_resp.transaction_processing_details.transaction_id.clone(),
                    ),
                    redirection_data: None,
                    mandate_reference: None,
                    connector_metadata: None,
                    network_txn_id: None,
                    connector_response_reference_id: Some(
                        gateway_resp.transaction_processing_details.order_id.clone(),
                    ),
                    incremental_authorization_allowed: None,
                },
            ),
        ),
    )
}

impl<Req> TryFrom<ResponseRouterData<FiservSyncResponse, Req, PaymentsResponseData>> for RouterData<Req, PaymentsResponseData> {
    type Error = ConnectorError;

    /// Translates Fiserv's answer to a request for the state of a payment, as
    /// `parse_sync_response` does.
    fn try_from(item: ResponseRouterData<FiservSyncResponse, Req, PaymentsResponseData>) -> (r: Result<Self, Self::Error>)
        ensures
            item.response.sync_responses@.len() == 0 ==> (r matches Err(e) && e@
                == ConnectorErrorView::ResponseHandlingFailed),
            item.response.sync_responses@.len() > 0 ==> (r matches Ok(data) && {
                &&& data.carries_rest_of(item.data)
                &&& data.status == fiserv_attempt_status(
                    item.response.sync_responses@[0].gateway_response.transaction_state,
                )
                &&& data.response == Ok::<PaymentsResponseData, RouterErrorResponse>(
                    transaction_response_of(item.response.sync_responses@[0].gateway_response),
                )
            }),
    {
        parse_sync_response(item)
    }
}

/// What `try_from` returns is stated by its own clauses, over the texts that
/// the result holds, and not as one value.
impl<Req> vstd::std_specs::convert::TryFromSpecImpl<ResponseRouterData<FiservSyncResponse, Req, PaymentsResponseData>> for RouterData<Req, PaymentsResponseData> {
    open spec fn obeys_try_from_spec() -> bool {
        false
    }

    open spec fn try_from_spec(item: ResponseRouterData<FiservSyncResponse, Req, PaymentsResponseData>) -> Result<Self, Self::Error> {
        arbitrary()
    }
}

/// Translates Fiserv's answer to a refund request.
pub fn parse_refund_response(
    item: ResponseRouterData<RefundResponse, RefundsData, RefundsResponseData>,
) -> (r: Result<RefundsRouterData, ConnectorError>)
    ensures
        r matches Ok(data) && {
            &&& data.carries_rest_of(item.data)
            &&& data.status == item.data.status
            &&& data.response == Ok::<RefundsResponseData, RouterErrorResponse>(
                RefundsResponseData {
                    connector_refund_id:
                        item.response.gateway_response.transaction_processing_details.transaction_id,
                    refund_status: fiserv_refund_status(
                        item.response.gateway_response.transaction_state,
                    ),
                },
            )
        },
{
    let ResponseRouterData { response, data, http_code: _ } = item;
    let status = data.status;
    Ok(
        data.with_response(
            status,
            Ok(
                RefundsResponseData {
                    connector_refund_id:
                        response.gateway_response.transaction_processing_details.transaction_id,
                    refund_status: response.gateway_response.transaction_state.into_refund_status(),
                },
            ),
        ),
    )
}

impl TryFrom<ResponseRouterData<RefundResponse, RefundsData, RefundsResponseData>> for RouterData<RefundsData, RefundsResponseData> {
    type Error = ConnectorError;

    /// Translates Fiserv's answer to a refund request, as `parse_refund_response` does.
    fn try_from(item: ResponseRouterData<RefundResponse, RefundsData, RefundsResponseData>) -> (r: Result<Self, Self::Error>)
        ensures
            r matches Ok(data) && {
                &&& data.carries_rest_of(item.data)
                &&& data.status == item.data.status
                &&& data.response == Ok::<RefundsResponseData, RouterErrorResponse>(
                    RefundsResponseData {
                        connector_refund_id:
                            item.response.gateway_response.transaction_processing_details.transaction_id,
                        refund_status: fiserv_refund_status(
                            item.response.gateway_response.transaction_state,
                        ),
                    },
                )
            },
    {
        parse_refund_response(item)
    }
}

/// What `try_from` returns is stated by its own clauses, over the texts that
/// the result holds, and not as one value.
impl vstd::std_specs::convert::TryFromSpecImpl<ResponseRouterData<RefundResponse, RefundsData, RefundsResponseData>> for RouterData<RefundsData, RefundsResponseData> {
    open spec fn obeys_try_from_spec() -> bool {
        false
    }

    open spec fn try_from_spec(item: ResponseRouterData<RefundResponse, RefundsData, RefundsResponseData>) -> Result<Self, Self::Error> {
        arbitrary()
    }
}

/// Translates Fiserv's answer to a request for the state of a refund: the
/// first transaction of the answer tells it; an answer without transactions
/// cannot be handled.
pub fn parse_refund_sync_response(
    item: ResponseRouterData<FiservSyncResponse, RefundsData, RefundsResponseData>,
) -> (r: Result<RefundsRouterData, ConnectorError>)
    ensures
        item.response.sync_responses@.len() == 0 ==> (r matches Err(e) && e@
            == ConnectorErrorView::ResponseHandlingFailed),
        item.response.sync_responses@.len() > 0 ==> (r matches Ok(data) && {
            &&& data.carries_rest_of(item.data)
            &&& data.status == item.data.status
            &&& data.response == Ok::<RefundsResponseData, RouterErrorResponse>(
                RefundsResponseData {
                    connector_refund_id:
                        item.response.sync_responses@[0].gateway_response.transaction_processing_details.transaction_id,
                    refund_status: fiserv_refund_status(
                        item.response.sync_responses@[0].gateway_response.transaction_state,
                    ),
                },
            )
        }),
{
    let ResponseRouterData { response, data, http_code: _ } = item;
    if response.sync_responses.len() == 0 {
        return Err(ConnectorError::ResponseHandlingFailed);
    }
    let gateway_resp = &response.sync_responses[0].gateway_response;
    let status = data.status;
    Ok(
        data.with_response(
            status,
            Ok(
                RefundsResponseData {
                    connector_refund_id:
                        gateway_resp.transaction_processing_details.transaction_id.clone(),
                    refund_status: gateway_resp.transaction_state.into_refund_status(),
                },
            ),
        ),
    )
}

impl TryFrom<ResponseRouterData<FiservSyncResponse, RefundsData, RefundsResponseData>> for RouterData<RefundsData, RefundsResponseData> {
    type Error = ConnectorError;

    /// Translates Fiserv's answer to a request for the state of a refund, as
    /// `parse_refund_sync_response` does.
    fn try_from(item: ResponseRouterData<FiservSyncResponse, RefundsData, RefundsResponseData>) -> (r: Result<Self, Self::Error>)
        ensures
            item.response.sync_responses@.len() == 0 ==> (r matches Err(e) && e@
                == ConnectorErrorView::ResponseHandlingFailed),
            item.response.sync_responses@.len() > 0 ==> (r matches Ok(data) && {
                &&& data.carries_rest_of(item.data)
                &&& data.status == item.data.status
                &&& data.response == Ok::<RefundsResponseData, RouterErrorResponse>(
                    RefundsResponseData {
                        connector_refund_id:
                            item.response.sync_responses@[0].gateway_response.transaction_processing_details.transaction_id,
                        refund_status: fiserv_refund_status(
                            item.response.sync_responses@[0].gateway_response.transaction_state,
                        ),
                    },
                )
            }),
    {
        parse_refund_sync_response(item)
    }
}

/// What `try_from` returns is stated by its own clauses, over the texts that
/// the result holds, and not as one value.
impl vstd::std_specs::convert::TryFromSpecImpl<ResponseRouterData<FiservSyncResponse, RefundsData, RefundsResponseData>> for RouterData<RefundsData, RefundsResponseData> {
    open spec fn obeys_try_from_spec() -> bool {
        false
    }

    open spec fn try_from_spec(item: ResponseRouterData<FiservSyncResponse, RefundsData, RefundsResponseData>) -> Result<Self, Self::Error> {
        arbitrary()
    }
}

} // verus!
