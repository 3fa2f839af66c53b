use hyperswitch_connectors::enums::{
    AttemptStatus, BankNames, Currency, FutureUsage, PaymentMethod,
    RefundStatus as SharedRefundStatus,
};
use hyperswitch_connectors::errors::ConnectorError;
use hyperswitch_connectors::nexinets::{
    get_card_details, get_order_id, get_status, get_transaction_id, get_wallet_details,
    metadata_json, parse_payment_response, parse_preauth_or_debit_response,
    parse_refund_response as nexinets_parse_refund_response, CardDataDetails, CofContract,
    NexinetsAuthType, NexinetsBIC, NexinetsCaptureOrVoidRequest, NexinetsChannel, NexinetsOrder,
    NexinetsPaymentDetails, NexinetsPaymentResponse, NexinetsPaymentStatus,
    NexinetsPaymentsMetadata, NexinetsPaymentsRequest, NexinetsPreAuthOrDebitResponse,
    NexinetsProduct, NexinetsRefundRequest, NexinetsRefundResponse, NexinetsTransaction,
    NexinetsTransactionType, NexinetsWalletDetails, PaymentInstrument, RecurringType,
    RefundStatus, RefundType,
};
use hyperswitch_connectors::payment_method_data::{
    ApplePayWalletData, ApplepayPaymentMethod, BankRedirectData, Card, CardNumber,
    PaymentMethodData, WalletData,
};
use hyperswitch_connectors::redirect::RedirectForm;
use hyperswitch_connectors::router_data::{
    ConnectorAuthType, ConnectorMandateReferenceId, CustomerAcceptance, ErrorResponse, MandateIds,
    MandateReferenceId, PaymentsAuthorizeData, PaymentsAuthorizeRouterData, PaymentsCancelData,
    PaymentsCaptureData, PaymentsResponseData, RefundsData, RefundsResponseData, ResponseId,
    ResponseRouterData, RouterData,
};
use hyperswitch_connectors::secret::Secret;

fn nexi_secret(text: &str) -> Secret {
    Secret::new(text.to_string())
}

fn nexi_card(year: &str) -> Card {
    Card {
        card_number: CardNumber::new("4111111111111111".to_string()),
        card_exp_month: nexi_secret("12"),
        card_exp_year: nexi_secret(year),
        card_cvc: nexi_secret("999"),
    }
}

fn nexi_request(method: PaymentMethodData) -> PaymentsAuthorizeData {
    PaymentsAuthorizeData {
        payment_method_data: method,
        amount: 1000,
        currency: Currency::EUR,
        capture_method: None,
        router_return_url: Some("https://merchant.example/return".to_string()),
        complete_authorize_url: None,
        webhook_url: None,
        setup_mandate_details: None,
        mandate_id: None,
        off_session: None,
        setup_future_usage: None,
        customer_acceptance: None,
        order_category: None,
        metadata: None,
        ip_address: None,
    }
}

fn nexi_context<Request, Response>(
    payment_method: PaymentMethod,
    request: Request,
) -> RouterData<Request, Response> {
    RouterData {
        status: AttemptStatus::Started,
        payment_method,
        connector_auth_type: ConnectorAuthType::NoKey,
        description: None,
        billing: None,
        customer_id: None,
        connector_meta_data: None,
        connector_request_reference_id: "ref_1".to_string(),
        reference_id: None,
        request,
        response: Err(ErrorResponse::default()),
    }
}

fn nexi_authorize(
    payment_method: PaymentMethod,
    method: PaymentMethodData,
) -> PaymentsAuthorizeRouterData {
    nexi_context(payment_method, nexi_request(method))
}

fn nexi_error<T>(result: Result<T, ConnectorError>) -> ConnectorError {
    match result {
        Ok(_) => panic!("the request was built"),
        Err(error) => error,
    }
}

fn nexi_built<T>(result: Result<T, ConnectorError>) -> T {
    match result {
        Ok(value) => value,
        Err(error) => panic!("refused: {:?}", error),
    }
}

fn apple_pay(payment_data: &str) -> ApplePayWalletData {
    ApplePayWalletData {
        payment_data: payment_data.to_string(),
        payment_method: ApplepayPaymentMethod {
            display_name: "Visa 1111".to_string(),
            network: "Visa".to_string(),
            pm_type: "debit".to_string(),
        },
        transaction_identifier: "txn".to_string(),
    }
}

const APPLE_TOKEN: &str = "eyJ2ZXJzaW9uIjoiRUNfdjEiLCJkYXRhIjoiZCIsInNpZ25hdHVyZSI6InMiLCJoZWFkZXIiOnsiZXBoZW1lcmFsUHVibGljS2V5IjoiZSIsInB1YmxpY0tleUhhc2giOiJoIiwidHJhbnNhY3Rpb25JZCI6InQifX0=";

fn preauth_or_debit(
    kind: NexinetsTransactionType,
    status: NexinetsPaymentStatus,
    redirect_url: Option<&str>,
) -> NexinetsPreAuthOrDebitResponse {
    NexinetsPreAuthOrDebitResponse {
        order_id: "order_1".to_string(),
        transaction_type: kind,
        transactions: vec![NexinetsTransaction {
            transaction_id: "tx_1".to_string(),
            transaction_type: kind,
            currency: Currency::EUR,
            status,
        }],
        payment_instrument: PaymentInstrument { payment_instrument_id: None },
        redirect_url: redirect_url.map(|u| u.to_string()),
    }
}

fn nexi_answered<R>(response: R) -> ResponseRouterData<R, PaymentsAuthorizeData, PaymentsResponseData> {
    ResponseRouterData {
        response,
        data: nexi_authorize(PaymentMethod::Card, PaymentMethodData::Card(nexi_card("2030"))),
        http_code: 200,
    }
}

#[test]
fn nexinets_auth_is_a_basic_header() {
    let auth = ConnectorAuthType::BodyKey {
        api_key: nexi_secret("secret"),
        key1: nexi_secret("merchant"),
    };
    let built = nexi_built(NexinetsAuthType::try_from(&auth));
    assert_eq!(built.api_key.peek(), "Basic bWVyY2hhbnQ6c2VjcmV0");
}

#[test]
fn nexinets_auth_refuses_other_shapes() {
    let auth = ConnectorAuthType::HeaderKey { api_key: nexi_secret("k") };
    assert_eq!(
        nexi_error(NexinetsAuthType::try_from(&auth)),
        ConnectorError::FailedToObtainAuthType
    );
}

#[test]
fn nexinets_status_depends_on_the_kind_of_transaction() {
    assert_eq!(get_status(NexinetsPaymentStatus::Success, NexinetsTransactionType::Preauth), AttemptStatus::Authorized);
    assert_eq!(get_status(NexinetsPaymentStatus::Success, NexinetsTransactionType::Debit), AttemptStatus::Charged);
    assert_eq!(get_status(NexinetsPaymentStatus::Success, NexinetsTransactionType::Capture), AttemptStatus::Charged);
    assert_eq!(get_status(NexinetsPaymentStatus::Success, NexinetsTransactionType::Cancel), AttemptStatus::Voided);
    for failed in [NexinetsPaymentStatus::Declined, NexinetsPaymentStatus::Failure, NexinetsPaymentStatus::Expired, NexinetsPaymentStatus::Aborted] {
        assert_eq!(get_status(failed, NexinetsTransactionType::Preauth), AttemptStatus::AuthorizationFailed);
        assert_eq!(get_status(failed, NexinetsTransactionType::Debit), AttemptStatus::CaptureFailed);
        assert_eq!(get_status(failed, NexinetsTransactionType::Capture), AttemptStatus::CaptureFailed);
        assert_eq!(get_status(failed, NexinetsTransactionType::Cancel), AttemptStatus::VoidFailed);
    }
    assert_eq!(get_status(NexinetsPaymentStatus::Okay, NexinetsTransactionType::Preauth), AttemptStatus::Authorized);
    assert_eq!(get_status(NexinetsPaymentStatus::Okay, NexinetsTransactionType::Debit), AttemptStatus::Pending);
    assert_eq!(get_status(NexinetsPaymentStatus::Okay, NexinetsTransactionType::Capture), AttemptStatus::Pending);
    assert_eq!(get_status(NexinetsPaymentStatus::Okay, NexinetsTransactionType::Cancel), AttemptStatus::Pending);
    for kind in [NexinetsTransactionType::Preauth, NexinetsTransactionType::Debit, NexinetsTransactionType::Capture, NexinetsTransactionType::Cancel] {
        assert_eq!(get_status(NexinetsPaymentStatus::Pending, kind), AttemptStatus::AuthenticationPending);
        assert_eq!(get_status(NexinetsPaymentStatus::InProgress, kind), AttemptStatus::Pending);
    }
}

#[test]
fn nexinets_refund_status_mapping_is_total() {
    assert_eq!(RefundStatus::Success.into_refund_status(), SharedRefundStatus::Success);
    assert_eq!(RefundStatus::Failure.into_refund_status(), SharedRefundStatus::Failure);
    assert_eq!(RefundStatus::Declined.into_refund_status(), SharedRefundStatus::Failure);
    assert_eq!(RefundStatus::InProgress.into_refund_status(), SharedRefundStatus::Pending);
    assert_eq!(RefundStatus::Okay.into_refund_status(), SharedRefundStatus::Pending);
}

#[test]
fn nexinets_bank_codes() {
    assert_eq!(nexi_built(NexinetsBIC::try_from(&BankNames::Ing)), NexinetsBIC::Ing);
    assert_eq!(nexi_built(NexinetsBIC::try_from(&BankNames::AbnAmro)), NexinetsBIC::AbnAmro);
    assert_eq!(
        nexi_built(NexinetsBIC::try_from(&BankNames::VanLanschot)),
        NexinetsBIC::VanLanschot
    );
    assert_eq!(
        nexi_error(NexinetsBIC::try_from(&BankNames::BankOfAmerica)),
        ConnectorError::FlowNotSupported {
            flow: "bank_of_america".to_string(),
            connector: "Nexinets".to_string()
        }
    );
}

#[test]
fn nexinets_card_request() {
    let data = nexi_authorize(PaymentMethod::Card, PaymentMethodData::Card(nexi_card("2030")));
    let request = nexi_built(NexinetsPaymentsRequest::try_from(&data));
    assert_eq!(request.initial_amount, 1000);
    assert_eq!(request.currency, Currency::EUR);
    assert_eq!(request.channel, NexinetsChannel::Ecom);
    assert_eq!(request.product, NexinetsProduct::Creditcard);
    assert_eq!(request.merchant_order_id.as_deref(), Some("ref_1"));
    assert_eq!(request.nexinets_async.success_url.as_deref(), Some("https://merchant.example/return"));
    assert_eq!(request.nexinets_async.cancel_url, request.nexinets_async.success_url);
    assert_eq!(request.nexinets_async.failure_url, request.nexinets_async.success_url);
    match request.payment {
        Some(NexinetsPaymentDetails::Card(details)) => {
            assert_eq!(details.cof_contract, None);
            match details.card_data {
                CardDataDetails::CardDetails(card) => {
                    assert_eq!(card.card_number.peek(), "4111111111111111");
                    assert_eq!(card.expiry_month.peek(), "12");
                    assert_eq!(card.expiry_year.peek(), "30");
                    assert_eq!(card.verification.peek(), "999");
                }
                _ => panic!("not a card"),
            }
        }
        _ => panic!("not a card"),
    }
}

#[test]
fn nexinets_card_with_a_short_year_cannot_be_encoded() {
    assert_eq!(
        nexi_error(get_card_details(&nexi_card("3"))),
        ConnectorError::RequestEncodingFailed
    );
    let data = nexi_authorize(PaymentMethod::Card, PaymentMethodData::Card(nexi_card("")));
    assert_eq!(
        nexi_error(NexinetsPaymentsRequest::try_from(&data)),
        ConnectorError::RequestEncodingFailed
    );
}

#[test]
fn nexinets_mandate_setup_keeps_the_card_on_file() {
    let mut data = nexi_authorize(PaymentMethod::Card, PaymentMethodData::Card(nexi_card("30")));
    data.request.customer_acceptance = Some(CustomerAcceptance { online: true });
    data.request.setup_future_usage = Some(FutureUsage::OffSession);
    match nexi_built(NexinetsPaymentsRequest::try_from(&data)).payment {
        Some(NexinetsPaymentDetails::Card(details)) => {
            assert_eq!(
                details.cof_contract,
                Some(CofContract { recurring_type: RecurringType::Unscheduled })
            );
            assert!(matches!(details.card_data, CardDataDetails::CardDetails(_)));
        }
        _ => panic!("not a card"),
    }
}

#[test]
fn nexinets_mandate_use_names_the_instrument() {
    let mut data = nexi_authorize(PaymentMethod::Card, PaymentMethodData::Card(nexi_card("")));
    data.request.off_session = Some(true);
    data.request.mandate_id = Some(MandateIds {
        mandate_id: None,
        mandate_reference_id: Some(MandateReferenceId::ConnectorMandateId(
            ConnectorMandateReferenceId {
                connector_mandate_id: Some("inst_1".to_string()),
                payment_method_id: None,
                connector_mandate_request_reference_id: None,
            },
        )),
    });
    match nexi_built(NexinetsPaymentsRequest::try_from(&data)).payment {
        Some(NexinetsPaymentDetails::Card(details)) => {
            assert!(details.cof_contract.is_some());
            match details.card_data {
                CardDataDetails::PaymentInstrument(instrument) => assert_eq!(
                    instrument.payment_instrument_id.as_ref().map(|i| i.peek().as_str()),
                    Some("inst_1")
                ),
                _ => panic!("not an instrument"),
            }
        }
        _ => panic!("not a card"),
    }
}

#[test]
fn nexinets_products_of_redirects() {
    for (method, product) in [
        (PaymentMethodData::Wallet(WalletData::PaypalRedirect), NexinetsProduct::Paypal),
        (PaymentMethodData::BankRedirect(BankRedirectData::Eps), NexinetsProduct::Eps),
        (PaymentMethodData::BankRedirect(BankRedirectData::Sofort), NexinetsProduct::Sofort),
        (
            PaymentMethodData::BankRedirect(BankRedirectData::Giropay {
                bank_account_bic: None,
                bank_account_iban: None,
            }),
            NexinetsProduct::Giropay,
        ),
    ] {
        let data = nexi_authorize(PaymentMethod::BankRedirect, method);
        let request = nexi_built(NexinetsPaymentsRequest::try_from(&data));
        assert_eq!(request.product, product);
        assert!(request.payment.is_none());
        assert_eq!(request.merchant_order_id, None);
    }
}

#[test]
fn nexinets_ideal_names_the_bank() {
    let data = nexi_authorize(
        PaymentMethod::BankRedirect,
        PaymentMethodData::BankRedirect(BankRedirectData::Ideal {
            bank_name: Some(BankNames::Rabobank),
        }),
    );
    let request = nexi_built(NexinetsPaymentsRequest::try_from(&data));
    assert_eq!(request.product, NexinetsProduct::Ideal);
    match request.payment {
        Some(NexinetsPaymentDetails::BankRedirects(redirect)) => {
            assert_eq!(redirect.bic, Some(NexinetsBIC::Rabobank))
        }
        _ => panic!("not a bank redirect"),
    }
    let data = nexi_authorize(
        PaymentMethod::BankRedirect,
        PaymentMethodData::BankRedirect(BankRedirectData::Ideal { bank_name: None }),
    );
    match nexi_built(NexinetsPaymentsRequest::try_from(&data)).payment {
        Some(NexinetsPaymentDetails::BankRedirects(redirect)) => assert_eq!(redirect.bic, None),
        _ => panic!("not a bank redirect"),
    }
    let data = nexi_authorize(
        PaymentMethod::BankRedirect,
        PaymentMethodData::BankRedirect(BankRedirectData::Ideal {
            bank_name: Some(BankNames::Citi),
        }),
    );
    assert_eq!(
        nexi_error(NexinetsPaymentsRequest::try_from(&data)),
        ConnectorError::FlowNotSupported {
            flow: "citi".to_string(),
            connector: "Nexinets".to_string()
        }
    );
}

#[test]
fn nexinets_unsupported_payment_methods_are_not_implemented() {
    for method in [
        PaymentMethodData::Wallet(WalletData::AliPayRedirect),
        PaymentMethodData::BankRedirect(BankRedirectData::Trustly),
        PaymentMethodData::Crypto,
        PaymentMethodData::MandatePayment,
    ] {
        let data = nexi_authorize(PaymentMethod::Wallet, method);
        assert_eq!(
            nexi_error(NexinetsPaymentsRequest::try_from(&data)),
            ConnectorError::NotImplemented("Selected payment method through nexinets".to_string())
        );
    }
}

#[test]
fn nexinets_apple_pay_sends_the_token_as_json() {
    let wallet = WalletData::ApplePay(apple_pay(APPLE_TOKEN));
    let (payment, product) = nexi_built(get_wallet_details(&wallet));
    assert_eq!(product, NexinetsProduct::Applepay);
    match payment {
        Some(NexinetsPaymentDetails::Wallet(details)) => match *details {
            NexinetsWalletDetails::ApplePayToken(token) => {
                assert_eq!(
                    token.payment_data,
                    r#"{"data":"d","header":{"ephemeralPublicKey":"e","publicKeyHash":"h","transactionId":"t"},"signature":"s","version":"EC_v1"}"#
                );
                assert_eq!(token.payment_method.display_name, "Visa 1111");
                assert_eq!(token.payment_method.network, "Visa");
                assert_eq!(token.payment_method.token_type, "debit");
                assert_eq!(token.transaction_identifier, "txn");
            }
        },
        _ => panic!("not a wallet"),
    }
}

#[test]
fn nexinets_apple_pay_token_must_be_base64_of_json() {
    for payment_data in ["%%%", "bm90IGpzb24="] {
        let wallet = WalletData::ApplePay(apple_pay(payment_data));
        assert_eq!(
            nexi_error(get_wallet_details(&wallet)),
            ConnectorError::InvalidWalletToken { wallet_name: "Apple Pay".to_string() }
        );
    }
}

#[test]
fn nexinets_debit_success_is_charged() {
    let response =
        preauth_or_debit(NexinetsTransactionType::Debit, NexinetsPaymentStatus::Success, None);
    let data = nexi_built(parse_preauth_or_debit_response(nexi_answered(response)));
    assert_eq!(data.status, AttemptStatus::Charged);
    match data.response {
        Ok(PaymentsResponseData::TransactionResponse {
            resource_id,
            redirection_data,
            mandate_reference,
            connector_metadata,
            connector_response_reference_id,
            ..
        }) => {
            assert_eq!(resource_id, ResponseId::ConnectorTransactionId("tx_1".to_string()));
            assert_eq!(redirection_data, None);
            assert_eq!(mandate_reference, None);
            assert_eq!(connector_response_reference_id.as_deref(), Some("order_1"));
            assert_eq!(
                connector_metadata.as_deref(),
                Some(r#"{"order_id":"order_1","psync_flow":"DEBIT","transaction_id":"tx_1"}"#)
            );
        }
        _ => panic!("not a transaction response"),
    }
}

#[test]
fn nexinets_preauth_has_no_transaction_id_yet() {
    let mut response =
        preauth_or_debit(NexinetsTransactionType::Preauth, NexinetsPaymentStatus::Success, None);
    response.payment_instrument.payment_instrument_id = Some(nexi_secret("inst_9"));
    let data = nexi_built(parse_preauth_or_debit_response(nexi_answered(response)));
    assert_eq!(data.status, AttemptStatus::Authorized);
    match data.response {
        Ok(PaymentsResponseData::TransactionResponse { resource_id, mandate_reference, .. }) => {
            assert_eq!(resource_id, ResponseId::NoResponseId);
            assert_eq!(
                mandate_reference.and_then(|m| m.connector_mandate_id).as_deref(),
                Some("inst_9")
            );
        }
        _ => panic!("not a transaction response"),
    }
}

#[test]
fn nexinets_redirect_is_followed_with_a_get_request() {
    let response = preauth_or_debit(
        NexinetsTransactionType::Debit,
        NexinetsPaymentStatus::Pending,
        Some("HTTPS://Pay.example/start?session=abc&lang=de"),
    );
    let data = nexi_built(parse_preauth_or_debit_response(nexi_answered(response)));
    assert_eq!(data.status, AttemptStatus::AuthenticationPending);
    match data.response {
        Ok(PaymentsResponseData::TransactionResponse { redirection_data, .. }) => assert_eq!(
            redirection_data,
            Some(RedirectForm::Redirect {
                endpoint: "https://pay.example/start?session=abc&lang=de".to_string()
            })
        ),
        _ => panic!("not a transaction response"),
    }
}

#[test]
fn nexinets_redirect_takes_priority_over_a_success() {
    let response = preauth_or_debit(
        NexinetsTransactionType::Debit,
        NexinetsPaymentStatus::Success,
        Some("https://pay.example/start"),
    );
    let data = nexi_built(parse_preauth_or_debit_response(nexi_answered(response)));
    assert_eq!(data.status, AttemptStatus::AuthenticationPending);
    let response = preauth_or_debit(
        NexinetsTransactionType::Debit,
        NexinetsPaymentStatus::Declined,
        Some("https://pay.example/start"),
    );
    let data = nexi_built(parse_preauth_or_debit_response(nexi_answered(response)));
    assert_eq!(data.status, AttemptStatus::CaptureFailed);
}

#[test]
fn nexinets_answers_that_cannot_be_handled() {
    let mut empty =
        preauth_or_debit(NexinetsTransactionType::Debit, NexinetsPaymentStatus::Success, None);
    empty.transactions.clear();
    assert_eq!(
        nexi_error(parse_preauth_or_debit_response(nexi_answered(empty))),
        ConnectorError::ResponseHandlingFailed
    );
    for kind in [NexinetsTransactionType::Capture, NexinetsTransactionType::Cancel] {
        let response = preauth_or_debit(kind, NexinetsPaymentStatus::Success, None);
        assert_eq!(
            nexi_error(parse_preauth_or_debit_response(nexi_answered(response))),
            ConnectorError::ResponseHandlingFailed
        );
    }
    let response = preauth_or_debit(
        NexinetsTransactionType::Debit,
        NexinetsPaymentStatus::Success,
        Some("no url"),
    );
    assert_eq!(
        nexi_error(parse_preauth_or_debit_response(nexi_answered(response))),
        ConnectorError::ResponseHandlingFailed
    );
}

#[test]
fn nexinets_payment_response() {
    for (kind, expected_status, has_id) in [
        (NexinetsTransactionType::Capture, AttemptStatus::Charged, true),
        (NexinetsTransactionType::Debit, AttemptStatus::Charged, true),
        (NexinetsTransactionType::Cancel, AttemptStatus::Voided, false),
        (NexinetsTransactionType::Preauth, AttemptStatus::Authorized, false),
    ] {
        let response = NexinetsPaymentResponse {
            transaction_id: "tx_2".to_string(),
            status: NexinetsPaymentStatus::Success,
            order: NexinetsOrder { order_id: "order_2".to_string() },
            transaction_type: kind,
        };
        let data = nexi_built(parse_payment_response(nexi_answered(response)));
        assert_eq!(data.status, expected_status);
        match data.response {
            Ok(PaymentsResponseData::TransactionResponse {
                resource_id,
                connector_response_reference_id,
                connector_metadata,
                ..
            }) => {
                if has_id {
                    assert_eq!(resource_id, ResponseId::ConnectorTransactionId("tx_2".to_string()));
                } else {
                    assert_eq!(resource_id, ResponseId::NoResponseId);
                }
                assert_eq!(connector_response_reference_id.as_deref(), Some("order_2"));
                assert!(connector_metadata.is_some());
            }
            _ => panic!("not a transaction response"),
        }
    }
}

#[test]
fn nexinets_metadata_text() {
    assert_eq!(
        metadata_json(&"t".to_string(), &"o".to_string(), NexinetsTransactionType::Preauth),
        r#"{"order_id":"o","psync_flow":"PREAUTH","transaction_id":"t"}"#
    );
    assert_eq!(NexinetsTransactionType::Capture.name(), "CAPTURE");
    assert_eq!(NexinetsTransactionType::Cancel.name(), "CANCEL");
}

#[test]
fn nexinets_capture_void_and_refund_requests() {
    let capture = nexi_context::<_, PaymentsResponseData>(
        PaymentMethod::Card,
        PaymentsCaptureData {
            amount_to_capture: 700,
            currency: Currency::EUR,
            connector_transaction_id: "tx".to_string(),
            multiple_capture_data: None,
        },
    );
    assert_eq!(
        nexi_built(NexinetsCaptureOrVoidRequest::try_from(&capture)),
        NexinetsCaptureOrVoidRequest { initial_amount: 700, currency: Currency::EUR }
    );
    let mut cancel = nexi_context::<_, PaymentsResponseData>(
        PaymentMethod::Card,
        PaymentsCancelData {
            amount: Some(900),
            currency: Some(Currency::USD),
            connector_transaction_id: "tx".to_string(),
            cancellation_reason: None,
        },
    );
    assert_eq!(
        nexi_built(NexinetsCaptureOrVoidRequest::try_from_cancel(&cancel)),
        NexinetsCaptureOrVoidRequest { initial_amount: 900, currency: Currency::USD }
    );
    cancel.request.currency = None;
    assert_eq!(
        nexi_error(NexinetsCaptureOrVoidRequest::try_from_cancel(&cancel)),
        ConnectorError::MissingRequiredField { field_name: "currency" }
    );
    cancel.request.amount = None;
    assert_eq!(
        nexi_error(NexinetsCaptureOrVoidRequest::try_from_cancel(&cancel)),
        ConnectorError::MissingRequiredField { field_name: "amount" }
    );
    let refund = nexi_context::<_, RefundsResponseData>(
        PaymentMethod::Card,
        RefundsData {
            refund_id: "r".to_string(),
            connector_transaction_id: "tx".to_string(),
            connector_refund_id: None,
            currency: Currency::GBP,
            refund_amount: 300,
        },
    );
    assert_eq!(
        nexi_built(NexinetsRefundRequest::try_from(&refund)),
        NexinetsRefundRequest { initial_amount: 300, currency: Currency::GBP }
    );
}

#[test]
fn nexinets_refund_response() {
    let refund = RefundsData {
        refund_id: "r".to_string(),
        connector_transaction_id: "tx".to_string(),
        connector_refund_id: None,
        currency: Currency::GBP,
        refund_amount: 300,
    };
    let item = ResponseRouterData {
        response: NexinetsRefundResponse {
            transaction_id: "rtx".to_string(),
            status: RefundStatus::Okay,
            order: NexinetsOrder { order_id: "o".to_string() },
            transaction_type: RefundType::Refund,
        },
        data: nexi_context::<_, RefundsResponseData>(PaymentMethod::Card, refund),
        http_code: 200,
    };
    assert_eq!(
        nexi_built(nexinets_parse_refund_response(item)).response,
        Ok(RefundsResponseData {
            connector_refund_id: "rtx".to_string(),
            refund_status: SharedRefundStatus::Pending
        })
    );
}

#[test]
fn nexinets_metadata_references() {
    let meta = NexinetsPaymentsMetadata {
        transaction_id: Some("t".to_string()),
        order_id: Some("o".to_string()),
        psync_flow: NexinetsTransactionType::Debit,
    };
    assert_eq!(get_order_id(&meta), Ok("o".to_string()));
    assert_eq!(get_transaction_id(&meta), Ok("t".to_string()));
    let meta = NexinetsPaymentsMetadata {
        transaction_id: None,
        order_id: None,
        psync_flow: NexinetsTransactionType::Debit,
    };
    assert_eq!(
        get_order_id(&meta),
        Err(ConnectorError::MissingConnectorRelatedTransactionID { id: "order_id".to_string() })
    );
    assert_eq!(
        get_transaction_id(&meta),
        Err(ConnectorError::MissingConnectorRelatedTransactionID {
            id: "transaction_id".to_string()
        })
    );
}

#[test]
fn nexinets_conversions_by_trait() {
    assert_eq!(SharedRefundStatus::from(RefundStatus::Success), SharedRefundStatus::Success);
    assert_eq!(SharedRefundStatus::from(RefundStatus::Declined), SharedRefundStatus::Failure);
    assert_eq!(SharedRefundStatus::from(RefundStatus::Okay), SharedRefundStatus::Pending);
    let response = preauth_or_debit(
        NexinetsTransactionType::Debit,
        NexinetsPaymentStatus::Success,
        Some("https://pay.example/start"),
    );
    let data = nexi_built(RouterData::try_from(nexi_answered(response)));
    assert_eq!(data.status, AttemptStatus::AuthenticationPending);
    let response =
        preauth_or_debit(NexinetsTransactionType::Debit, NexinetsPaymentStatus::Success, None);
    let data = nexi_built(RouterData::try_from(nexi_answered(response)));
    assert_eq!(data.status, AttemptStatus::Charged);
}
