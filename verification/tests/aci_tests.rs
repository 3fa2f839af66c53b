use hyperswitch_connectors::aci::{
    contains_code, get_instruction_details, get_transaction_details, map_aci_attempt_status,
    parse_capture_response, parse_payments_response, parse_refund_response, redirect_form,
    AciAuthType, AciCancelRequest, AciCaptureRequest, AciCaptureResponse, AciCaptureResult,
    AciCaptureResultDetails, AciPaymentStatus, AciPaymentType, AciPaymentsRequest,
    AciPaymentsResponse, AciRedirectionData, AciRefundRequest, AciRefundResponse, AciRefundStatus,
    AciResultCodes, AciRouterData, Instruction, InstructionMode, InstructionSource,
    InstructionType, Parameters, PaymentBrand, PaymentDetails, ResultCode,
};
use hyperswitch_connectors::amount::{MinorUnit, StringMajorUnit};
use hyperswitch_connectors::enums::{
    AttemptStatus, BankNames, CaptureMethod, CountryAlpha2, Currency, Method, PaymentMethod,
    RefundStatus,
};
use hyperswitch_connectors::errors::ConnectorError;
use hyperswitch_connectors::payment_method_data::{
    BankRedirectData, Card, CardNumber, PayLaterData, PaymentMethodData, WalletData,
};
use hyperswitch_connectors::redirect::RedirectForm;
use hyperswitch_connectors::router_data::{
    Address, AddressDetails, ConnectorAuthType, ErrorResponse, MandateData, MandateIds,
    PaymentsAuthorizeData, PaymentsAuthorizeRouterData, PaymentsCancelData, PaymentsCaptureData,
    PaymentsResponseData, PhoneDetails, RefundsData, RefundsResponseData, ResponseId,
    ResponseRouterData, RouterData,
};
use hyperswitch_connectors::secret::Secret;

fn secret(text: &str) -> Secret {
    Secret::new(text.to_string())
}

fn body_key() -> ConnectorAuthType {
    ConnectorAuthType::BodyKey { api_key: secret("key"), key1: secret("entity") }
}

fn card() -> Card {
    Card {
        card_number: CardNumber::new("4242424242424242".to_string()),
        card_exp_month: secret("10"),
        card_exp_year: secret("2030"),
        card_cvc: secret("123"),
    }
}

fn billing() -> Address {
    Address {
        address: Some(AddressDetails {
            city: Some("Berlin".to_string()),
            country: CountryAlpha2::parse("DE"),
            line1: Some(secret("Street 1")),
            line2: None,
            zip: Some(secret("10115")),
            state: None,
            first_name: Some(secret("John")),
            last_name: Some(secret("Doe")),
        }),
        phone: Some(PhoneDetails {
            number: Some(secret("912345678")),
            country_code: Some("+351".to_string()),
        }),
        email: Some("john@example.com".to_string()),
    }
}

fn authorize_request(method: PaymentMethodData) -> PaymentsAuthorizeData {
    PaymentsAuthorizeData {
        payment_method_data: method,
        amount: 1000,
        currency: Currency::USD,
        capture_method: None,
        router_return_url: Some("https://merchant.example/return".to_string()),
        complete_authorize_url: Some("https://merchant.example/complete".to_string()),
        webhook_url: Some("https://merchant.example/webhook".to_string()),
        setup_mandate_details: None,
        mandate_id: None,
        off_session: None,
        setup_future_usage: None,
        customer_acceptance: None,
        order_category: Some("pay".to_string()),
        metadata: None,
        ip_address: None,
    }
}

fn context<Request, Response>(
    auth: ConnectorAuthType,
    request: Request,
) -> RouterData<Request, Response> {
    RouterData {
        status: AttemptStatus::Started,
        payment_method: PaymentMethod::Card,
        connector_auth_type: auth,
        description: Some("An order".to_string()),
        billing: Some(billing()),
        customer_id: Some("cus_1".to_string()),
        connector_meta_data: None,
        connector_request_reference_id: "ref_1".to_string(),
        reference_id: None,
        request,
        response: Err(ErrorResponse::default()),
    }
}

fn authorize(auth: ConnectorAuthType, method: PaymentMethodData) -> PaymentsAuthorizeRouterData {
    context(auth, authorize_request(method))
}

fn amount() -> StringMajorUnit {
    StringMajorUnit::from_minor_unit(MinorUnit::new(1000), Currency::USD)
}

fn build(data: &PaymentsAuthorizeRouterData) -> Result<AciPaymentsRequest, ConnectorError> {
    AciPaymentsRequest::try_from(&AciRouterData::from((amount(), data)))
}

fn error_of<T>(result: Result<T, ConnectorError>) -> ConnectorError {
    match result {
        Ok(_) => panic!("the request was built"),
        Err(error) => error,
    }
}

fn built<T>(result: Result<T, ConnectorError>) -> T {
    match result {
        Ok(value) => value,
        Err(error) => panic!("refused: {:?}", error),
    }
}

fn codes() -> AciResultCodes {
    AciResultCodes {
        failure_codes: vec!["800.100.151".to_string(), "100.100.101".to_string()],
        pending_codes: vec!["000.200.000".to_string()],
        successful_codes: vec!["000.000.000".to_string(), "000.100.110".to_string()],
    }
}

fn result_code(code: &str) -> ResultCode {
    ResultCode { code: code.to_string(), description: "text".to_string(), parameter_errors: None }
}

fn payments_response(code: &str, redirect: Option<AciRedirectionData>) -> AciPaymentsResponse {
    AciPaymentsResponse {
        id: "tx_1".to_string(),
        registration_id: None,
        ndc: "ndc".to_string(),
        timestamp: "now".to_string(),
        build_number: "1".to_string(),
        result: result_code(code),
        redirect,
    }
}

fn answered<R>(
    response: R,
    capture_method: Option<CaptureMethod>,
) -> ResponseRouterData<R, PaymentsAuthorizeData, PaymentsResponseData> {
    let mut request = authorize_request(PaymentMethodData::Card(card()));
    request.capture_method = capture_method;
    ResponseRouterData { response, data: context(body_key(), request), http_code: 200 }
}

#[test]
fn aci_auth_takes_a_body_key() {
    let auth = built(AciAuthType::try_from(&body_key()));
    assert_eq!(auth.api_key.peek(), "key");
    assert_eq!(auth.entity_id.peek(), "entity");
}

#[test]
fn aci_auth_refuses_other_shapes() {
    let signature = ConnectorAuthType::SignatureKey {
        api_key: secret("a"),
        key1: secret("b"),
        api_secret: secret("c"),
    };
    assert_eq!(
        error_of(AciAuthType::try_from(&signature)),
        ConnectorError::FailedToObtainAuthType
    );
    let header = ConnectorAuthType::HeaderKey { api_key: secret("a") };
    assert_eq!(error_of(AciAuthType::try_from(&header)), ConnectorError::FailedToObtainAuthType);
    assert_eq!(
        error_of(AciAuthType::try_from(&ConnectorAuthType::NoKey)),
        ConnectorError::FailedToObtainAuthType
    );
}

#[test]
fn aci_card_request_debits_the_amount() {
    let data = authorize(body_key(), PaymentMethodData::Card(card()));
    let request = built(build(&data));
    assert_eq!(request.txn_details.entity_id.peek(), "entity");
    assert_eq!(request.txn_details.amount.as_str(), "10.00");
    assert_eq!(request.txn_details.currency, "USD");
    assert_eq!(request.txn_details.payment_type, AciPaymentType::Debit);
    assert!(request.instruction.is_none());
    assert!(request.shopper_result_url.is_none());
    match request.payment_method {
        PaymentDetails::AciCard(details) => {
            assert_eq!(details.card_number.peek(), "4242424242424242");
            assert_eq!(details.card_holder.peek(), "John Doe");
            assert_eq!(details.card_expiry_month.peek(), "10");
            assert_eq!(details.card_expiry_year.peek(), "2030");
            assert_eq!(details.card_cvv.peek(), "123");
        }
        _ => panic!("not a card"),
    }
}

#[test]
fn aci_card_without_holder_has_an_empty_name() {
    let mut data = authorize(body_key(), PaymentMethodData::Card(card()));
    data.billing = None;
    match built(build(&data)).payment_method {
        PaymentDetails::AciCard(details) => assert_eq!(details.card_holder.peek(), ""),
        _ => panic!("not a card"),
    }
}

#[test]
fn aci_mandate_setup_gives_an_initial_instruction() {
    let mut data = authorize(body_key(), PaymentMethodData::Card(card()));
    data.request.setup_mandate_details = Some(MandateData { update_mandate_id: None });
    let request = built(build(&data));
    assert_eq!(
        request.instruction,
        Some(Instruction {
            mode: InstructionMode::Initial,
            transaction_type: InstructionType::Unscheduled,
            source: InstructionSource::CardholderInitiatedTransaction,
            create_registration: Some(true),
        })
    );
}

#[test]
fn aci_mandate_use_gives_a_repeated_instruction() {
    let mut data = authorize(body_key(), PaymentMethodData::MandatePayment);
    data.request.mandate_id =
        Some(MandateIds { mandate_id: Some("m1".to_string()), mandate_reference_id: None });
    let request = built(build(&data));
    assert_eq!(
        request.instruction,
        Some(Instruction {
            mode: InstructionMode::Repeated,
            transaction_type: InstructionType::Unscheduled,
            source: InstructionSource::MerchantInitiatedTransaction,
            create_registration: None,
        })
    );
    assert!(request.payment_method == PaymentDetails::Mandate);
    assert_eq!(request.shopper_result_url.as_deref(), Some("https://merchant.example/return"));
}

#[test]
fn aci_mandate_setup_takes_precedence_over_mandate_use() {
    let mut data = authorize(body_key(), PaymentMethodData::Card(card()));
    data.request.setup_mandate_details = Some(MandateData { update_mandate_id: None });
    data.request.mandate_id =
        Some(MandateIds { mandate_id: Some("m1".to_string()), mandate_reference_id: None });
    let item = AciRouterData::from((amount(), &data));
    assert_eq!(get_instruction_details(&item).map(|i| i.mode), Some(InstructionMode::Initial));
}

#[test]
fn aci_mandate_payment_without_mandate_is_refused() {
    let data = authorize(body_key(), PaymentMethodData::MandatePayment);
    assert_eq!(
        error_of(build(&data)),
        ConnectorError::MissingRequiredField { field_name: "mandate_id" }
    );
}

#[test]
fn aci_unsupported_wallet_is_not_implemented() {
    let data = authorize(body_key(), PaymentMethodData::Wallet(WalletData::PaypalRedirect));
    assert_eq!(
        error_of(build(&data)),
        ConnectorError::NotImplemented("Payment method".to_string())
    );
}

#[test]
fn aci_unsupported_payment_method_is_not_implemented() {
    for method in [
        PaymentMethodData::Crypto,
        PaymentMethodData::BankDebit,
        PaymentMethodData::Upi,
        PaymentMethodData::Voucher,
        PaymentMethodData::GiftCard,
        PaymentMethodData::Reward,
    ] {
        let data = authorize(body_key(), method);
        assert_eq!(
            error_of(build(&data)),
            ConnectorError::NotImplemented("Selected payment method through Aci".to_string())
        );
    }
}

#[test]
fn aci_unsupported_bank_redirect_is_not_implemented() {
    let data = authorize(body_key(), PaymentMethodData::BankRedirect(BankRedirectData::Blik));
    assert_eq!(
        error_of(build(&data)),
        ConnectorError::NotImplemented("Payment method".to_string())
    );
}

#[test]
fn aci_credentials_are_read_before_the_payment_method() {
    let data = authorize(
        ConnectorAuthType::HeaderKey { api_key: secret("k") },
        PaymentMethodData::Wallet(WalletData::PaypalRedirect),
    );
    assert_eq!(error_of(build(&data)), ConnectorError::FailedToObtainAuthType);
}

#[test]
fn aci_mb_way_sends_the_phone_number() {
    let data = authorize(body_key(), PaymentMethodData::Wallet(WalletData::MbWayRedirect));
    match built(build(&data)).payment_method {
        PaymentDetails::Wallet(details) => {
            assert_eq!(details.payment_brand, PaymentBrand::Mbway);
            assert_eq!(details.account_id.as_ref().map(|a| a.peek().as_str()), Some("351#912345678"));
        }
        _ => panic!("not a wallet"),
    }
}

#[test]
fn aci_mb_way_without_phone_is_refused() {
    let mut data = authorize(body_key(), PaymentMethodData::Wallet(WalletData::MbWayRedirect));
    data.billing = None;
    assert_eq!(
        error_of(build(&data)),
        ConnectorError::MissingRequiredField { field_name: "billing.phone" }
    );
}

#[test]
fn aci_alipay_has_no_account() {
    let data = authorize(body_key(), PaymentMethodData::Wallet(WalletData::AliPayRedirect));
    match built(build(&data)).payment_method {
        PaymentDetails::Wallet(details) => {
            assert_eq!(details.payment_brand, PaymentBrand::AliPay);
            assert!(details.account_id.is_none());
        }
        _ => panic!("not a wallet"),
    }
}

#[test]
fn aci_pay_later_is_klarna() {
    let data =
        authorize(body_key(), PaymentMethodData::PayLater(PayLaterData::KlarnaRedirect));
    let request = built(build(&data));
    assert!(request.payment_method == PaymentDetails::Klarna);
    assert!(request.instruction.is_none());
}

#[test]
fn aci_ideal_needs_a_bank() {
    let data = authorize(
        body_key(),
        PaymentMethodData::BankRedirect(BankRedirectData::Ideal { bank_name: None }),
    );
    assert_eq!(
        error_of(build(&data)),
        ConnectorError::MissingRequiredField { field_name: "ideal.bank_name" }
    );
}

#[test]
fn aci_ideal_sends_country_and_bank() {
    let data = authorize(
        body_key(),
        PaymentMethodData::BankRedirect(BankRedirectData::Ideal { bank_name: Some(BankNames::Ing) }),
    );
    match built(build(&data)).payment_method {
        PaymentDetails::BankRedirect(details) => {
            assert_eq!(details.payment_brand, PaymentBrand::Ideal);
            assert_eq!(details.bank_account_country, CountryAlpha2::parse("DE"));
            assert_eq!(details.bank_account_bank_name, Some(BankNames::Ing));
            assert!(details.customer_email.is_none());
            assert!(details.merchant_customer_id.is_none());
        }
        _ => panic!("not a bank redirect"),
    }
}

#[test]
fn aci_bank_redirect_without_country_is_refused() {
    let mut data = authorize(body_key(), PaymentMethodData::BankRedirect(BankRedirectData::Eps));
    data.billing = None;
    assert_eq!(
        error_of(build(&data)),
        ConnectorError::MissingRequiredField {
            field_name: "payment_method_data.billing.address.country"
        }
    );
}

#[test]
fn aci_trustly_sends_customer_and_transaction() {
    let data = authorize(body_key(), PaymentMethodData::BankRedirect(BankRedirectData::Trustly));
    match built(build(&data)).payment_method {
        PaymentDetails::BankRedirect(details) => {
            assert_eq!(details.payment_brand, PaymentBrand::Trustly);
            assert!(details.bank_account_country.is_none());
            assert_eq!(details.billing_country, CountryAlpha2::parse("DE"));
            assert_eq!(details.merchant_customer_id.as_ref().map(|s| s.peek().as_str()), Some("cus_1"));
            assert_eq!(
                details.merchant_transaction_id.as_ref().map(|s| s.peek().as_str()),
                Some("ref_1")
            );
        }
        _ => panic!("not a bank redirect"),
    }
}

#[test]
fn aci_przelewy_sends_the_email() {
    let data =
        authorize(body_key(), PaymentMethodData::BankRedirect(BankRedirectData::Przelewy24));
    match built(build(&data)).payment_method {
        PaymentDetails::BankRedirect(details) => {
            assert_eq!(details.payment_brand, PaymentBrand::Przelewy);
            assert_eq!(details.customer_email.as_deref(), Some("john@example.com"));
            assert!(details.bank_account_country.is_none());
        }
        _ => panic!("not a bank redirect"),
    }
}

#[test]
fn aci_giropay_sends_the_account() {
    let data = authorize(
        body_key(),
        PaymentMethodData::BankRedirect(BankRedirectData::Giropay {
            bank_account_bic: Some(secret("BIC")),
            bank_account_iban: Some(secret("IBAN")),
        }),
    );
    match built(build(&data)).payment_method {
        PaymentDetails::BankRedirect(details) => {
            assert_eq!(details.payment_brand, PaymentBrand::Giropay);
            assert_eq!(details.bank_account_bic.as_ref().map(|s| s.peek().as_str()), Some("BIC"));
            assert_eq!(details.bank_account_iban.as_ref().map(|s| s.peek().as_str()), Some("IBAN"));
        }
        _ => panic!("not a bank redirect"),
    }
}

#[test]
fn aci_transaction_details_need_credentials() {
    let data = authorize(ConnectorAuthType::NoKey, PaymentMethodData::Card(card()));
    let item = AciRouterData::from((amount(), &data));
    assert_eq!(error_of(get_transaction_details(&item)), ConnectorError::FailedToObtainAuthType);
}

#[test]
fn aci_cancel_capture_and_refund_requests() {
    let cancel = context::<_, PaymentsResponseData>(
        body_key(),
        PaymentsCancelData {
            amount: None,
            currency: None,
            connector_transaction_id: "tx".to_string(),
            cancellation_reason: None,
        },
    );
    let request = built(AciCancelRequest::try_from(&cancel));
    assert_eq!(request.entity_id.peek(), "entity");
    assert_eq!(request.payment_type, AciPaymentType::Reversal);

    let capture = context::<_, PaymentsResponseData>(
        body_key(),
        PaymentsCaptureData {
            amount_to_capture: 1000,
            currency: Currency::EUR,
            connector_transaction_id: "tx".to_string(),
            multiple_capture_data: None,
        },
    );
    let request = built(AciCaptureRequest::try_from(&AciRouterData::from((amount(), &capture))));
    assert_eq!(request.txn_details.payment_type, AciPaymentType::Capture);
    assert_eq!(request.txn_details.currency, "EUR");
    assert_eq!(request.txn_details.amount.as_str(), "10.00");

    let refund = context::<_, RefundsResponseData>(
        body_key(),
        RefundsData {
            refund_id: "r1".to_string(),
            connector_transaction_id: "tx".to_string(),
            connector_refund_id: None,
            currency: Currency::JPY,
            refund_amount: 1000,
        },
    );
    let request = built(AciRefundRequest::try_from(&AciRouterData::from((amount(), &refund))));
    assert_eq!(request.payment_type, AciPaymentType::Refund);
    assert_eq!(request.currency, "JPY");
    assert_eq!(request.entity_id.peek(), "entity");

    let refused = context::<_, PaymentsResponseData>(
        ConnectorAuthType::NoKey,
        PaymentsCancelData {
            amount: None,
            currency: None,
            connector_transaction_id: "tx".to_string(),
            cancellation_reason: None,
        },
    );
    assert_eq!(
        error_of(AciCancelRequest::try_from(&refused)),
        ConnectorError::FailedToObtainAuthType
    );
}

#[test]
fn aci_status_mapping_is_total() {
    assert_eq!(map_aci_attempt_status(AciPaymentStatus::Succeeded, true), AttemptStatus::Charged);
    assert_eq!(
        map_aci_attempt_status(AciPaymentStatus::Succeeded, false),
        AttemptStatus::Authorized
    );
    for auto_capture in [true, false] {
        assert_eq!(
            map_aci_attempt_status(AciPaymentStatus::Failed, auto_capture),
            AttemptStatus::Failure
        );
        assert_eq!(
            map_aci_attempt_status(AciPaymentStatus::Pending, auto_capture),
            AttemptStatus::Authorizing
        );
        assert_eq!(
            map_aci_attempt_status(AciPaymentStatus::RedirectShopper, auto_capture),
            AttemptStatus::AuthenticationPending
        );
    }
    assert_eq!(AciRefundStatus::Succeeded.into_refund_status(), RefundStatus::Success);
    assert_eq!(AciRefundStatus::Failed.into_refund_status(), RefundStatus::Failure);
    assert_eq!(AciRefundStatus::Pending.into_refund_status(), RefundStatus::Pending);
}

#[test]
fn aci_result_codes_are_classified() {
    let codes = codes();
    assert_eq!(built(AciPaymentStatus::from_str("000.000.000", &codes)), AciPaymentStatus::Succeeded);
    assert_eq!(built(AciPaymentStatus::from_str("000.200.000", &codes)), AciPaymentStatus::Pending);
    assert_eq!(built(AciPaymentStatus::from_str("800.100.151", &codes)), AciPaymentStatus::Failed);
    assert_eq!(built(AciRefundStatus::from_str("000.100.110", &codes)), AciRefundStatus::Succeeded);
    assert!(contains_code(&codes.failure_codes, "100.100.101"));
    assert!(!contains_code(&codes.failure_codes, "000.000.000"));
}

#[test]
fn aci_failure_codes_win_over_other_classes() {
    let codes = AciResultCodes {
        failure_codes: vec!["1".to_string()],
        pending_codes: vec!["1".to_string(), "2".to_string()],
        successful_codes: vec!["1".to_string(), "2".to_string(), "3".to_string()],
    };
    assert_eq!(built(AciPaymentStatus::from_str("1", &codes)), AciPaymentStatus::Failed);
    assert_eq!(built(AciPaymentStatus::from_str("2", &codes)), AciPaymentStatus::Pending);
    assert_eq!(built(AciPaymentStatus::from_str("3", &codes)), AciPaymentStatus::Succeeded);
}

#[test]
fn aci_unknown_result_code_is_kept_in_the_error() {
    match error_of(AciPaymentStatus::from_str("999.999.999", &codes())) {
        ConnectorError::UnexpectedResponseError(bytes) => {
            assert_eq!(&bytes[..], "999.999.999".as_bytes())
        }
        other => panic!("unexpected: {:?}", other),
    }
    assert!(matches!(
        error_of(AciRefundStatus::from_str("", &codes())),
        ConnectorError::UnexpectedResponseError(_)
    ));
}

#[test]
fn aci_success_without_redirect_is_charged() {
    let item = answered(payments_response("000.000.000", None), Some(CaptureMethod::Automatic));
    let data = built(parse_payments_response(item, &codes()));
    assert_eq!(data.status, AttemptStatus::Charged);
    assert_eq!(data.connector_request_reference_id, "ref_1");
    match data.response {
        Ok(PaymentsResponseData::TransactionResponse {
            resource_id,
            redirection_data,
            mandate_reference,
            connector_response_reference_id,
            ..
        }) => {
            assert_eq!(resource_id, ResponseId::ConnectorTransactionId("tx_1".to_string()));
            assert_eq!(redirection_data, None);
            assert_eq!(mandate_reference, None);
            assert_eq!(connector_response_reference_id.as_deref(), Some("tx_1"));
        }
        _ => panic!("not a transaction response"),
    }
}

#[test]
fn aci_success_with_manual_capture_is_authorized() {
    let item = answered(payments_response("000.000.000", None), Some(CaptureMethod::Manual));
    assert_eq!(built(parse_payments_response(item, &codes())).status, AttemptStatus::Authorized);
    let item = answered(payments_response("000.000.000", None), None);
    assert_eq!(built(parse_payments_response(item, &codes())).status, AttemptStatus::Charged);
}

#[test]
fn aci_failure_and_pending_codes_show_in_the_status() {
    let item = answered(payments_response("800.100.151", None), None);
    let data = built(parse_payments_response(item, &codes()));
    assert_eq!(data.status, AttemptStatus::Failure);
    assert!(data.response.is_ok());
    let item = answered(payments_response("000.200.000", None), None);
    assert_eq!(built(parse_payments_response(item, &codes())).status, AttemptStatus::Authorizing);
}

#[test]
fn aci_redirect_takes_priority_over_a_success_code() {
    let redirect = AciRedirectionData {
        method: None,
        parameters: vec![Parameters { name: "PaReq".to_string(), value: "xyz".to_string() }],
        url: "https://acs.example/3ds".to_string(),
    };
    let item =
        answered(payments_response("000.000.000", Some(redirect)), Some(CaptureMethod::Automatic));
    let data = built(parse_payments_response(item, &codes()));
    assert_eq!(data.status, AttemptStatus::AuthenticationPending);
    match data.response {
        Ok(PaymentsResponseData::TransactionResponse { redirection_data, .. }) => {
            match redirection_data {
                Some(RedirectForm::Form { endpoint, method, form_fields }) => {
                    assert_eq!(endpoint, "https://acs.example/3ds");
                    assert_eq!(method, Method::Post);
                    assert_eq!(form_fields.entry_count(), 1);
                    assert_eq!(form_fields.get("PaReq").map(|v| v.as_str()), Some("xyz"));
                    assert_eq!(form_fields.get("MD"), None);
                }
                _ => panic!("not a form"),
            }
        }
        _ => panic!("not a transaction response"),
    }
}

#[test]
fn aci_redirect_is_read_even_with_an_unknown_code() {
    let redirect = AciRedirectionData {
        method: Some(Method::Get),
        parameters: vec![],
        url: "https://bank.example/pay?session=1".to_string(),
    };
    let item = answered(payments_response("no such code", Some(redirect)), None);
    let data = built(parse_payments_response(item, &codes()));
    assert_eq!(data.status, AttemptStatus::AuthenticationPending);
}

#[test]
fn aci_redirect_honours_the_method_of_the_connector() {
    let redirect = AciRedirectionData {
        method: Some(Method::Get),
        parameters: vec![
            Parameters { name: "a".to_string(), value: "1".to_string() },
            Parameters { name: "b".to_string(), value: "2".to_string() },
            Parameters { name: "a".to_string(), value: "3".to_string() },
        ],
        url: "HTTPS://Bank.Example".to_string(),
    };
    match redirect_form(&redirect) {
        Some(RedirectForm::Form { endpoint, method, form_fields }) => {
            assert_eq!(endpoint, "https://bank.example/");
            assert_eq!(method, Method::Get);
            assert_eq!(form_fields.entry_count(), 3);
            assert_eq!(form_fields.get("a").map(|v| v.as_str()), Some("3"));
            assert_eq!(form_fields.get("b").map(|v| v.as_str()), Some("2"));
        }
        _ => panic!("not a form"),
    }
}

#[test]
fn aci_redirect_to_no_url_cannot_be_handled() {
    let redirect =
        AciRedirectionData { method: None, parameters: vec![], url: "not a url".to_string() };
    assert_eq!(redirect_form(&redirect), None);
    let item = answered(payments_response("000.000.000", Some(redirect)), None);
    assert_eq!(
        error_of(parse_payments_response(item, &codes())),
        ConnectorError::ResponseHandlingFailed
    );
}

#[test]
fn aci_unknown_code_without_redirect_is_refused() {
    let item = answered(payments_response("123", None), None);
    assert!(matches!(
        error_of(parse_payments_response(item, &codes())),
        ConnectorError::UnexpectedResponseError(_)
    ));
}

#[test]
fn aci_registration_becomes_a_mandate_reference() {
    let mut response = payments_response("000.000.000", None);
    response.registration_id = Some(secret("reg_1"));
    let data = built(parse_payments_response(answered(response, None), &codes()));
    match data.response {
        Ok(PaymentsResponseData::TransactionResponse { mandate_reference, .. }) => {
            let reference = mandate_reference.expect("a mandate reference");
            assert_eq!(reference.connector_mandate_id.as_deref(), Some("reg_1"));
            assert_eq!(reference.payment_method_id, None);
            assert_eq!(reference.mandate_metadata, None);
            assert_eq!(reference.connector_mandate_request_reference_id, None);
        }
        _ => panic!("not a transaction response"),
    }
}

#[test]
fn aci_capture_response_names_the_payment() {
    let response = AciCaptureResponse {
        id: "cap_1".to_string(),
        referenced_id: "tx_1".to_string(),
        payment_type: AciPaymentType::Capture,
        amount: amount(),
        currency: "USD".to_string(),
        descriptor: "d".to_string(),
        result: AciCaptureResult { code: "000.000.000".to_string(), description: "ok".to_string() },
        result_details: AciCaptureResultDetails {
            extended_description: String::new(),
            clearing_institute_name: String::new(),
            connector_tx_id1: String::new(),
            connector_tx_id3: String::new(),
            connector_tx_id2: String::new(),
            acquirer_response: String::new(),
        },
        build_number: "1".to_string(),
        timestamp: "now".to_string(),
        ndc: secret("n"),
        source: secret("s"),
        payment_method: "CC".to_string(),
        short_id: "1".to_string(),
    };
    let data = built(parse_capture_response(answered(response, None), &codes()));
    assert_eq!(data.status, AttemptStatus::Authorized);
    assert_eq!(data.reference_id.as_deref(), Some("tx_1"));
    match data.response {
        Ok(PaymentsResponseData::TransactionResponse {
            resource_id,
            connector_response_reference_id,
            ..
        }) => {
            assert_eq!(resource_id, ResponseId::ConnectorTransactionId("cap_1".to_string()));
            assert_eq!(connector_response_reference_id.as_deref(), Some("tx_1"));
        }
        _ => panic!("not a transaction response"),
    }
}

#[test]
fn aci_refund_response_gives_the_refund_state() {
    let request = RefundsData {
        refund_id: "r1".to_string(),
        connector_transaction_id: "tx".to_string(),
        connector_refund_id: None,
        currency: Currency::USD,
        refund_amount: 1000,
    };
    for (code, expected) in [
        ("000.000.000", RefundStatus::Success),
        ("000.200.000", RefundStatus::Pending),
        ("800.100.151", RefundStatus::Failure),
    ] {
        let response = AciRefundResponse {
            id: "ref_tx".to_string(),
            ndc: "n".to_string(),
            timestamp: "t".to_string(),
            build_number: "1".to_string(),
            result: result_code(code),
        };
        let item = ResponseRouterData {
            response,
            data: context::<_, RefundsResponseData>(body_key(), request.clone()),
            http_code: 200,
        };
        let data = built(parse_refund_response(item, &codes()));
        assert_eq!(
            data.response,
            Ok(RefundsResponseData {
                connector_refund_id: "ref_tx".to_string(),
                refund_status: expected
            })
        );
    }
}

#[test]
fn aci_pay_later_other_than_klarna_is_not_implemented() {
    for provider in [
        PayLaterData::AffirmRedirect,
        PayLaterData::AfterpayClearpayRedirect,
        PayLaterData::PayBrightRedirect,
        PayLaterData::WalleyRedirect,
        PayLaterData::AlmaRedirect,
        PayLaterData::AtomeRedirect,
    ] {
        let data = authorize(body_key(), PaymentMethodData::PayLater(provider));
        assert_eq!(
            error_of(build(&data)),
            ConnectorError::NotImplemented("Payment method".to_string())
        );
        let data = authorize(ConnectorAuthType::NoKey, PaymentMethodData::PayLater(provider));
        assert_eq!(
            error_of(build(&data)),
            ConnectorError::NotImplemented("Payment method".to_string())
        );
    }
}

#[test]
fn aci_klarna_by_its_kit_is_klarna() {
    let data = authorize(body_key(), PaymentMethodData::PayLater(PayLaterData::KlarnaSdk));
    let request = built(build(&data));
    assert!(request.payment_method == PaymentDetails::Klarna);
    assert_eq!(request.shopper_result_url.as_deref(), Some("https://merchant.example/return"));
    let data = authorize(ConnectorAuthType::NoKey, PaymentMethodData::PayLater(PayLaterData::KlarnaSdk));
    assert_eq!(error_of(build(&data)), ConnectorError::FailedToObtainAuthType);
}

#[test]
fn aci_translators_under_the_names_of_the_conversion_traits() {
    let item = answered(payments_response("000.000.000", None), Some(CaptureMethod::Manual));
    let table = codes();
    let data = built(RouterData::try_from((item, &table)));
    assert_eq!(data.status, AttemptStatus::Authorized);
    assert_eq!(RefundStatus::from(AciRefundStatus::Failed), RefundStatus::Failure);
    assert_eq!(RefundStatus::from(AciRefundStatus::Succeeded), RefundStatus::Success);
    assert_eq!(RefundStatus::from(AciRefundStatus::Pending), RefundStatus::Pending);
}
