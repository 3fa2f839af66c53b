use hyperswitch_connectors::amount::{MinorUnit, StringMinorUnit};
use hyperswitch_connectors::encoding::to_hex;
use hyperswitch_connectors::enums::{
    AttemptStatus, CaptureMethod, CountryAlpha2, Currency, FutureUsage, Method, PaymentMethod,
    RefundStatus,
};
use hyperswitch_connectors::errors::{ConnectorError, ParsingError};
use hyperswitch_connectors::globalpay::{
    capture_sync_response, get_mandate_details, get_payment_method_data, get_payment_response,
    get_return_url, get_wallet_data, parse_multiple_capture_sync_response,
    parse_payments_response as globalpay_parse_payments_response,
    parse_refresh_token_response, parse_refund_response as globalpay_parse_refund_response,
    ApmProvider, ApmResponse, CaptureMode, CardResponse, DigitalWalletProvider, GlobalPayMeta,
    GlobalPayRouterData, GlobalpayAuthType, GlobalpayCancelRequest, GlobalpayCancelRouterData,
    GlobalpayCaptureRequest, GlobalpayPaymentStatus, GlobalpayPaymentsRequest,
    GlobalpayPaymentsResponse, GlobalpayRefreshTokenRequest, GlobalpayRefreshTokenResponse,
    GlobalpayRefundRequest, Initiator, Model, MultipleCaptureSyncResponse, PaymentMethodData,
    PaymentMethodResponse, Sequence, StoredCredential,
};
use hyperswitch_connectors::payment_method_data::{
    BankRedirectData, Card, CardNumber, GooglePayPaymentMethodInfo, GooglePayWalletData,
    GpayTokenizationData, PaymentMethodData as DomainPaymentMethodData, WalletData,
};
use hyperswitch_connectors::redirect::{redirect_form_from_url, RedirectForm};
use hyperswitch_connectors::router_data::{
    AccessToken, AccessTokenRequestData, Address, AddressDetails, ConnectorAuthType,
    ConnectorMandateReferenceId, CustomerAcceptance, ErrorResponse, MandateIds,
    MandateReferenceId, MultipleCaptureRequestData, PaymentsAuthorizeData,
    PaymentsAuthorizeRouterData, PaymentsCancelData, PaymentsCaptureData, PaymentsResponseData,
    PaymentsSyncData, RefundsData, RefundsResponseData, ResponseId, ResponseRouterData, RouterData,
};
use hyperswitch_connectors::secret::Secret;

fn gp_secret(text: &str) -> Secret {
    Secret::new(text.to_string())
}

fn gp_card(year: &str) -> Card {
    Card {
        card_number: CardNumber::new("4263970000005262".to_string()),
        card_exp_month: gp_secret("05"),
        card_exp_year: gp_secret(year),
        card_cvc: gp_secret("852"),
    }
}

fn gp_request(method: DomainPaymentMethodData) -> PaymentsAuthorizeData {
    PaymentsAuthorizeData {
        payment_method_data: method,
        amount: 1000,
        currency: Currency::GBP,
        capture_method: None,
        router_return_url: Some("https://merchant.example/return".to_string()),
        complete_authorize_url: Some("https://merchant.example/complete".to_string()),
        webhook_url: Some("https://merchant.example/webhook".to_string()),
        setup_mandate_details: None,
        mandate_id: None,
        off_session: None,
        setup_future_usage: None,
        customer_acceptance: None,
        order_category: None,
        metadata: None,
        ip_address: None,
    }
}

fn gp_context<Request, Response>(request: Request) -> RouterData<Request, Response> {
    RouterData {
        status: AttemptStatus::Started,
        payment_method: PaymentMethod::Card,
        connector_auth_type: ConnectorAuthType::BodyKey {
            api_key: gp_secret("apikey"),
            key1: gp_secret("app"),
        },
        description: None,
        billing: Some(Address {
            address: Some(AddressDetails {
                city: None,
                country: CountryAlpha2::parse("GB"),
                line1: None,
                line2: None,
                zip: None,
                state: None,
                first_name: None,
                last_name: None,
            }),
            phone: None,
            email: None,
        }),
        customer_id: None,
        connector_meta_data: Some(gp_secret(r#"{"account_name":"transaction_processing"}"#)),
        connector_request_reference_id: "ref_1".to_string(),
        reference_id: None,
        request,
        response: Err(ErrorResponse::default()),
    }
}

fn gp_authorize(method: DomainPaymentMethodData) -> PaymentsAuthorizeRouterData {
    gp_context(gp_request(method))
}

fn gp_amount() -> StringMinorUnit {
    StringMinorUnit::from_minor_unit(MinorUnit::new(1000))
}

fn gp_build(data: &PaymentsAuthorizeRouterData) -> Result<GlobalpayPaymentsRequest, ConnectorError> {
    GlobalpayPaymentsRequest::try_from(&GlobalPayRouterData::from((gp_amount(), data)))
}

fn gp_error<T>(result: Result<T, ConnectorError>) -> ConnectorError {
    match result {
        Ok(_) => panic!("the request was built"),
        Err(error) => error,
    }
}

fn gp_built<T>(result: Result<T, ConnectorError>) -> T {
    match result {
        Ok(value) => value,
        Err(error) => panic!("refused: {:?}", error),
    }
}

fn gp_mandate(id: Option<&str>) -> MandateIds {
    MandateIds {
        mandate_id: None,
        mandate_reference_id: Some(MandateReferenceId::ConnectorMandateId(
            ConnectorMandateReferenceId {
                connector_mandate_id: id.map(|i| i.to_string()),
                payment_method_id: None,
                connector_mandate_request_reference_id: None,
            },
        )),
    }
}

fn gp_response(status: GlobalpayPaymentStatus) -> GlobalpayPaymentsResponse {
    GlobalpayPaymentsResponse {
        status,
        id: "TRN_1".to_string(),
        payment_method: None,
        reference: Some("ref_1".to_string()),
        amount: Some(StringMinorUnit::new("1000".to_string())),
        currency: Some(Currency::GBP),
    }
}

fn gp_google_pay(token: &str) -> WalletData {
    WalletData::GooglePay(GooglePayWalletData {
        pm_type: "CARD".to_string(),
        description: "Visa".to_string(),
        info: GooglePayPaymentMethodInfo {
            card_network: "VISA".to_string(),
            card_details: "1111".to_string(),
        },
        tokenization_data: GpayTokenizationData {
            token_type: "PAYMENT_GATEWAY".to_string(),
            token: token.to_string(),
        },
    })
}

#[test]
fn globalpay_auth_takes_a_body_key() {
    let auth = ConnectorAuthType::BodyKey { api_key: gp_secret("apikey"), key1: gp_secret("app") };
    let built = gp_built(GlobalpayAuthType::try_from(&auth));
    assert_eq!(built.app_id.peek(), "app");
    assert_eq!(built.key.peek(), "apikey");
    assert_eq!(
        gp_error(GlobalpayAuthType::try_from(&ConnectorAuthType::TemporaryAuth)),
        ConnectorError::FailedToObtainAuthType
    );
}

#[test]
fn globalpay_refresh_token_secret_is_the_digest_of_nonce_and_key() {
    let auth = GlobalpayAuthType { app_id: gp_secret("app"), key: gp_secret("apikey") };
    let request = GlobalpayRefreshTokenRequest::with_nonce(auth, "abcdefghijkl".to_string());
    assert_eq!(request.app_id.peek(), "app");
    assert_eq!(request.nonce.peek(), "abcdefghijkl");
    assert_eq!(
        request.secret.peek(),
        "b6e9a44e8de7bebb366fcf30df8e0a853736c92d6c5fbb40fe94840cf07a08b0966a175315f1cb7d8212453bdeafd1c803be042bc419f586a864b161a7d2199a"
    );
    assert_eq!(request.grant_type, "client_credentials");
}

#[test]
fn globalpay_refresh_token_request_has_a_fresh_nonce() {
    let data = gp_context::<_, AccessToken>(AccessTokenRequestData {
        app_id: "app".to_string(),
        id: None,
    });
    let first = gp_built(GlobalpayRefreshTokenRequest::try_from(&data));
    let second = gp_built(GlobalpayRefreshTokenRequest::try_from(&data));
    for request in [&first, &second] {
        assert_eq!(request.app_id.peek(), "app");
        assert_eq!(request.nonce.peek().chars().count(), 12);
        assert!(request.nonce.peek().chars().all(|c| c.is_ascii_alphanumeric()));
        assert_eq!(request.secret.peek().len(), 128);
        assert_eq!(request.grant_type, "client_credentials");
        let auth = GlobalpayAuthType { app_id: gp_secret("app"), key: gp_secret("apikey") };
        let again = GlobalpayRefreshTokenRequest::with_nonce(auth, request.nonce.peek().clone());
        assert_eq!(again.secret.peek(), request.secret.peek());
    }
    let mut refused = data;
    refused.connector_auth_type = ConnectorAuthType::NoKey;
    assert_eq!(
        gp_error(GlobalpayRefreshTokenRequest::try_from(&refused)),
        ConnectorError::FailedToObtainAuthType
    );
}

#[test]
fn hexadecimal_notation() {
    assert_eq!(to_hex(&vec![1, 2, 3, 15, 16]), "0102030f10");
    assert_eq!(to_hex(&vec![0, 255, 171]), "00ffab");
    assert_eq!(to_hex(&vec![]), "");
}

#[test]
fn globalpay_status_mapping_is_total() {
    let expected = [
        (GlobalpayPaymentStatus::Captured, AttemptStatus::Charged, RefundStatus::Success),
        (GlobalpayPaymentStatus::Declined, AttemptStatus::Failure, RefundStatus::Failure),
        (GlobalpayPaymentStatus::Funded, AttemptStatus::Charged, RefundStatus::Success),
        (GlobalpayPaymentStatus::Initiated, AttemptStatus::AuthenticationPending, RefundStatus::Pending),
        (GlobalpayPaymentStatus::Pending, AttemptStatus::Pending, RefundStatus::Pending),
        (GlobalpayPaymentStatus::Preauthorized, AttemptStatus::Authorized, RefundStatus::Pending),
        (GlobalpayPaymentStatus::Rejected, AttemptStatus::Failure, RefundStatus::Failure),
        (GlobalpayPaymentStatus::Reversed, AttemptStatus::Voided, RefundStatus::Pending),
    ];
    for (status, attempt, refund) in expected {
        assert_eq!(status.into_attempt_status(), attempt);
        assert_eq!(status.into_refund_status(), refund);
    }
}

#[test]
fn globalpay_capture_mode() {
    assert_eq!(CaptureMode::from(None), CaptureMode::Auto);
    assert_eq!(CaptureMode::from(Some(CaptureMethod::Automatic)), CaptureMode::Auto);
    assert_eq!(CaptureMode::from(Some(CaptureMethod::Manual)), CaptureMode::Later);
    assert_eq!(CaptureMode::from(Some(CaptureMethod::ManualMultiple)), CaptureMode::Multiple);
    assert_eq!(CaptureMode::from(Some(CaptureMethod::Scheduled)), CaptureMode::Auto);
    assert_eq!(CaptureMode::from(Some(CaptureMethod::SequentialAutomatic)), CaptureMode::Auto);
}

#[test]
fn globalpay_card_request() {
    let data = gp_authorize(DomainPaymentMethodData::Card(gp_card("2025")));
    let request = gp_built(gp_build(&data));
    assert_eq!(request.account_name.peek(), "transaction_processing");
    assert_eq!(request.amount.as_ref().map(|a| a.as_str()), Some("1000"));
    assert_eq!(request.currency, "GBP");
    assert_eq!(request.reference, "ref_1");
    assert_eq!(Some(request.country), CountryAlpha2::parse("GB"));
    assert_eq!(request.capture_mode, Some(CaptureMode::Auto));
    assert_eq!(request.initiator, None);
    assert_eq!(request.stored_credential, None);
    let notifications = request.notifications.expect("notifications");
    assert_eq!(notifications.return_url.as_deref(), Some("https://merchant.example/return"));
    assert_eq!(notifications.status_url.as_deref(), Some("https://merchant.example/webhook"));
    match request.payment_method.payment_method_data {
        PaymentMethodData::Card(card) => {
            assert_eq!(card.number.peek(), "4263970000005262");
            assert_eq!(card.expiry_month.peek(), "05");
            assert_eq!(card.expiry_year.peek(), "25");
            assert_eq!(card.cvv.peek(), "852");
            assert_eq!(card.brand_reference, None);
        }
        _ => panic!("not a card"),
    }
}

#[test]
fn globalpay_request_errors_come_in_order() {
    let mut data = gp_authorize(DomainPaymentMethodData::Crypto);
    data.connector_meta_data = None;
    data.billing = None;
    assert_eq!(
        gp_error(gp_build(&data)),
        ConnectorError::InvalidConnectorConfig { config: "metadata" }
    );
    data.connector_meta_data = Some(gp_secret(r#"{"account_name":"a"}"#));
    assert_eq!(
        gp_error(gp_build(&data)),
        ConnectorError::NotImplemented("Payment methods".to_string())
    );
    data.request.payment_method_data = DomainPaymentMethodData::Card(gp_card("2"));
    assert_eq!(gp_error(gp_build(&data)), ConnectorError::RequestEncodingFailed);
    data.request.payment_method_data = DomainPaymentMethodData::Card(gp_card("25"));
    assert_eq!(
        gp_error(gp_build(&data)),
        ConnectorError::MissingRequiredField {
            field_name: "payment_method_data.billing.address.country"
        }
    );
}

#[test]
fn globalpay_account_metadata() {
    let meta = gp_built(GlobalPayMeta::try_from(&Some(gp_secret(r#"{"account_name":"acc"}"#))));
    assert_eq!(meta.account_name.peek(), "acc");
    for metadata in [None, Some(gp_secret("{}")), Some(gp_secret(r#"{"account_name":1}"#))] {
        assert_eq!(
            gp_error(GlobalPayMeta::try_from(&metadata)),
            ConnectorError::InvalidConnectorConfig { config: "metadata" }
        );
    }
}

#[test]
fn globalpay_mandate_details() {
    let mut data = gp_authorize(DomainPaymentMethodData::Card(gp_card("25")));
    let details = gp_built(get_mandate_details(&data));
    assert_eq!(details.initiator, None);
    assert_eq!(details.stored_credential, None);
    assert_eq!(details.brand_reference, None);

    data.request.customer_acceptance = Some(CustomerAcceptance { online: true });
    data.request.setup_future_usage = Some(FutureUsage::OffSession);
    let details = gp_built(get_mandate_details(&data));
    assert_eq!(details.initiator, Some(Initiator::Payer));
    assert_eq!(
        details.stored_credential,
        Some(StoredCredential { model: Some(Model::Recurring), sequence: Some(Sequence::First) })
    );
    assert_eq!(details.brand_reference, None);

    data.request.setup_future_usage = Some(FutureUsage::OnSession);
    assert_eq!(gp_built(get_mandate_details(&data)).initiator, None);

    data.request.mandate_id = Some(gp_mandate(Some("brand_1")));
    data.request.off_session = Some(true);
    let details = gp_built(get_mandate_details(&data));
    assert_eq!(details.initiator, Some(Initiator::Merchant));
    assert_eq!(
        details.stored_credential,
        Some(StoredCredential {
            model: Some(Model::Recurring),
            sequence: Some(Sequence::Subsequent)
        })
    );
    assert_eq!(details.brand_reference.as_deref(), Some("brand_1"));
    match gp_built(gp_build(&data)).payment_method.payment_method_data {
        PaymentMethodData::Card(card) => assert_eq!(card.brand_reference.as_deref(), Some("brand_1")),
        _ => panic!("not a card"),
    }

    data.request.mandate_id = Some(gp_mandate(None));
    data.request.off_session = Some(false);
    let details = gp_built(get_mandate_details(&data));
    assert_eq!(details.initiator, Some(Initiator::Payer));
    assert_eq!(details.stored_credential.and_then(|s| s.sequence), Some(Sequence::First));
}

#[test]
fn globalpay_wallets() {
    match gp_built(get_wallet_data(&WalletData::PaypalRedirect)) {
        PaymentMethodData::Apm(apm) => assert_eq!(apm.provider, Some(ApmProvider::Paypal)),
        _ => panic!("not an alternative payment method"),
    }
    match gp_built(get_wallet_data(&gp_google_pay(r#" { "b" : 1, "a" : "x" } "#))) {
        PaymentMethodData::DigitalWallet(wallet) => {
            assert_eq!(wallet.provider, Some(DigitalWalletProvider::PayByGoogle));
            assert_eq!(wallet.payment_token, r#"{"a":"x","b":1}"#);
        }
        _ => panic!("not a digital wallet"),
    }
    assert_eq!(
        gp_error(get_wallet_data(&gp_google_pay("no json"))),
        ConnectorError::InvalidWalletToken { wallet_name: "Google Pay".to_string() }
    );
    assert_eq!(
        gp_error(get_wallet_data(&WalletData::AliPayRedirect)),
        ConnectorError::NotImplemented("Payment method".to_string())
    );
}

#[test]
fn globalpay_bank_redirects() {
    for (redirect, provider) in [
        (BankRedirectData::Eps, ApmProvider::Eps),
        (BankRedirectData::Sofort, ApmProvider::Sofort),
        (BankRedirectData::Ideal { bank_name: None }, ApmProvider::Ideal),
        (
            BankRedirectData::Giropay { bank_account_bic: None, bank_account_iban: None },
            ApmProvider::Giropay,
        ),
    ] {
        match gp_built(PaymentMethodData::try_from(&redirect)) {
            PaymentMethodData::Apm(apm) => assert_eq!(apm.provider, Some(provider)),
            _ => panic!("not an alternative payment method"),
        }
    }
    assert_eq!(
        gp_error(PaymentMethodData::try_from(&BankRedirectData::Trustly)),
        ConnectorError::NotImplemented("Payment method".to_string())
    );
    let data = gp_authorize(DomainPaymentMethodData::BankRedirect(BankRedirectData::Blik));
    assert_eq!(
        gp_error(get_payment_method_data(&data, None)),
        ConnectorError::NotImplemented("Payment method".to_string())
    );
    let data = gp_authorize(DomainPaymentMethodData::MandatePayment);
    assert_eq!(
        gp_error(get_payment_method_data(&data, None)),
        ConnectorError::NotImplemented("Payment methods".to_string())
    );
}

#[test]
fn globalpay_return_url() {
    let data = gp_authorize(DomainPaymentMethodData::Wallet(WalletData::PaypalRedirect));
    assert_eq!(get_return_url(&data).as_deref(), Some("https://merchant.example/complete"));
    let data = gp_authorize(DomainPaymentMethodData::Card(gp_card("25")));
    assert_eq!(get_return_url(&data).as_deref(), Some("https://merchant.example/return"));
    let data = gp_authorize(DomainPaymentMethodData::Wallet(WalletData::AliPayQr));
    assert_eq!(get_return_url(&data).as_deref(), Some("https://merchant.example/return"));
}

#[test]
fn globalpay_capture_cancel_and_refund_requests() {
    let mut capture = gp_context::<_, PaymentsResponseData>(PaymentsCaptureData {
        amount_to_capture: 1000,
        currency: Currency::GBP,
        connector_transaction_id: "TRN".to_string(),
        multiple_capture_data: None,
    });
    let request =
        gp_built(GlobalpayCaptureRequest::try_from(&GlobalPayRouterData::from((gp_amount(), &capture))));
    assert_eq!(request.amount.as_ref().map(|a| a.as_str()), Some("1000"));
    assert_eq!(request.capture_sequence, None);
    assert_eq!(request.reference, None);
    for (sequence, expected) in [(1, Sequence::First), (2, Sequence::Subsequent), (0, Sequence::Subsequent)] {
        capture.request.multiple_capture_data = Some(MultipleCaptureRequestData {
            capture_sequence: sequence,
            capture_reference: "cap".to_string(),
        });
        let request = gp_built(GlobalpayCaptureRequest::try_from(&GlobalPayRouterData::from((
            gp_amount(),
            &capture,
        ))));
        assert_eq!(request.capture_sequence, Some(expected));
        assert_eq!(request.reference.as_deref(), Some("cap"));
    }
    let cancel = gp_context::<_, PaymentsResponseData>(PaymentsCancelData {
        amount: None,
        currency: None,
        connector_transaction_id: "TRN".to_string(),
        cancellation_reason: None,
    });
    let request = gp_built(GlobalpayCancelRequest::try_from(&GlobalpayCancelRouterData::from((
        Some(gp_amount()),
        &cancel,
    ))));
    assert_eq!(request.amount.as_ref().map(|a| a.as_str()), Some("1000"));
    let request = gp_built(GlobalpayCancelRequest::try_from(&GlobalpayCancelRouterData::from((
        None, &cancel,
    ))));
    assert_eq!(request.amount, None);
    let refund = gp_context::<_, RefundsResponseData>(RefundsData {
        refund_id: "r".to_string(),
        connector_transaction_id: "TRN".to_string(),
        connector_refund_id: None,
        currency: Currency::GBP,
        refund_amount: 1000,
    });
    let request =
        gp_built(GlobalpayRefundRequest::try_from(&GlobalPayRouterData::from((gp_amount(), &refund))));
    assert_eq!(request.amount.as_str(), "1000");
}

#[test]
fn globalpay_failure_gives_an_error_response() {
    let mut response = gp_response(GlobalpayPaymentStatus::Declined);
    response.payment_method = Some(PaymentMethodResponse {
        apm: None,
        card: None,
        message: Some("Insufficient funds".to_string()),
    });
    let error = get_payment_response(AttemptStatus::Failure, response, None).unwrap_err();
    assert_eq!(error.message, "Insufficient funds");
    assert_eq!(error.code, "HE_00");
    assert_eq!(error.status_code, 500);
    assert_eq!(error.reason, None);
    let error =
        get_payment_response(AttemptStatus::Failure, gp_response(GlobalpayPaymentStatus::Declined), None)
            .unwrap_err();
    assert_eq!(error.message, "No error message");
}

#[test]
fn globalpay_success_gives_a_transaction_response() {
    let mut response = gp_response(GlobalpayPaymentStatus::Captured);
    response.payment_method = Some(PaymentMethodResponse {
        apm: None,
        card: Some(CardResponse { brand_reference: Some(gp_secret("brand_9")) }),
        message: Some("ignored".to_string()),
    });
    let redirect = redirect_form_from_url("https://a.example/b?c=d", Method::Get);
    match get_payment_response(AttemptStatus::Charged, response, redirect.clone()) {
        Ok(PaymentsResponseData::TransactionResponse {
            resource_id,
            redirection_data,
            mandate_reference,
            connector_response_reference_id,
            ..
        }) => {
            assert_eq!(resource_id, ResponseId::ConnectorTransactionId("TRN_1".to_string()));
            assert_eq!(redirection_data, redirect);
            assert_eq!(connector_response_reference_id.as_deref(), Some("ref_1"));
            assert_eq!(
                mandate_reference.and_then(|m| m.connector_mandate_id).as_deref(),
                Some("brand_9")
            );
        }
        _ => panic!("not a transaction response"),
    }
}

#[test]
fn globalpay_payment_response_with_redirect() {
    let mut response = gp_response(GlobalpayPaymentStatus::Initiated);
    response.payment_method = Some(PaymentMethodResponse {
        apm: Some(ApmResponse { redirect_url: Some("https://apm.example/go?token=1".to_string()) }),
        card: None,
        message: None,
    });
    let item = ResponseRouterData {
        response,
        data: gp_authorize(DomainPaymentMethodData::Card(gp_card("25"))),
        http_code: 200,
    };
    let data = gp_built(globalpay_parse_payments_response(item));
    assert_eq!(data.status, AttemptStatus::AuthenticationPending);
    match data.response {
        Ok(PaymentsResponseData::TransactionResponse { redirection_data, .. }) => assert_eq!(
            redirection_data,
            Some(RedirectForm::Redirect { endpoint: "https://apm.example/go?token=1".to_string() })
        ),
        _ => panic!("not a transaction response"),
    }
}

#[test]
fn globalpay_redirect_takes_priority_over_a_success() {
    let mut response = gp_response(GlobalpayPaymentStatus::Captured);
    response.payment_method = Some(PaymentMethodResponse {
        apm: Some(ApmResponse { redirect_url: Some("https://apm.example/go".to_string()) }),
        card: None,
        message: None,
    });
    let item = ResponseRouterData {
        response,
        data: gp_authorize(DomainPaymentMethodData::Card(gp_card("25"))),
        http_code: 200,
    };
    let data = gp_built(globalpay_parse_payments_response(item));
    assert_eq!(data.status, AttemptStatus::AuthenticationPending);
    assert!(data.response.is_ok());
}

#[test]
fn globalpay_empty_redirect_is_no_redirect() {
    let mut response = gp_response(GlobalpayPaymentStatus::Captured);
    response.payment_method = Some(PaymentMethodResponse {
        apm: Some(ApmResponse { redirect_url: Some(String::new()) }),
        card: None,
        message: None,
    });
    let item = ResponseRouterData {
        response,
        data: gp_authorize(DomainPaymentMethodData::Card(gp_card("25"))),
        http_code: 200,
    };
    let data = gp_built(globalpay_parse_payments_response(item));
    assert_eq!(data.status, AttemptStatus::Charged);
    match data.response {
        Ok(PaymentsResponseData::TransactionResponse { redirection_data, .. }) => {
            assert_eq!(redirection_data, None)
        }
        _ => panic!("not a transaction response"),
    }
}

#[test]
fn globalpay_redirect_that_is_no_url_is_refused() {
    let mut response = gp_response(GlobalpayPaymentStatus::Initiated);
    response.payment_method = Some(PaymentMethodResponse {
        apm: Some(ApmResponse { redirect_url: Some("nowhere".to_string()) }),
        card: None,
        message: None,
    });
    let item = ResponseRouterData {
        response,
        data: gp_authorize(DomainPaymentMethodData::Card(gp_card("25"))),
        http_code: 200,
    };
    assert_eq!(
        gp_error(globalpay_parse_payments_response(item)),
        ConnectorError::FailedToObtainIntegrationUrl
    );
}

#[test]
fn globalpay_declined_payment_is_an_error_response() {
    let item = ResponseRouterData {
        response: gp_response(GlobalpayPaymentStatus::Rejected),
        data: gp_authorize(DomainPaymentMethodData::Card(gp_card("25"))),
        http_code: 200,
    };
    let data = gp_built(globalpay_parse_payments_response(item));
    assert_eq!(data.status, AttemptStatus::Failure);
    assert_eq!(
        data.response,
        Err(ErrorResponse {
            code: "HE_00".to_string(),
            message: "No error message".to_string(),
            reason: None,
            status_code: 500,
            attempt_status: None,
            connector_transaction_id: None,
            network_advice_code: None,
            network_decline_code: None,
            network_error_message: None,
        })
    );
}

#[test]
fn globalpay_conversions_by_trait() {
    assert_eq!(AttemptStatus::from(GlobalpayPaymentStatus::Funded), AttemptStatus::Charged);
    assert_eq!(AttemptStatus::from(GlobalpayPaymentStatus::Reversed), AttemptStatus::Voided);
    assert_eq!(RefundStatus::from(GlobalpayPaymentStatus::Rejected), RefundStatus::Failure);
    assert_eq!(RefundStatus::from(GlobalpayPaymentStatus::Preauthorized), RefundStatus::Pending);
    let mut response = gp_response(GlobalpayPaymentStatus::Declined);
    response.payment_method = Some(PaymentMethodResponse {
        apm: None,
        card: None,
        message: Some("Insufficient funds".to_string()),
    });
    let item = ResponseRouterData {
        response,
        data: gp_authorize(DomainPaymentMethodData::Card(gp_card("25"))),
        http_code: 200,
    };
    let data = gp_built(RouterData::try_from(item));
    assert_eq!(data.status, AttemptStatus::Failure);
    match data.response {
        Err(error) => {
            assert_eq!(error.message, "Insufficient funds");
            assert_eq!(error.code, "HE_00");
            assert_eq!(error.status_code, 500);
            assert_eq!(error.connector_transaction_id, None);
        }
        Ok(_) => panic!("not an error"),
    }
}

#[test]
fn globalpay_captured_amount() {
    let response = gp_response(GlobalpayPaymentStatus::Captured);
    assert_eq!(response.get_amount_captured(), Ok(Some(MinorUnit::new(1000))));
    assert_eq!(response.get_connector_capture_id(), "TRN_1");
    assert_eq!(response.get_capture_attempt_status(), AttemptStatus::Charged);
    assert!(response.is_capture_response());
    assert_eq!(response.get_connector_reference_id().as_deref(), Some("ref_1"));
    let mut without = gp_response(GlobalpayPaymentStatus::Captured);
    without.amount = None;
    assert_eq!(without.get_amount_captured(), Ok(None));
    let mut broken = gp_response(GlobalpayPaymentStatus::Captured);
    broken.amount = Some(StringMinorUnit::new("10.00".to_string()));
    assert_eq!(
        broken.get_amount_captured(),
        Err(ParsingError::StringToDecimalConversionFailure)
    );
    assert_eq!(gp_error(capture_sync_response(&broken)), ConnectorError::AmountConversionFailed);
}

#[test]
fn globalpay_multiple_capture_sync() {
    let sync = PaymentsSyncData {
        connector_transaction_id: ResponseId::ConnectorTransactionId("TRN_1".to_string()),
        capture_method: Some(CaptureMethod::ManualMultiple),
    };
    let item = ResponseRouterData {
        response: gp_response(GlobalpayPaymentStatus::Captured),
        data: gp_context::<_, PaymentsResponseData>(sync),
        http_code: 200,
    };
    let data = gp_built(parse_multiple_capture_sync_response(item));
    assert_eq!(data.status, AttemptStatus::Started);
    match data.response {
        Ok(PaymentsResponseData::MultipleCaptureResponse { capture_sync_response_list }) => {
            assert_eq!(capture_sync_response_list.len(), 1);
            let capture = &capture_sync_response_list[0];
            assert_eq!(capture.resource_id, ResponseId::ConnectorTransactionId("TRN_1".to_string()));
            assert_eq!(capture.status, AttemptStatus::Charged);
            assert_eq!(capture.connector_response_reference_id.as_deref(), Some("ref_1"));
            assert_eq!(capture.amount, Some(1000));
        }
        _ => panic!("not a capture list"),
    }
}

#[test]
fn globalpay_access_token() {
    let token = AccessToken::try_from(GlobalpayRefreshTokenResponse {
        token: gp_secret("tok"),
        seconds_to_expire: 3600,
    });
    match token {
        Ok(token) => {
            assert_eq!(token.token.peek(), "tok");
            assert_eq!(token.expires, 3600);
        }
        Err(_) => panic!("no token"),
    }
    let item = ResponseRouterData {
        response: GlobalpayRefreshTokenResponse { token: gp_secret("tok"), seconds_to_expire: 60 },
        data: gp_context::<_, AccessToken>(AccessTokenRequestData {
            app_id: "app".to_string(),
            id: None,
        }),
        http_code: 200,
    };
    match parse_refresh_token_response(item) {
        Ok(data) => match data.response {
            Ok(token) => {
                assert_eq!(token.token.peek(), "tok");
                assert_eq!(token.expires, 60);
            }
            Err(_) => panic!("no token"),
        },
        Err(_) => panic!("no context"),
    }
}

#[test]
fn globalpay_refund_response() {
    let item = ResponseRouterData {
        response: gp_response(GlobalpayPaymentStatus::Captured),
        data: gp_context::<_, RefundsResponseData>(RefundsData {
            refund_id: "r".to_string(),
            connector_transaction_id: "TRN".to_string(),
            connector_refund_id: None,
            currency: Currency::GBP,
            refund_amount: 1000,
        }),
        http_code: 200,
    };
    assert_eq!(
        gp_built(globalpay_parse_refund_response(item)).response,
        Ok(RefundsResponseData {
            connector_refund_id: "TRN_1".to_string(),
            refund_status: RefundStatus::Success
        })
    );
}
