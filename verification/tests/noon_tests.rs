use hyperswitch_connectors::amount::{MinorUnit, StringMajorUnit};
use hyperswitch_connectors::enums::{
    AttemptStatus, CaptureMethod, CountryAlpha2, Currency, MandateStatus, Method, PaymentMethod,
    RefundStatus as SharedRefundStatus,
};
use hyperswitch_connectors::errors::ConnectorError;
use hyperswitch_connectors::noon::{
    find_refund_transaction, get_payment_status, order_name_of,
    parse_payments_response as noon_parse_payments_response,
    parse_refund_response as noon_parse_refund_response,
    parse_refund_sync_response as noon_parse_refund_sync_response, parse_revoke_mandate_response,
    read_apple_payment_data, NoonApiOperations, NoonAuthType, NoonCancelSubscriptionObject,
    NoonChannels, NoonCheckoutData, NoonOrderNvp, NoonPaymentActions, NoonPaymentData,
    NoonPaymentStatus, NoonPaymentsActionRequest, NoonPaymentsCancelRequest,
    NoonPaymentsOrderResponse, NoonPaymentsRequest, NoonPaymentsResponse,
    NoonPaymentsResponseResult, NoonPaymentsTransactionResponse, NoonRefundResponseResult,
    NoonRefundResponseTransactions, NoonRefundSyncResponseResult, NoonRevokeMandateRequest,
    NoonRevokeMandateResponse, NoonRevokeMandateResult, NoonRevokeStatus, NoonRouterData,
    NoonSubscriptionObject, NoonSubscriptionType, NoonWebhookObject, RefundResponse, RefundStatus,
    RefundSyncResponse, GOOGLEPAY_API_VERSION, GOOGLEPAY_API_VERSION_MINOR,
};
use hyperswitch_connectors::payment_method_data::{
    ApplePayWalletData, ApplepayPaymentMethod, Card, CardNumber, GooglePayPaymentMethodInfo,
    GooglePayWalletData, GpayTokenizationData, PaymentMethodData, WalletData,
};
use hyperswitch_connectors::redirect::RedirectForm;
use hyperswitch_connectors::router_data::{
    Address, AddressDetails, ConnectorAuthType, ConnectorMandateReferenceId, ErrorResponse,
    MandateIds, MandateReferenceId, MandateRevokeRequestData, MandateRevokeResponseData,
    PaymentsAuthorizeData, PaymentsAuthorizeRouterData, PaymentsCancelData, PaymentsCaptureData,
    PaymentsResponseData, RefundsData, RefundsResponseData, ResponseId, ResponseRouterData,
    RouterData,
};
use hyperswitch_connectors::secret::Secret;

fn noon_secret(text: &str) -> Secret {
    Secret::new(text.to_string())
}

fn noon_card() -> Card {
    Card {
        card_number: CardNumber::new("4000000000000002".to_string()),
        card_exp_month: noon_secret("01"),
        card_exp_year: noon_secret("27"),
        card_cvc: noon_secret("321"),
    }
}

fn noon_request(method: PaymentMethodData) -> PaymentsAuthorizeData {
    PaymentsAuthorizeData {
        payment_method_data: method,
        amount: 1000,
        currency: Currency::AED,
        capture_method: None,
        router_return_url: Some("https://merchant.example/return".to_string()),
        complete_authorize_url: None,
        webhook_url: None,
        setup_mandate_details: None,
        mandate_id: None,
        off_session: None,
        setup_future_usage: None,
        customer_acceptance: None,
        order_category: Some("pay".to_string()),
        metadata: None,
        ip_address: Some(noon_secret("10.0.0.1")),
    }
}

fn noon_context<Request, Response>(request: Request) -> RouterData<Request, Response> {
    RouterData {
        status: AttemptStatus::Started,
        payment_method: PaymentMethod::Card,
        connector_auth_type: ConnectorAuthType::NoKey,
        description: Some("  A  fine   order ".to_string()),
        billing: Some(Address {
            address: Some(AddressDetails {
                city: Some("Dubai".to_string()),
                country: CountryAlpha2::parse("AE"),
                line1: Some(noon_secret("Street 1")),
                line2: Some(noon_secret("Floor 2")),
                zip: Some(noon_secret("0000")),
                state: Some(noon_secret("DU")),
                first_name: Some(noon_secret("Jane")),
                last_name: None,
            }),
            phone: None,
            email: None,
        }),
        customer_id: None,
        connector_meta_data: None,
        connector_request_reference_id: "ref_1".to_string(),
        reference_id: None,
        request,
        response: Err(ErrorResponse::default()),
    }
}

fn noon_authorize(method: PaymentMethodData) -> PaymentsAuthorizeRouterData {
    noon_context(noon_request(method))
}

fn noon_amount() -> StringMajorUnit {
    StringMajorUnit::from_minor_unit(MinorUnit::new(1000), Currency::AED)
}

fn noon_build(
    data: &PaymentsAuthorizeRouterData,
    mandate_amount: Option<StringMajorUnit>,
) -> Result<NoonPaymentsRequest, ConnectorError> {
    NoonPaymentsRequest::try_from(&NoonRouterData::from((noon_amount(), data, mandate_amount)))
}

fn noon_error<T>(result: Result<T, ConnectorError>) -> ConnectorError {
    match result {
        Ok(_) => panic!("the request was built"),
        Err(error) => error,
    }
}

fn noon_built<T>(result: Result<T, ConnectorError>) -> T {
    match result {
        Ok(value) => value,
        Err(error) => panic!("refused: {:?}", error),
    }
}

fn noon_order(status: NoonPaymentStatus, error_message: Option<&str>) -> NoonPaymentsOrderResponse {
    NoonPaymentsOrderResponse {
        status,
        id: 123456,
        error_code: 19001,
        error_message: error_message.map(|m| m.to_string()),
        reference: None,
    }
}

fn noon_answered(
    order: NoonPaymentsOrderResponse,
    post_url: Option<&str>,
    subscription: Option<&str>,
) -> ResponseRouterData<NoonPaymentsResponse, PaymentsAuthorizeData, PaymentsResponseData> {
    ResponseRouterData {
        response: NoonPaymentsResponse {
            result: NoonPaymentsResponseResult {
                order,
                checkout_data: post_url.map(|u| NoonCheckoutData { post_url: u.to_string() }),
                subscription: subscription
                    .map(|s| NoonSubscriptionObject { identifier: noon_secret(s) }),
            },
        },
        data: noon_authorize(PaymentMethodData::Card(noon_card())),
        http_code: 402,
    }
}

fn noon_refund() -> RefundsData {
    RefundsData {
        refund_id: "refund_1".to_string(),
        connector_transaction_id: "order_1".to_string(),
        connector_refund_id: None,
        currency: Currency::AED,
        refund_amount: 500,
    }
}

const NOON_APPLE_TOKEN: &str = "eyJ2ZXJzaW9uIjoiRUNfdjEiLCJkYXRhIjoiZCIsInNpZ25hdHVyZSI6InMiLCJoZWFkZXIiOnsiZXBoZW1lcmFsUHVibGljS2V5IjoiZSIsInB1YmxpY0tleUhhc2giOiJoIiwidHJhbnNhY3Rpb25JZCI6InQifX0=";

#[test]
fn noon_order_name_is_trimmed_collapsed_and_cut() {
    assert_eq!(order_name_of("  A  fine   order "), "A fine  order");
    assert_eq!(order_name_of("plain"), "plain");
    assert_eq!(order_name_of(""), "");
    assert_eq!(order_name_of(" \t\n "), "");
    assert_eq!(order_name_of("a    b"), "a  b");
    assert_eq!(order_name_of("a   b"), "a  b");
    let long = "x".repeat(60);
    assert_eq!(order_name_of(&long), "x".repeat(50));
    let exact = "y".repeat(50);
    assert_eq!(order_name_of(&exact), exact);
    assert_eq!(order_name_of("\u{a0}caf\u{e9}\u{2003}"), "caf\u{e9}");
}

#[test]
fn noon_metadata_become_numbered_pairs() {
    let nvp = NoonOrderNvp::new(r#"{"b":2,"a":"x","c":null,"d":[1,"y"],"e":{"k":true},"f":false}"#);
    let pairs: Vec<(String, String)> =
        nvp.inner.iter().map(|(k, v)| (k.clone(), v.peek().clone())).collect();
    assert_eq!(
        pairs,
        vec![
            ("1".to_string(), "a=x".to_string()),
            ("2".to_string(), "b=2".to_string()),
            ("3".to_string(), "c=null".to_string()),
            ("4".to_string(), r#"d=[1,"y"]"#.to_string()),
            ("5".to_string(), r#"e={"k":true}"#.to_string()),
            ("6".to_string(), "f=false".to_string()),
        ]
    );
}

#[test]
fn noon_metadata_that_are_no_object_give_no_pairs() {
    for text in ["[1,2]", "\"a\"", "not json", "", "null"] {
        assert!(NoonOrderNvp::new(text).inner.is_empty());
    }
    let many: String = format!(
        "{{{}}}",
        (0..12).map(|i| format!("\"k{:02}\":\"v\"", i)).collect::<Vec<_>>().join(",")
    );
    let nvp = NoonOrderNvp::new(&many);
    assert_eq!(nvp.inner.len(), 12);
    assert_eq!(nvp.inner[9].0, "10");
    assert_eq!(nvp.inner[11].0, "12");
    assert_eq!(nvp.inner[11].1.peek(), "k11=v");
}

#[test]
fn noon_auth_takes_a_signature_key() {
    let auth = ConnectorAuthType::SignatureKey {
        api_key: noon_secret("key"),
        key1: noon_secret("business"),
        api_secret: noon_secret("application"),
    };
    let built = noon_built(NoonAuthType::try_from(&auth));
    assert_eq!(built.api_key.peek(), "key");
    assert_eq!(built.application_identifier.peek(), "application");
    assert_eq!(built.business_identifier.peek(), "business");
}

#[test]
fn noon_auth_refuses_a_body_key() {
    let auth = ConnectorAuthType::BodyKey { api_key: noon_secret("a"), key1: noon_secret("b") };
    assert_eq!(noon_error(NoonAuthType::try_from(&auth)), ConnectorError::FailedToObtainAuthType);
}

#[test]
fn noon_card_request() {
    let mut data = noon_authorize(PaymentMethodData::Card(noon_card()));
    data.request.metadata = Some(r#"{"order":"7"}"#.to_string());
    let request = noon_built(noon_build(&data, None));
    assert_eq!(request.api_operation, NoonApiOperations::Initiate);
    assert_eq!(request.order.amount.as_str(), "10.00");
    assert_eq!(request.order.currency, Some(Currency::AED));
    assert_eq!(request.order.channel, NoonChannels::Web);
    assert_eq!(request.order.category.as_deref(), Some("pay"));
    assert_eq!(request.order.reference, "ref_1");
    assert_eq!(request.order.name, "A fine  order");
    assert_eq!(request.order.ip_address.as_ref().map(|i| i.peek().as_str()), Some("10.0.0.1"));
    let nvp = request.order.nvp.expect("numbered pairs");
    assert_eq!(nvp.inner.len(), 1);
    assert_eq!(nvp.inner[0].0, "1");
    assert_eq!(nvp.inner[0].1.peek(), "order=7");
    assert_eq!(request.configuration.payment_action, NoonPaymentActions::Sale);
    assert_eq!(request.configuration.tokenize_c_c, None);
    assert_eq!(
        request.configuration.return_url.as_deref(),
        Some("https://merchant.example/return")
    );
    assert!(request.subscription.is_none());
    let billing = request.billing.expect("a billing address");
    assert_eq!(billing.address.street.as_ref().map(|s| s.peek().as_str()), Some("Street 1"));
    assert_eq!(billing.address.street2.as_ref().map(|s| s.peek().as_str()), Some("Floor 2"));
    assert_eq!(billing.address.city.as_deref(), Some("Dubai"));
    assert_eq!(billing.address.state_province.as_ref().map(|s| s.peek().as_str()), Some("DU"));
    assert_eq!(billing.address.country, CountryAlpha2::parse("AE"));
    assert_eq!(billing.address.postal_code.as_ref().map(|s| s.peek().as_str()), Some("0000"));
    match request.payment_data {
        NoonPaymentData::Card(card) => {
            assert_eq!(card.name_on_card.as_ref().map(|n| n.peek().as_str()), Some("Jane"));
            assert_eq!(card.number_plain.peek(), "4000000000000002");
            assert_eq!(card.expiry_month.peek(), "01");
            assert_eq!(card.expiry_year.peek(), "2027");
            assert_eq!(card.cvv.peek(), "321");
        }
        _ => panic!("not a card"),
    }
}

#[test]
fn noon_manual_capture_only_authorizes() {
    let mut data = noon_authorize(PaymentMethodData::Card(noon_card()));
    data.request.capture_method = Some(CaptureMethod::Manual);
    assert_eq!(
        noon_built(noon_build(&data, None)).configuration.payment_action,
        NoonPaymentActions::Authorize
    );
    data.request.capture_method = Some(CaptureMethod::SequentialAutomatic);
    assert_eq!(
        noon_built(noon_build(&data, None)).configuration.payment_action,
        NoonPaymentActions::Sale
    );
    data.request.capture_method = Some(CaptureMethod::ManualMultiple);
    assert_eq!(noon_error(noon_build(&data, None)), ConnectorError::CaptureMethodNotSupported);
}

#[test]
fn noon_mandate_amount_sets_up_a_subscription() {
    let data = noon_authorize(PaymentMethodData::Card(noon_card()));
    let maximum = StringMajorUnit::from_minor_unit(MinorUnit::new(50000), Currency::AED);
    let request = noon_built(noon_build(&data, Some(maximum)));
    assert_eq!(request.configuration.tokenize_c_c, Some(true));
    let subscription = request.subscription.expect("a subscription");
    assert_eq!(subscription.subscription_type, NoonSubscriptionType::Unscheduled);
    assert_eq!(subscription.name, "A fine  order");
    assert_eq!(subscription.max_amount.as_str(), "500.00");
}

#[test]
fn noon_payment_under_a_mandate_is_paid_by_the_subscription() {
    let mut data = noon_authorize(PaymentMethodData::Crypto);
    data.request.order_category = None;
    data.request.mandate_id = Some(MandateIds {
        mandate_id: None,
        mandate_reference_id: Some(MandateReferenceId::ConnectorMandateId(
            ConnectorMandateReferenceId {
                connector_mandate_id: Some("sub_1".to_string()),
                payment_method_id: None,
                connector_mandate_request_reference_id: None,
            },
        )),
    });
    let request = noon_built(noon_build(&data, None));
    assert_eq!(request.order.currency, None);
    assert_eq!(request.order.category, None);
    match request.payment_data {
        NoonPaymentData::Subscription(subscription) => {
            assert_eq!(subscription.subscription_identifier.peek(), "sub_1")
        }
        _ => panic!("not a subscription"),
    }
}

#[test]
fn noon_request_errors_come_in_order() {
    let mut data = noon_authorize(PaymentMethodData::Crypto);
    data.request.order_category = None;
    data.description = None;
    data.request.capture_method = Some(CaptureMethod::Scheduled);
    assert_eq!(
        noon_error(noon_build(&data, None)),
        ConnectorError::NotImplemented("Selected payment method through Noon".to_string())
    );
    data.request.payment_method_data = PaymentMethodData::Card(noon_card());
    assert_eq!(
        noon_error(noon_build(&data, None)),
        ConnectorError::MissingRequiredField { field_name: "order_category" }
    );
    data.request.order_category = Some("pay".to_string());
    assert_eq!(
        noon_error(noon_build(&data, None)),
        ConnectorError::MissingRequiredField { field_name: "description" }
    );
    data.description = Some("d".to_string());
    assert_eq!(noon_error(noon_build(&data, None)), ConnectorError::CaptureMethodNotSupported);
}

#[test]
fn noon_unsupported_wallets_are_not_implemented() {
    for wallet in [WalletData::AliPayQr, WalletData::SamsungPay, WalletData::MbWayRedirect] {
        let data = noon_authorize(PaymentMethodData::Wallet(wallet));
        assert_eq!(
            noon_error(noon_build(&data, None)),
            ConnectorError::NotImplemented("Selected payment method through Noon".to_string())
        );
    }
}

#[test]
fn noon_paypal_needs_a_return_url() {
    let mut data = noon_authorize(PaymentMethodData::Wallet(WalletData::PaypalRedirect));
    match noon_built(noon_build(&data, None)).payment_data {
        NoonPaymentData::PayPal(paypal) => {
            assert_eq!(paypal.return_url, "https://merchant.example/return")
        }
        _ => panic!("not PayPal"),
    }
    data.request.router_return_url = None;
    assert_eq!(
        noon_error(noon_build(&data, None)),
        ConnectorError::MissingRequiredField { field_name: "return_url" }
    );
}

#[test]
fn noon_google_pay_request() {
    let google_pay = GooglePayWalletData {
        pm_type: "CARD".to_string(),
        description: "Visa 1111".to_string(),
        info: GooglePayPaymentMethodInfo {
            card_network: "VISA".to_string(),
            card_details: "1111".to_string(),
        },
        tokenization_data: GpayTokenizationData {
            token_type: "PAYMENT_GATEWAY".to_string(),
            token: "{}".to_string(),
        },
    };
    let data = noon_authorize(PaymentMethodData::Wallet(WalletData::GooglePay(google_pay.clone())));
    match noon_built(noon_build(&data, None)).payment_data {
        NoonPaymentData::GooglePay(sent) => {
            assert_eq!(sent.api_version, 2);
            assert_eq!(sent.api_version_minor, 0);
            assert_eq!(sent.api_version, GOOGLEPAY_API_VERSION);
            assert_eq!(sent.api_version_minor, GOOGLEPAY_API_VERSION_MINOR);
            assert_eq!(sent.payment_method_data, google_pay);
        }
        _ => panic!("not Google Pay"),
    }
}

#[test]
fn noon_apple_pay_request() {
    let apple_pay = ApplePayWalletData {
        payment_data: NOON_APPLE_TOKEN.to_string(),
        payment_method: ApplepayPaymentMethod {
            display_name: "Visa 1111".to_string(),
            network: "Visa".to_string(),
            pm_type: "debit".to_string(),
        },
        transaction_identifier: "txn".to_string(),
    };
    let data = noon_authorize(PaymentMethodData::Wallet(WalletData::ApplePay(apple_pay.clone())));
    match noon_built(noon_build(&data, None)).payment_data {
        NoonPaymentData::ApplePay(sent) => {
            let token = sent.payment_info.token;
            assert_eq!(token.payment_data.version.peek(), "EC_v1");
            assert_eq!(token.payment_data.data.peek(), "d");
            assert_eq!(token.payment_data.signature.peek(), "s");
            assert_eq!(token.payment_data.header.ephemeral_public_key.peek(), "e");
            assert_eq!(token.payment_data.header.public_key_hash.peek(), "h");
            assert_eq!(token.payment_data.header.transaction_id.peek(), "t");
            assert_eq!(token.payment_method.display_name, "Visa 1111");
            assert_eq!(token.payment_method.network, "Visa");
            assert_eq!(token.payment_method.pm_type, "debit");
            assert_eq!(token.transaction_identifier.peek(), "txn");
        }
        _ => panic!("not Apple Pay"),
    }
    let mut broken = apple_pay;
    broken.payment_data = "bm90IGpzb24=".to_string();
    let data = noon_authorize(PaymentMethodData::Wallet(WalletData::ApplePay(broken)));
    assert_eq!(
        noon_error(noon_build(&data, None)),
        ConnectorError::InvalidWalletToken { wallet_name: "Apple Pay".to_string() }
    );
}

#[test]
fn noon_apple_pay_token_needs_all_its_parts() {
    assert!(read_apple_payment_data(
        r#"{"version":"v","data":"d","signature":"s","header":{"ephemeralPublicKey":"e","publicKeyHash":"h","transactionId":"t"}}"#
    )
    .is_some());
    assert!(read_apple_payment_data(
        r#"{"version":"v","data":"d","signature":"s","header":{"ephemeralPublicKey":"e","publicKeyHash":"h"}}"#
    )
    .is_none());
    assert!(read_apple_payment_data(r#"{"version":"v","data":"d","signature":"s"}"#).is_none());
    assert!(read_apple_payment_data("[]").is_none());
}

#[test]
fn noon_status_mapping_is_total() {
    let before = AttemptStatus::Authorizing;
    let expected = [
        (NoonPaymentStatus::Initiated, AttemptStatus::Started),
        (NoonPaymentStatus::Authorized, AttemptStatus::Authorized),
        (NoonPaymentStatus::Captured, AttemptStatus::Charged),
        (NoonPaymentStatus::PartiallyCaptured, AttemptStatus::Charged),
        (NoonPaymentStatus::PartiallyRefunded, AttemptStatus::Charged),
        (NoonPaymentStatus::PaymentInfoAdded, AttemptStatus::Started),
        (NoonPaymentStatus::ThreeDsEnrollInitiated, AttemptStatus::AuthenticationPending),
        (NoonPaymentStatus::ThreeDsEnrollChecked, AttemptStatus::AuthenticationPending),
        (NoonPaymentStatus::ThreeDsResultVerified, AttemptStatus::AuthenticationSuccessful),
        (NoonPaymentStatus::MarkedForReview, AttemptStatus::Pending),
        (NoonPaymentStatus::Authenticated, AttemptStatus::Started),
        (NoonPaymentStatus::PartiallyReversed, AttemptStatus::Voided),
        (NoonPaymentStatus::Pending, AttemptStatus::Pending),
        (NoonPaymentStatus::Cancelled, AttemptStatus::AuthenticationFailed),
        (NoonPaymentStatus::Failed, AttemptStatus::Failure),
        (NoonPaymentStatus::Refunded, AttemptStatus::Charged),
        (NoonPaymentStatus::Expired, AttemptStatus::AuthenticationFailed),
        (NoonPaymentStatus::Reversed, AttemptStatus::Voided),
        (NoonPaymentStatus::Rejected, AttemptStatus::Failure),
        (NoonPaymentStatus::Locked, AttemptStatus::Authorizing),
    ];
    for (status, attempt) in expected {
        assert_eq!(get_payment_status((status, before)), attempt);
    }
    assert_eq!(get_payment_status((NoonPaymentStatus::Locked, AttemptStatus::Charged)), AttemptStatus::Charged);
    assert_eq!(RefundStatus::Success.into_refund_status(), SharedRefundStatus::Success);
    assert_eq!(RefundStatus::Failed.into_refund_status(), SharedRefundStatus::Failure);
    assert_eq!(RefundStatus::Pending.into_refund_status(), SharedRefundStatus::Pending);
}

#[test]
fn noon_successful_order_gives_a_transaction_response() {
    let mut order = noon_order(NoonPaymentStatus::Captured, None);
    order.reference = Some("ref_9".to_string());
    let data = noon_built(noon_parse_payments_response(noon_answered(order, None, Some("sub_7"))));
    assert_eq!(data.status, AttemptStatus::Charged);
    match data.response {
        Ok(PaymentsResponseData::TransactionResponse {
            resource_id,
            redirection_data,
            mandate_reference,
            connector_response_reference_id,
            ..
        }) => {
            assert_eq!(resource_id, ResponseId::ConnectorTransactionId("123456".to_string()));
            assert_eq!(redirection_data, None);
            assert_eq!(connector_response_reference_id.as_deref(), Some("ref_9"));
            assert_eq!(
                mandate_reference.and_then(|m| m.connector_mandate_id).as_deref(),
                Some("sub_7")
            );
        }
        _ => panic!("not a transaction response"),
    }
}

#[test]
fn noon_order_without_reference_is_known_by_its_id() {
    let order = noon_order(NoonPaymentStatus::Authorized, None);
    let data = noon_built(noon_parse_payments_response(noon_answered(order, None, None)));
    match data.response {
        Ok(PaymentsResponseData::TransactionResponse {
            connector_response_reference_id, ..
        }) => assert_eq!(connector_response_reference_id.as_deref(), Some("123456")),
        _ => panic!("not a transaction response"),
    }
}

#[test]
fn noon_order_with_an_error_message_gives_an_error_response() {
    let order = noon_order(NoonPaymentStatus::Failed, Some("Card declined"));
    let data = noon_built(noon_parse_payments_response(noon_answered(order, None, None)));
    assert_eq!(data.status, AttemptStatus::Failure);
    assert_eq!(
        data.response,
        Err(ErrorResponse {
            code: "19001".to_string(),
            message: "Card declined".to_string(),
            reason: Some("Card declined".to_string()),
            status_code: 402,
            attempt_status: Some(AttemptStatus::Failure),
            connector_transaction_id: Some("123456".to_string()),
            network_advice_code: None,
            network_decline_code: None,
            network_error_message: None,
        })
    );
}

#[test]
fn noon_checkout_is_a_post_form_and_takes_priority_over_a_success() {
    let order = noon_order(NoonPaymentStatus::Captured, None);
    let item = noon_answered(order, Some("https://checkout.example/pay"), None);
    let data = noon_built(noon_parse_payments_response(item));
    assert_eq!(data.status, AttemptStatus::AuthenticationPending);
    match data.response {
        Ok(PaymentsResponseData::TransactionResponse { redirection_data, .. }) => {
            match redirection_data {
                Some(RedirectForm::Form { endpoint, method, form_fields }) => {
                    assert_eq!(endpoint, "https://checkout.example/pay");
                    assert_eq!(method, Method::Post);
                    assert_eq!(form_fields.entry_count(), 0);
                }
                _ => panic!("not a form"),
            }
        }
        _ => panic!("not a transaction response"),
    }
    let order = noon_order(NoonPaymentStatus::ThreeDsEnrollInitiated, None);
    let item = noon_answered(order, Some("https://checkout.example/pay"), None);
    assert_eq!(
        noon_built(noon_parse_payments_response(item)).status,
        AttemptStatus::AuthenticationPending
    );
    let order = noon_order(NoonPaymentStatus::Initiated, None);
    let item = noon_answered(order, Some("https://checkout.example/pay"), None);
    assert_eq!(noon_built(noon_parse_payments_response(item)).status, AttemptStatus::Started);
}

#[test]
fn noon_checkout_address_must_be_a_url() {
    let order = noon_order(NoonPaymentStatus::Initiated, None);
    let item = noon_answered(order, Some("::"), None);
    assert_eq!(
        noon_error(noon_parse_payments_response(item)),
        ConnectorError::ResponseHandlingFailed
    );
}

#[test]
fn noon_locked_order_keeps_the_state_of_the_attempt() {
    let mut item = noon_answered(noon_order(NoonPaymentStatus::Locked, None), None, None);
    item.data.status = AttemptStatus::Authorized;
    assert_eq!(noon_built(noon_parse_payments_response(item)).status, AttemptStatus::Authorized);
}

#[test]
fn noon_webhook_is_read_as_a_payment_response() {
    let response = NoonPaymentsResponse::from(NoonWebhookObject {
        order_status: NoonPaymentStatus::Captured,
        order_id: 42,
    });
    assert_eq!(
        response.result.order,
        NoonPaymentsOrderResponse {
            status: NoonPaymentStatus::Captured,
            id: 42,
            error_code: 0,
            error_message: None,
            reference: None,
        }
    );
    assert!(response.result.checkout_data.is_none());
    assert!(response.result.subscription.is_none());
    let item = ResponseRouterData {
        response,
        data: noon_authorize(PaymentMethodData::Card(noon_card())),
        http_code: 200,
    };
    let data = noon_built(noon_parse_payments_response(item));
    assert_eq!(data.status, AttemptStatus::Charged);
    match data.response {
        Ok(PaymentsResponseData::TransactionResponse { resource_id, .. }) => {
            assert_eq!(resource_id, ResponseId::ConnectorTransactionId("42".to_string()))
        }
        _ => panic!("not a transaction response"),
    }
}

#[test]
fn noon_action_requests() {
    let capture = noon_context::<_, PaymentsResponseData>(PaymentsCaptureData {
        amount_to_capture: 1000,
        currency: Currency::AED,
        connector_transaction_id: "order_1".to_string(),
        multiple_capture_data: None,
    });
    let request = noon_built(NoonPaymentsActionRequest::try_from(&NoonRouterData::from((
        noon_amount(),
        &capture,
        None,
    ))));
    assert_eq!(request.api_operation, NoonApiOperations::Capture);
    assert_eq!(request.order.id, "order_1");
    assert_eq!(request.transaction.amount.as_str(), "10.00");
    assert_eq!(request.transaction.currency, Currency::AED);
    assert_eq!(request.transaction.transaction_reference, None);

    let refund = noon_context::<_, RefundsResponseData>(noon_refund());
    let request = noon_built(NoonPaymentsActionRequest::try_from_refund(&NoonRouterData::from((
        noon_amount(),
        &refund,
        None,
    ))));
    assert_eq!(request.api_operation, NoonApiOperations::Refund);
    assert_eq!(request.transaction.transaction_reference.as_deref(), Some("refund_1"));

    let cancel = noon_context::<_, PaymentsResponseData>(PaymentsCancelData {
        amount: None,
        currency: None,
        connector_transaction_id: "order_2".to_string(),
        cancellation_reason: None,
    });
    let request = noon_built(NoonPaymentsCancelRequest::try_from(&cancel));
    assert_eq!(request.api_operation, NoonApiOperations::Reverse);
    assert_eq!(request.order.id, "order_2");
}

#[test]
fn noon_mandate_revocation() {
    let mut revoke = noon_context::<_, MandateRevokeResponseData>(MandateRevokeRequestData {
        mandate_id: "m".to_string(),
        connector_mandate_id: Some("sub_1".to_string()),
    });
    let request = noon_built(NoonRevokeMandateRequest::try_from(&revoke));
    assert_eq!(request.api_operation, NoonApiOperations::CancelSubscription);
    assert_eq!(request.subscription.identifier.peek(), "sub_1");
    revoke.request.connector_mandate_id = None;
    assert_eq!(
        noon_error(NoonRevokeMandateRequest::try_from(&revoke)),
        ConnectorError::MissingRequiredField { field_name: "connector_mandate_id" }
    );
    let item = ResponseRouterData {
        response: NoonRevokeMandateResponse {
            result: NoonRevokeMandateResult {
                subscription: NoonCancelSubscriptionObject { status: NoonRevokeStatus::Cancelled },
            },
        },
        data: revoke,
        http_code: 200,
    };
    assert_eq!(
        noon_built(parse_revoke_mandate_response(item)).response,
        Ok(MandateRevokeResponseData { mandate_status: MandateStatus::Revoked })
    );
}

#[test]
fn noon_refund_response() {
    let answer = |status| ResponseRouterData {
        response: RefundResponse {
            result: NoonRefundResponseResult {
                transaction: NoonPaymentsTransactionResponse { id: "rt_1".to_string(), status },
            },
            result_code: 7,
            class_description: "class".to_string(),
            message: "message".to_string(),
        },
        data: noon_context::<_, RefundsResponseData>(noon_refund()),
        http_code: 400,
    };
    assert_eq!(
        noon_built(noon_parse_refund_response(answer(RefundStatus::Success))).response,
        Ok(RefundsResponseData {
            connector_refund_id: "rt_1".to_string(),
            refund_status: SharedRefundStatus::Success
        })
    );
    assert_eq!(
        noon_built(noon_parse_refund_response(answer(RefundStatus::Pending))).response,
        Ok(RefundsResponseData {
            connector_refund_id: "rt_1".to_string(),
            refund_status: SharedRefundStatus::Pending
        })
    );
    assert_eq!(
        noon_built(noon_parse_refund_response(answer(RefundStatus::Failed))).response,
        Err(ErrorResponse {
            code: "7".to_string(),
            message: "class".to_string(),
            reason: Some("message".to_string()),
            status_code: 400,
            attempt_status: None,
            connector_transaction_id: Some("rt_1".to_string()),
            network_advice_code: None,
            network_decline_code: None,
            network_error_message: None,
        })
    );
}

fn noon_transactions() -> Vec<NoonRefundResponseTransactions> {
    vec![
        NoonRefundResponseTransactions {
            id: "t0".to_string(),
            status: RefundStatus::Failed,
            transaction_reference: None,
        },
        NoonRefundResponseTransactions {
            id: "t1".to_string(),
            status: RefundStatus::Pending,
            transaction_reference: Some("other".to_string()),
        },
        NoonRefundResponseTransactions {
            id: "t2".to_string(),
            status: RefundStatus::Success,
            transaction_reference: Some("refund_1".to_string()),
        },
        NoonRefundResponseTransactions {
            id: "t3".to_string(),
            status: RefundStatus::Failed,
            transaction_reference: Some("refund_1".to_string()),
        },
    ]
}

#[test]
fn noon_refund_sync_reads_the_first_matching_transaction() {
    assert_eq!(find_refund_transaction(&noon_transactions(), &"refund_1".to_string()), Some(2));
    assert_eq!(find_refund_transaction(&noon_transactions(), &"other".to_string()), Some(1));
    assert_eq!(find_refund_transaction(&noon_transactions(), &"none".to_string()), None);
    let item = ResponseRouterData {
        response: RefundSyncResponse {
            result: NoonRefundSyncResponseResult { transactions: noon_transactions() },
            result_code: 0,
            class_description: "class".to_string(),
            message: "message".to_string(),
        },
        data: noon_context::<_, RefundsResponseData>(noon_refund()),
        http_code: 200,
    };
    assert_eq!(
        noon_built(noon_parse_refund_sync_response(item)).response,
        Ok(RefundsResponseData {
            connector_refund_id: "t2".to_string(),
            refund_status: SharedRefundStatus::Success
        })
    );
}

#[test]
fn noon_refund_sync_without_matching_transaction_cannot_be_handled() {
    let mut transactions = noon_transactions();
    transactions.truncate(2);
    let item = ResponseRouterData {
        response: RefundSyncResponse {
            result: NoonRefundSyncResponseResult { transactions },
            result_code: 0,
            class_description: "class".to_string(),
            message: "message".to_string(),
        },
        data: noon_context::<_, RefundsResponseData>(noon_refund()),
        http_code: 200,
    };
    assert_eq!(
        noon_error(noon_parse_refund_sync_response(item)),
        ConnectorError::ResponseHandlingFailed
    );
    let item = ResponseRouterData {
        response: RefundSyncResponse {
            result: NoonRefundSyncResponseResult { transactions: vec![] },
            result_code: 0,
            class_description: "class".to_string(),
            message: "message".to_string(),
        },
        data: noon_context::<_, RefundsResponseData>(noon_refund()),
        http_code: 200,
    };
    assert_eq!(
        noon_error(noon_parse_refund_sync_response(item)),
        ConnectorError::ResponseHandlingFailed
    );
}

#[test]
fn noon_failed_refund_sync_gives_an_error_response() {
    let mut refund = noon_refund();
    refund.refund_id = "other".to_string();
    let mut transactions = noon_transactions();
    transactions[1].status = RefundStatus::Failed;
    let item = ResponseRouterData {
        response: RefundSyncResponse {
            result: NoonRefundSyncResponseResult { transactions },
            result_code: 1500,
            class_description: "class".to_string(),
            message: "message".to_string(),
        },
        data: noon_context::<_, RefundsResponseData>(refund),
        http_code: 200,
    };
    match noon_built(noon_parse_refund_sync_response(item)).response {
        Err(error) => {
            assert_eq!(error.code, "1500");
            assert_eq!(error.message, "class");
            assert_eq!(error.reason.as_deref(), Some("message"));
            assert_eq!(error.connector_transaction_id.as_deref(), Some("t1"));
            assert_eq!(error.attempt_status, None);
        }
        Ok(_) => panic!("not an error"),
    }
}

#[test]
fn noon_conversions_by_trait() {
    assert_eq!(SharedRefundStatus::from(RefundStatus::Failed), SharedRefundStatus::Failure);
    assert_eq!(SharedRefundStatus::from(RefundStatus::Success), SharedRefundStatus::Success);
    let order = noon_order(NoonPaymentStatus::Failed, Some("Card declined"));
    let data = noon_built(RouterData::try_from(noon_answered(order, None, None)));
    assert_eq!(data.status, AttemptStatus::Failure);
    match data.response {
        Err(error) => {
            assert_eq!(error.code, "19001");
            assert_eq!(error.status_code, 402);
            assert_eq!(error.attempt_status, Some(AttemptStatus::Failure));
        }
        Ok(_) => panic!("not an error"),
    }
}

#[test]
fn noon_metadata_of_every_other_kind_give_no_pairs() {
    for text in ["null", "true", "12", "1.5", "\"text\"", "[{\"a\":1}]", "{", "{}"] {
        assert!(NoonOrderNvp::new(text).inner.is_empty());
    }
}
