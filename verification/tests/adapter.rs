use paycore::authorize::{build_authorize_request, parse_authorize_response, AuthorizeOutcome};
use paycore::canonical::{
    AddressDetails, AttemptStatus, AuthorizeRequest, BankNames, BankRedirectData, Card, CardIssuer,
    ConnectorAuthType, GooglePayData, HttpMethod, MandateReferenceId, PayLaterData,
    PaymentMethodData, RefundRequestData, RefundStatus as CanonicalRefundStatus, ResponseId,
    WalletData,
};
use paycore::dispatch::{connector_by_id, dispatch_build_authorize, ConnectorKind, VendorRequest};
use paycore::errors::ConnectorError;
use paycore::multisafepay::{
    attempt_status_from, bank_names_try_from, gateway_try_from_issuer, Data, Gateway, GatewayInfo,
    MandateType, MultisafepayAuthResponse, MultisafepayAuthType, MultisafepayBankNames,
    MultisafepayErrorResponse, MultisafepayPaymentDetails, MultisafepayPaymentStatus,
    MultisafepayPaymentsResponse, RefundData, RefundResponse, MultisafepayRefundResponse,
    RefundStatus, Type, WalletInfo, BankRedirectInfo,
};
use paycore::multisafepay::refund_status_from;
use paycore::refunds::{build_refund_request, parse_refund_response, parse_refund_sync_response};

fn full_address() -> AddressDetails {
    AddressDetails {
        first_name: Some("John".to_string()),
        last_name: Some("Doe".to_string()),
        line1: Some("Kaiserstrasse 1".to_string()),
        line2: Some("23".to_string()),
        zip: Some("1234AB".to_string()),
        city: Some("Amsterdam".to_string()),
        country: Some("NL".to_string()),
    }
}

fn base_request(pmd: PaymentMethodData) -> AuthorizeRequest {
    AuthorizeRequest {
        amount: 1000,
        currency: "EUR".to_string(),
        connector_request_reference_id: "ref_123".to_string(),
        payment_method_data: pmd,
        email: Some("payer@example.com".to_string()),
        billing_email: Some("billing@example.com".to_string()),
        description: Some("order 123".to_string()),
        return_url: Some("https://merchant.example/return".to_string()),
        billing_address: Some(full_address()),
        is_mandate_payment: false,
        mandate_reference_id: None,
    }
}

fn visa_card() -> Card {
    Card {
        card_number: "4111111111111111".to_string(),
        card_exp_month: "09".to_string(),
        card_exp_year: "2025".to_string(),
        card_cvc: "123".to_string(),
        card_issuer: CardIssuer::Visa,
    }
}

#[test]
fn authorize_card_direct_with_card_block() {
    let req = base_request(PaymentMethodData::Card(visa_card()));
    let built = build_authorize_request(&req).expect("card payment must build");
    assert_eq!(built.payment_type, Type::Direct);
    assert_eq!(built.gateway, Some(Gateway::Visa));
    assert_eq!(built.order_id, "ref_123");
    assert_eq!(built.currency, "EUR");
    assert_eq!(built.amount, 1000);
    assert_eq!(built.description, "order 123");
    assert_eq!(built.days_active, Some(30));
    assert_eq!(built.seconds_active, Some(259200));
    assert_eq!(built.recurring_model, None);
    assert_eq!(built.recurring_id, None);
    match built.gateway_info {
        Some(GatewayInfo::Card(info)) => {
            assert_eq!(info.card_number.as_deref(), Some("4111111111111111"));
            assert_eq!(info.card_expiry_date, Some(2509));
            assert_eq!(info.card_cvc.as_deref(), Some("123"));
            assert_eq!(info.card_holder_name, None);
        }
        other => panic!("expected a populated card block, got {other:?}"),
    }
    let options = built.payment_options.expect("payment options are always set");
    assert_eq!(options.redirect_url, "https://merchant.example/return");
    assert_eq!(options.cancel_url, "https://merchant.example/return");
    let customer = built.customer.expect("customer is always set");
    assert_eq!(customer.email.as_deref(), Some("payer@example.com"));
    assert_eq!(customer.reference.as_deref(), Some("ref_123"));
    let delivery = built.delivery.expect("delivery is always set");
    assert_eq!(delivery.first_name, "John");
    assert_eq!(delivery.last_name, "Doe");
    assert_eq!(delivery.address1, "Kaiserstrasse 1");
    assert_eq!(delivery.house_number, "23");
    assert_eq!(delivery.zip_code, "1234AB");
    assert_eq!(delivery.city, "Amsterdam");
    assert_eq!(delivery.country, "NL");
}

#[test]
fn authorize_unmapped_wallet_not_implemented() {
    let req = base_request(PaymentMethodData::Wallet(WalletData::ApplePay));
    match build_authorize_request(&req) {
        Err(ConnectorError::NotImplemented(msg)) => {
            assert_eq!(msg, "Selected payment method through multisafepay");
        }
        other => panic!("expected NotImplemented, got {other:?}"),
    }
}

#[test]
fn authorize_card_issuer_not_implemented() {
    let mut card = visa_card();
    card.card_issuer = CardIssuer::DinersClub;
    let req = base_request(PaymentMethodData::Card(card));
    match build_authorize_request(&req) {
        Err(ConnectorError::NotImplemented(msg)) => {
            assert_eq!(msg, "Selected payment method through Multisafe pay");
        }
        other => panic!("expected NotImplemented, got {other:?}"),
    }
}

#[test]
fn authorize_missing_required_fields() {
    let mut req = base_request(PaymentMethodData::Card(visa_card()));
    req.description = None;
    match build_authorize_request(&req) {
        Err(ConnectorError::MissingRequiredField { field_name }) => {
            assert_eq!(field_name, "description")
        }
        other => panic!("expected MissingRequiredField, got {other:?}"),
    }

    let mut req = base_request(PaymentMethodData::Card(visa_card()));
    req.return_url = None;
    match build_authorize_request(&req) {
        Err(ConnectorError::MissingRequiredField { field_name }) => {
            assert_eq!(field_name, "return_url")
        }
        other => panic!("expected MissingRequiredField, got {other:?}"),
    }

    let mut req = base_request(PaymentMethodData::Card(visa_card()));
    req.billing_address = None;
    match build_authorize_request(&req) {
        Err(ConnectorError::MissingRequiredField { field_name }) => {
            assert_eq!(field_name, "billing.address")
        }
        other => panic!("expected MissingRequiredField, got {other:?}"),
    }

    let mut req = base_request(PaymentMethodData::Card(visa_card()));
    let mut addr = full_address();
    addr.line2 = None;
    req.billing_address = Some(addr);
    match build_authorize_request(&req) {
        Err(ConnectorError::MissingRequiredField { field_name }) => {
            assert_eq!(field_name, "address.line2")
        }
        other => panic!("expected MissingRequiredField, got {other:?}"),
    }
}

#[test]
fn authorize_last_name_falls_back_to_first_name() {
    let mut req = base_request(PaymentMethodData::Card(visa_card()));
    let mut addr = full_address();
    addr.last_name = None;
    req.billing_address = Some(addr);
    let built = build_authorize_request(&req).expect("must build");
    let delivery = built.delivery.expect("delivery is always set");
    assert_eq!(delivery.last_name, "John");
}

#[test]
fn authorize_ideal_supported_bank() {
    let req = base_request(PaymentMethodData::BankRedirect(BankRedirectData::Ideal {
        bank_name: Some(BankNames::Ing),
    }));
    let built = build_authorize_request(&req).expect("supported bank must build");
    assert_eq!(built.payment_type, Type::Direct);
    assert_eq!(built.gateway, Some(Gateway::Ideal));
    match built.gateway_info {
        Some(GatewayInfo::BankRedirect(BankRedirectInfo::Ideal(info))) => {
            assert_eq!(info.issuer_id, MultisafepayBankNames::Ing);
            assert_eq!(info.issuer_id.issuer_code(), "0721");
        }
        other => panic!("expected an iDEAL block, got {other:?}"),
    }
}

#[test]
fn authorize_ideal_missing_bank_name() {
    let req = base_request(PaymentMethodData::BankRedirect(BankRedirectData::Ideal {
        bank_name: None,
    }));
    match build_authorize_request(&req) {
        Err(ConnectorError::MissingRequiredField { field_name }) => {
            assert_eq!(field_name, "ideal.bank_name")
        }
        other => panic!("expected MissingRequiredField, got {other:?}"),
    }
}

#[test]
fn authorize_ideal_unsupported_bank_not_supported() {
    let req = base_request(PaymentMethodData::BankRedirect(BankRedirectData::Ideal {
        bank_name: Some(BankNames::Barclays),
    }));
    match build_authorize_request(&req) {
        Err(ConnectorError::NotSupported { message, connector }) => {
            assert_eq!(message, "BankRedirect");
            assert_eq!(connector, "Multisafepay");
        }
        other => panic!("expected NotSupported, got {other:?}"),
    }
}

#[test]
fn bank_catalog_roundtrip_is_identity() {
    let supported = vec![
        BankNames::AbnAmro,
        BankNames::AsnBank,
        BankNames::Bunq,
        BankNames::Ing,
        BankNames::Knab,
        BankNames::N26,
        BankNames::NationaleNederlanden,
        BankNames::Rabobank,
        BankNames::Regiobank,
        BankNames::Revolut,
        BankNames::SnsBank,
        BankNames::TriodosBank,
        BankNames::VanLanschot,
        BankNames::Yoursafe,
        BankNames::Handelsbanken,
    ];
    for bank in supported {
        let vendor = bank_names_try_from(&bank).expect("catalog entry must map");
        assert_eq!(vendor.to_canonical(), bank);
    }
    assert!(matches!(
        bank_names_try_from(&BankNames::Chase),
        Err(ConnectorError::NotSupported { .. })
    ));
}

#[test]
fn authorize_klarna_uses_billing_email() {
    let req = base_request(PaymentMethodData::PayLater(PayLaterData::KlarnaRedirect));
    let built = build_authorize_request(&req).expect("klarna must build");
    assert_eq!(built.payment_type, Type::Redirect);
    assert_eq!(built.gateway, Some(Gateway::Klarna));
    match built.gateway_info {
        Some(GatewayInfo::PayLater(info)) => {
            assert_eq!(info.email.as_deref(), Some("billing@example.com"))
        }
        other => panic!("expected a pay-later block, got {other:?}"),
    }

    let mut req = base_request(PaymentMethodData::PayLater(PayLaterData::KlarnaRedirect));
    req.billing_email = None;
    match build_authorize_request(&req) {
        Err(ConnectorError::MissingRequiredField { field_name }) => assert_eq!(field_name, "email"),
        other => panic!("expected MissingRequiredField, got {other:?}"),
    }

    let req = base_request(PaymentMethodData::PayLater(PayLaterData::AffirmRedirect));
    assert!(matches!(
        build_authorize_request(&req),
        Err(ConnectorError::NotImplemented(_))
    ));
}

#[test]
fn authorize_paypal_redirect_has_no_gateway_info() {
    let req = base_request(PaymentMethodData::Wallet(WalletData::PaypalRedirect));
    let built = build_authorize_request(&req).expect("paypal must build");
    assert_eq!(built.payment_type, Type::Redirect);
    assert_eq!(built.gateway, Some(Gateway::Paypal));
    assert_eq!(built.gateway_info, None);
}

#[test]
fn authorize_google_pay_token() {
    let req = base_request(PaymentMethodData::Wallet(WalletData::GooglePay(GooglePayData {
        token: "tok_abc".to_string(),
    })));
    let built = build_authorize_request(&req).expect("google pay must build");
    assert_eq!(built.payment_type, Type::Direct);
    assert_eq!(built.gateway, Some(Gateway::Googlepay));
    match built.gateway_info {
        Some(GatewayInfo::Wallet(WalletInfo::GooglePay(info))) => {
            assert_eq!(info.payment_token.as_deref(), Some("tok_abc"))
        }
        other => panic!("expected a google pay block, got {other:?}"),
    }
}

#[test]
fn authorize_mandate_payment_and_recurring_id() {
    let mut req = base_request(PaymentMethodData::MandatePayment);
    req.is_mandate_payment = true;
    req.mandate_reference_id = Some(MandateReferenceId::ConnectorMandateId(Some(
        "mandate_77".to_string(),
    )));
    let built = build_authorize_request(&req).expect("mandate payment must build");
    assert_eq!(built.payment_type, Type::Direct);
    assert_eq!(built.gateway, None);
    assert_eq!(built.gateway_info, None);
    assert_eq!(built.recurring_model, Some(MandateType::Unscheduled));
    assert_eq!(built.recurring_id.as_deref(), Some("mandate_77"));

    let mut req = base_request(PaymentMethodData::MandatePayment);
    req.mandate_reference_id = Some(MandateReferenceId::NetworkMandateId("net_1".to_string()));
    let built = build_authorize_request(&req).expect("mandate payment must build");
    assert_eq!(built.recurring_model, None);
    assert_eq!(built.recurring_id, None);
}

#[test]
fn card_expiry_yymm_encoding() {
    let mut card = visa_card();
    card.card_exp_year = "2025".to_string();
    card.card_exp_month = "09".to_string();
    let req = base_request(PaymentMethodData::Card(card));
    let built = build_authorize_request(&req).unwrap();
    match built.gateway_info {
        Some(GatewayInfo::Card(info)) => assert_eq!(info.card_expiry_date, Some(2509)),
        _ => unreachable!(),
    }

    let mut card = visa_card();
    card.card_exp_year = "25".to_string();
    card.card_exp_month = "9".to_string();
    let req = base_request(PaymentMethodData::Card(card));
    let built = build_authorize_request(&req).unwrap();
    match built.gateway_info {
        Some(GatewayInfo::Card(info)) => assert_eq!(info.card_expiry_date, Some(259)),
        _ => unreachable!(),
    }

    let mut card = visa_card();
    card.card_exp_year = "20xy".to_string();
    card.card_exp_month = "09".to_string();
    let req = base_request(PaymentMethodData::Card(card));
    let built = build_authorize_request(&req).unwrap();
    match built.gateway_info {
        Some(GatewayInfo::Card(info)) => assert_eq!(info.card_expiry_date, Some(0)),
        _ => unreachable!(),
    }
}

fn success_response(
    status: Option<MultisafepayPaymentStatus>,
    success: bool,
    payment_url: Option<&str>,
) -> MultisafepayAuthResponse {
    MultisafepayAuthResponse::PaymentResponse(Box::new(MultisafepayPaymentsResponse {
        success,
        data: Data {
            payment_type: None,
            order_id: "ord_1".to_string(),
            currency: Some("EUR".to_string()),
            amount: Some(1000),
            description: None,
            capture: None,
            payment_url: payment_url.map(|u| u.to_string()),
            status,
            reason: None,
            reason_code: None,
            payment_details: None,
        },
    }))
}

#[test]
fn parse_authorize_completed_is_charged() {
    let resp = success_response(
        Some(MultisafepayPaymentStatus::Completed),
        true,
        Some("https://pay.example/redirect"),
    );
    let outcome = parse_authorize_response(resp, 200);
    assert_eq!(outcome.status, Some(AttemptStatus::Charged));
    let data = outcome.response.expect("charged is a success");
    assert_eq!(
        data.resource_id,
        ResponseId::ConnectorTransactionId("ord_1".to_string())
    );
    let redirect = data.redirection_data.expect("payment url present");
    assert_eq!(redirect.url, "https://pay.example/redirect");
    assert_eq!(redirect.method, HttpMethod::Get);
    assert_eq!(data.connector_response_reference_id.as_deref(), Some("ord_1"));
    assert_eq!(data.mandate_reference, None);
}

#[test]
fn parse_authorize_defaults_on_missing_status() {
    let outcome = parse_authorize_response(success_response(None, true, None), 200);
    assert_eq!(outcome.status, Some(AttemptStatus::AuthenticationPending));
    assert!(outcome.response.is_ok());

    let outcome = parse_authorize_response(success_response(None, false, None), 200);
    assert_eq!(outcome.status, Some(AttemptStatus::Failure));
    let err = outcome.response.expect_err("declined is a failure");
    assert_eq!(err.code, "NO_ERROR_CODE");
    assert_eq!(err.message, "NO_ERROR_MESSAGE");
    assert_eq!(err.reason, None);
    assert_eq!(err.status_code, 200);
    assert_eq!(err.attempt_status, Some(AttemptStatus::Failure));
    assert_eq!(err.connector_transaction_id.as_deref(), Some("ord_1"));
}

#[test]
fn parse_authorize_is_idempotent() {
    let resp = success_response(Some(MultisafepayPaymentStatus::Uncleared), true, None);
    let first: AuthorizeOutcome = parse_authorize_response(resp.clone(), 201);
    let second: AuthorizeOutcome = parse_authorize_response(resp, 201);
    assert_eq!(first, second);
}

#[test]
fn parse_authorize_extracts_mandate_reference() {
    let resp = MultisafepayAuthResponse::PaymentResponse(Box::new(MultisafepayPaymentsResponse {
        success: true,
        data: Data {
            payment_type: None,
            order_id: "ord_2".to_string(),
            currency: None,
            amount: None,
            description: None,
            capture: None,
            payment_url: None,
            status: Some(MultisafepayPaymentStatus::Completed),
            reason: None,
            reason_code: None,
            payment_details: Some(MultisafepayPaymentDetails {
                account_holder_name: None,
                account_id: None,
                card_expiry_date: None,
                external_transaction_id: None,
                last4: None,
                recurring_flow: None,
                recurring_id: Some("rec_9".to_string()),
                recurring_model: None,
                payment_type: None,
            }),
        },
    }));
    let outcome = parse_authorize_response(resp, 200);
    let data = outcome.response.expect("completed is a success");
    let mandate = data.mandate_reference.expect("recurring id present");
    assert_eq!(mandate.connector_mandate_id.as_deref(), Some("rec_9"));
}

#[test]
fn parse_authorize_error_code_1017_is_authorization_failed() {
    let resp = MultisafepayAuthResponse::ErrorResponse(MultisafepayErrorResponse {
        error_code: 1017,
        error_info: "insufficient funds".to_string(),
    });
    let outcome = parse_authorize_response(resp, 402);
    assert_eq!(outcome.status, None);
    let err = outcome.response.expect_err("error shape is a failure");
    assert_eq!(err.code, "1017");
    assert_eq!(err.message, "insufficient funds");
    assert_eq!(err.reason.as_deref(), Some("insufficient funds"));
    assert_eq!(err.status_code, 402);
    assert_eq!(err.attempt_status, Some(AttemptStatus::AuthorizationFailed));
    assert_eq!(err.connector_transaction_id, None);
}

#[test]
fn parse_authorize_empty_vendor_strings_get_sentinels() {
    let resp = MultisafepayAuthResponse::PaymentResponse(Box::new(MultisafepayPaymentsResponse {
        success: false,
        data: Data {
            payment_type: None,
            order_id: "ord_3".to_string(),
            currency: None,
            amount: None,
            description: None,
            capture: None,
            payment_url: None,
            status: None,
            reason: Some(String::new()),
            reason_code: Some(String::new()),
            payment_details: None,
        },
    }));
    let outcome = parse_authorize_response(resp, 200);
    let err = outcome.response.expect_err("declined is a failure");
    assert_eq!(err.code, "NO_ERROR_CODE");
    assert_eq!(err.message, "NO_ERROR_MESSAGE");
    assert_eq!(err.reason.as_deref(), Some(""));
}

#[test]
fn parse_authorize_error_empty_info_gets_sentinel_message() {
    let resp = MultisafepayAuthResponse::ErrorResponse(MultisafepayErrorResponse {
        error_code: 9999,
        error_info: String::new(),
    });
    let outcome = parse_authorize_response(resp, 500);
    let err = outcome.response.expect_err("error shape is a failure");
    assert_eq!(err.code, "9999");
    assert_eq!(err.message, "NO_ERROR_MESSAGE");
}

#[test]
fn parse_refund_error_empty_info_gets_sentinel_message() {
    let resp = MultisafepayRefundResponse::ErrorResponse(MultisafepayErrorResponse {
        error_code: 1034,
        error_info: String::new(),
    });
    let err = parse_refund_response(resp.clone(), 400).expect_err("error shape");
    assert_eq!(err.code, "1034");
    assert_eq!(err.message, "NO_ERROR_MESSAGE");

    let err = parse_refund_sync_response(resp, 400).expect_err("error shape");
    assert_eq!(err.code, "1034");
    assert_eq!(err.message, "NO_ERROR_MESSAGE");
    assert_eq!(err.attempt_status, None);
}

#[test]
fn error_code_lookup_table() {
    let lookup = |code: i32| {
        MultisafepayErrorResponse {
            error_code: code,
            error_info: String::new(),
        }
        .attempt_status()
    };
    assert_eq!(lookup(1017), Some(AttemptStatus::AuthorizationFailed));
    assert_eq!(lookup(10001), Some(AttemptStatus::AuthenticationFailed));
    assert_eq!(lookup(1032), Some(AttemptStatus::AuthenticationFailed));
    assert_eq!(lookup(1024), Some(AttemptStatus::Failure));
    assert_eq!(lookup(1034), Some(AttemptStatus::Failure));
    assert_eq!(lookup(9999), None);
    assert_eq!(lookup(0), None);
    assert_eq!(lookup(-1), None);
}

#[test]
fn vendor_status_normalization() {
    assert_eq!(
        attempt_status_from(MultisafepayPaymentStatus::Completed),
        AttemptStatus::Charged
    );
    assert_eq!(
        attempt_status_from(MultisafepayPaymentStatus::Declined),
        AttemptStatus::Failure
    );
    assert_eq!(
        attempt_status_from(MultisafepayPaymentStatus::Initialized),
        AttemptStatus::AuthenticationPending
    );
    assert_eq!(
        attempt_status_from(MultisafepayPaymentStatus::Uncleared),
        AttemptStatus::Pending
    );
    assert_eq!(
        attempt_status_from(MultisafepayPaymentStatus::Void),
        AttemptStatus::Voided
    );
}

#[test]
fn auth_type_requires_header_key() {
    let auth = MultisafepayAuthType::try_from_auth(&ConnectorAuthType::HeaderKey {
        api_key: "k1".to_string(),
    })
    .expect("header key is the accepted shape");
    assert_eq!(auth.api_key, "k1");
    assert!(matches!(
        MultisafepayAuthType::try_from_auth(&ConnectorAuthType::BodyKey {
            api_key: "k1".to_string(),
            key1: "k2".to_string(),
        }),
        Err(ConnectorError::FailedToObtainAuthType)
    ));
}

#[test]
fn gateway_from_issuer() {
    assert_eq!(
        gateway_try_from_issuer(CardIssuer::AmericanExpress).unwrap(),
        Gateway::Amex
    );
    assert_eq!(gateway_try_from_issuer(CardIssuer::Master).unwrap(), Gateway::MasterCard);
    assert!(matches!(
        gateway_try_from_issuer(CardIssuer::JCB),
        Err(ConnectorError::NotImplemented(_))
    ));
}

#[test]
fn wire_names() {
    assert_eq!(Type::Direct.wire_name(), "direct");
    assert_eq!(Type::Redirect.wire_name(), "redirect");
    assert_eq!(Gateway::WeChatPay.wire_name(), "WECHAT");
    assert_eq!(Gateway::Sofort.wire_name(), "DIRECTBANK");
    assert_eq!(Gateway::MasterCard.wire_name(), "MASTERCARD");
    assert_eq!(MandateType::Unscheduled.wire_name(), "unscheduled");
    assert_eq!(MultisafepayBankNames::AbnAmro.issuer_code(), "0031");
    assert_eq!(MultisafepayBankNames::Handelsbanken.issuer_code(), "1235");
}

#[test]
fn validate_canonical_request() {
    let ok = base_request(PaymentMethodData::Card(visa_card()));
    assert!(ok.validate().is_ok());

    let mut bad = base_request(PaymentMethodData::Card(visa_card()));
    bad.amount = 0;
    match bad.validate() {
        Err(ConnectorError::MissingRequiredField { field_name }) => {
            assert_eq!(field_name, "amount")
        }
        other => panic!("expected MissingRequiredField, got {other:?}"),
    }

    let mut bad = base_request(PaymentMethodData::Card(visa_card()));
    bad.currency = String::new();
    match bad.validate() {
        Err(ConnectorError::MissingRequiredField { field_name }) => {
            assert_eq!(field_name, "currency")
        }
        other => panic!("expected MissingRequiredField, got {other:?}"),
    }
}

#[test]
fn refund_request_mapping() {
    let item = RefundRequestData {
        amount: 500,
        currency: "EUR".to_string(),
        refund_id: "ref_9".to_string(),
        description: Some("partial".to_string()),
    };
    let built = build_refund_request(&item);
    assert_eq!(built.currency, "EUR");
    assert_eq!(built.amount, 500);
    assert_eq!(built.description.as_deref(), Some("partial"));
    assert_eq!(built.refund_order_id.as_deref(), Some("ref_9"));
}

fn refund_success(success: bool, refund_id: i64) -> MultisafepayRefundResponse {
    MultisafepayRefundResponse::RefundResponse(RefundResponse {
        success,
        data: RefundData {
            transaction_id: 42,
            refund_id,
            order_id: Some("ord_1".to_string()),
            error_code: None,
            error_info: None,
        },
    })
}

#[test]
fn parse_refund_success_and_failure() {
    let ok = parse_refund_response(refund_success(true, 12345), 200).expect("success shape");
    assert_eq!(ok.connector_refund_id, "12345");
    assert_eq!(ok.refund_status, CanonicalRefundStatus::Success);

    let failed = parse_refund_response(refund_success(false, -5), 200).expect("success shape");
    assert_eq!(failed.connector_refund_id, "-5");
    assert_eq!(failed.refund_status, CanonicalRefundStatus::Failure);
}

#[test]
fn parse_refund_error_carries_attempt_status() {
    let resp = MultisafepayRefundResponse::ErrorResponse(MultisafepayErrorResponse {
        error_code: 1017,
        error_info: "insufficient funds".to_string(),
    });
    let err = parse_refund_response(resp, 400).expect_err("error shape");
    assert_eq!(err.code, "1017");
    assert_eq!(err.message, "insufficient funds");
    assert_eq!(err.reason.as_deref(), Some("insufficient funds"));
    assert_eq!(err.status_code, 400);
    assert_eq!(err.attempt_status, Some(AttemptStatus::AuthorizationFailed));
}

#[test]
fn parse_refund_sync_error_has_no_attempt_status() {
    let resp = MultisafepayRefundResponse::ErrorResponse(MultisafepayErrorResponse {
        error_code: 1017,
        error_info: "insufficient funds".to_string(),
    });
    let err = parse_refund_sync_response(resp, 400).expect_err("error shape");
    assert_eq!(err.code, "1017");
    assert_eq!(err.attempt_status, None);
}

#[test]
fn refund_status_normalization() {
    assert_eq!(refund_status_from(RefundStatus::Succeeded), CanonicalRefundStatus::Success);
    assert_eq!(refund_status_from(RefundStatus::Failed), CanonicalRefundStatus::Failure);
    assert_eq!(refund_status_from(RefundStatus::Processing), CanonicalRefundStatus::Pending);
}

#[test]
fn dispatch_selects_adapter_and_never_panics() {
    assert_eq!(connector_by_id("multisafepay").unwrap(), ConnectorKind::Multisafepay);
    assert!(matches!(
        connector_by_id("no_such_vendor"),
        Err(ConnectorError::ConnectorNotFound)
    ));

    let req = base_request(PaymentMethodData::Card(visa_card()));
    let built = dispatch_build_authorize(ConnectorKind::Multisafepay, &req).unwrap();
    match built {
        VendorRequest::Multisafepay(inner) => assert_eq!(inner.order_id, "ref_123"),
    }
}
