//! The Multisafepay authorize flow: mapping the canonical authorize request
//! to the vendor request body, and normalizing the vendor response into a
//! canonical status plus either a transaction result or the canonical error
//! envelope.
//!
//! Every canonical payment-method variant is classified individually: the
//! variants this vendor can process get a flow type and gateway, and every
//! other variant is rejected with `NotImplemented` — never defaulted.

use vstd::prelude::*;

use crate::canonical::{
    AddressDetails, AttemptStatus, AuthorizeRequest, BankRedirectData, Card, HttpMethod,
    MandateReferenceId, PayLaterData, PaymentMethodData, PaymentsResponseData,
    PaymentsResponseDataV, RedirectForm, RedirectFormV, ResponseId, ResponseIdV, WalletData,
    ErrorResponse, ErrorResponseV, MandateReference, MandateReferenceV,
    spec_is_payment_failure, is_payment_failure,
};
use crate::errors::{
    ConnectorError, ConnectorErrorV, spec_unimplemented_method_message,
    unimplemented_method_message,
};
use crate::multisafepay::{
    spec_attempt_status, spec_attempt_status_for_error_code, spec_gateway_for_issuer,
    spec_populate_error_reason, spec_vendor_bank, attempt_status_from, bank_names_try_from,
    gateway_try_from_issuer, populate_error_reason, BankRedirectInfo, BankRedirectInfoV, CardInfo,
    CardInfoV, Customer, CustomerV, Data, EpsInfo, Gateway, GatewayInfo, GatewayInfoV, GpayInfo,
    GpayInfoV, IdealInfo, MandateType, MbWayInfo, MultisafepayAuthResponse,
    MultisafepayErrorResponse, MultisafepayPaymentsRequest, MultisafepayPaymentsRequestV,
    MultisafepayPaymentsResponse, PayLaterInfo, PayLaterInfoV, PaymentOptions, PaymentOptionsV,
    DeliveryObject, DeliveryObjectV, SofortInfo, TrustlyInfo, Type, WalletInfo, WalletInfoV,
    AlipayInfo, WeChatPayInfo,
};
use crate::text::{
    spec_parse_i32_or_zero, spec_suffix_chars, spec_idec, i32_to_string, last_two_chars,
    parse_i32_digits_or_zero,
};

verus! {

/// The flow type (direct charge vs redirect) for each canonical
/// payment-method variant; `None` for variants this vendor cannot process.
pub open spec fn spec_payment_type(pmd: PaymentMethodData) -> Option<Type> {
    match pmd {
        PaymentMethodData::Card(_) => Some(Type::Direct),
        PaymentMethodData::MandatePayment => Some(Type::Direct),
        PaymentMethodData::Wallet(w) => match w {
            WalletData::GooglePay(_) => Some(Type::Direct),
            WalletData::PaypalRedirect => Some(Type::Redirect),
            WalletData::AliPayRedirect => Some(Type::Redirect),
            WalletData::WeChatPayRedirect => Some(Type::Redirect),
            WalletData::MbWayRedirect => Some(Type::Redirect),
            WalletData::AliPayQr
            | WalletData::AliPayHkRedirect
            | WalletData::AmazonPayRedirect
            | WalletData::Paysera
            | WalletData::Skrill
            | WalletData::MomoRedirect
            | WalletData::KakaoPayRedirect
            | WalletData::GoPayRedirect
            | WalletData::GcashRedirect
            | WalletData::ApplePay
            | WalletData::ApplePayRedirect
            | WalletData::ApplePayThirdPartySdk
            | WalletData::DanaRedirect
            | WalletData::GooglePayRedirect
            | WalletData::GooglePayThirdPartySdk
            | WalletData::MobilePayRedirect
            | WalletData::PaypalSdk
            | WalletData::Paze
            | WalletData::SamsungPay
            | WalletData::TwintRedirect
            | WalletData::VippsRedirect
            | WalletData::TouchNGoRedirect
            | WalletData::WeChatPayQr
            | WalletData::CashappQr
            | WalletData::SwishQr
            | WalletData::Mifinity
            | WalletData::RevolutPay => None,
        },
        PaymentMethodData::BankRedirect(b) => match b {
            BankRedirectData::Giropay => Some(Type::Redirect),
            BankRedirectData::Ideal { .. } => Some(Type::Direct),
            BankRedirectData::Trustly => Some(Type::Redirect),
            BankRedirectData::Eps => Some(Type::Redirect),
            BankRedirectData::Sofort => Some(Type::Redirect),
            BankRedirectData::BancontactCard
            | BankRedirectData::Bizum
            | BankRedirectData::Blik
            | BankRedirectData::Eft
            | BankRedirectData::Interac
            | BankRedirectData::OnlineBankingCzechRepublic
            | BankRedirectData::OnlineBankingFinland
            | BankRedirectData::OnlineBankingPoland
            | BankRedirectData::OnlineBankingSlovakia
            | BankRedirectData::OpenBankingUk
            | BankRedirectData::Przelewy24
            | BankRedirectData::OnlineBankingFpx
            | BankRedirectData::OnlineBankingThailand
            | BankRedirectData::LocalBankRedirect => None,
        },
        PaymentMethodData::PayLater(_) => Some(Type::Redirect),
        _ => Some(Type::Redirect),
    }
}

/// The vendor gateway for each canonical payment-method variant.
/// `Ok(None)` means the vendor chooses (mandate replays); an error means the
/// variant has no mapping for this vendor.
pub open spec fn spec_gateway(pmd: PaymentMethodData) -> Result<Option<Gateway>, ConnectorErrorV> {
    match pmd {
        PaymentMethodData::Card(c) => match spec_gateway_for_issuer(c.card_issuer) {
            Some(g) => Ok(Some(g)),
            None => Err(
                ConnectorErrorV::NotImplemented(
                    spec_unimplemented_method_message("Multisafe pay"@),
                ),
            ),
        },
        PaymentMethodData::Wallet(w) => match w {
            WalletData::GooglePay(_) => Ok(Some(Gateway::Googlepay)),
            WalletData::PaypalRedirect => Ok(Some(Gateway::Paypal)),
            WalletData::AliPayRedirect => Ok(Some(Gateway::Alipay)),
            WalletData::WeChatPayRedirect => Ok(Some(Gateway::WeChatPay)),
            WalletData::MbWayRedirect => Ok(Some(Gateway::MbWay)),
            WalletData::AliPayQr
            | WalletData::AliPayHkRedirect
            | WalletData::AmazonPayRedirect
            | WalletData::Paysera
            | WalletData::Skrill
            | WalletData::MomoRedirect
            | WalletData::KakaoPayRedirect
            | WalletData::GoPayRedirect
            | WalletData::GcashRedirect
            | WalletData::ApplePay
            | WalletData::ApplePayRedirect
            | WalletData::ApplePayThirdPartySdk
            | WalletData::DanaRedirect
            | WalletData::GooglePayRedirect
            | WalletData::GooglePayThirdPartySdk
            | WalletData::MobilePayRedirect
            | WalletData::PaypalSdk
            | WalletData::Paze
            | WalletData::SamsungPay
            | WalletData::TwintRedirect
            | WalletData::VippsRedirect
            | WalletData::TouchNGoRedirect
            | WalletData::WeChatPayQr
            | WalletData::CashappQr
            | WalletData::SwishQr
            | WalletData::Mifinity
            | WalletData::RevolutPay => Err(
                ConnectorErrorV::NotImplemented(spec_unimplemented_method_message("multisafepay"@)),
            ),
        },
        PaymentMethodData::BankRedirect(b) => match b {
            BankRedirectData::Giropay => Ok(Some(Gateway::Giropay)),
            BankRedirectData::Ideal { .. } => Ok(Some(Gateway::Ideal)),
            BankRedirectData::Trustly => Ok(Some(Gateway::Trustly)),
            BankRedirectData::Eps => Ok(Some(Gateway::Eps)),
            BankRedirectData::Sofort => Ok(Some(Gateway::Sofort)),
            BankRedirectData::BancontactCard
            | BankRedirectData::Bizum
            | BankRedirectData::Blik
            | BankRedirectData::Eft
            | BankRedirectData::Interac
            | BankRedirectData::OnlineBankingCzechRepublic
            | BankRedirectData::OnlineBankingFinland
            | BankRedirectData::OnlineBankingPoland
            | BankRedirectData::OnlineBankingSlovakia
            | BankRedirectData::OpenBankingUk
            | BankRedirectData::Przelewy24
            | BankRedirectData::OnlineBankingFpx
            | BankRedirectData::OnlineBankingThailand
            | BankRedirectData::LocalBankRedirect => Err(
                ConnectorErrorV::NotImplemented(spec_unimplemented_method_message("multisafepay"@)),
            ),
        },
        PaymentMethodData::PayLater(p) => match p {
            PayLaterData::KlarnaRedirect => Ok(Some(Gateway::Klarna)),
            PayLaterData::KlarnaSdk
            | PayLaterData::AffirmRedirect
            | PayLaterData::AfterpayClearpayRedirect
            | PayLaterData::PayBrightRedirect
            | PayLaterData::WalleyRedirect
            | PayLaterData::AlmaRedirect
            | PayLaterData::AtomeRedirect
            | PayLaterData::BreadpayRedirect => Err(
                ConnectorErrorV::NotImplemented(spec_unimplemented_method_message("multisafepay"@)),
            ),
        },
        PaymentMethodData::MandatePayment => Ok(None),
        PaymentMethodData::CardRedirect
        | PaymentMethodData::BankDebit
        | PaymentMethodData::BankTransfer
        | PaymentMethodData::Crypto
        | PaymentMethodData::Reward
        | PaymentMethodData::RealTimePayment
        | PaymentMethodData::MobilePayment
        | PaymentMethodData::Upi
        | PaymentMethodData::Voucher
        | PaymentMethodData::GiftCard
        | PaymentMethodData::OpenBanking
        | PaymentMethodData::CardToken
        | PaymentMethodData::NetworkToken
        | PaymentMethodData::CardDetailsForNetworkTransactionId => Err(
            ConnectorErrorV::NotImplemented(spec_unimplemented_method_message("multisafepay"@)),
        ),
    }
}

/// Whether this vendor can process the canonical payment-method variant at
/// all (both a flow type and a gateway mapping exist).
pub open spec fn spec_method_supported(pmd: PaymentMethodData) -> bool {
    spec_payment_type(pmd) is Some && spec_gateway(pmd) is Ok
}

/// The vendor `yymm` card-expiry encoding: the final two digits of the year
/// followed by the month, read as a decimal number, zero when malformed.
pub open spec fn spec_card_expiry(c: Card) -> i32 {
    spec_parse_i32_or_zero(spec_suffix_chars(c.card_exp_year@, 2) + c.card_exp_month@)
}

/// The card block of the vendor request.
pub open spec fn spec_card_info(c: Card) -> CardInfoV {
    CardInfoV {
        card_number: Some(c.card_number@),
        card_holder_name: None,
        card_expiry_date: Some(spec_card_expiry(c)),
        card_cvc: Some(c.card_cvc@),
        flexible_3d: None,
        moto: None,
        term_url: None,
    }
}

/// The gateway-specific block of the vendor request for each canonical
/// payment-method variant, or the error that rejects the request.
pub open spec fn spec_gateway_info(
    pmd: PaymentMethodData,
    billing_email: Option<Seq<char>>,
) -> Result<Option<GatewayInfoV>, ConnectorErrorV> {
    match pmd {
        PaymentMethodData::Card(c) => Ok(Some(GatewayInfoV::Card(spec_card_info(c)))),
        PaymentMethodData::Wallet(w) => match w {
            WalletData::GooglePay(g) => Ok(
                Some(
                    GatewayInfoV::Wallet(
                        WalletInfoV::GooglePay(GpayInfoV { payment_token: Some(g.token@) }),
                    ),
                ),
            ),
            WalletData::AliPayRedirect => Ok(Some(GatewayInfoV::Wallet(WalletInfoV::Alipay))),
            WalletData::PaypalRedirect => Ok(None),
            WalletData::WeChatPayRedirect => Ok(Some(GatewayInfoV::Wallet(WalletInfoV::WeChatPay))),
            WalletData::MbWayRedirect => Ok(Some(GatewayInfoV::Wallet(WalletInfoV::MbWay))),
            WalletData::AliPayQr
            | WalletData::AliPayHkRedirect
            | WalletData::AmazonPayRedirect
            | WalletData::Paysera
            | WalletData::Skrill
            | WalletData::MomoRedirect
            | WalletData::KakaoPayRedirect
            | WalletData::GoPayRedirect
            | WalletData::GcashRedirect
            | WalletData::ApplePay
            | WalletData::ApplePayRedirect
            | WalletData::ApplePayThirdPartySdk
            | WalletData::DanaRedirect
            | WalletData::GooglePayRedirect
            | WalletData::GooglePayThirdPartySdk
            | WalletData::MobilePayRedirect
            | WalletData::PaypalSdk
            | WalletData::Paze
            | WalletData::SamsungPay
            | WalletData::TwintRedirect
            | WalletData::VippsRedirect
            | WalletData::TouchNGoRedirect
            | WalletData::WeChatPayQr
            | WalletData::CashappQr
            | WalletData::SwishQr
            | WalletData::Mifinity
            | WalletData::RevolutPay => Err(
                ConnectorErrorV::NotImplemented(spec_unimplemented_method_message("multisafepay"@)),
            ),
        },
        PaymentMethodData::PayLater(p) => match p {
            PayLaterData::KlarnaRedirect => match billing_email {
                Some(e) => Ok(
                    Some(GatewayInfoV::PayLater(PayLaterInfoV { email: Some(e) })),
                ),
                None => Err(ConnectorErrorV::MissingRequiredField { field_name: "email"@ }),
            },
            PayLaterData::KlarnaSdk
            | PayLaterData::AffirmRedirect
            | PayLaterData::AfterpayClearpayRedirect
            | PayLaterData::PayBrightRedirect
            | PayLaterData::WalleyRedirect
            | PayLaterData::AlmaRedirect
            | PayLaterData::AtomeRedirect
            | PayLaterData::BreadpayRedirect => Err(
                ConnectorErrorV::NotImplemented(spec_unimplemented_method_message("multisafepay"@)),
            ),
        },
        PaymentMethodData::BankRedirect(b) => match b {
            BankRedirectData::Ideal { bank_name } => match bank_name {
                None => Err(
                    ConnectorErrorV::MissingRequiredField { field_name: "ideal.bank_name"@ },
                ),
                Some(bn) => match spec_vendor_bank(bn) {
                    Some(v) => Ok(
                        Some(
                            GatewayInfoV::BankRedirect(BankRedirectInfoV::Ideal { issuer_id: v }),
                        ),
                    ),
                    None => Err(
                        ConnectorErrorV::NotSupported {
                            message: "BankRedirect"@,
                            connector: "Multisafepay"@,
                        },
                    ),
                },
            },
            BankRedirectData::Trustly => Ok(
                Some(GatewayInfoV::BankRedirect(BankRedirectInfoV::Trustly)),
            ),
            BankRedirectData::Eps => Ok(Some(GatewayInfoV::BankRedirect(BankRedirectInfoV::Eps))),
            BankRedirectData::Sofort => Ok(
                Some(GatewayInfoV::BankRedirect(BankRedirectInfoV::Sofort)),
            ),
            BankRedirectData::BancontactCard
            | BankRedirectData::Bizum
            | BankRedirectData::Blik
            | BankRedirectData::Eft
            | BankRedirectData::Giropay
            | BankRedirectData::Interac
            | BankRedirectData::OnlineBankingCzechRepublic
            | BankRedirectData::OnlineBankingFinland
            | BankRedirectData::OnlineBankingPoland
            | BankRedirectData::OnlineBankingSlovakia
            | BankRedirectData::OpenBankingUk
            | BankRedirectData::Przelewy24
            | BankRedirectData::OnlineBankingFpx
            | BankRedirectData::OnlineBankingThailand
            | BankRedirectData::LocalBankRedirect => Ok(None),
        },
        PaymentMethodData::MandatePayment => Ok(None),
        PaymentMethodData::CardRedirect
        | PaymentMethodData::BankDebit
        | PaymentMethodData::BankTransfer
        | PaymentMethodData::Crypto
        | PaymentMethodData::Reward
        | PaymentMethodData::RealTimePayment
        | PaymentMethodData::MobilePayment
        | PaymentMethodData::Upi
        | PaymentMethodData::Voucher
        | PaymentMethodData::GiftCard
        | PaymentMethodData::OpenBanking
        | PaymentMethodData::CardToken
        | PaymentMethodData::NetworkToken
        | PaymentMethodData::CardDetailsForNetworkTransactionId => Err(
            ConnectorErrorV::NotImplemented(spec_unimplemented_method_message("multisafepay"@)),
        ),
    }
}

/// The shipping block of the vendor request, taken field by field from the
/// canonical billing address; each absent required field is reported by
/// name, and an absent last name falls back to the first name.
pub open spec fn spec_delivery(a: AddressDetails) -> Result<DeliveryObjectV, ConnectorErrorV> {
    match a.first_name {
        None => Err(ConnectorErrorV::MissingRequiredField { field_name: "address.first_name"@ }),
        Some(first_name) => match a.line1 {
            None => Err(ConnectorErrorV::MissingRequiredField { field_name: "address.line1"@ }),
            Some(line1) => match a.line2 {
                None => Err(ConnectorErrorV::MissingRequiredField { field_name: "address.line2"@ }),
                Some(line2) => match a.zip {
                    None => Err(
                        ConnectorErrorV::MissingRequiredField { field_name: "address.zip"@ },
                    ),
                    Some(zip) => match a.city {
                        None => Err(
                            ConnectorErrorV::MissingRequiredField { field_name: "address.city"@ },
                        ),
                        Some(city) => match a.country {
                            None => Err(
                                ConnectorErrorV::MissingRequiredField {
                                    field_name: "address.country"@,
                                },
                            ),
                            Some(country) => Ok(
                                DeliveryObjectV {
                                    first_name: first_name@,
                                    last_name: match a.last_name {
                                        Some(l) => l@,
                                        None => first_name@,
                                    },
                                    address1: line1@,
                                    house_number: line2@,
                                    zip_code: zip@,
                                    city: city@,
                                    country: country@,
                                },
                            ),
                        },
                    },
                },
            },
        },
    }
}

/// The customer block: the payer email and the correlation reference; every
/// other field is left for the vendor to default.
pub open spec fn spec_customer(req: AuthorizeRequest) -> CustomerV {
    CustomerV {
        browser: None,
        locale: None,
        ip_address: None,
        forward_ip: None,
        first_name: None,
        last_name: None,
        gender: None,
        birthday: None,
        address1: None,
        address2: None,
        house_number: None,
        zip_code: None,
        city: None,
        state: None,
        country: None,
        phone: None,
        email: req.email.deep_view(),
        user_agent: None,
        referrer: None,
        reference: Some(req.connector_request_reference_id@),
    }
}

/// The payment options block: the return URL serves as both redirect and
/// cancel target.
pub open spec fn spec_payment_options(return_url: Seq<char>) -> PaymentOptionsV {
    PaymentOptionsV {
        notification_url: None,
        notification_method: None,
        redirect_url: return_url,
        cancel_url: return_url,
        close_window: None,
        settings: None,
        template_id: None,
        allowed_countries: None,
    }
}

/// The vendor-recorded mandate id to replay, when the canonical request
/// carries a connector mandate reference.
pub open spec fn spec_recurring_id(m: Option<MandateReferenceId>) -> Option<Seq<char>> {
    match m {
        Some(MandateReferenceId::ConnectorMandateId(cid)) => match cid {
            Some(s) => Some(s@),
            None => None,
        },
        _ => None,
    }
}

/// The full authorize mapping: the vendor request built from the canonical
/// request, or the first error of the cascade (unsupported method, then each
/// required field in order, then the gateway-specific block).
pub open spec fn spec_build_authorize(req: AuthorizeRequest) -> Result<
    MultisafepayPaymentsRequestV,
    ConnectorErrorV,
> {
    match spec_payment_type(req.payment_method_data) {
        None => Err(
            ConnectorErrorV::NotImplemented(spec_unimplemented_method_message("multisafepay"@)),
        ),
        Some(payment_type) => match spec_gateway(req.payment_method_data) {
            Err(e) => Err(e),
            Ok(gateway) => match req.description {
                None => Err(ConnectorErrorV::MissingRequiredField { field_name: "description"@ }),
                Some(description) => match req.return_url {
                    None => Err(
                        ConnectorErrorV::MissingRequiredField { field_name: "return_url"@ },
                    ),
                    Some(return_url) => match req.billing_address {
                        None => Err(
                            ConnectorErrorV::MissingRequiredField { field_name: "billing.address"@ },
                        ),
                        Some(addr) => match spec_delivery(addr) {
                            Err(e) => Err(e),
                            Ok(delivery) => match spec_gateway_info(
                                req.payment_method_data,
                                req.billing_email.deep_view(),
                            ) {
                                Err(e) => Err(e),
                                Ok(gateway_info) => Ok(
                                    MultisafepayPaymentsRequestV {
                                        payment_type,
                                        gateway,
                                        order_id: req.connector_request_reference_id@,
                                        currency: req.currency@,
                                        amount: req.amount,
                                        description: description@,
                                        payment_options: Some(spec_payment_options(return_url@)),
                                        customer: Some(spec_customer(req)),
                                        gateway_info,
                                        delivery: Some(delivery),
                                        items: None,
                                        recurring_model: if req.is_mandate_payment {
                                            Some(MandateType::Unscheduled)
                                        } else {
                                            None
                                        },
                                        recurring_id: spec_recurring_id(req.mandate_reference_id),
                                        capture: None,
                                        days_active: Some(30),
                                        seconds_active: Some(259200),
                                        var1: None,
                                        var2: None,
                                        var3: None,
                                    },
                                ),
                            },
                        },
                    },
                },
            },
        },
    }
}

/// Classifies the payment-method variant into the vendor's flow type.
fn payment_type_for(pmd: &PaymentMethodData) -> (r: Result<Type, ConnectorError>)
    ensures
        spec_payment_type(*pmd) matches Some(t) ==> r matches Ok(u) && u == t,
        spec_payment_type(*pmd) is None ==> (r matches Err(e) && e.deep_view()
            == ConnectorErrorV::NotImplemented(spec_unimplemented_method_message("multisafepay"@))),
{
    match pmd {
        PaymentMethodData::Card(_) => Ok(Type::Direct),
        PaymentMethodData::MandatePayment => Ok(Type::Direct),
        PaymentMethodData::Wallet(w) => match w {
            WalletData::GooglePay(_) => Ok(Type::Direct),
            WalletData::PaypalRedirect => Ok(Type::Redirect),
            WalletData::AliPayRedirect => Ok(Type::Redirect),
            WalletData::WeChatPayRedirect => Ok(Type::Redirect),
            WalletData::MbWayRedirect => Ok(Type::Redirect),
            WalletData::AliPayQr
            | WalletData::AliPayHkRedirect
            | WalletData::AmazonPayRedirect
            | WalletData::Paysera
            | WalletData::Skrill
            | WalletData::MomoRedirect
            | WalletData::KakaoPayRedirect
            | WalletData::GoPayRedirect
            | WalletData::GcashRedirect
            | WalletData::ApplePay
            | WalletData::ApplePayRedirect
            | WalletData::ApplePayThirdPartySdk
            | WalletData::DanaRedirect
            | WalletData::GooglePayRedirect
            | WalletData::GooglePayThirdPartySdk
            | WalletData::MobilePayRedirect
            | WalletData::PaypalSdk
            | WalletData::Paze
            | WalletData::SamsungPay
            | WalletData::TwintRedirect
            | WalletData::VippsRedirect
            | WalletData::TouchNGoRedirect
            | WalletData::WeChatPayQr
            | WalletData::CashappQr
            | WalletData::SwishQr
            | WalletData::Mifinity
            | WalletData::RevolutPay => Err(
                ConnectorError::NotImplemented(unimplemented_method_message("multisafepay")),
            ),
        },
        PaymentMethodData::BankRedirect(b) => match b {
            BankRedirectData::Giropay => Ok(Type::Redirect),
            BankRedirectData::Ideal { .. } => Ok(Type::Direct),
            BankRedirectData::Trustly => Ok(Type::Redirect),
            BankRedirectData::Eps => Ok(Type::Redirect),
            BankRedirectData::Sofort => Ok(Type::Redirect),
            BankRedirectData::BancontactCard
            | BankRedirectData::Bizum
            | BankRedirectData::Blik
            | BankRedirectData::Eft
            | BankRedirectData::Interac
            | BankRedirectData::OnlineBankingCzechRepublic
            | BankRedirectData::OnlineBankingFinland
            | BankRedirectData::OnlineBankingPoland
            | BankRedirectData::OnlineBankingSlovakia
            | BankRedirectData::OpenBankingUk
            | BankRedirectData::Przelewy24
            | BankRedirectData::OnlineBankingFpx
            | BankRedirectData::OnlineBankingThailand
            | BankRedirectData::LocalBankRedirect => Err(
                ConnectorError::NotImplemented(unimplemented_method_message("multisafepay")),
            ),
        },
        PaymentMethodData::PayLater(_) => Ok(Type::Redirect),
        _ => Ok(Type::Redirect),
    }
}

/// Selects the vendor gateway for the payment-method variant.
fn gateway_for(pmd: &PaymentMethodData) -> (r: Result<Option<Gateway>, ConnectorError>)
    ensures
        r matches Ok(g) ==> spec_gateway(*pmd) == Ok::<Option<Gateway>, ConnectorErrorV>(g),
        r matches Err(e) ==> spec_gateway(*pmd) == Err::<Option<Gateway>, ConnectorErrorV>(
            e.deep_view(),
        ),
{
    match pmd {
        PaymentMethodData::Card(c) => match gateway_try_from_issuer(c.card_issuer) {
            Ok(g) => Ok(Some(g)),
            Err(e) => Err(e),
        },
        PaymentMethodData::Wallet(w) => match w {
            WalletData::GooglePay(_) => Ok(Some(Gateway::Googlepay)),
            WalletData::PaypalRedirect => Ok(Some(Gateway::Paypal)),
            WalletData::AliPayRedirect => Ok(Some(Gateway::Alipay)),
            WalletData::WeChatPayRedirect => Ok(Some(Gateway::WeChatPay)),
            WalletData::MbWayRedirect => Ok(Some(Gateway::MbWay)),
            WalletData::AliPayQr
            | WalletData::AliPayHkRedirect
            | WalletData::AmazonPayRedirect
            | WalletData::Paysera
            | WalletData::Skrill
            | WalletData::MomoRedirect
            | WalletData::KakaoPayRedirect
            | WalletData::GoPayRedirect
            | WalletData::GcashRedirect
            | WalletData::ApplePay
            | WalletData::ApplePayRedirect
            | WalletData::ApplePayThirdPartySdk
            | WalletData::DanaRedirect
            | WalletData::GooglePayRedirect
            | WalletData::GooglePayThirdPartySdk
            | WalletData::MobilePayRedirect
            | WalletData::PaypalSdk
            | WalletData::Paze
            | WalletData::SamsungPay
            | WalletData::TwintRedirect
            | WalletData::VippsRedirect
            | WalletData::TouchNGoRedirect
            | WalletData::WeChatPayQr
            | WalletData::CashappQr
            | WalletData::SwishQr
            | WalletData::Mifinity
            | WalletData::RevolutPay => Err(
                ConnectorError::NotImplemented(unimplemented_method_message("multisafepay")),
            ),
        },
        PaymentMethodData::BankRedirect(b) => match b {
            BankRedirectData::Giropay => Ok(Some(Gateway::Giropay)),
            BankRedirectData::Ideal { .. } => Ok(Some(Gateway::Ideal)),
            BankRedirectData::Trustly => Ok(Some(Gateway::Trustly)),
            BankRedirectData::Eps => Ok(Some(Gateway::Eps)),
            BankRedirectData::Sofort => Ok(Some(Gateway::Sofort)),
            BankRedirectData::BancontactCard
            | BankRedirectData::Bizum
            | BankRedirectData::Blik
            | BankRedirectData::Eft
            | BankRedirectData::Interac
            | BankRedirectData::OnlineBankingCzechRepublic
            | BankRedirectData::OnlineBankingFinland
            | BankRedirectData::OnlineBankingPoland
            | BankRedirectData::OnlineBankingSlovakia
            | BankRedirectData::OpenBankingUk
            | BankRedirectData::Przelewy24
            | BankRedirectData::OnlineBankingFpx
            | BankRedirectData::OnlineBankingThailand
            | BankRedirectData::LocalBankRedirect => Err(
                ConnectorError::NotImplemented(unimplemented_method_message("multisafepay")),
            ),
        },
        PaymentMethodData::PayLater(p) => match p {
            PayLaterData::KlarnaRedirect => Ok(Some(Gateway::Klarna)),
            PayLaterData::KlarnaSdk
            | PayLaterData::AffirmRedirect
            | PayLaterData::AfterpayClearpayRedirect
            | PayLaterData::PayBrightRedirect
            | PayLaterData::WalleyRedirect
            | PayLaterData::AlmaRedirect
            | PayLaterData::AtomeRedirect
            | PayLaterData::BreadpayRedirect => Err(
                ConnectorError::NotImplemented(unimplemented_method_message("multisafepay")),
            ),
        },
        PaymentMethodData::MandatePayment => Ok(None),
        PaymentMethodData::CardRedirect
        | PaymentMethodData::BankDebit
        | PaymentMethodData::BankTransfer
        | PaymentMethodData::Crypto
        | PaymentMethodData::Reward
        | PaymentMethodData::RealTimePayment
        | PaymentMethodData::MobilePayment
        | PaymentMethodData::Upi
        | PaymentMethodData::Voucher
        | PaymentMethodData::GiftCard
        | PaymentMethodData::OpenBanking
        | PaymentMethodData::CardToken
        | PaymentMethodData::NetworkToken
        | PaymentMethodData::CardDetailsForNetworkTransactionId => Err(
            ConnectorError::NotImplemented(unimplemented_method_message("multisafepay")),
        ),
    }
}

/// Computes the vendor `yymm` card-expiry number.
fn card_expiry(c: &Card) -> (r: i32)
    ensures
        r == spec_card_expiry(*c),
{
    let yy = last_two_chars(c.card_exp_year.as_str());
    let mut joined = String::new();
    joined.append(yy);
    joined.append(c.card_exp_month.as_str());
    parse_i32_digits_or_zero(joined.as_str())
}

/// Builds the gateway-specific block of the vendor request.
fn gateway_info_for(pmd: &PaymentMethodData, billing_email: &Option<String>) -> (r: Result<
    Option<GatewayInfo>,
    ConnectorError,
>)
    ensures
        r matches Ok(g) ==> spec_gateway_info(*pmd, billing_email.deep_view()) == Ok::<
            Option<GatewayInfoV>,
            ConnectorErrorV,
        >(g.deep_view()),
        r matches Err(e) ==> spec_gateway_info(*pmd, billing_email.deep_view()) == Err::<
            Option<GatewayInfoV>,
            ConnectorErrorV,
        >(e.deep_view()),
{
    match pmd {
        PaymentMethodData::Card(c) => {
            let info = CardInfo {
                card_number: Some(c.card_number.clone()),
                card_holder_name: None,
                card_expiry_date: Some(card_expiry(c)),
                card_cvc: Some(c.card_cvc.clone()),
                flexible_3d: None,
                moto: None,
                term_url: None,
            };
            Ok(Some(GatewayInfo::Card(info)))
        },
        PaymentMethodData::Wallet(w) => match w {
            WalletData::GooglePay(g) => Ok(
                Some(
                    GatewayInfo::Wallet(
                        WalletInfo::GooglePay(GpayInfo { payment_token: Some(g.token.clone()) }),
                    ),
                ),
            ),
            WalletData::AliPayRedirect => Ok(
                Some(GatewayInfo::Wallet(WalletInfo::Alipay(AlipayInfo {  }))),
            ),
            WalletData::PaypalRedirect => Ok(None),
            WalletData::WeChatPayRedirect => Ok(
                Some(GatewayInfo::Wallet(WalletInfo::WeChatPay(WeChatPayInfo {  }))),
            ),
            WalletData::MbWayRedirect => Ok(
                Some(GatewayInfo::Wallet(WalletInfo::MbWay(MbWayInfo {  }))),
            ),
            WalletData::AliPayQr
            | WalletData::AliPayHkRedirect
            | WalletData::AmazonPayRedirect
            | WalletData::Paysera
            | WalletData::Skrill
            | WalletData::MomoRedirect
            | WalletData::KakaoPayRedirect
            | WalletData::GoPayRedirect
            | WalletData::GcashRedirect
            | WalletData::ApplePay
            | WalletData::ApplePayRedirect
            | WalletData::ApplePayThirdPartySdk
            | WalletData::DanaRedirect
            | WalletData::GooglePayRedirect
            | WalletData::GooglePayThirdPartySdk
            | WalletData::MobilePayRedirect
            | WalletData::PaypalSdk
            | WalletData::Paze
            | WalletData::SamsungPay
            | WalletData::TwintRedirect
            | WalletData::VippsRedirect
            | WalletData::TouchNGoRedirect
            | WalletData::WeChatPayQr
            | WalletData::CashappQr
            | WalletData::SwishQr
            | WalletData::Mifinity
            | WalletData::RevolutPay => Err(
                ConnectorError::NotImplemented(unimplemented_method_message("multisafepay")),
            ),
        },
        PaymentMethodData::PayLater(p) => match p {
            PayLaterData::KlarnaRedirect => match billing_email {
                Some(e) => Ok(
                    Some(GatewayInfo::PayLater(PayLaterInfo { email: Some(e.clone()) })),
                ),
                None => Err(
                    ConnectorError::MissingRequiredField { field_name: "email".to_owned() },
                ),
            },
            PayLaterData::KlarnaSdk
            | PayLaterData::AffirmRedirect
            | PayLaterData::AfterpayClearpayRedirect
            | PayLaterData::PayBrightRedirect
            | PayLaterData::WalleyRedirect
            | PayLaterData::AlmaRedirect
            | PayLaterData::AtomeRedirect
            | PayLaterData::BreadpayRedirect => Err(
                ConnectorError::NotImplemented(unimplemented_method_message("multisafepay")),
            ),
        },
        PaymentMethodData::BankRedirect(b) => match b {
            BankRedirectData::Ideal { bank_name } => match bank_name {
                None => Err(
                    ConnectorError::MissingRequiredField {
                        field_name: "ideal.bank_name".to_owned(),
                    },
                ),
                Some(bn) => match bank_names_try_from(bn) {
                    Ok(issuer) => Ok(
                        Some(
                            GatewayInfo::BankRedirect(
                                BankRedirectInfo::Ideal(IdealInfo { issuer_id: issuer }),
                            ),
                        ),
                    ),
                    Err(e) => Err(e),
                },
            },
            BankRedirectData::Trustly => Ok(
                Some(GatewayInfo::BankRedirect(BankRedirectInfo::Trustly(TrustlyInfo {  }))),
            ),
            BankRedirectData::Eps => Ok(
                Some(GatewayInfo::BankRedirect(BankRedirectInfo::Eps(EpsInfo {  }))),
            ),
            BankRedirectData::Sofort => Ok(
                Some(GatewayInfo::BankRedirect(BankRedirectInfo::Sofort(SofortInfo {  }))),
            ),
            BankRedirectData::BancontactCard
            | BankRedirectData::Bizum
            | BankRedirectData::Blik
            | BankRedirectData::Eft
            | BankRedirectData::Giropay
            | BankRedirectData::Interac
            | BankRedirectData::OnlineBankingCzechRepublic
            | BankRedirectData::OnlineBankingFinland
            | BankRedirectData::OnlineBankingPoland
            | BankRedirectData::OnlineBankingSlovakia
            | BankRedirectData::OpenBankingUk
            | BankRedirectData::Przelewy24
            | BankRedirectData::OnlineBankingFpx
            | BankRedirectData::OnlineBankingThailand
            | BankRedirectData::LocalBankRedirect => Ok(None),
        },
        PaymentMethodData::MandatePayment => Ok(None),
        PaymentMethodData::CardRedirect
        | PaymentMethodData::BankDebit
        | PaymentMethodData::BankTransfer
        | PaymentMethodData::Crypto
        | PaymentMethodData::Reward
        | PaymentMethodData::RealTimePayment
        | PaymentMethodData::MobilePayment
        | PaymentMethodData::Upi
        | PaymentMethodData::Voucher
        | PaymentMethodData::GiftCard
        | PaymentMethodData::OpenBanking
        | PaymentMethodData::CardToken
        | PaymentMethodData::NetworkToken
        | PaymentMethodData::CardDetailsForNetworkTransactionId => Err(
            ConnectorError::NotImplemented(unimplemented_method_message("multisafepay")),
        ),
    }
}

/// Builds the shipping block from the canonical billing address.
fn delivery_for(addr: &AddressDetails) -> (r: Result<DeliveryObject, ConnectorError>)
    ensures
        r matches Ok(d) ==> spec_delivery(*addr) == Ok::<DeliveryObjectV, ConnectorErrorV>(
            d.deep_view(),
        ),
        r matches Err(e) ==> spec_delivery(*addr) == Err::<DeliveryObjectV, ConnectorErrorV>(
            e.deep_view(),
        ),
{
    let first_name = match &addr.first_name {
        Some(f) => f.clone(),
        None => {
            return Err(
                ConnectorError::MissingRequiredField {
                    field_name: "address.first_name".to_owned(),
                },
            );
        },
    };
    let line1 = match &addr.line1 {
        Some(v) => v.clone(),
        None => {
            return Err(
                ConnectorError::MissingRequiredField { field_name: "address.line1".to_owned() },
            );
        },
    };
    let line2 = match &addr.line2 {
        Some(v) => v.clone(),
        None => {
            return Err(
                ConnectorError::MissingRequiredField { field_name: "address.line2".to_owned() },
            );
        },
    };
    let zip = match &addr.zip {
        Some(v) => v.clone(),
        None => {
            return Err(
                ConnectorError::MissingRequiredField { field_name: "address.zip".to_owned() },
            );
        },
    };
    let city = match &addr.city {
        Some(v) => v.clone(),
        None => {
            return Err(
                ConnectorError::MissingRequiredField { field_name: "address.city".to_owned() },
            );
        },
    };
    let country = match &addr.country {
        Some(v) => v.clone(),
        None => {
            return Err(
                ConnectorError::MissingRequiredField { field_name: "address.country".to_owned() },
            );
        },
    };
    let last_name = match &addr.last_name {
        Some(l) => l.clone(),
        None => first_name.clone(),
    };
    Ok(
        DeliveryObject {
            first_name,
            last_name,
            address1: line1,
            house_number: line2,
            zip_code: zip,
            city,
            country,
        },
    )
}

/// Maps the canonical authorize request to the Multisafepay request body.
/// Either a complete vendor request comes back, or the first error of the
/// documented cascade; no variant is ever silently defaulted and no panic is
/// possible.
pub fn build_authorize_request(item: &AuthorizeRequest) -> (r: Result<
    MultisafepayPaymentsRequest,
    ConnectorError,
>)
    ensures
        r matches Ok(req) ==> spec_build_authorize(*item) == Ok::<
            MultisafepayPaymentsRequestV,
            ConnectorErrorV,
        >(req.deep_view()),
        r matches Err(e) ==> spec_build_authorize(*item) == Err::<
            MultisafepayPaymentsRequestV,
            ConnectorErrorV,
        >(e.deep_view()),
{
    let payment_type = match payment_type_for(&item.payment_method_data) {
        Ok(t) => t,
        Err(e) => {
            return Err(e);
        },
    };
    let gateway = match gateway_for(&item.payment_method_data) {
        Ok(g) => g,
        Err(e) => {
            return Err(e);
        },
    };
    let description = match &item.description {
        Some(d) => d.clone(),
        None => {
            return Err(
                ConnectorError::MissingRequiredField { field_name: "description".to_owned() },
            );
        },
    };
    let return_url = match &item.return_url {
        Some(u) => u.clone(),
        None => {
            return Err(
                ConnectorError::MissingRequiredField { field_name: "return_url".to_owned() },
            );
        },
    };
    let billing_address = match &item.billing_address {
        Some(a) => a,
        None => {
            return Err(
                ConnectorError::MissingRequiredField { field_name: "billing.address".to_owned() },
            );
        },
    };
    let delivery = match delivery_for(billing_address) {
        Ok(d) => d,
        Err(e) => {
            return Err(e);
        },
    };
    let gateway_info = match gateway_info_for(&item.payment_method_data, &item.billing_email) {
        Ok(g) => g,
        Err(e) => {
            return Err(e);
        },
    };
    let payment_options = PaymentOptions {
        notification_url: None,
        notification_method: None,
        redirect_url: return_url.clone(),
        cancel_url: return_url,
        close_window: None,
        settings: None,
        template_id: None,
        allowed_countries: None,
    };
    let customer = Customer {
        browser: None,
        locale: None,
        ip_address: None,
        forward_ip: None,
        first_name: None,
        last_name: None,
        gender: None,
        birthday: None,
        address1: None,
        address2: None,
        house_number: None,
        zip_code: None,
        city: None,
        state: None,
        country: None,
        phone: None,
        email: item.email.clone(),
        user_agent: None,
        referrer: None,
        reference: Some(item.connector_request_reference_id.clone()),
    };
    let recurring_id: Option<String> = match &item.mandate_reference_id {
        Some(MandateReferenceId::ConnectorMandateId(Some(cid))) => Some(cid.clone()),
        _ => None,
    };
    let req = MultisafepayPaymentsRequest {
        payment_type,
        gateway,
        order_id: item.connector_request_reference_id.clone(),
        currency: item.currency.clone(),
        amount: item.amount,
        description,
        payment_options: Some(payment_options),
        customer: Some(customer),
        gateway_info,
        delivery: Some(delivery),
        items: None,
        recurring_model: if item.is_mandate_payment {
            Some(MandateType::Unscheduled)
        } else {
            None
        },
        recurring_id,
        capture: None,
        days_active: Some(30),
        seconds_active: Some(259200),
        var1: None,
        var2: None,
        var3: None,
    };
    proof {
        assert(spec_build_authorize(*item) matches Ok(v) && req.deep_view() =~~= v);
    }
    Ok(req)
}

/// What an authorize response normalizes to: a canonical attempt status to
/// record (`None` leaves the previously recorded status untouched), and
/// either the transaction result or the canonical error envelope — never a
/// half-populated mixture.
#[derive(Debug, PartialEq, Eq)]
pub struct AuthorizeOutcome {
    pub status: Option<AttemptStatus>,
    pub response: Result<PaymentsResponseData, ErrorResponse>,
}

/// Model of [`AuthorizeOutcome`].
#[verifier::ext_equal]
pub struct AuthorizeOutcomeV {
    pub status: Option<AttemptStatus>,
    pub response: Result<PaymentsResponseDataV, ErrorResponseV>,
}

impl DeepView for AuthorizeOutcome {
    type V = AuthorizeOutcomeV;

    open spec fn deep_view(&self) -> AuthorizeOutcomeV {
        AuthorizeOutcomeV {
            status: self.status,
            response: match &self.response {
                Ok(d) => Ok(d.deep_view()),
                Err(e) => Err(e.deep_view()),
            },
        }
    }
}

/// The canonical status of a success-shaped vendor response: the vendor
/// status when present, else a default chosen by the success flag
/// (initialized when the vendor reports success, declined otherwise).
pub open spec fn spec_response_status(resp: MultisafepayPaymentsResponse) -> AttemptStatus {
    spec_attempt_status(
        match resp.data.status {
            Some(s) => s,
            None => if resp.success {
                crate::multisafepay::MultisafepayPaymentStatus::Initialized
            } else {
                crate::multisafepay::MultisafepayPaymentStatus::Declined
            },
        },
    )
}

/// The full normalization of a vendor authorize response.
pub open spec fn spec_parse_authorize(resp: MultisafepayAuthResponse, http_code: u16) -> (
    AuthorizeOutcomeV
) {
    match resp {
        MultisafepayAuthResponse::PaymentResponse(p) => {
            let status = spec_response_status(*p);
            AuthorizeOutcomeV {
                status: Some(status),
                response: if spec_is_payment_failure(status) {
                    Err(
                        spec_populate_error_reason(
                            p.data.reason_code.deep_view(),
                            p.data.reason.deep_view(),
                            p.data.reason.deep_view(),
                            http_code,
                            Some(status),
                            Some(p.data.order_id@),
                        ),
                    )
                } else {
                    Ok(
                        PaymentsResponseDataV {
                            resource_id: ResponseIdV::ConnectorTransactionId(p.data.order_id@),
                            redirection_data: match p.data.payment_url {
                                Some(u) => Some(RedirectFormV { url: u@, method: HttpMethod::Get }),
                                None => None,
                            },
                            mandate_reference: match p.data.payment_details {
                                Some(pd) => match pd.recurring_id {
                                    Some(rid) => Some(
                                        MandateReferenceV { connector_mandate_id: Some(rid@) },
                                    ),
                                    None => None,
                                },
                                None => None,
                            },
                            connector_response_reference_id: Some(p.data.order_id@),
                        },
                    )
                },
            }
        },
        MultisafepayAuthResponse::ErrorResponse(e) => AuthorizeOutcomeV {
            status: None,
            response: Err(
                spec_populate_error_reason(
                    Some(spec_idec(e.error_code as int)),
                    Some(e.error_info@),
                    Some(e.error_info@),
                    http_code,
                    spec_attempt_status_for_error_code(e.error_code),
                    None,
                ),
            ),
        },
    }
}

/// Normalizes a vendor authorize response: derives the canonical status,
/// extracts the redirect form when a payment URL is present and the mandate
/// reference when the vendor recorded one, and produces the canonical error
/// envelope on every failure path. Pure: no effect beyond the returned value.
pub fn parse_authorize_response(response: MultisafepayAuthResponse, http_code: u16) -> (r:
    AuthorizeOutcome)
    ensures
        r.deep_view() == spec_parse_authorize(response, http_code),
        r.response matches Err(e) ==> e.code@.len() > 0 && e.message@.len() > 0,
{
    match response {
        MultisafepayAuthResponse::PaymentResponse(payment_response) => {
            let redirection_data: Option<RedirectForm> = match &payment_response.data.payment_url {
                Some(u) => Some(RedirectForm { url: u.clone(), method: HttpMethod::Get }),
                None => None,
            };
            let default_status = if payment_response.success {
                crate::multisafepay::MultisafepayPaymentStatus::Initialized
            } else {
                crate::multisafepay::MultisafepayPaymentStatus::Declined
            };
            let vendor_status = match payment_response.data.status {
                Some(s) => s,
                None => default_status,
            };
            let status = attempt_status_from(vendor_status);
            let r = if is_payment_failure(status) {
                AuthorizeOutcome {
                    status: Some(status),
                    response: Err(
                        populate_error_reason(
                            payment_response.data.reason_code.clone(),
                            payment_response.data.reason.clone(),
                            payment_response.data.reason.clone(),
                            http_code,
                            Some(status),
                            Some(payment_response.data.order_id.clone()),
                        ),
                    ),
                }
            } else {
                let mandate_reference: Option<MandateReference> = match
                    &payment_response.data.payment_details {
                    Some(pd) => match &pd.recurring_id {
                        Some(rid) => Some(
                            MandateReference { connector_mandate_id: Some(rid.clone()) },
                        ),
                        None => None,
                    },
                    None => None,
                };
                AuthorizeOutcome {
                    status: Some(status),
                    response: Ok(
                        PaymentsResponseData {
                            resource_id: ResponseId::ConnectorTransactionId(
                                payment_response.data.order_id.clone(),
                            ),
                            redirection_data,
                            mandate_reference,
                            connector_response_reference_id: Some(
                                payment_response.data.order_id.clone(),
                            ),
                        },
                    ),
                }
            };
            proof {
                assert(r.deep_view() =~~= spec_parse_authorize(
                    MultisafepayAuthResponse::PaymentResponse(payment_response),
                    http_code,
                ));
            }
            r
        },
        MultisafepayAuthResponse::ErrorResponse(error_response) => {
            let attempt_status = error_response.attempt_status();
            let code = i32_to_string(error_response.error_code);
            let r = AuthorizeOutcome {
                status: None,
                response: Err(
                    populate_error_reason(
                        Some(code),
                        Some(error_response.error_info.clone()),
                        Some(error_response.error_info.clone()),
                        http_code,
                        attempt_status,
                        None,
                    ),
                ),
            };
            proof {
                assert(r.deep_view() =~~= spec_parse_authorize(
                    MultisafepayAuthResponse::ErrorResponse(error_response),
                    http_code,
                ));
            }
            r
        },
    }
}

/// Normalization is deterministic: parsing the same vendor response twice
/// yields identical canonical output.
pub proof fn lemma_parse_authorize_idempotent(
    a: MultisafepayAuthResponse,
    b: MultisafepayAuthResponse,
    http_code: u16,
)
    requires
        a == b,
    ensures
        spec_parse_authorize(a, http_code) == spec_parse_authorize(b, http_code),
{
}

/// For success-shaped responses the canonical status is computed solely from
/// the vendor status field and the success flag.
pub proof fn lemma_success_status_depends_only_on_status_and_flag(
    a: MultisafepayPaymentsResponse,
    b: MultisafepayPaymentsResponse,
)
    requires
        a.data.status == b.data.status,
        a.success == b.success,
    ensures
        spec_response_status(a) == spec_response_status(b),
{
}

/// An authorize request for a card whose issuer this vendor supports, with
/// the description, return URL, and full billing address present, always
/// builds: the vendor request is direct-flow, carries the issuer's gateway,
/// and its card block holds the canonical card number and verification code.
pub proof fn lemma_supported_card_builds_direct_request(req: AuthorizeRequest)
    requires
        req.payment_method_data matches PaymentMethodData::Card(c) && spec_gateway_for_issuer(
            c.card_issuer,
        ) is Some,
        req.description is Some,
        req.return_url is Some,
        req.billing_address matches Some(a) && a.first_name is Some && a.line1 is Some
            && a.line2 is Some && a.zip is Some && a.city is Some && a.country is Some,
    ensures
        spec_build_authorize(req) matches Ok(r) && r.payment_type == Type::Direct && (
        req.payment_method_data matches PaymentMethodData::Card(c) ==> r.gateway
            == spec_gateway_for_issuer(c.card_issuer) && (r.gateway_info matches Some(
            GatewayInfoV::Card(ci),
        ) && ci.card_number == Some(c.card_number@) && ci.card_cvc == Some(c.card_cvc@))),
{
}

/// A vendor payment-method variant outside this vendor's capability table is
/// always rejected with `NotImplemented` — never silently defaulted.
pub proof fn lemma_unsupported_method_yields_not_implemented(req: AuthorizeRequest)
    requires
        !spec_method_supported(req.payment_method_data),
    ensures
        spec_build_authorize(req) matches Err(e) && e matches ConnectorErrorV::NotImplemented(_),
{
}

/// A supported canonical bank-catalog entry maps back to the canonical bank
/// name it came from (the canonical-to-vendor-to-canonical round trip is the
/// identity); unsupported entries are never the image of a vendor entry.
pub proof fn lemma_bank_catalog_roundtrip(b: crate::canonical::BankNames)
    ensures
        spec_vendor_bank(b) matches Some(v) ==> crate::multisafepay::spec_canonical_bank(v) == b,
        spec_vendor_bank(b) is None ==> forall|v: crate::multisafepay::MultisafepayBankNames|
            crate::multisafepay::spec_canonical_bank(v) != b,
{
}

} // verus!
