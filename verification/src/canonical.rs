//! The canonical (vendor-neutral) payment model.
//!
//! These types describe the request the platform hands to any vendor adapter
//! and the normalized result every adapter must hand back. Adapters map this
//! model to and from their vendor's own wire shapes; nothing here is specific
//! to one vendor.

use vstd::prelude::*;

use crate::errors::ConnectorError;

verus! {

/// Canonical status of one payment attempt. Transitions are one-shot and are
/// driven solely by the status normalizer reading one vendor response.
#[derive(Clone, Copy, Debug, PartialEq, Eq)]
pub enum AttemptStatus {
    Charged,
    Failure,
    Voided,
    Pending,
    AuthenticationPending,
    AuthenticationFailed,
    AuthorizationFailed,
}

/// Whether a canonical attempt status denotes a payment failure.
pub open spec fn spec_is_payment_failure(s: AttemptStatus) -> bool {
    match s {
        AttemptStatus::Failure => true,
        AttemptStatus::AuthenticationFailed => true,
        AttemptStatus::AuthorizationFailed => true,
        AttemptStatus::Charged
        | AttemptStatus::Voided
        | AttemptStatus::Pending
        | AttemptStatus::AuthenticationPending => false,
    }
}

/// Whether a canonical attempt status denotes a payment failure.
pub fn is_payment_failure(s: AttemptStatus) -> (r: bool)
    ensures
        r == spec_is_payment_failure(s),
{
    match s {
        AttemptStatus::Failure => true,
        AttemptStatus::AuthenticationFailed => true,
        AttemptStatus::AuthorizationFailed => true,
        AttemptStatus::Charged
        | AttemptStatus::Voided
        | AttemptStatus::Pending
        | AttemptStatus::AuthenticationPending => false,
    }
}

/// Canonical status of a refund: a three-state machine.
#[derive(Clone, Copy, Debug, PartialEq, Eq)]
pub enum RefundStatus {
    Success,
    Failure,
    Pending,
}

/// The card network/issuer classification of a canonical card.
#[derive(Clone, Copy, Debug, PartialEq, Eq)]
pub enum CardIssuer {
    AmericanExpress,
    Master,
    Maestro,
    Discover,
    Visa,
    DinersClub,
    JCB,
    CarteBlanche,
    CartesBancaires,
}

/// The canonical catalog of bank names a bank-redirect payment may select.
/// Every adapter must enumerate which of these it supports; values outside an
/// adapter\'s catalog are rejected with `NotSupported`, never silently
/// defaulted.
#[derive(Clone, Copy, Debug, PartialEq, Eq)]
pub enum BankNames {
    AbnAmro,
    AsnBank,
    Bunq,
    Ing,
    Knab,
    N26,
    NationaleNederlanden,
    Rabobank,
    Regiobank,
    Revolut,
    SnsBank,
    TriodosBank,
    VanLanschot,
    Yoursafe,
    Handelsbanken,
    AmericanExpress,
    AffinBank,
    AgroBank,
    AllianceBank,
    AmBank,
    BankOfAmerica,
    BankOfChina,
    BankIslam,
    BankMuamalat,
    BankRakyat,
    BankSimpananNasional,
    Barclays,
    BlikPSP,
    CapitalOne,
    Chase,
    Citi,
    CimbBank,
    Discover,
    NavyFederalCreditUnion,
    PentagonFederalCreditUnion,
    SynchronyBank,
    WellsFargo,
    HongLeongBank,
    HsbcBank,
    KuwaitFinanceHouse,
    Moneyou,
    ArzteUndApothekerBank,
    AustrianAnadiBankAg,
    BankAustria,
    Bank99Ag,
    BankhausCarlSpangler,
    BankhausSchelhammerUndSchatteraAg,
    BankMillennium,
    BankPEKAOSA,
    BawagPskAg,
    BksBankAg,
    BrullKallmusBankAg,
    BtvVierLanderBank,
    CapitalBankGraweGruppeAg,
    CeskaSporitelna,
    Dolomitenbank,
    EasybankAg,
    EPlatbyVUB,
    ErsteBankUndSparkassen,
    FrieslandBank,
    HypoAlpeadriabankInternationalAg,
    HypoNoeLbFurNiederosterreichUWien,
    HypoOberosterreichSalzburgSteiermark,
    HypoTirolBankAg,
    HypoVorarlbergBankAg,
    HypoBankBurgenlandAktiengesellschaft,
    KomercniBanka,
    MBank,
    MarchfelderBank,
    Maybank,
    OberbankAg,
    OsterreichischeArzteUndApothekerbank,
    OcbcBank,
    PayWithING,
    PlaceZIPKO,
    PlatnoscOnlineKartaPlatnicza,
    PosojilnicaBankEGen,
    PostovaBanka,
    PublicBank,
    RaiffeisenBankengruppeOsterreich,
    RhbBank,
    SchelhammerCapitalBankAg,
    StandardCharteredBank,
    SchoellerbankAg,
    SpardaBankWien,
    SporoPay,
    SantanderPrzelew24,
    TatraPay,
    Viamo,
    VolksbankGruppe,
    VolkskreditbankAg,
    VrBankBraunau,
    UobBank,
    PayWithAliorBank,
    BankiSpoldzielcze,
    PayWithInteligo,
    BNPParibasPoland,
    BankNowySA,
    CreditAgricole,
    PayWithBOS,
    PayWithCitiHandlowy,
    PayWithPlusBank,
    ToyotaBank,
    VeloBank,
    ETransferPocztowy24,
    PlusBank,
    EtransferPocztowy24,
    BankiSpbdzielcze,
    BankNowyBfgSa,
    GetinBank,
    Blik,
    NoblePay,
    IdeaBank,
    EnveloBank,
    NestPrzelew,
    MbankMtransfer,
    Inteligo,
    PbacZIpko,
    BnpParibas,
    BankPekaoSa,
    VolkswagenBank,
    AliorBank,
    Boz,
    BangkokBank,
    KrungsriBank,
    KrungThaiBank,
    TheSiamCommercialBank,
    KasikornBank,
    OpenBankSuccess,
    OpenBankFailure,
    OpenBankCancelled,
    Aib,
    BankOfScotland,
    DanskeBank,
    FirstDirect,
    FirstTrust,
    Halifax,
    Lloyds,
    Monzo,
    NatWest,
    NationwideBank,
    RoyalBankOfScotland,
    Starling,
    TsbBank,
    TescoBank,
    UlsterBank,
}

/// A canonical card: number, expiry, verification code, and the issuer
/// classification the platform derived for it.
#[derive(Clone, Debug, PartialEq, Eq)]
pub struct Card {
    pub card_number: String,
    pub card_exp_month: String,
    pub card_exp_year: String,
    pub card_cvc: String,
    pub card_issuer: CardIssuer,
}

/// Token data for a Google Pay wallet payment.
#[derive(Clone, Debug, PartialEq, Eq)]
pub struct GooglePayData {
    pub token: String,
}

/// Canonical wallet payment-method variants.
#[derive(Clone, Debug, PartialEq, Eq)]
pub enum WalletData {
    GooglePay(GooglePayData),
    PaypalRedirect,
    AliPayRedirect,
    WeChatPayRedirect,
    MbWayRedirect,
    AliPayQr,
    AliPayHkRedirect,
    AmazonPayRedirect,
    Paysera,
    Skrill,
    MomoRedirect,
    KakaoPayRedirect,
    GoPayRedirect,
    GcashRedirect,
    ApplePay,
    ApplePayRedirect,
    ApplePayThirdPartySdk,
    DanaRedirect,
    GooglePayRedirect,
    GooglePayThirdPartySdk,
    MobilePayRedirect,
    PaypalSdk,
    Paze,
    SamsungPay,
    TwintRedirect,
    VippsRedirect,
    TouchNGoRedirect,
    WeChatPayQr,
    CashappQr,
    SwishQr,
    Mifinity,
    RevolutPay,
}

/// Canonical bank-redirect payment-method variants.
#[derive(Clone, Debug, PartialEq, Eq)]
pub enum BankRedirectData {
    Giropay,
    Ideal { bank_name: Option<BankNames> },
    Trustly,
    Eps,
    Sofort,
    BancontactCard,
    Bizum,
    Blik,
    Eft,
    Interac,
    OnlineBankingCzechRepublic,
    OnlineBankingFinland,
    OnlineBankingPoland,
    OnlineBankingSlovakia,
    OpenBankingUk,
    Przelewy24,
    OnlineBankingFpx,
    OnlineBankingThailand,
    LocalBankRedirect,
}

/// Canonical pay-later payment-method variants.
#[derive(Clone, Copy, Debug, PartialEq, Eq)]
pub enum PayLaterData {
    KlarnaRedirect,
    KlarnaSdk,
    AffirmRedirect,
    AfterpayClearpayRedirect,
    PayBrightRedirect,
    WalleyRedirect,
    AlmaRedirect,
    AtomeRedirect,
    BreadpayRedirect,
}

/// The canonical payment-method union. Adapters must cover every variant
/// exhaustively; a variant the vendor cannot process yields `NotImplemented`.
#[derive(Clone, Debug, PartialEq, Eq)]
pub enum PaymentMethodData {
    Card(Card),
    Wallet(WalletData),
    BankRedirect(BankRedirectData),
    PayLater(PayLaterData),
    MandatePayment,
    CardRedirect,
    BankDebit,
    BankTransfer,
    Crypto,
    Reward,
    RealTimePayment,
    MobilePayment,
    Upi,
    Voucher,
    GiftCard,
    OpenBanking,
    CardToken,
    NetworkToken,
    CardDetailsForNetworkTransactionId,
}

/// Canonical billing-address details. Every field is optional at the model
/// level; adapters demand the fields they need and report a
/// `MissingRequiredField` naming the absent one.
#[derive(Clone, Debug, PartialEq, Eq)]
pub struct AddressDetails {
    pub first_name: Option<String>,
    pub last_name: Option<String>,
    pub line1: Option<String>,
    pub line2: Option<String>,
    pub zip: Option<String>,
    pub city: Option<String>,
    pub country: Option<String>,
}

/// The shapes of credentials a vendor adapter may be handed.
#[derive(Clone, Debug, PartialEq, Eq)]
pub enum ConnectorAuthType {
    HeaderKey { api_key: String },
    BodyKey { api_key: String, key1: String },
    SignatureKey { api_key: String, key1: String, api_secret: String },
}

/// A reference to an earlier mandate, as recorded by either the vendor or
/// the card network.
#[derive(Clone, Debug, PartialEq, Eq)]
pub enum MandateReferenceId {
    ConnectorMandateId(Option<String>),
    NetworkMandateId(String),
}

/// The canonical authorize request the platform sends into an adapter.
#[derive(Clone, Debug, PartialEq, Eq)]
pub struct AuthorizeRequest {
    /// Amount to charge, in minor units of `currency`.
    pub amount: i64,
    /// ISO currency code text.
    pub currency: String,
    /// Correlation key sent to the vendor; doubles as the vendor order id.
    pub connector_request_reference_id: String,
    pub payment_method_data: PaymentMethodData,
    /// Payer email carried on the payment itself.
    pub email: Option<String>,
    /// Email taken from the billing address.
    pub billing_email: Option<String>,
    pub description: Option<String>,
    /// URL the payer returns to after a redirect flow.
    pub return_url: Option<String>,
    pub billing_address: Option<AddressDetails>,
    /// Whether this payment sets up or uses a recurring mandate.
    pub is_mandate_payment: bool,
    pub mandate_reference_id: Option<MandateReferenceId>,
}

impl AuthorizeRequest {
    /// Validates the vendor-independent part of the request: a payment must
    /// carry a positive amount and a non-empty currency code.
    pub fn validate(&self) -> (r: Result<(), ConnectorError>)
        ensures
            r is Ok <==> self.amount > 0 && self.currency@.len() > 0,
            r matches Err(e) ==> (e.deep_view() matches crate::errors::ConnectorErrorV::MissingRequiredField {
                field_name,
            } && (field_name == "amount"@ || field_name == "currency"@)),
            r matches Err(e) ==> (self.amount <= 0 ==> (e.deep_view()
                matches crate::errors::ConnectorErrorV::MissingRequiredField { field_name }
                && field_name == "amount"@)),
            r matches Err(e) ==> (self.amount > 0 ==> (e.deep_view()
                matches crate::errors::ConnectorErrorV::MissingRequiredField { field_name }
                && field_name == "currency"@)),
    {
        if self.amount <= 0 {
            Err(ConnectorError::MissingRequiredField { field_name: "amount".to_owned() })
        } else if self.currency.as_str().is_empty() {
            Err(ConnectorError::MissingRequiredField { field_name: "currency".to_owned() })
        } else {
            Ok(())
        }
    }
}

/// The canonical refund request the platform sends into an adapter.
#[derive(Clone, Debug, PartialEq, Eq)]
pub struct RefundRequestData {
    /// Amount to refund, in minor units of `currency`.
    pub amount: i64,
    pub currency: String,
    /// Platform-side identifier of this refund.
    pub refund_id: String,
    pub description: Option<String>,
}

/// HTTP method a redirect form uses.
#[derive(Clone, Copy, Debug, PartialEq, Eq)]
pub enum HttpMethod {
    Get,
}

/// Redirect instructions an adapter extracted from a vendor response.
#[derive(Clone, Debug, PartialEq, Eq)]
pub struct RedirectForm {
    pub url: String,
    pub method: HttpMethod,
}

/// Model of [`RedirectForm`].
#[verifier::ext_equal]
pub struct RedirectFormV {
    pub url: Seq<char>,
    pub method: HttpMethod,
}

impl DeepView for RedirectForm {
    type V = RedirectFormV;

    open spec fn deep_view(&self) -> RedirectFormV {
        RedirectFormV { url: self.url@, method: self.method }
    }
}

/// The vendor-side identifier of the payment resource.
#[derive(Clone, Debug, PartialEq, Eq)]
pub enum ResponseId {
    ConnectorTransactionId(String),
}

/// Model of [`ResponseId`].
#[verifier::ext_equal]
pub enum ResponseIdV {
    ConnectorTransactionId(Seq<char>),
}

impl DeepView for ResponseId {
    type V = ResponseIdV;

    open spec fn deep_view(&self) -> ResponseIdV {
        match self {
            ResponseId::ConnectorTransactionId(s) => ResponseIdV::ConnectorTransactionId(s@),
        }
    }
}

/// A mandate reference the vendor recorded for a recurring payment.
#[derive(Clone, Debug, PartialEq, Eq)]
pub struct MandateReference {
    pub connector_mandate_id: Option<String>,
}

/// Model of [`MandateReference`].
#[verifier::ext_equal]
pub struct MandateReferenceV {
    pub connector_mandate_id: Option<Seq<char>>,
}

impl DeepView for MandateReference {
    type V = MandateReferenceV;

    open spec fn deep_view(&self) -> MandateReferenceV {
        MandateReferenceV { connector_mandate_id: self.connector_mandate_id.deep_view() }
    }
}

/// The canonical success result of an authorize call.
#[derive(Clone, Debug, PartialEq, Eq)]
pub struct PaymentsResponseData {
    pub resource_id: ResponseId,
    pub redirection_data: Option<RedirectForm>,
    pub mandate_reference: Option<MandateReference>,
    pub connector_response_reference_id: Option<String>,
}

/// Model of [`PaymentsResponseData`].
#[verifier::ext_equal]
pub struct PaymentsResponseDataV {
    pub resource_id: ResponseIdV,
    pub redirection_data: Option<RedirectFormV>,
    pub mandate_reference: Option<MandateReferenceV>,
    pub connector_response_reference_id: Option<Seq<char>>,
}

impl DeepView for PaymentsResponseData {
    type V = PaymentsResponseDataV;

    open spec fn deep_view(&self) -> PaymentsResponseDataV {
        PaymentsResponseDataV {
            resource_id: self.resource_id.deep_view(),
            redirection_data: self.redirection_data.deep_view(),
            mandate_reference: self.mandate_reference.deep_view(),
            connector_response_reference_id: self.connector_response_reference_id.deep_view(),
        }
    }
}

/// The normalized error envelope every adapter produces on a failure path.
/// The code and message are never empty: absent vendor values are replaced
/// by the "NO_ERROR_CODE" / "NO_ERROR_MESSAGE" sentinels.
#[derive(Clone, Debug, PartialEq, Eq)]
pub struct ErrorResponse {
    pub code: String,
    pub message: String,
    pub reason: Option<String>,
    pub status_code: u16,
    pub attempt_status: Option<AttemptStatus>,
    pub connector_transaction_id: Option<String>,
    pub network_advice_code: Option<String>,
    pub network_decline_code: Option<String>,
    pub network_error_message: Option<String>,
}

/// Model of [`ErrorResponse`].
#[verifier::ext_equal]
pub struct ErrorResponseV {
    pub code: Seq<char>,
    pub message: Seq<char>,
    pub reason: Option<Seq<char>>,
    pub status_code: u16,
    pub attempt_status: Option<AttemptStatus>,
    pub connector_transaction_id: Option<Seq<char>>,
    pub network_advice_code: Option<Seq<char>>,
    pub network_decline_code: Option<Seq<char>>,
    pub network_error_message: Option<Seq<char>>,
}

impl DeepView for ErrorResponse {
    type V = ErrorResponseV;

    open spec fn deep_view(&self) -> ErrorResponseV {
        ErrorResponseV {
            code: self.code@,
            message: self.message@,
            reason: self.reason.deep_view(),
            status_code: self.status_code,
            attempt_status: self.attempt_status,
            connector_transaction_id: self.connector_transaction_id.deep_view(),
            network_advice_code: self.network_advice_code.deep_view(),
            network_decline_code: self.network_decline_code.deep_view(),
            network_error_message: self.network_error_message.deep_view(),
        }
    }
}

/// The canonical success result of a refund call.
#[derive(Clone, Debug, PartialEq, Eq)]
pub struct RefundsResponseData {
    pub connector_refund_id: String,
    pub refund_status: RefundStatus,
}

/// Model of [`RefundsResponseData`].
#[verifier::ext_equal]
pub struct RefundsResponseDataV {
    pub connector_refund_id: Seq<char>,
    pub refund_status: RefundStatus,
}

impl DeepView for RefundsResponseData {
    type V = RefundsResponseDataV;

    open spec fn deep_view(&self) -> RefundsResponseDataV {
        RefundsResponseDataV {
            connector_refund_id: self.connector_refund_id@,
            refund_status: self.refund_status,
        }
    }
}

} // verus!
