//! Multisafepay vendor types and the small per-value mappings of the
//! adapter: status normalization, the iDEAL issuer catalog, gateway
//! selection by card issuer, credential-shape checking, and the normalized
//! error envelope.
//!
//! Wire casing (UPPERCASE gateway names, numeric issuer codes, lowercase
//! statuses) is exposed through `wire_name` / `issuer_code` methods; the
//! crate itself never serializes these types.

use vstd::prelude::*;

use crate::canonical::{
    AttemptStatus, BankNames, CardIssuer, ConnectorAuthType, ErrorResponse, ErrorResponseV,
    RefundStatus as CanonicalRefundStatus,
};
use crate::errors::{ConnectorError, ConnectorErrorV};

verus! {

/// Whether the vendor charges directly or sends the payer through a
/// redirect flow. A wrong classification causes the wrong UX flow, so every
/// payment-method variant is classified individually.
#[derive(Clone, Copy, Debug, PartialEq, Eq, Hash)]
pub enum Type {
    Direct,
    Redirect,
}

impl Type {
    /// The lowercase wire spelling of the flow type.
    pub fn wire_name(&self) -> (r: &'static str)
        ensures
            r@ == spec_type_wire_name(*self),
    {
        match self {
            Type::Direct => "direct",
            Type::Redirect => "redirect",
        }
    }
}

/// The lowercase wire spelling of the flow type.
pub open spec fn spec_type_wire_name(t: Type) -> Seq<char> {
    match t {
        Type::Direct => "direct"@,
        Type::Redirect => "redirect"@,
    }
}

/// The vendor gateway handling a payment.
#[derive(Clone, Copy, Debug, PartialEq, Eq, Hash)]
pub enum Gateway {
    Amex,
    CreditCard,
    Discover,
    Maestro,
    MasterCard,
    Visa,
    Klarna,
    Googlepay,
    Paypal,
    Ideal,
    Giropay,
    Trustly,
    Alipay,
    WeChatPay,
    Eps,
    MbWay,
    Sofort,
}

/// The uppercase wire spelling of each gateway; WeChatPay and Sofort have
/// vendor-specific spellings.
pub open spec fn spec_gateway_wire_name(g: Gateway) -> Seq<char> {
    match g {
        Gateway::Amex => "AMEX"@,
        Gateway::CreditCard => "CREDITCARD"@,
        Gateway::Discover => "DISCOVER"@,
        Gateway::Maestro => "MAESTRO"@,
        Gateway::MasterCard => "MASTERCARD"@,
        Gateway::Visa => "VISA"@,
        Gateway::Klarna => "KLARNA"@,
        Gateway::Googlepay => "GOOGLEPAY"@,
        Gateway::Paypal => "PAYPAL"@,
        Gateway::Ideal => "IDEAL"@,
        Gateway::Giropay => "GIROPAY"@,
        Gateway::Trustly => "TRUSTLY"@,
        Gateway::Alipay => "ALIPAY"@,
        Gateway::WeChatPay => "WECHAT"@,
        Gateway::Eps => "EPS"@,
        Gateway::MbWay => "MBWAY"@,
        Gateway::Sofort => "DIRECTBANK"@,
    }
}

impl Gateway {
    /// The wire spelling of this gateway.
    pub fn wire_name(&self) -> (r: &'static str)
        ensures
            r@ == spec_gateway_wire_name(*self),
    {
        match self {
            Gateway::Amex => "AMEX",
            Gateway::CreditCard => "CREDITCARD",
            Gateway::Discover => "DISCOVER",
            Gateway::Maestro => "MAESTRO",
            Gateway::MasterCard => "MASTERCARD",
            Gateway::Visa => "VISA",
            Gateway::Klarna => "KLARNA",
            Gateway::Googlepay => "GOOGLEPAY",
            Gateway::Paypal => "PAYPAL",
            Gateway::Ideal => "IDEAL",
            Gateway::Giropay => "GIROPAY",
            Gateway::Trustly => "TRUSTLY",
            Gateway::Alipay => "ALIPAY",
            Gateway::WeChatPay => "WECHAT",
            Gateway::Eps => "EPS",
            Gateway::MbWay => "MBWAY",
            Gateway::Sofort => "DIRECTBANK",
        }
    }
}

/// The gateway Multisafepay assigns to each canonical card issuer; issuers
/// the vendor cannot process have no gateway.
pub open spec fn spec_gateway_for_issuer(i: CardIssuer) -> Option<Gateway> {
    match i {
        CardIssuer::AmericanExpress => Some(Gateway::Amex),
        CardIssuer::Master => Some(Gateway::MasterCard),
        CardIssuer::Maestro => Some(Gateway::Maestro),
        CardIssuer::Discover => Some(Gateway::Discover),
        CardIssuer::Visa => Some(Gateway::Visa),
        CardIssuer::DinersClub => None,
        CardIssuer::JCB => None,
        CardIssuer::CarteBlanche => None,
        CardIssuer::CartesBancaires => None,
    }
}

/// Maps a canonical card issuer to the vendor gateway, or reports
/// `NotImplemented` for issuers this vendor cannot charge.
pub fn gateway_try_from_issuer(issuer: CardIssuer) -> (r: Result<Gateway, ConnectorError>)
    ensures
        spec_gateway_for_issuer(issuer) matches Some(g) ==> r matches Ok(u) && u == g,
        spec_gateway_for_issuer(issuer) is None ==> (r matches Err(e) && e.deep_view()
            == ConnectorErrorV::NotImplemented(
            crate::errors::spec_unimplemented_method_message("Multisafe pay"@),
        )),
{
    match issuer {
        CardIssuer::AmericanExpress => Ok(Gateway::Amex),
        CardIssuer::Master => Ok(Gateway::MasterCard),
        CardIssuer::Maestro => Ok(Gateway::Maestro),
        CardIssuer::Discover => Ok(Gateway::Discover),
        CardIssuer::Visa => Ok(Gateway::Visa),
        CardIssuer::DinersClub
        | CardIssuer::JCB
        | CardIssuer::CarteBlanche
        | CardIssuer::CartesBancaires => Err(ConnectorError::NotImplemented(
            crate::errors::unimplemented_method_message("Multisafe pay"),
        )),
    }
}

/// The Multisafepay iDEAL issuer catalog entries.
#[derive(Clone, Copy, Debug, PartialEq, Eq)]
pub enum MultisafepayBankNames {
    AbnAmro,
    AsnBank,
    Bunq,
    Ing,
    Knab,
    N26,
    NationaleNederlanden,
    Rabobank,
    Regiobank,
    Revolut,
    SnsBank,
    TriodosBank,
    VanLanschot,
    Yoursafe,
    Handelsbanken,
}

/// The Multisafepay iDEAL issuer catalog: which canonical bank names this
/// vendor supports, and the vendor value for each.
pub open spec fn spec_vendor_bank(b: BankNames) -> Option<MultisafepayBankNames> {
    match b {
        BankNames::AbnAmro => Some(MultisafepayBankNames::AbnAmro),
        BankNames::AsnBank => Some(MultisafepayBankNames::AsnBank),
        BankNames::Bunq => Some(MultisafepayBankNames::Bunq),
        BankNames::Ing => Some(MultisafepayBankNames::Ing),
        BankNames::Knab => Some(MultisafepayBankNames::Knab),
        BankNames::N26 => Some(MultisafepayBankNames::N26),
        BankNames::NationaleNederlanden => Some(MultisafepayBankNames::NationaleNederlanden),
        BankNames::Rabobank => Some(MultisafepayBankNames::Rabobank),
        BankNames::Regiobank => Some(MultisafepayBankNames::Regiobank),
        BankNames::Revolut => Some(MultisafepayBankNames::Revolut),
        BankNames::SnsBank => Some(MultisafepayBankNames::SnsBank),
        BankNames::TriodosBank => Some(MultisafepayBankNames::TriodosBank),
        BankNames::VanLanschot => Some(MultisafepayBankNames::VanLanschot),
        BankNames::Yoursafe => Some(MultisafepayBankNames::Yoursafe),
        BankNames::Handelsbanken => Some(MultisafepayBankNames::Handelsbanken),
        BankNames::AmericanExpress
        | BankNames::AffinBank
        | BankNames::AgroBank
        | BankNames::AllianceBank
        | BankNames::AmBank
        | BankNames::BankOfAmerica
        | BankNames::BankOfChina
        | BankNames::BankIslam
        | BankNames::BankMuamalat
        | BankNames::BankRakyat
        | BankNames::BankSimpananNasional
        | BankNames::Barclays
        | BankNames::BlikPSP
        | BankNames::CapitalOne
        | BankNames::Chase
        | BankNames::Citi
        | BankNames::CimbBank
        | BankNames::Discover
        | BankNames::NavyFederalCreditUnion
        | BankNames::PentagonFederalCreditUnion
        | BankNames::SynchronyBank
        | BankNames::WellsFargo
        | BankNames::HongLeongBank
        | BankNames::HsbcBank
        | BankNames::KuwaitFinanceHouse
        | BankNames::Moneyou
        | BankNames::ArzteUndApothekerBank
        | BankNames::AustrianAnadiBankAg
        | BankNames::BankAustria
        | BankNames::Bank99Ag
        | BankNames::BankhausCarlSpangler
        | BankNames::BankhausSchelhammerUndSchatteraAg
        | BankNames::BankMillennium
        | BankNames::BankPEKAOSA
        | BankNames::BawagPskAg
        | BankNames::BksBankAg
        | BankNames::BrullKallmusBankAg
        | BankNames::BtvVierLanderBank
        | BankNames::CapitalBankGraweGruppeAg
        | BankNames::CeskaSporitelna
        | BankNames::Dolomitenbank
        | BankNames::EasybankAg
        | BankNames::EPlatbyVUB
        | BankNames::ErsteBankUndSparkassen
        | BankNames::FrieslandBank
        | BankNames::HypoAlpeadriabankInternationalAg
        | BankNames::HypoNoeLbFurNiederosterreichUWien
        | BankNames::HypoOberosterreichSalzburgSteiermark
        | BankNames::HypoTirolBankAg
        | BankNames::HypoVorarlbergBankAg
        | BankNames::HypoBankBurgenlandAktiengesellschaft
        | BankNames::KomercniBanka
        | BankNames::MBank
        | BankNames::MarchfelderBank
        | BankNames::Maybank
        | BankNames::OberbankAg
        | BankNames::OsterreichischeArzteUndApothekerbank
        | BankNames::OcbcBank
        | BankNames::PayWithING
        | BankNames::PlaceZIPKO
        | BankNames::PlatnoscOnlineKartaPlatnicza
        | BankNames::PosojilnicaBankEGen
        | BankNames::PostovaBanka
        | BankNames::PublicBank
        | BankNames::RaiffeisenBankengruppeOsterreich
        | BankNames::RhbBank
        | BankNames::SchelhammerCapitalBankAg
        | BankNames::StandardCharteredBank
        | BankNames::SchoellerbankAg
        | BankNames::SpardaBankWien
        | BankNames::SporoPay
        | BankNames::SantanderPrzelew24
        | BankNames::TatraPay
        | BankNames::Viamo
        | BankNames::VolksbankGruppe
        | BankNames::VolkskreditbankAg
        | BankNames::VrBankBraunau
        | BankNames::UobBank
        | BankNames::PayWithAliorBank
        | BankNames::BankiSpoldzielcze
        | BankNames::PayWithInteligo
        | BankNames::BNPParibasPoland
        | BankNames::BankNowySA
        | BankNames::CreditAgricole
        | BankNames::PayWithBOS
        | BankNames::PayWithCitiHandlowy
        | BankNames::PayWithPlusBank
        | BankNames::ToyotaBank
        | BankNames::VeloBank
        | BankNames::ETransferPocztowy24
        | BankNames::PlusBank
        | BankNames::EtransferPocztowy24
        | BankNames::BankiSpbdzielcze
        | BankNames::BankNowyBfgSa
        | BankNames::GetinBank
        | BankNames::Blik
        | BankNames::NoblePay
        | BankNames::IdeaBank
        | BankNames::EnveloBank
        | BankNames::NestPrzelew
        | BankNames::MbankMtransfer
        | BankNames::Inteligo
        | BankNames::PbacZIpko
        | BankNames::BnpParibas
        | BankNames::BankPekaoSa
        | BankNames::VolkswagenBank
        | BankNames::AliorBank
        | BankNames::Boz
        | BankNames::BangkokBank
        | BankNames::KrungsriBank
        | BankNames::KrungThaiBank
        | BankNames::TheSiamCommercialBank
        | BankNames::KasikornBank
        | BankNames::OpenBankSuccess
        | BankNames::OpenBankFailure
        | BankNames::OpenBankCancelled
        | BankNames::Aib
        | BankNames::BankOfScotland
        | BankNames::DanskeBank
        | BankNames::FirstDirect
        | BankNames::FirstTrust
        | BankNames::Halifax
        | BankNames::Lloyds
        | BankNames::Monzo
        | BankNames::NatWest
        | BankNames::NationwideBank
        | BankNames::RoyalBankOfScotland
        | BankNames::Starling
        | BankNames::TsbBank
        | BankNames::TescoBank
        | BankNames::UlsterBank => None,
    }
}

/// Maps a canonical bank name into the vendor's iDEAL issuer catalog.
/// Canonical values outside the catalog are rejected with `NotSupported`.
pub fn bank_names_try_from(bank: &BankNames) -> (r: Result<MultisafepayBankNames, ConnectorError>)
    ensures
        spec_vendor_bank(*bank) matches Some(v) ==> r matches Ok(u) && u == v,
        spec_vendor_bank(*bank) is None ==> (r matches Err(e) && e.deep_view()
            == (ConnectorErrorV::NotSupported {
            message: "BankRedirect"@,
            connector: "Multisafepay"@,
        })),
{
    match bank {
        BankNames::AbnAmro => Ok(MultisafepayBankNames::AbnAmro),
        BankNames::AsnBank => Ok(MultisafepayBankNames::AsnBank),
        BankNames::Bunq => Ok(MultisafepayBankNames::Bunq),
        BankNames::Ing => Ok(MultisafepayBankNames::Ing),
        BankNames::Knab => Ok(MultisafepayBankNames::Knab),
        BankNames::N26 => Ok(MultisafepayBankNames::N26),
        BankNames::NationaleNederlanden => Ok(MultisafepayBankNames::NationaleNederlanden),
        BankNames::Rabobank => Ok(MultisafepayBankNames::Rabobank),
        BankNames::Regiobank => Ok(MultisafepayBankNames::Regiobank),
        BankNames::Revolut => Ok(MultisafepayBankNames::Revolut),
        BankNames::SnsBank => Ok(MultisafepayBankNames::SnsBank),
        BankNames::TriodosBank => Ok(MultisafepayBankNames::TriodosBank),
        BankNames::VanLanschot => Ok(MultisafepayBankNames::VanLanschot),
        BankNames::Yoursafe => Ok(MultisafepayBankNames::Yoursafe),
        BankNames::Handelsbanken => Ok(MultisafepayBankNames::Handelsbanken),
        BankNames::AmericanExpress
        | BankNames::AffinBank
        | BankNames::AgroBank
        | BankNames::AllianceBank
        | BankNames::AmBank
        | BankNames::BankOfAmerica
        | BankNames::BankOfChina
        | BankNames::BankIslam
        | BankNames::BankMuamalat
        | BankNames::BankRakyat
        | BankNames::BankSimpananNasional
        | BankNames::Barclays
        | BankNames::BlikPSP
        | BankNames::CapitalOne
        | BankNames::Chase
        | BankNames::Citi
        | BankNames::CimbBank
        | BankNames::Discover
        | BankNames::NavyFederalCreditUnion
        | BankNames::PentagonFederalCreditUnion
        | BankNames::SynchronyBank
        | BankNames::WellsFargo
        | BankNames::HongLeongBank
        | BankNames::HsbcBank
        | BankNames::KuwaitFinanceHouse
        | BankNames::Moneyou
        | BankNames::ArzteUndApothekerBank
        | BankNames::AustrianAnadiBankAg
        | BankNames::BankAustria
        | BankNames::Bank99Ag
        | BankNames::BankhausCarlSpangler
        | BankNames::BankhausSchelhammerUndSchatteraAg
        | BankNames::BankMillennium
        | BankNames::BankPEKAOSA
        | BankNames::BawagPskAg
        | BankNames::BksBankAg
        | BankNames::BrullKallmusBankAg
        | BankNames::BtvVierLanderBank
        | BankNames::CapitalBankGraweGruppeAg
        | BankNames::CeskaSporitelna
        | BankNames::Dolomitenbank
        | BankNames::EasybankAg
        | BankNames::EPlatbyVUB
        | BankNames::ErsteBankUndSparkassen
        | BankNames::FrieslandBank
        | BankNames::HypoAlpeadriabankInternationalAg
        | BankNames::HypoNoeLbFurNiederosterreichUWien
        | BankNames::HypoOberosterreichSalzburgSteiermark
        | BankNames::HypoTirolBankAg
        | BankNames::HypoVorarlbergBankAg
        | BankNames::HypoBankBurgenlandAktiengesellschaft
        | BankNames::KomercniBanka
        | BankNames::MBank
        | BankNames::MarchfelderBank
        | BankNames::Maybank
        | BankNames::OberbankAg
        | BankNames::OsterreichischeArzteUndApothekerbank
        | BankNames::OcbcBank
        | BankNames::PayWithING
        | BankNames::PlaceZIPKO
        | BankNames::PlatnoscOnlineKartaPlatnicza
        | BankNames::PosojilnicaBankEGen
        | BankNames::PostovaBanka
        | BankNames::PublicBank
        | BankNames::RaiffeisenBankengruppeOsterreich
        | BankNames::RhbBank
        | BankNames::SchelhammerCapitalBankAg
        | BankNames::StandardCharteredBank
        | BankNames::SchoellerbankAg
        | BankNames::SpardaBankWien
        | BankNames::SporoPay
        | BankNames::SantanderPrzelew24
        | BankNames::TatraPay
        | BankNames::Viamo
        | BankNames::VolksbankGruppe
        | BankNames::VolkskreditbankAg
        | BankNames::VrBankBraunau
        | BankNames::UobBank
        | BankNames::PayWithAliorBank
        | BankNames::BankiSpoldzielcze
        | BankNames::PayWithInteligo
        | BankNames::BNPParibasPoland
        | BankNames::BankNowySA
        | BankNames::CreditAgricole
        | BankNames::PayWithBOS
        | BankNames::PayWithCitiHandlowy
        | BankNames::PayWithPlusBank
        | BankNames::ToyotaBank
        | BankNames::VeloBank
        | BankNames::ETransferPocztowy24
        | BankNames::PlusBank
        | BankNames::EtransferPocztowy24
        | BankNames::BankiSpbdzielcze
        | BankNames::BankNowyBfgSa
        | BankNames::GetinBank
        | BankNames::Blik
        | BankNames::NoblePay
        | BankNames::IdeaBank
        | BankNames::EnveloBank
        | BankNames::NestPrzelew
        | BankNames::MbankMtransfer
        | BankNames::Inteligo
        | BankNames::PbacZIpko
        | BankNames::BnpParibas
        | BankNames::BankPekaoSa
        | BankNames::VolkswagenBank
        | BankNames::AliorBank
        | BankNames::Boz
        | BankNames::BangkokBank
        | BankNames::KrungsriBank
        | BankNames::KrungThaiBank
        | BankNames::TheSiamCommercialBank
        | BankNames::KasikornBank
        | BankNames::OpenBankSuccess
        | BankNames::OpenBankFailure
        | BankNames::OpenBankCancelled
        | BankNames::Aib
        | BankNames::BankOfScotland
        | BankNames::DanskeBank
        | BankNames::FirstDirect
        | BankNames::FirstTrust
        | BankNames::Halifax
        | BankNames::Lloyds
        | BankNames::Monzo
        | BankNames::NatWest
        | BankNames::NationwideBank
        | BankNames::RoyalBankOfScotland
        | BankNames::Starling
        | BankNames::TsbBank
        | BankNames::TescoBank
        | BankNames::UlsterBank => Err(ConnectorError::NotSupported {
            message: "BankRedirect".to_owned(),
            connector: "Multisafepay".to_owned(),
        }),
    }
}

/// The canonical bank name a vendor catalog entry stands for.
pub open spec fn spec_canonical_bank(v: MultisafepayBankNames) -> BankNames {
    match v {
        MultisafepayBankNames::AbnAmro => BankNames::AbnAmro,
        MultisafepayBankNames::AsnBank => BankNames::AsnBank,
        MultisafepayBankNames::Bunq => BankNames::Bunq,
        MultisafepayBankNames::Ing => BankNames::Ing,
        MultisafepayBankNames::Knab => BankNames::Knab,
        MultisafepayBankNames::N26 => BankNames::N26,
        MultisafepayBankNames::NationaleNederlanden => BankNames::NationaleNederlanden,
        MultisafepayBankNames::Rabobank => BankNames::Rabobank,
        MultisafepayBankNames::Regiobank => BankNames::Regiobank,
        MultisafepayBankNames::Revolut => BankNames::Revolut,
        MultisafepayBankNames::SnsBank => BankNames::SnsBank,
        MultisafepayBankNames::TriodosBank => BankNames::TriodosBank,
        MultisafepayBankNames::VanLanschot => BankNames::VanLanschot,
        MultisafepayBankNames::Yoursafe => BankNames::Yoursafe,
        MultisafepayBankNames::Handelsbanken => BankNames::Handelsbanken,
    }
}

impl MultisafepayBankNames {
    /// Maps a vendor catalog entry back to the canonical bank name.
    pub fn to_canonical(&self) -> (r: BankNames)
        ensures
            r == spec_canonical_bank(*self),
    {
        match self {
            MultisafepayBankNames::AbnAmro => BankNames::AbnAmro,
            MultisafepayBankNames::AsnBank => BankNames::AsnBank,
            MultisafepayBankNames::Bunq => BankNames::Bunq,
            MultisafepayBankNames::Ing => BankNames::Ing,
            MultisafepayBankNames::Knab => BankNames::Knab,
            MultisafepayBankNames::N26 => BankNames::N26,
            MultisafepayBankNames::NationaleNederlanden => BankNames::NationaleNederlanden,
            MultisafepayBankNames::Rabobank => BankNames::Rabobank,
            MultisafepayBankNames::Regiobank => BankNames::Regiobank,
            MultisafepayBankNames::Revolut => BankNames::Revolut,
            MultisafepayBankNames::SnsBank => BankNames::SnsBank,
            MultisafepayBankNames::TriodosBank => BankNames::TriodosBank,
            MultisafepayBankNames::VanLanschot => BankNames::VanLanschot,
            MultisafepayBankNames::Yoursafe => BankNames::Yoursafe,
            MultisafepayBankNames::Handelsbanken => BankNames::Handelsbanken,
        }
    }
}

/// The wire code Multisafepay assigns to each iDEAL issuer.
pub open spec fn spec_issuer_code(v: MultisafepayBankNames) -> Seq<char> {
    match v {
        MultisafepayBankNames::AbnAmro => "0031"@,
        MultisafepayBankNames::AsnBank => "0761"@,
        MultisafepayBankNames::Bunq => "4371"@,
        MultisafepayBankNames::Ing => "0721"@,
        MultisafepayBankNames::Knab => "0801"@,
        MultisafepayBankNames::N26 => "9926"@,
        MultisafepayBankNames::NationaleNederlanden => "9927"@,
        MultisafepayBankNames::Rabobank => "0021"@,
        MultisafepayBankNames::Regiobank => "0771"@,
        MultisafepayBankNames::Revolut => "1099"@,
        MultisafepayBankNames::SnsBank => "0751"@,
        MultisafepayBankNames::TriodosBank => "0511"@,
        MultisafepayBankNames::VanLanschot => "0161"@,
        MultisafepayBankNames::Yoursafe => "0806"@,
        MultisafepayBankNames::Handelsbanken => "1235"@,
    }
}

impl MultisafepayBankNames {
    /// The wire code this issuer serializes to.
    pub fn issuer_code(&self) -> (r: &'static str)
        ensures
            r@ == spec_issuer_code(*self),
    {
        match self {
            MultisafepayBankNames::AbnAmro => "0031",
            MultisafepayBankNames::AsnBank => "0761",
            MultisafepayBankNames::Bunq => "4371",
            MultisafepayBankNames::Ing => "0721",
            MultisafepayBankNames::Knab => "0801",
            MultisafepayBankNames::N26 => "9926",
            MultisafepayBankNames::NationaleNederlanden => "9927",
            MultisafepayBankNames::Rabobank => "0021",
            MultisafepayBankNames::Regiobank => "0771",
            MultisafepayBankNames::Revolut => "1099",
            MultisafepayBankNames::SnsBank => "0751",
            MultisafepayBankNames::TriodosBank => "0511",
            MultisafepayBankNames::VanLanschot => "0161",
            MultisafepayBankNames::Yoursafe => "0806",
            MultisafepayBankNames::Handelsbanken => "1235",
        }
    }
}


/// The recurring-payment model requested from the vendor.
#[derive(Clone, Copy, Debug, PartialEq, Eq)]
pub enum MandateType {
    Unscheduled,
}

impl MandateType {
    /// The lowercase wire spelling of the mandate model.
    pub fn wire_name(&self) -> (r: &'static str)
        ensures
            r@ == "unscheduled"@,
    {
        match self {
            MandateType::Unscheduled => "unscheduled",
        }
    }
}

/// The vendor's own payment status vocabulary.
#[derive(Clone, Copy, Debug, PartialEq, Eq)]
pub enum MultisafepayPaymentStatus {
    Completed,
    Declined,
    Initialized,
    Void,
    Uncleared,
}

/// The canonical attempt status each vendor payment status normalizes to.
pub open spec fn spec_attempt_status(s: MultisafepayPaymentStatus) -> AttemptStatus {
    match s {
        MultisafepayPaymentStatus::Completed => AttemptStatus::Charged,
        MultisafepayPaymentStatus::Declined => AttemptStatus::Failure,
        MultisafepayPaymentStatus::Initialized => AttemptStatus::AuthenticationPending,
        MultisafepayPaymentStatus::Uncleared => AttemptStatus::Pending,
        MultisafepayPaymentStatus::Void => AttemptStatus::Voided,
    }
}

/// Normalizes a vendor payment status to the canonical attempt status.
pub fn attempt_status_from(s: MultisafepayPaymentStatus) -> (r: AttemptStatus)
    ensures
        r == spec_attempt_status(s),
{
    match s {
        MultisafepayPaymentStatus::Completed => AttemptStatus::Charged,
        MultisafepayPaymentStatus::Declined => AttemptStatus::Failure,
        MultisafepayPaymentStatus::Initialized => AttemptStatus::AuthenticationPending,
        MultisafepayPaymentStatus::Uncleared => AttemptStatus::Pending,
        MultisafepayPaymentStatus::Void => AttemptStatus::Voided,
    }
}

/// The vendor's refund status vocabulary.
#[derive(Clone, Copy, Debug, PartialEq, Eq)]
pub enum RefundStatus {
    Succeeded,
    Failed,
    Processing,
}

/// The canonical three-state refund status each vendor refund status maps to.
pub open spec fn spec_refund_status(s: RefundStatus) -> CanonicalRefundStatus {
    match s {
        RefundStatus::Succeeded => CanonicalRefundStatus::Success,
        RefundStatus::Failed => CanonicalRefundStatus::Failure,
        RefundStatus::Processing => CanonicalRefundStatus::Pending,
    }
}

/// Normalizes a vendor refund status to the canonical refund status.
pub fn refund_status_from(s: RefundStatus) -> (r: CanonicalRefundStatus)
    ensures
        r == spec_refund_status(s),
{
    match s {
        RefundStatus::Succeeded => CanonicalRefundStatus::Success,
        RefundStatus::Failed => CanonicalRefundStatus::Failure,
        RefundStatus::Processing => CanonicalRefundStatus::Pending,
    }
}

/// Multisafepay credentials: a single API key sent as a header.
#[derive(Clone, Debug, PartialEq, Eq)]
pub struct MultisafepayAuthType {
    pub api_key: String,
}

impl MultisafepayAuthType {
    /// Accepts exactly the header-key credential shape; every other shape is
    /// a `FailedToObtainAuthType` error.
    pub fn try_from_auth(auth_type: &ConnectorAuthType) -> (r: Result<Self, ConnectorError>)
        ensures
            auth_type matches ConnectorAuthType::HeaderKey { api_key } ==> (r matches Ok(a)
                && a.api_key@ == api_key@),
            !(auth_type matches ConnectorAuthType::HeaderKey { .. }) ==> (r matches Err(e)
                && e.deep_view() == ConnectorErrorV::FailedToObtainAuthType),
    {
        if let ConnectorAuthType::HeaderKey { api_key } = auth_type {
            Ok(MultisafepayAuthType { api_key: api_key.clone() })
        } else {
            Err(ConnectorError::FailedToObtainAuthType)
        }
    }
}

/// The vendor's error envelope: a numeric code and a text description.
#[derive(Clone, Debug, PartialEq, Eq)]
pub struct MultisafepayErrorResponse {
    pub error_code: i32,
    pub error_info: String,
}

/// The static per-vendor lookup from error code to canonical attempt
/// status. `None` means "do not override the existing status"; the lookup is
/// total and unrecognized codes always yield `None`.
pub open spec fn spec_attempt_status_for_error_code(code: i32) -> Option<AttemptStatus> {
    if code == 10001 || code == 1002 || code == 1003 || code == 1004 || code == 1005 || code
        == 1006 || code == 1007 || code == 1008 || code == 1010 || code == 1011 || code == 1012
        || code == 1013 || code == 1015 || code == 1016 || code == 1018 || code == 1025 || code
        == 1026 || code == 1027 || code == 1028 || code == 1029 || code == 1030 || code == 1031
        || code == 1035 || code == 1036 || code == 5001 || code == 1032 {
        Some(AttemptStatus::AuthenticationFailed)
    } else if code == 1034 || code == 1022 || code == 1024 {
        Some(AttemptStatus::Failure)
    } else if code == 1017 {
        Some(AttemptStatus::AuthorizationFailed)
    } else {
        None
    }
}

impl MultisafepayErrorResponse {
    /// Looks the vendor error code up in the static status table.
    pub fn attempt_status(&self) -> (r: Option<AttemptStatus>)
        ensures
            r == spec_attempt_status_for_error_code(self.error_code),
    {
        match self.error_code {
            10001 // InvalidAmount
            | 1002 // InvalidCurrency
            | 1003 // InvalidAccountID
            | 1004 // InvalidSiteID
            | 1005 // InvalidSecurityCode
            | 1006 // InvalidTransactionID
            | 1007 // InvalidIPAddress
            | 1008 // InvalidDescription
            | 1010 // InvalidVariable
            | 1011 // InvalidCustomerAccountID
            | 1012 // InvalidCustomerSecurityCode
            | 1013 // InvalidSignature
            | 1015 // UnknownAccountID
            | 1016 // MissingData
            | 1018 // InvalidCountryCode
            | 1025 // IncorrectCustomerIPAddress
            | 1026 // MultipleCurrenciesInCart
            | 1027 // CartCurrencyDifferentToOrderCurrency
            | 1028 // IncorrectCustomTaxRate
            | 1029 // IncorrectItemTaxRate
            | 1030 // IncorrectItemCurrency
            | 1031 // IncorrectItemPrice
            | 1035 // InvalidSignatureRefund
            | 1036 // InvalidIdealIssuerID
            | 5001 // CartDataNotValidated
            | 1032 // InvalidAPIKey
            => Some(AttemptStatus::AuthenticationFailed),
            1034 // CannotRefundTransaction
            | 1022 // CannotInitiateTransaction
            | 1024 // TransactionDeclined
            => Some(AttemptStatus::Failure),
            1017 // InsufficientFunds
            => Some(AttemptStatus::AuthorizationFailed),
            _ => None,
        }
    }
}

/// Every vendor error code outside the curated table maps to `None`: an
/// unrecognized code never overrides the attempt status.
pub proof fn lemma_unrecognized_error_code_maps_to_none(code: i32)
    requires
        code != 10001 && code != 1002 && code != 1003 && code != 1004 && code != 1005 && code
            != 1006 && code != 1007 && code != 1008 && code != 1010 && code != 1011 && code != 1012
            && code != 1013 && code != 1015 && code != 1016 && code != 1018 && code != 1025 && code
            != 1026 && code != 1027 && code != 1028 && code != 1029 && code != 1030 && code != 1031
            && code != 1035 && code != 1036 && code != 5001 && code != 1032 && code != 1034 && code
            != 1022 && code != 1024 && code != 1017,
    ensures
        spec_attempt_status_for_error_code(code) is None,
{
}

/// Vendor error code 1017 (insufficient funds) always normalizes to
/// `AuthorizationFailed`.
pub proof fn lemma_insufficient_funds_maps_to_authorization_failed()
    ensures
        spec_attempt_status_for_error_code(1017) == Some(AttemptStatus::AuthorizationFailed),
{
}

/// The normalized error envelope, with the sentinel defaults applied: the
/// canonical error always carries a non-empty code and message, so
/// downstream consumers never observe an empty error. A vendor value that is
/// absent or empty counts as omitted and is replaced by its sentinel.
pub open spec fn spec_populate_error_reason(
    code: Option<Seq<char>>,
    message: Option<Seq<char>>,
    reason: Option<Seq<char>>,
    http_code: u16,
    attempt_status: Option<AttemptStatus>,
    connector_transaction_id: Option<Seq<char>>,
) -> ErrorResponseV {
    ErrorResponseV {
        code: match code {
            Some(c) => if c.len() > 0 {
                c
            } else {
                "NO_ERROR_CODE"@
            },
            None => "NO_ERROR_CODE"@,
        },
        message: match message {
            Some(m) => if m.len() > 0 {
                m
            } else {
                "NO_ERROR_MESSAGE"@
            },
            None => "NO_ERROR_MESSAGE"@,
        },
        reason,
        status_code: http_code,
        attempt_status,
        connector_transaction_id,
        network_advice_code: None,
        network_decline_code: None,
        network_error_message: None,
    }
}

/// The normalized envelope's code and message are never empty, whatever the
/// vendor sent.
pub proof fn lemma_populated_error_never_empty(
    code: Option<Seq<char>>,
    message: Option<Seq<char>>,
    reason: Option<Seq<char>>,
    http_code: u16,
    attempt_status: Option<AttemptStatus>,
    connector_transaction_id: Option<Seq<char>>,
)
    ensures
        spec_populate_error_reason(
            code,
            message,
            reason,
            http_code,
            attempt_status,
            connector_transaction_id,
        ).code.len() > 0,
        spec_populate_error_reason(
            code,
            message,
            reason,
            http_code,
            attempt_status,
            connector_transaction_id,
        ).message.len() > 0,
{
    reveal_strlit("NO_ERROR_CODE");
    reveal_strlit("NO_ERROR_MESSAGE");
}

/// Builds the canonical error envelope for a vendor failure, defaulting an
/// absent or empty code or message to the documented sentinels: the result
/// never carries an empty code or message.
pub fn populate_error_reason(
    code: Option<String>,
    message: Option<String>,
    reason: Option<String>,
    http_code: u16,
    attempt_status: Option<AttemptStatus>,
    connector_transaction_id: Option<String>,
) -> (r: ErrorResponse)
    ensures
        r.deep_view() == spec_populate_error_reason(
            code.deep_view(),
            message.deep_view(),
            reason.deep_view(),
            http_code,
            attempt_status,
            connector_transaction_id.deep_view(),
        ),
        r.code@.len() > 0,
        r.message@.len() > 0,
{
    proof {
        reveal_strlit("NO_ERROR_CODE");
        reveal_strlit("NO_ERROR_MESSAGE");
    }
    let r = ErrorResponse {
        code: match code {
            Some(c) => if c.as_str().is_empty() {
                "NO_ERROR_CODE".to_owned()
            } else {
                c
            },
            None => "NO_ERROR_CODE".to_owned(),
        },
        message: match message {
            Some(m) => if m.as_str().is_empty() {
                "NO_ERROR_MESSAGE".to_owned()
            } else {
                m
            },
            None => "NO_ERROR_MESSAGE".to_owned(),
        },
        reason,
        status_code: http_code,
        attempt_status,
        connector_transaction_id,
        network_advice_code: None,
        network_decline_code: None,
        network_error_message: None,
    };
    proof {
        assert(r.deep_view() =~= spec_populate_error_reason(
            code.deep_view(),
            message.deep_view(),
            reason.deep_view(),
            http_code,
            attempt_status,
            connector_transaction_id.deep_view(),
        ));
    }
    r
}

/// Coupon settings of the payment options.
#[derive(Clone, Debug, PartialEq, Eq)]
pub struct Coupons {
    pub allow: Option<Vec<String>>,
}

/// Model of [`Coupons`].
#[verifier::ext_equal]
pub struct CouponsV {
    pub allow: Option<Seq<Seq<char>>>,
}

impl DeepView for Coupons {
    type V = CouponsV;

    open spec fn deep_view(&self) -> CouponsV {
        CouponsV { allow: self.allow.deep_view() }
    }
}

/// Bancontact-specific gateway display settings.
#[derive(Clone, Debug, PartialEq, Eq)]
pub struct Mistercash {
    pub mobile_pay_button_position: Option<String>,
    pub disable_mobile_pay_button: Option<String>,
    pub qr_only: Option<String>,
    pub qr_size: Option<String>,
}

/// Model of [`Mistercash`].
#[verifier::ext_equal]
pub struct MistercashV {
    pub mobile_pay_button_position: Option<Seq<char>>,
    pub disable_mobile_pay_button: Option<Seq<char>>,
    pub qr_only: Option<Seq<char>>,
    pub qr_size: Option<Seq<char>>,
}

impl DeepView for Mistercash {
    type V = MistercashV;

    open spec fn deep_view(&self) -> MistercashV {
        MistercashV {
            mobile_pay_button_position: self.mobile_pay_button_position.deep_view(),
            disable_mobile_pay_button: self.disable_mobile_pay_button.deep_view(),
            qr_only: self.qr_only.deep_view(),
            qr_size: self.qr_size.deep_view(),
        }
    }
}

/// Per-gateway settings of the payment options.
#[derive(Clone, Debug, PartialEq, Eq)]
pub struct Gateways {
    pub mistercash: Option<Mistercash>,
}

/// Model of [`Gateways`].
#[verifier::ext_equal]
pub struct GatewaysV {
    pub mistercash: Option<MistercashV>,
}

impl DeepView for Gateways {
    type V = GatewaysV;

    open spec fn deep_view(&self) -> GatewaysV {
        GatewaysV { mistercash: self.mistercash.deep_view() }
    }
}

/// Optional payment-option settings.
#[derive(Clone, Debug, PartialEq, Eq)]
pub struct Settings {
    pub coupons: Option<Coupons>,
    pub gateways: Option<Gateways>,
}

/// Model of [`Settings`].
#[verifier::ext_equal]
pub struct SettingsV {
    pub coupons: Option<CouponsV>,
    pub gateways: Option<GatewaysV>,
}

impl DeepView for Settings {
    type V = SettingsV;

    open spec fn deep_view(&self) -> SettingsV {
        SettingsV { coupons: self.coupons.deep_view(), gateways: self.gateways.deep_view() }
    }
}

/// Redirect and notification URLs the vendor uses during the payment.
#[derive(Clone, Debug, PartialEq, Eq)]
pub struct PaymentOptions {
    pub notification_url: Option<String>,
    pub notification_method: Option<String>,
    pub redirect_url: String,
    pub cancel_url: String,
    pub close_window: Option<bool>,
    pub settings: Option<Settings>,
    pub template_id: Option<String>,
    pub allowed_countries: Option<Vec<String>>,
}

/// Model of [`PaymentOptions`].
#[verifier::ext_equal]
pub struct PaymentOptionsV {
    pub notification_url: Option<Seq<char>>,
    pub notification_method: Option<Seq<char>>,
    pub redirect_url: Seq<char>,
    pub cancel_url: Seq<char>,
    pub close_window: Option<bool>,
    pub settings: Option<SettingsV>,
    pub template_id: Option<Seq<char>>,
    pub allowed_countries: Option<Seq<Seq<char>>>,
}

impl DeepView for PaymentOptions {
    type V = PaymentOptionsV;

    open spec fn deep_view(&self) -> PaymentOptionsV {
        PaymentOptionsV {
            notification_url: self.notification_url.deep_view(),
            notification_method: self.notification_method.deep_view(),
            redirect_url: self.redirect_url@,
            cancel_url: self.cancel_url@,
            close_window: self.close_window,
            settings: self.settings.deep_view(),
            template_id: self.template_id.deep_view(),
            allowed_countries: self.allowed_countries.deep_view(),
        }
    }
}

/// Payer browser details the vendor may use for risk checks.
#[derive(Clone, Debug, PartialEq, Eq)]
pub struct Browser {
    pub javascript_enabled: Option<bool>,
    pub java_enabled: Option<bool>,
    pub cookies_enabled: Option<bool>,
    pub language: Option<String>,
    pub screen_color_depth: Option<i32>,
    pub screen_height: Option<i32>,
    pub screen_width: Option<i32>,
    pub time_zone: Option<i32>,
    pub user_agent: Option<String>,
    pub platform: Option<String>,
}

/// Model of [`Browser`].
#[verifier::ext_equal]
pub struct BrowserV {
    pub javascript_enabled: Option<bool>,
    pub java_enabled: Option<bool>,
    pub cookies_enabled: Option<bool>,
    pub language: Option<Seq<char>>,
    pub screen_color_depth: Option<i32>,
    pub screen_height: Option<i32>,
    pub screen_width: Option<i32>,
    pub time_zone: Option<i32>,
    pub user_agent: Option<Seq<char>>,
    pub platform: Option<Seq<char>>,
}

impl DeepView for Browser {
    type V = BrowserV;

    open spec fn deep_view(&self) -> BrowserV {
        BrowserV {
            javascript_enabled: self.javascript_enabled,
            java_enabled: self.java_enabled,
            cookies_enabled: self.cookies_enabled,
            language: self.language.deep_view(),
            screen_color_depth: self.screen_color_depth,
            screen_height: self.screen_height,
            screen_width: self.screen_width,
            time_zone: self.time_zone,
            user_agent: self.user_agent.deep_view(),
            platform: self.platform.deep_view(),
        }
    }
}

/// Payer details sent with the vendor request.
#[derive(Clone, Debug, PartialEq, Eq)]
pub struct Customer {
    pub browser: Option<Browser>,
    pub locale: Option<String>,
    pub ip_address: Option<String>,
    pub forward_ip: Option<String>,
    pub first_name: Option<String>,
    pub last_name: Option<String>,
    pub gender: Option<String>,
    pub birthday: Option<String>,
    pub address1: Option<String>,
    pub address2: Option<String>,
    pub house_number: Option<String>,
    pub zip_code: Option<String>,
    pub city: Option<String>,
    pub state: Option<String>,
    pub country: Option<String>,
    pub phone: Option<String>,
    pub email: Option<String>,
    pub user_agent: Option<String>,
    pub referrer: Option<String>,
    pub reference: Option<String>,
}

/// Model of [`Customer`].
#[verifier::ext_equal]
pub struct CustomerV {
    pub browser: Option<BrowserV>,
    pub locale: Option<Seq<char>>,
    pub ip_address: Option<Seq<char>>,
    pub forward_ip: Option<Seq<char>>,
    pub first_name: Option<Seq<char>>,
    pub last_name: Option<Seq<char>>,
    pub gender: Option<Seq<char>>,
    pub birthday: Option<Seq<char>>,
    pub address1: Option<Seq<char>>,
    pub address2: Option<Seq<char>>,
    pub house_number: Option<Seq<char>>,
    pub zip_code: Option<Seq<char>>,
    pub city: Option<Seq<char>>,
    pub state: Option<Seq<char>>,
    pub country: Option<Seq<char>>,
    pub phone: Option<Seq<char>>,
    pub email: Option<Seq<char>>,
    pub user_agent: Option<Seq<char>>,
    pub referrer: Option<Seq<char>>,
    pub reference: Option<Seq<char>>,
}

impl DeepView for Customer {
    type V = CustomerV;

    open spec fn deep_view(&self) -> CustomerV {
        CustomerV {
            browser: self.browser.deep_view(),
            locale: self.locale.deep_view(),
            ip_address: self.ip_address.deep_view(),
            forward_ip: self.forward_ip.deep_view(),
            first_name: self.first_name.deep_view(),
            last_name: self.last_name.deep_view(),
            gender: self.gender.deep_view(),
            birthday: self.birthday.deep_view(),
            address1: self.address1.deep_view(),
            address2: self.address2.deep_view(),
            house_number: self.house_number.deep_view(),
            zip_code: self.zip_code.deep_view(),
            city: self.city.deep_view(),
            state: self.state.deep_view(),
            country: self.country.deep_view(),
            phone: self.phone.deep_view(),
            email: self.email.deep_view(),
            user_agent: self.user_agent.deep_view(),
            referrer: self.referrer.deep_view(),
            reference: self.reference.deep_view(),
        }
    }
}

/// Card details of a direct card charge. The expiry is the vendor's
/// `yymm` decimal encoding.
#[derive(Clone, Debug, PartialEq, Eq)]
pub struct CardInfo {
    pub card_number: Option<String>,
    pub card_holder_name: Option<String>,
    pub card_expiry_date: Option<i32>,
    pub card_cvc: Option<String>,
    pub flexible_3d: Option<bool>,
    pub moto: Option<bool>,
    pub term_url: Option<String>,
}

/// Model of [`CardInfo`].
#[verifier::ext_equal]
pub struct CardInfoV {
    pub card_number: Option<Seq<char>>,
    pub card_holder_name: Option<Seq<char>>,
    pub card_expiry_date: Option<i32>,
    pub card_cvc: Option<Seq<char>>,
    pub flexible_3d: Option<bool>,
    pub moto: Option<bool>,
    pub term_url: Option<Seq<char>>,
}

impl DeepView for CardInfo {
    type V = CardInfoV;

    open spec fn deep_view(&self) -> CardInfoV {
        CardInfoV {
            card_number: self.card_number.deep_view(),
            card_holder_name: self.card_holder_name.deep_view(),
            card_expiry_date: self.card_expiry_date,
            card_cvc: self.card_cvc.deep_view(),
            flexible_3d: self.flexible_3d,
            moto: self.moto,
            term_url: self.term_url.deep_view(),
        }
    }
}

/// Google Pay token details.
#[derive(Clone, Debug, PartialEq, Eq)]
pub struct GpayInfo {
    pub payment_token: Option<String>,
}

/// Model of [`GpayInfo`].
#[verifier::ext_equal]
pub struct GpayInfoV {
    pub payment_token: Option<Seq<char>>,
}

impl DeepView for GpayInfo {
    type V = GpayInfoV;

    open spec fn deep_view(&self) -> GpayInfoV {
        GpayInfoV { payment_token: self.payment_token.deep_view() }
    }
}

/// Pay-later details: the payer email the provider bills.
#[derive(Clone, Debug, PartialEq, Eq)]
pub struct PayLaterInfo {
    pub email: Option<String>,
}

/// Model of [`PayLaterInfo`].
#[verifier::ext_equal]
pub struct PayLaterInfoV {
    pub email: Option<Seq<char>>,
}

impl DeepView for PayLaterInfo {
    type V = PayLaterInfoV;

    open spec fn deep_view(&self) -> PayLaterInfoV {
        PayLaterInfoV { email: self.email.deep_view() }
    }
}

/// Wallet gateway details.
#[derive(Clone, Debug, PartialEq, Eq)]
pub struct MbWayInfo {}

/// Wallet gateway details.
#[derive(Clone, Debug, PartialEq, Eq)]
pub struct WeChatPayInfo {}

/// Wallet gateway details.
#[derive(Clone, Debug, PartialEq, Eq)]
pub struct AlipayInfo {}

/// Wallet-specific gateway information.
#[derive(Clone, Debug, PartialEq, Eq)]
pub enum WalletInfo {
    GooglePay(GpayInfo),
    Alipay(AlipayInfo),
    WeChatPay(WeChatPayInfo),
    MbWay(MbWayInfo),
}

/// Model of [`WalletInfo`].
#[verifier::ext_equal]
pub enum WalletInfoV {
    GooglePay(GpayInfoV),
    Alipay,
    WeChatPay,
    MbWay,
}

impl DeepView for WalletInfo {
    type V = WalletInfoV;

    open spec fn deep_view(&self) -> WalletInfoV {
        match self {
            WalletInfo::GooglePay(g) => WalletInfoV::GooglePay(g.deep_view()),
            WalletInfo::Alipay(_) => WalletInfoV::Alipay,
            WalletInfo::WeChatPay(_) => WalletInfoV::WeChatPay,
            WalletInfo::MbWay(_) => WalletInfoV::MbWay,
        }
    }
}

/// Bank-redirect gateway details.
#[derive(Clone, Debug, PartialEq, Eq)]
pub struct SofortInfo {}

/// Bank-redirect gateway details.
#[derive(Clone, Debug, PartialEq, Eq)]
pub struct EpsInfo {}

/// Bank-redirect gateway details.
#[derive(Clone, Debug, PartialEq, Eq)]
pub struct TrustlyInfo {}

/// iDEAL details: the issuer selected by the payer.
#[derive(Clone, Debug, PartialEq, Eq)]
pub struct IdealInfo {
    pub issuer_id: MultisafepayBankNames,
}

/// Bank-redirect-specific gateway information.
#[derive(Clone, Debug, PartialEq, Eq)]
pub enum BankRedirectInfo {
    Ideal(IdealInfo),
    Trustly(TrustlyInfo),
    Eps(EpsInfo),
    Sofort(SofortInfo),
}

/// Model of [`BankRedirectInfo`].
#[verifier::ext_equal]
pub enum BankRedirectInfoV {
    Ideal { issuer_id: MultisafepayBankNames },
    Trustly,
    Eps,
    Sofort,
}

impl DeepView for BankRedirectInfo {
    type V = BankRedirectInfoV;

    open spec fn deep_view(&self) -> BankRedirectInfoV {
        match self {
            BankRedirectInfo::Ideal(i) => BankRedirectInfoV::Ideal { issuer_id: i.issuer_id },
            BankRedirectInfo::Trustly(_) => BankRedirectInfoV::Trustly,
            BankRedirectInfo::Eps(_) => BankRedirectInfoV::Eps,
            BankRedirectInfo::Sofort(_) => BankRedirectInfoV::Sofort,
        }
    }
}

/// Gateway-specific information of the vendor request.
#[derive(Clone, Debug, PartialEq, Eq)]
pub enum GatewayInfo {
    Card(CardInfo),
    Wallet(WalletInfo),
    PayLater(PayLaterInfo),
    BankRedirect(BankRedirectInfo),
}

/// Model of [`GatewayInfo`].
#[verifier::ext_equal]
pub enum GatewayInfoV {
    Card(CardInfoV),
    Wallet(WalletInfoV),
    PayLater(PayLaterInfoV),
    BankRedirect(BankRedirectInfoV),
}

impl DeepView for GatewayInfo {
    type V = GatewayInfoV;

    open spec fn deep_view(&self) -> GatewayInfoV {
        match self {
            GatewayInfo::Card(c) => GatewayInfoV::Card(c.deep_view()),
            GatewayInfo::Wallet(w) => GatewayInfoV::Wallet(w.deep_view()),
            GatewayInfo::PayLater(p) => GatewayInfoV::PayLater(p.deep_view()),
            GatewayInfo::BankRedirect(b) => GatewayInfoV::BankRedirect(b.deep_view()),
        }
    }
}

/// Shipping address of the vendor request, taken from the canonical billing
/// address.
#[derive(Clone, Debug, PartialEq, Eq)]
pub struct DeliveryObject {
    pub first_name: String,
    pub last_name: String,
    pub address1: String,
    pub house_number: String,
    pub zip_code: String,
    pub city: String,
    pub country: String,
}

/// Model of [`DeliveryObject`].
#[verifier::ext_equal]
pub struct DeliveryObjectV {
    pub first_name: Seq<char>,
    pub last_name: Seq<char>,
    pub address1: Seq<char>,
    pub house_number: Seq<char>,
    pub zip_code: Seq<char>,
    pub city: Seq<char>,
    pub country: Seq<char>,
}

impl DeepView for DeliveryObject {
    type V = DeliveryObjectV;

    open spec fn deep_view(&self) -> DeliveryObjectV {
        DeliveryObjectV {
            first_name: self.first_name@,
            last_name: self.last_name@,
            address1: self.address1@,
            house_number: self.house_number@,
            zip_code: self.zip_code@,
            city: self.city@,
            country: self.country@,
        }
    }
}

/// The full Multisafepay authorize request body.
#[derive(Clone, Debug, PartialEq, Eq)]
pub struct MultisafepayPaymentsRequest {
    pub payment_type: Type,
    pub gateway: Option<Gateway>,
    pub order_id: String,
    pub currency: String,
    pub amount: i64,
    pub description: String,
    pub payment_options: Option<PaymentOptions>,
    pub customer: Option<Customer>,
    pub gateway_info: Option<GatewayInfo>,
    pub delivery: Option<DeliveryObject>,
    pub items: Option<String>,
    pub recurring_model: Option<MandateType>,
    pub recurring_id: Option<String>,
    pub capture: Option<String>,
    pub days_active: Option<i32>,
    pub seconds_active: Option<i32>,
    pub var1: Option<String>,
    pub var2: Option<String>,
    pub var3: Option<String>,
}

/// Model of [`MultisafepayPaymentsRequest`].
#[verifier::ext_equal]
pub struct MultisafepayPaymentsRequestV {
    pub payment_type: Type,
    pub gateway: Option<Gateway>,
    pub order_id: Seq<char>,
    pub currency: Seq<char>,
    pub amount: i64,
    pub description: Seq<char>,
    pub payment_options: Option<PaymentOptionsV>,
    pub customer: Option<CustomerV>,
    pub gateway_info: Option<GatewayInfoV>,
    pub delivery: Option<DeliveryObjectV>,
    pub items: Option<Seq<char>>,
    pub recurring_model: Option<MandateType>,
    pub recurring_id: Option<Seq<char>>,
    pub capture: Option<Seq<char>>,
    pub days_active: Option<i32>,
    pub seconds_active: Option<i32>,
    pub var1: Option<Seq<char>>,
    pub var2: Option<Seq<char>>,
    pub var3: Option<Seq<char>>,
}

impl DeepView for MultisafepayPaymentsRequest {
    type V = MultisafepayPaymentsRequestV;

    open spec fn deep_view(&self) -> MultisafepayPaymentsRequestV {
        MultisafepayPaymentsRequestV {
            payment_type: self.payment_type,
            gateway: self.gateway,
            order_id: self.order_id@,
            currency: self.currency@,
            amount: self.amount,
            description: self.description@,
            payment_options: self.payment_options.deep_view(),
            customer: self.customer.deep_view(),
            gateway_info: self.gateway_info.deep_view(),
            delivery: self.delivery.deep_view(),
            items: self.items.deep_view(),
            recurring_model: self.recurring_model,
            recurring_id: self.recurring_id.deep_view(),
            capture: self.capture.deep_view(),
            days_active: self.days_active,
            seconds_active: self.seconds_active,
            var1: self.var1.deep_view(),
            var2: self.var2.deep_view(),
            var3: self.var3.deep_view(),
        }
    }
}

/// Vendor-reported details of how the payment was made.
#[derive(Clone, Debug, PartialEq, Eq)]
pub struct MultisafepayPaymentDetails {
    pub account_holder_name: Option<String>,
    pub account_id: Option<String>,
    pub card_expiry_date: Option<String>,
    pub external_transaction_id: Option<String>,
    pub last4: Option<String>,
    pub recurring_flow: Option<String>,
    pub recurring_id: Option<String>,
    pub recurring_model: Option<String>,
    pub payment_type: Option<String>,
}

/// The `data` object of a vendor payment response.
#[derive(Clone, Debug, PartialEq, Eq)]
pub struct Data {
    pub payment_type: Option<String>,
    pub order_id: String,
    pub currency: Option<String>,
    pub amount: Option<i64>,
    pub description: Option<String>,
    pub capture: Option<String>,
    pub payment_url: Option<String>,
    pub status: Option<MultisafepayPaymentStatus>,
    pub reason: Option<String>,
    pub reason_code: Option<String>,
    pub payment_details: Option<MultisafepayPaymentDetails>,
}

/// The success shape of a vendor authorize response.
#[derive(Clone, Debug, PartialEq, Eq)]
pub struct MultisafepayPaymentsResponse {
    pub success: bool,
    pub data: Data,
}

/// A vendor authorize response: on the wire this is an untagged union of the
/// success shape and the error shape, distinguished by shape alone.
#[derive(Clone, Debug, PartialEq, Eq)]
pub enum MultisafepayAuthResponse {
    ErrorResponse(MultisafepayErrorResponse),
    PaymentResponse(Box<MultisafepayPaymentsResponse>),
}

/// The full Multisafepay refund request body.
#[derive(Clone, Debug, PartialEq, Eq)]
pub struct MultisafepayRefundRequest {
    pub currency: String,
    pub amount: i64,
    pub description: Option<String>,
    pub refund_order_id: Option<String>,
}

/// Model of [`MultisafepayRefundRequest`].
#[verifier::ext_equal]
pub struct MultisafepayRefundRequestV {
    pub currency: Seq<char>,
    pub amount: i64,
    pub description: Option<Seq<char>>,
    pub refund_order_id: Option<Seq<char>>,
}

impl DeepView for MultisafepayRefundRequest {
    type V = MultisafepayRefundRequestV;

    open spec fn deep_view(&self) -> MultisafepayRefundRequestV {
        MultisafepayRefundRequestV {
            currency: self.currency@,
            amount: self.amount,
            description: self.description.deep_view(),
            refund_order_id: self.refund_order_id.deep_view(),
        }
    }
}

/// The `data` object of a vendor refund response.
#[derive(Clone, Debug, PartialEq, Eq)]
pub struct RefundData {
    pub transaction_id: i64,
    pub refund_id: i64,
    pub order_id: Option<String>,
    pub error_code: Option<i32>,
    pub error_info: Option<String>,
}

/// The success shape of a vendor refund response.
#[derive(Clone, Debug, PartialEq, Eq)]
pub struct RefundResponse {
    pub success: bool,
    pub data: RefundData,
}

/// A vendor refund response: an untagged union of the success shape and the
/// error shape, distinguished by shape alone.
#[derive(Clone, Debug, PartialEq, Eq)]
pub enum MultisafepayRefundResponse {
    ErrorResponse(MultisafepayErrorResponse),
    RefundResponse(RefundResponse),
}

} // verus!
