//! Currencies and the display metadata of each.
use vstd::prelude::*;

verus! {

/// How a currency groups digits and marks the decimal point.
#[derive(Clone, Copy, Debug, PartialEq, Eq, Structural)]
pub enum Locale {
    USA,
    EU,
    India,
    Poland,
}

/// Display metadata of a currency: digits after the point, locale, symbol and
/// whether the symbol comes before the amount.
#[derive(Clone, Copy, Debug)]
pub struct CurrencyData {
    pub exponent: u8,
    pub locale: Locale,
    pub symbol: &'static str,
    pub symbol_first: bool,
}

/// An ISO 4217 currency tag.
#[derive(Debug, Copy, Clone, Eq, PartialEq, Hash, Structural)]
pub enum Currency {
    INR,
    TWD,
    BYN,
    DOP,
    PAB,
    GTQ,
    LKR,
    HUF,
    XAF,
    CVE,
    GNF,
    USD,
    XDR,
    LAK,
    BBD,
    KWD,
    SHP,
    EGP,
    GYD,
    SGD,
    KMF,
    VND,
    BWP,
    PEN,
    XAG,
    HTG,
    MXN,
    RUB,
    ZMW,
    XBD,
    XCD,
    ETB,
    MZN,
    BND,
    OMR,
    TOP,
    KPW,
    SZL,
    MKD,
    GEL,
    VES,
    KES,
    QAR,
    KGS,
    DZD,
    DJF,
    XPF,
    IQD,
    CLF,
    AZN,
    BGN,
    PKR,
    UZS,
    LRD,
    CHF,
    BAM,
    GIP,
    BIF,
    SDG,
    AUD,
    NGN,
    MYR,
    AOA,
    BZD,
    XPD,
    MVR,
    AWG,
    ALL,
    XBB,
    XBA,
    JPY,
    LSL,
    SCR,
    XAU,
    RWF,
    BMD,
    TRY,
    LYD,
    NOK,
    SLL,
    MWK,
    NZD,
    CRC,
    UGX,
    CUC,
    TZS,
    STD,
    KZT,
    PGK,
    MMK,
    ZAR,
    SYP,
    ERN,
    SRD,
    TTD,
    UYU,
    SOS,
    BSD,
    TND,
    NAD,
    CNY,
    MOP,
    RON,
    KRW,
    BYR,
    TMT,
    CLP,
    BDT,
    HKD,
    STN,
    AFN,
    GHS,
    COP,
    LBP,
    MNT,
    UYW,
    ILS,
    ZWL,
    NPR,
    XPT,
    ISK,
    FJD,
    KHR,
    IRR,
    RSD,
    BOB,
    ZMK,
    CDF,
    ANG,
    DKK,
    XBC,
    GBP,
    HNL,
    AED,
    KYD,
    BTN,
    HRK,
    PYG,
    XTS,
    UAH,
    SAR,
    IDR,
    XOF,
    SVC,
    TJS,
    MDL,
    BRL,
    JOD,
    WST,
    SSP,
    JMD,
    EUR,
    THB,
    PHP,
    BHD,
    CZK,
    FKP,
    SEK,
    MAD,
    PLN,
    AMD,
    CUP,
    VUV,
    NIO,
    ARS,
    SKK,
    SBD,
    CAD,
    MUR,
    YER,
}

/// Digits after the decimal point in the currency's minor unit.
pub open spec fn exponent_of(c: Currency) -> u8 {
    match c {
        Currency::XAF | Currency::GNF | Currency::XDR | Currency::KMF | Currency::VND
            | Currency::XAG | Currency::XBD | Currency::DJF | Currency::XPF | Currency::BIF
            | Currency::XPD | Currency::XBB | Currency::XBA | Currency::JPY | Currency::XAU
            | Currency::RWF | Currency::UGX | Currency::KRW | Currency::BYR | Currency::CLP
            | Currency::XPT | Currency::ISK | Currency::XBC | Currency::PYG | Currency::XTS
            | Currency::XOF | Currency::VUV => 0,
        Currency::KWD | Currency::OMR | Currency::IQD | Currency::LYD | Currency::TND
            | Currency::JOD => 3,
        Currency::CLF | Currency::UYW => 4,
        _ => 2,
    }
}

/// The locale whose grouping and decimal mark the currency uses.
pub open spec fn locale_of(c: Currency) -> Locale {
    match c {
        Currency::VND | Currency::RUB | Currency::VES | Currency::CLF | Currency::ALL
            | Currency::TRY | Currency::CRC | Currency::UYU | Currency::RON | Currency::CLP
            | Currency::COP | Currency::UYW | Currency::ISK | Currency::FJD | Currency::DKK
            | Currency::HRK | Currency::EUR | Currency::FKP | Currency::SEK | Currency::ARS => Locale::EU,
        Currency::INR | Currency::BGN | Currency::BDT | Currency::BHD => Locale::India,
        Currency::BYN | Currency::HUF | Currency::QAR | Currency::BYR | Currency::PYG
            | Currency::CZK | Currency::PLN => Locale::Poland,
        _ => Locale::USA,
    }
}

/// Whether the symbol is written before the amount.
pub open spec fn symbol_first_of(c: Currency) -> bool {
    match c {
        Currency::INR | Currency::TWD | Currency::DOP | Currency::PAB | Currency::GTQ
            | Currency::USD | Currency::BBD | Currency::KWD | Currency::EGP | Currency::SGD
            | Currency::BWP | Currency::PEN | Currency::MXN | Currency::ZMW | Currency::XCD
            | Currency::MZN | Currency::BND | Currency::OMR | Currency::TOP | Currency::SZL
            | Currency::VES | Currency::KES | Currency::CLF | Currency::AZN | Currency::PKR
            | Currency::CHF | Currency::BAM | Currency::GIP | Currency::SDG | Currency::AUD
            | Currency::NGN | Currency::MYR | Currency::BZD | Currency::JPY | Currency::BMD
            | Currency::TRY | Currency::NZD | Currency::TZS | Currency::ZAR | Currency::UYU
            | Currency::BSD | Currency::CNY | Currency::KRW | Currency::CLP | Currency::BDT
            | Currency::HKD | Currency::GHS | Currency::COP | Currency::LBP | Currency::UYW
            | Currency::ILS | Currency::ZWL | Currency::NPR | Currency::ISK | Currency::IRR
            | Currency::RSD | Currency::BOB | Currency::GBP | Currency::HNL | Currency::KYD
            | Currency::PYG | Currency::SAR | Currency::IDR | Currency::SVC | Currency::BRL
            | Currency::JOD | Currency::JMD | Currency::EUR | Currency::THB | Currency::PHP
            | Currency::CUP | Currency::VUV | Currency::NIO | Currency::ARS | Currency::SKK
            | Currency::CAD | Currency::MUR => true,
        _ => false,
    }
}

impl Currency {
    /// The display metadata of this currency.
    pub fn match_currency_to_data(&self) -> (r: CurrencyData)
        ensures
            r.exponent == exponent_of(*self),
            r.locale == locale_of(*self),
            r.symbol_first == symbol_first_of(*self),
    {
        match self {
            Currency::AED => CurrencyData {
                exponent: 2,
                locale: Locale::USA,
                symbol: "د.إ",
                symbol_first: false,
            },
            Currency::AFN => CurrencyData {
                exponent: 2,
                locale: Locale::USA,
                symbol: "؋",
                symbol_first: false,
            },
            Currency::ALL => CurrencyData {
                exponent: 2,
                locale: Locale::EU,
                symbol: "L",
                symbol_first: false,
            },
            Currency::AMD => CurrencyData {
                exponent: 2,
                locale: Locale::USA,
                symbol: "դր.",
                symbol_first: false,
            },
            Currency::ANG => CurrencyData {
                exponent: 2,
                locale: Locale::USA,
                symbol: "դր.",
                symbol_first: false,
            },
            Currency::AOA => CurrencyData {
                exponent: 2,
                locale: Locale::USA,
                symbol: "Kz",
                symbol_first: false,
            },
            Currency::ARS => CurrencyData {
                exponent: 2,
                locale: Locale::EU,
                symbol: "$",
                symbol_first: true,
            },
            Currency::AUD => CurrencyData {
                exponent: 2,
                locale: Locale::USA,
                symbol: "$",
                symbol_first: true,
            },
            Currency::AWG => CurrencyData {
                exponent: 2,
                locale: Locale::USA,
                symbol: "ƒ",
                symbol_first: false,
            },
            Currency::AZN => CurrencyData {
                exponent: 2,
                locale: Locale::USA,
                symbol: "KM",
                symbol_first: true,
            },
            Currency::BAM => CurrencyData {
                exponent: 2,
                locale: Locale::USA,
                symbol: "KM",
                symbol_first: true,
            },
            Currency::BBD => CurrencyData {
                exponent: 2,
                locale: Locale::USA,
                symbol: "$",
                symbol_first: true,
            },
            Currency::BDT => CurrencyData {
                exponent: 2,
                locale: Locale::India,
                symbol: "৳",
                symbol_first: true,
            },
            Currency::BGN => CurrencyData {
                exponent: 2,
                locale: Locale::India,
                symbol: "лв.",
                symbol_first: false,
            },
            Currency::BHD => CurrencyData {
                exponent: 2,
                locale: Locale::India,
                symbol: "лв.",
                symbol_first: false,
            },
            Currency::BIF => CurrencyData {
                exponent: 0,
                locale: Locale::USA,
                symbol: "Fr",
                symbol_first: false,
            },
            Currency::BMD => CurrencyData {
                exponent: 2,
                locale: Locale::USA,
                symbol: "$",
                symbol_first: true,
            },
            Currency::BND => CurrencyData {
                exponent: 2,
                locale: Locale::USA,
                symbol: "$",
                symbol_first: true,
            },
            Currency::BOB => CurrencyData {
                exponent: 2,
                locale: Locale::USA,
                symbol: "Bs.",
                symbol_first: true,
            },
            Currency::BRL => CurrencyData {
                exponent: 2,
                locale: Locale::USA,
                symbol: "R$",
                symbol_first: true,
            },
            Currency::BSD => CurrencyData {
                exponent: 2,
                locale: Locale::USA,
                symbol: "$",
                symbol_first: true,
            },
            Currency::BTN => CurrencyData {
                exponent: 2,
                locale: Locale::USA,
                symbol: "Nu.",
                symbol_first: false,
            },
            Currency::BWP => CurrencyData {
                exponent: 2,
                locale: Locale::USA,
                symbol: "P",
                symbol_first: true,
            },
            Currency::BYN => CurrencyData {
                exponent: 2,
                locale: Locale::Poland,
                symbol: "Br",
                symbol_first: false,
            },
            Currency::BYR => CurrencyData {
                exponent: 0,
                locale: Locale::Poland,
                symbol: "Br",
                symbol_first: false,
            },
            Currency::BZD => CurrencyData {
                exponent: 2,
                locale: Locale::USA,
                symbol: "$",
                symbol_first: true,
            },
            Currency::CAD => CurrencyData {
                exponent: 2,
                locale: Locale::USA,
                symbol: "$",
                symbol_first: true,
            },
            Currency::CDF => CurrencyData {
                exponent: 2,
                locale: Locale::USA,
                symbol: "Fr",
                symbol_first: false,
            },
            Currency::CHF => CurrencyData {
                exponent: 2,
                locale: Locale::USA,
                symbol: "Fr",
                symbol_first: true,
            },
            Currency::CLF => CurrencyData {
                exponent: 4,
                locale: Locale::EU,
                symbol: "UF",
                symbol_first: true,
            },
            Currency::CLP => CurrencyData {
                exponent: 0,
                locale: Locale::EU,
                symbol: "$",
                symbol_first: true,
            },
            Currency::CNY => CurrencyData {
                exponent: 2,
                locale: Locale::USA,
                symbol: "¥",
                symbol_first: true,
            },
            Currency::COP => CurrencyData {
                exponent: 2,
                locale: Locale::EU,
                symbol: "$",
                symbol_first: true,
            },
            Currency::CRC => CurrencyData {
                exponent: 2,
                locale: Locale::EU,
                symbol: "$",
                symbol_first: false,
            },
            Currency::CUC => CurrencyData {
                exponent: 2,
                locale: Locale::USA,
                symbol: "$",
                symbol_first: false,
            },
            Currency::CUP => CurrencyData {
                exponent: 2,
                locale: Locale::USA,
                symbol: "$",
                symbol_first: true,
            },
            Currency::CVE => CurrencyData {
                exponent: 2,
                locale: Locale::USA,
                symbol: "$",
                symbol_first: false,
            },
            Currency::CZK => CurrencyData {
                exponent: 2,
                locale: Locale::Poland,
                symbol: "Kč",
                symbol_first: false,
            },
            Currency::DJF => CurrencyData {
                exponent: 0,
                locale: Locale::USA,
                symbol: "Fdj",
                symbol_first: false,
            },
            Currency::DKK => CurrencyData {
                exponent: 2,
                locale: Locale::EU,
                symbol: "kr.",
                symbol_first: false,
            },
            Currency::DOP => CurrencyData {
                exponent: 2,
                locale: Locale::USA,
                symbol: "$",
                symbol_first: true,
            },
            Currency::DZD => CurrencyData {
                exponent: 2,
                locale: Locale::USA,
                symbol: "د.ج",
                symbol_first: false,
            },
            Currency::EGP => CurrencyData {
                exponent: 2,
                locale: Locale::USA,
                symbol: "ج.م",
                symbol_first: true,
            },
            Currency::ERN => CurrencyData {
                exponent: 2,
                locale: Locale::USA,
                symbol: "Nfk",
                symbol_first: false,
            },
            Currency::ETB => CurrencyData {
                exponent: 2,
                locale: Locale::USA,
                symbol: "Br",
                symbol_first: false,
            },
            Currency::EUR => CurrencyData {
                exponent: 2,
                locale: Locale::EU,
                symbol: "€",
                symbol_first: true,
            },
            Currency::FJD => CurrencyData {
                exponent: 2,
                locale: Locale::EU,
                symbol: "$",
                symbol_first: false,
            },
            Currency::FKP => CurrencyData {
                exponent: 2,
                locale: Locale::EU,
                symbol: "£",
                symbol_first: false,
            },
            Currency::GBP => CurrencyData {
                exponent: 2,
                locale: Locale::USA,
                symbol: "£",
                symbol_first: true,
            },
            Currency::GEL => CurrencyData {
                exponent: 2,
                locale: Locale::USA,
                symbol: "ლ",
                symbol_first: false,
            },
            Currency::GHS => CurrencyData {
                exponent: 2,
                locale: Locale::USA,
                symbol: "₵",
                symbol_first: true,
            },
            Currency::GIP => CurrencyData {
                exponent: 2,
                locale: Locale::USA,
                symbol: "£",
                symbol_first: true,
            },
            Currency::GNF => CurrencyData {
                exponent: 0,
                locale: Locale::USA,
                symbol: "Fr",
                symbol_first: false,
            },
            Currency::GTQ => CurrencyData {
                exponent: 2,
                locale: Locale::USA,
                symbol: "Q",
                symbol_first: true,
            },
            Currency::GYD => CurrencyData {
                exponent: 2,
                locale: Locale::USA,
                symbol: "$",
                symbol_first: false,
            },
            Currency::HKD => CurrencyData {
                exponent: 2,
                locale: Locale::USA,
                symbol: "$",
                symbol_first: true,
            },
            Currency::HNL => CurrencyData {
                exponent: 2,
                locale: Locale::USA,
                symbol: "L",
                symbol_first: true,
            },
            Currency::HRK => CurrencyData {
                exponent: 2,
                locale: Locale::EU,
                symbol: "kn",
                symbol_first: false,
            },
            Currency::HTG => CurrencyData {
                exponent: 2,
                locale: Locale::USA,
                symbol: "G",
                symbol_first: false,
            },
            Currency::HUF => CurrencyData {
                exponent: 2,
                locale: Locale::Poland,
                symbol: "Ft",
                symbol_first: false,
            },
            Currency::IDR => CurrencyData {
                exponent: 2,
                locale: Locale::USA,
                symbol: "Rp",
                symbol_first: true,
            },
            Currency::ILS => CurrencyData {
                exponent: 2,
                locale: Locale::USA,
                symbol: "₪",
                symbol_first: true,
            },
            Currency::INR => CurrencyData {
                exponent: 2,
                locale: Locale::India,
                symbol: "₹",
                symbol_first: true,
            },
            Currency::IQD => CurrencyData {
                exponent: 3,
                locale: Locale::USA,
                symbol: "ع.د",
                symbol_first: false,
            },
            Currency::IRR => CurrencyData {
                exponent: 2,
                locale: Locale::USA,
                symbol: "﷼",
                symbol_first: true,
            },
            Currency::ISK => CurrencyData {
                exponent: 0,
                locale: Locale::EU,
                symbol: "kr.",
                symbol_first: true,
            },
            Currency::JMD => CurrencyData {
                exponent: 2,
                locale: Locale::USA,
                symbol: "$",
                symbol_first: true,
            },
            Currency::JOD => CurrencyData {
                exponent: 3,
                locale: Locale::USA,
                symbol: "د.ا",
                symbol_first: true,
            },
            Currency::JPY => CurrencyData {
                exponent: 0,
                locale: Locale::USA,
                symbol: "¥",
                symbol_first: true,
            },
            Currency::KES => CurrencyData {
                exponent: 2,
                locale: Locale::USA,
                symbol: "KSh",
                symbol_first: true,
            },
            Currency::KGS => CurrencyData {
                exponent: 2,
                locale: Locale::USA,
                symbol: "som",
                symbol_first: false,
            },
            Currency::KHR => CurrencyData {
                exponent: 2,
                locale: Locale::USA,
                symbol: "៛",
                symbol_first: false,
            },
            Currency::KMF => CurrencyData {
                exponent: 0,
                locale: Locale::USA,
                symbol: "Fr",
                symbol_first: false,
            },
            Currency::KPW => CurrencyData {
                exponent: 2,
                locale: Locale::USA,
                symbol: "W",
                symbol_first: false,
            },
            Currency::KRW => CurrencyData {
                exponent: 0,
                locale: Locale::USA,
                symbol: "W",
                symbol_first: true,
            },
            Currency::KWD => CurrencyData {
                exponent: 3,
                locale: Locale::USA,
                symbol: "د.ك",
                symbol_first: true,
            },
            Currency::KYD => CurrencyData {
                exponent: 2,
                locale: Locale::USA,
                symbol: "$",
                symbol_first: true,
            },
            Currency::KZT => CurrencyData {
                exponent: 2,
                locale: Locale::USA,
                symbol: "₸",
                symbol_first: false,
            },
            Currency::LAK => CurrencyData {
                exponent: 2,
                locale: Locale::USA,
                symbol: "K",
                symbol_first: false,
            },
            Currency::LBP => CurrencyData {
                exponent: 2,
                locale: Locale::USA,
                symbol: "ل.ل",
                symbol_first: true,
            },
            Currency::LKR => CurrencyData {
                exponent: 2,
                locale: Locale::USA,
                symbol: "₨",
                symbol_first: false,
            },
            Currency::LRD => CurrencyData {
                exponent: 2,
                locale: Locale::USA,
                symbol: "$",
                symbol_first: false,
            },
            Currency::LSL => CurrencyData {
                exponent: 2,
                locale: Locale::USA,
                symbol: "L",
                symbol_first: false,
            },
            Currency::LYD => CurrencyData {
                exponent: 3,
                locale: Locale::USA,
                symbol: "ل.د",
                symbol_first: false,
            },
            Currency::MAD => CurrencyData {
                exponent: 2,
                locale: Locale::USA,
                symbol: "د.م.",
                symbol_first: false,
            },
            Currency::MDL => CurrencyData {
                exponent: 2,
                locale: Locale::USA,
                symbol: "L",
                symbol_first: false,
            },
            Currency::MKD => CurrencyData {
                exponent: 2,
                locale: Locale::USA,
                symbol: "ден",
                symbol_first: false,
            },
            Currency::MMK => CurrencyData {
                exponent: 2,
                locale: Locale::USA,
                symbol: "K",
                symbol_first: false,
            },
            Currency::MNT => CurrencyData {
                exponent: 2,
                locale: Locale::USA,
                symbol: "₮",
                symbol_first: false,
            },
            Currency::MOP => CurrencyData {
                exponent: 2,
                locale: Locale::USA,
                symbol: "P",
                symbol_first: false,
            },
            Currency::MUR => CurrencyData {
                exponent: 2,
                locale: Locale::USA,
                symbol: "₨",
                symbol_first: true,
            },
            Currency::MVR => CurrencyData {
                exponent: 2,
                locale: Locale::USA,
                symbol: "MVR",
                symbol_first: false,
            },
            Currency::MWK => CurrencyData {
                exponent: 2,
                locale: Locale::USA,
                symbol: "MK",
                symbol_first: false,
            },
            Currency::MXN => CurrencyData {
                exponent: 2,
                locale: Locale::USA,
                symbol: "$",
                symbol_first: true,
            },
            Currency::MYR => CurrencyData {
                exponent: 2,
                locale: Locale::USA,
                symbol: "RM",
                symbol_first: true,
            },
            Currency::MZN => CurrencyData {
                exponent: 2,
                locale: Locale::USA,
                symbol: "MTn",
                symbol_first: true,
            },
            Currency::NAD => CurrencyData {
                exponent: 2,
                locale: Locale::USA,
                symbol: "$",
                symbol_first: false,
            },
            Currency::NGN => CurrencyData {
                exponent: 2,
                locale: Locale::USA,
                symbol: "₦",
                symbol_first: true,
            },
            Currency::NIO => CurrencyData {
                exponent: 2,
                locale: Locale::USA,
                symbol: "C$",
                symbol_first: true,
            },
            Currency::NOK => CurrencyData {
                exponent: 2,
                locale: Locale::USA,
                symbol: "kr",
                symbol_first: false,
            },
            Currency::NPR => CurrencyData {
                exponent: 2,
                locale: Locale::USA,
                symbol: "रु",
                symbol_first: true,
            },
            Currency::NZD => CurrencyData {
                exponent: 2,
                locale: Locale::USA,
                symbol: "$",
                symbol_first: true,
            },
            Currency::OMR => CurrencyData {
                exponent: 3,
                locale: Locale::USA,
                symbol: "ر.ع.",
                symbol_first: true,
            },
            Currency::PAB => CurrencyData {
                exponent: 2,
                locale: Locale::USA,
                symbol: "B/.",
                symbol_first: true,
            },
            Currency::PEN => CurrencyData {
                exponent: 2,
                locale: Locale::USA,
                symbol: "S/",
                symbol_first: true,
            },
            Currency::PGK => CurrencyData {
                exponent: 2,
                locale: Locale::USA,
                symbol: "K",
                symbol_first: false,
            },
            Currency::PHP => CurrencyData {
                exponent: 2,
                locale: Locale::USA,
                symbol: "₱",
                symbol_first: true,
            },
            Currency::PKR => CurrencyData {
                exponent: 2,
                locale: Locale::USA,
                symbol: "₨",
                symbol_first: true,
            },
            Currency::PLN => CurrencyData {
                exponent: 2,
                locale: Locale::Poland,
                symbol: "zł",
                symbol_first: false,
            },
            Currency::PYG => CurrencyData {
                exponent: 0,
                locale: Locale::Poland,
                symbol: "₲",
                symbol_first: true,
            },
            Currency::QAR => CurrencyData {
                exponent: 2,
                locale: Locale::Poland,
                symbol: "ر.ق",
                symbol_first: false,
            },
            Currency::RON => CurrencyData {
                exponent: 2,
                locale: Locale::EU,
                symbol: "ر.ق",
                symbol_first: false,
            },
            Currency::RSD => CurrencyData {
                exponent: 2,
                locale: Locale::USA,
                symbol: "РСД",
                symbol_first: true,
            },
            Currency::RUB => CurrencyData {
                exponent: 2,
                locale: Locale::EU,
                symbol: "₽",
                symbol_first: false,
            },
            Currency::RWF => CurrencyData {
                exponent: 0,
                locale: Locale::USA,
                symbol: "FRw",
                symbol_first: false,
            },
            Currency::SAR => CurrencyData {
                exponent: 2,
                locale: Locale::USA,
                symbol: "ر.س",
                symbol_first: true,
            },
            Currency::SBD => CurrencyData {
                exponent: 2,
                locale: Locale::USA,
                symbol: "$",
                symbol_first: false,
            },
            Currency::SCR => CurrencyData {
                exponent: 2,
                locale: Locale::USA,
                symbol: "₨",
                symbol_first: false,
            },
            Currency::SDG => CurrencyData {
                exponent: 2,
                locale: Locale::USA,
                symbol: "£",
                symbol_first: true,
            },
            Currency::SEK => CurrencyData {
                exponent: 2,
                locale: Locale::EU,
                symbol: "kr",
                symbol_first: false,
            },
            Currency::SGD => CurrencyData {
                exponent: 2,
                locale: Locale::USA,
                symbol: "$",
                symbol_first: true,
            },
            Currency::SHP => CurrencyData {
                exponent: 2,
                locale: Locale::USA,
                symbol: "£",
                symbol_first: false,
            },
            Currency::SKK => CurrencyData {
                exponent: 2,
                locale: Locale::USA,
                symbol: "Sk",
                symbol_first: true,
            },
            Currency::SLL => CurrencyData {
                exponent: 2,
                locale: Locale::USA,
                symbol: "Le",
                symbol_first: false,
            },
            Currency::SOS => CurrencyData {
                exponent: 2,
                locale: Locale::USA,
                symbol: "Sh",
                symbol_first: false,
            },
            Currency::SRD => CurrencyData {
                exponent: 2,
                locale: Locale::USA,
                symbol: "$",
                symbol_first: false,
            },
            Currency::SSP => CurrencyData {
                exponent: 2,
                locale: Locale::USA,
                symbol: "£",
                symbol_first: false,
            },
            Currency::STD => CurrencyData {
                exponent: 2,
                locale: Locale::USA,
                symbol: "Db",
                symbol_first: false,
            },
            Currency::STN => CurrencyData {
                exponent: 2,
                locale: Locale::USA,
                symbol: "Db",
                symbol_first: false,
            },
            Currency::SVC => CurrencyData {
                exponent: 2,
                locale: Locale::USA,
                symbol: "₡",
                symbol_first: true,
            },
            Currency::SYP => CurrencyData {
                exponent: 2,
                locale: Locale::USA,
                symbol: "£S",
                symbol_first: false,
            },
            Currency::SZL => CurrencyData {
                exponent: 2,
                locale: Locale::USA,
                symbol: "E",
                symbol_first: true,
            },
            Currency::THB => CurrencyData {
                exponent: 2,
                locale: Locale::USA,
                symbol: "฿",
                symbol_first: true,
            },
            Currency::TJS => CurrencyData {
                exponent: 2,
                locale: Locale::USA,
                symbol: "ЅМ",
                symbol_first: false,
            },
            Currency::TMT => CurrencyData {
                exponent: 2,
                locale: Locale::USA,
                symbol: "T",
                symbol_first: false,
            },
            Currency::TND => CurrencyData {
                exponent: 3,
                locale: Locale::USA,
                symbol: "د.ت",
                symbol_first: false,
            },
            Currency::TOP => CurrencyData {
                exponent: 2,
                locale: Locale::USA,
                symbol: "T$",
                symbol_first: true,
            },
            Currency::TRY => CurrencyData {
                exponent: 2,
                locale: Locale::EU,
                symbol: "₺",
                symbol_first: true,
            },
            Currency::TTD => CurrencyData {
                exponent: 2,
                locale: Locale::USA,
                symbol: "$",
                symbol_first: false,
            },
            Currency::TWD => CurrencyData {
                exponent: 2,
                locale: Locale::USA,
                symbol: "$",
                symbol_first: true,
            },
            Currency::TZS => CurrencyData {
                exponent: 2,
                locale: Locale::USA,
                symbol: "Sh",
                symbol_first: true,
            },
            Currency::UAH => CurrencyData {
                exponent: 2,
                locale: Locale::USA,
                symbol: "₴",
                symbol_first: false,
            },
            Currency::UGX => CurrencyData {
                exponent: 0,
                locale: Locale::USA,
                symbol: "USh",
                symbol_first: false,
            },
            Currency::USD => CurrencyData {
                exponent: 2,
                locale: Locale::USA,
                symbol: "$",
                symbol_first: true,
            },
            Currency::UYU => CurrencyData {
                exponent: 2,
                locale: Locale::EU,
                symbol: "$U",
                symbol_first: true,
            },
            Currency::UYW => CurrencyData {
                exponent: 4,
                locale: Locale::EU,
                symbol: "UP",
                symbol_first: true,
            },
            Currency::UZS => CurrencyData {
                exponent: 2,
                locale: Locale::USA,
                symbol: "so'm",
                symbol_first: false,
            },
            Currency::VES => CurrencyData {
                exponent: 2,
                locale: Locale::EU,
                symbol: "Bs",
                symbol_first: true,
            },
            Currency::VND => CurrencyData {
                exponent: 0,
                locale: Locale::EU,
                symbol: "₫",
                symbol_first: false,
            },
            Currency::VUV => CurrencyData {
                exponent: 0,
                locale: Locale::USA,
                symbol: "Vt",
                symbol_first: true,
            },
            Currency::WST => CurrencyData {
                exponent: 2,
                locale: Locale::USA,
                symbol: "T",
                symbol_first: false,
            },
            Currency::XAF => CurrencyData {
                exponent: 0,
                locale: Locale::USA,
                symbol: "CFA",
                symbol_first: false,
            },
            Currency::XAG => CurrencyData {
                exponent: 0,
                locale: Locale::USA,
                symbol: "oz t",
                symbol_first: false,
            },
            Currency::XAU => CurrencyData {
                exponent: 0,
                locale: Locale::USA,
                symbol: "oz t",
                symbol_first: false,
            },
            Currency::XBA => CurrencyData {
                exponent: 0,
                locale: Locale::USA,
                symbol: "",
                symbol_first: false,
            },
            Currency::XBB => CurrencyData {
                exponent: 0,
                locale: Locale::USA,
                symbol: "",
                symbol_first: false,
            },
            Currency::XBC => CurrencyData {
                exponent: 0,
                locale: Locale::USA,
                symbol: "",
                symbol_first: false,
            },
            Currency::XBD => CurrencyData {
                exponent: 0,
                locale: Locale::USA,
                symbol: "",
                symbol_first: false,
            },
            Currency::XCD => CurrencyData {
                exponent: 2,
                locale: Locale::USA,
                symbol: "$",
                symbol_first: true,
            },
            Currency::XDR => CurrencyData {
                exponent: 0,
                locale: Locale::USA,
                symbol: "SDR",
                symbol_first: false,
            },
            Currency::XOF => CurrencyData {
                exponent: 0,
                locale: Locale::USA,
                symbol: "Fr",
                symbol_first: false,
            },
            Currency::XPD => CurrencyData {
                exponent: 0,
                locale: Locale::USA,
                symbol: "oz t",
                symbol_first: false,
            },
            Currency::XPF => CurrencyData {
                exponent: 0,
                locale: Locale::USA,
                symbol: "Fr",
                symbol_first: false,
            },
            Currency::XPT => CurrencyData {
                exponent: 0,
                locale: Locale::USA,
                symbol: "oz t",
                symbol_first: false,
            },
            Currency::XTS => CurrencyData {
                exponent: 0,
                locale: Locale::USA,
                symbol: "oz t",
                symbol_first: false,
            },
            Currency::YER => CurrencyData {
                exponent: 2,
                locale: Locale::USA,
                symbol: "﷼",
                symbol_first: false,
            },
            Currency::ZAR => CurrencyData {
                exponent: 2,
                locale: Locale::USA,
                symbol: "R",
                symbol_first: true,
            },
            Currency::ZMK => CurrencyData {
                exponent: 2,
                locale: Locale::USA,
                symbol: "ZK",
                symbol_first: false,
            },
            Currency::ZMW => CurrencyData {
                exponent: 2,
                locale: Locale::USA,
                symbol: "K",
                symbol_first: true,
            },
            Currency::ZWL => CurrencyData {
                exponent: 2,
                locale: Locale::USA,
                symbol: "Z$",
                symbol_first: true,
            },
        }
    }
}

/// How a currency's amounts are written: where the symbol goes for positive,
/// negative and zero amounts, and the digit-group and decimal marks (none
/// where the formatter's own default is kept).
#[derive(Clone, Copy, Debug)]
pub struct CurrencyFormat {
    pub symbol: &'static str,
    pub precision: u8,
    pub format_positive: &'static str,
    pub format_negative: &'static str,
    pub format_zero: &'static str,
    pub thousand_str: &'static str,
    pub decimal_str: Option<&'static str>,
}

impl Currency {
    /// The way this currency's amounts are written: the symbol before or
    /// after the value, a zero written with the locale's decimal mark, and
    /// the locale's digit-group and decimal marks.
    pub fn currency_format(&self) -> (r: CurrencyFormat)
        ensures
            r.precision == exponent_of(*self),
            r.format_positive == (if symbol_first_of(*self) {
                "{symbol}{value}"
            } else {
                "{value}{symbol}"
            }),
            r.format_negative == (if symbol_first_of(*self) {
                "{symbol}({value})"
            } else {
                "{value}{symbol}"
            }),
            r.format_zero == (if symbol_first_of(*self) {
                if locale_of(*self) == Locale::EU {
                    "{symbol}0,00"
                } else {
                    "{symbol}0.00"
                }
            } else {
                if locale_of(*self) == Locale::EU {
                    "0,00{symbol}"
                } else {
                    "0.00{symbol}"
                }
            }),
            r.thousand_str == (match locale_of(*self) {
                Locale::USA | Locale::India => ",",
                Locale::Poland => " ",
                Locale::EU => ".",
            }),
            r.decimal_str == (match locale_of(*self) {
                Locale::USA | Locale::India => Some("."),
                Locale::Poland => None,
                Locale::EU => Some(","),
            }),
    {
        let data = self.match_currency_to_data();
        let eu = match data.locale {
            Locale::EU => true,
            _ => false,
        };
        let (format_positive, format_negative, format_zero) = if data.symbol_first {
            ("{symbol}{value}", "{symbol}({value})", if eu {
                "{symbol}0,00"
            } else {
                "{symbol}0.00"
            })
        } else {
            ("{value}{symbol}", "{value}{symbol}", if eu {
                "0,00{symbol}"
            } else {
                "0.00{symbol}"
            })
        };
        let (thousand_str, decimal_str) = match data.locale {
            Locale::USA | Locale::India => (",", Some(".")),
            Locale::Poland => (" ", None),
            Locale::EU => (".", Some(",")),
        };
        CurrencyFormat {
            symbol: data.symbol,
            precision: data.exponent,
            format_positive,
            format_negative,
            format_zero,
            thousand_str,
            decimal_str,
        }
    }
}

} // verus!
