//! Currency descriptors with display symbols, the canonical registry,
//! and classification predicates.

use vstd::prelude::*;
use crate::money::currency_unit::CurrencyUnit;
use crate::errors::CurrencyError;

verus! {

/// A currency: the bare descriptor together with a display symbol.
#[derive(Debug)]
pub struct Currency {
    unit: CurrencyUnit,
    symbol: String,
}

/// Whether `c` carries exactly this descriptor.
pub open spec fn entry_is(
    c: Currency,
    code: Seq<char>,
    numeric: int,
    digits: int,
    name: Seq<char>,
    symbol: Seq<char>,
) -> bool {
    &&& c.spec_code() == code
    &&& c.spec_numeric_code() == numeric
    &&& c.spec_fraction_digits() == digits
    &&& c.spec_display_name() == name
    &&& c.spec_symbol() == symbol
}

/// The canonical registry: one descriptor for each supported code.
pub open spec fn in_registry(c: Currency) -> bool {
    ||| entry_is(c, "USD"@, 840, 2, "US Dollar"@, "$"@)
    ||| entry_is(c, "EUR"@, 978, 2, "Euro"@, "€"@)
    ||| entry_is(c, "GBP"@, 826, 2, "British Pound Sterling"@, "£"@)
    ||| entry_is(c, "JPY"@, 392, 0, "Japanese Yen"@, "¥"@)
    ||| entry_is(c, "CHF"@, 756, 2, "Swiss Franc"@, "Fr"@)
    ||| entry_is(c, "CAD"@, 124, 2, "Canadian Dollar"@, "C$"@)
    ||| entry_is(c, "AUD"@, 36, 2, "Australian Dollar"@, "A$"@)
    ||| entry_is(c, "CNY"@, 156, 2, "Chinese Yuan"@, "¥"@)
    ||| entry_is(c, "INR"@, 356, 2, "Indian Rupee"@, "₹"@)
    ||| entry_is(c, "KRW"@, 410, 0, "South Korean Won"@, "₩"@)
    ||| entry_is(c, "BRL"@, 986, 2, "Brazilian Real"@, "R$"@)
    ||| entry_is(c, "RUB"@, 643, 2, "Russian Ruble"@, "₽"@)
    ||| entry_is(c, "ZAR"@, 710, 2, "South African Rand"@, "R"@)
    ||| entry_is(c, "MXN"@, 484, 2, "Mexican Peso"@, "$"@)
    ||| entry_is(c, "SGD"@, 702, 2, "Singapore Dollar"@, "S$"@)
    ||| entry_is(c, "NZD"@, 554, 2, "New Zealand Dollar"@, "NZ$"@)
    ||| entry_is(c, "HKD"@, 344, 2, "Hong Kong Dollar"@, "HK$"@)
    ||| entry_is(c, "THB"@, 764, 2, "Thai Baht"@, "฿"@)
    ||| entry_is(c, "PHP"@, 608, 2, "Philippine Peso"@, "₱"@)
    ||| entry_is(c, "MYR"@, 458, 2, "Malaysian Ringgit"@, "RM"@)
    ||| entry_is(c, "IDR"@, 360, 2, "Indonesian Rupiah"@, "Rp"@)
    ||| entry_is(c, "EGP"@, 818, 2, "Egyptian Pound"@, "E£"@)
    ||| entry_is(c, "CLP"@, 152, 0, "Chilean Peso"@, "CLP$"@)
    ||| entry_is(c, "NOK"@, 578, 2, "Norwegian Krone"@, "kr"@)
    ||| entry_is(c, "SEK"@, 752, 2, "Swedish Krona"@, "kr"@)
    ||| entry_is(c, "DKK"@, 208, 2, "Danish Krone"@, "kr"@)
    ||| entry_is(c, "PLN"@, 985, 2, "Polish Zloty"@, "zł"@)
    ||| entry_is(c, "CZK"@, 203, 2, "Czech Koruna"@, "Kč"@)
    ||| entry_is(c, "HUF"@, 348, 2, "Hungarian Forint"@, "Ft"@)
    ||| entry_is(c, "ISK"@, 352, 0, "Icelandic Króna"@, "kr"@)
    ||| entry_is(c, "RON"@, 946, 2, "Romanian Leu"@, "lei"@)
    ||| entry_is(c, "HRK"@, 191, 2, "Croatian Kuna"@, "kn"@)
    ||| entry_is(c, "ILS"@, 376, 2, "Israeli New Shekel"@, "₪"@)
    ||| entry_is(c, "AED"@, 784, 2, "UAE Dirham"@, "د.إ"@)
    ||| entry_is(c, "SAR"@, 682, 2, "Saudi Riyal"@, "﷼"@)
    ||| entry_is(c, "TRY"@, 949, 2, "Turkish Lira"@, "₺"@)
    ||| entry_is(c, "KWD"@, 414, 3, "Kuwaiti Dinar"@, "KD"@)
    ||| entry_is(c, "QAR"@, 634, 2, "Qatari Riyal"@, "QR"@)
    ||| entry_is(c, "MAD"@, 504, 2, "Moroccan Dirham"@, "د.م."@)
    ||| entry_is(c, "NGN"@, 566, 2, "Nigerian Naira"@, "₦"@)
    ||| entry_is(c, "BTC"@, 0, 8, "Bitcoin"@, "₿"@)
    ||| entry_is(c, "ETH"@, 0, 18, "Ethereum"@, "Ξ"@)
    ||| entry_is(c, "LTC"@, 0, 8, "Litecoin"@, "Ł"@)
    ||| entry_is(c, "XRP"@, 0, 6, "Ripple"@, "✕"@)
    ||| entry_is(c, "ADA"@, 0, 6, "Cardano"@, "₳"@)
    ||| entry_is(c, "DOGE"@, 0, 8, "Dogecoin"@, "Ð"@)
    ||| entry_is(c, "DOT"@, 0, 10, "Polkadot"@, "●"@)
    ||| entry_is(c, "SOL"@, 0, 9, "Solana"@, "◎"@)
    ||| entry_is(c, "USDT"@, 0, 6, "Tether USD"@, "$"@)
    ||| entry_is(c, "USDC"@, 0, 6, "USD Coin"@, "$"@)
    ||| entry_is(c, "XAU"@, 959, 4, "Gold (troy ounce)"@, "Au"@)
    ||| entry_is(c, "XAG"@, 961, 4, "Silver (troy ounce)"@, "Ag"@)
    ||| entry_is(c, "XPT"@, 962, 4, "Platinum (troy ounce)"@, "Pt"@)
    ||| entry_is(c, "XPD"@, 964, 4, "Palladium (troy ounce)"@, "Pd"@)
    ||| entry_is(c, "XRH"@, 0, 4, "Rhodium (troy ounce)"@, "Rh"@)
}

/// The character's code with an ASCII lower-case letter raised to its
/// upper-case counterpart.
pub open spec fn upper_code_of(c: char) -> int {
    if 'a' <= c <= 'z' {
        c as int - 32
    } else {
        c as int
    }
}

/// ASCII-case-insensitive equality of two texts.
pub open spec fn eq_ignore_case(a: Seq<char>, b: Seq<char>) -> bool {
    a.len() == b.len() && forall|i: int|
        0 <= i < a.len() ==> upper_code_of(#[trigger] a[i]) == upper_code_of(b[i])
}

/// Whether a text names a registered currency, ignoring ASCII case.
pub open spec fn supported_code(s: Seq<char>) -> bool {
    ||| eq_ignore_case(s, "USD"@)
    ||| eq_ignore_case(s, "EUR"@)
    ||| eq_ignore_case(s, "GBP"@)
    ||| eq_ignore_case(s, "JPY"@)
    ||| eq_ignore_case(s, "CHF"@)
    ||| eq_ignore_case(s, "CAD"@)
    ||| eq_ignore_case(s, "AUD"@)
    ||| eq_ignore_case(s, "CNY"@)
    ||| eq_ignore_case(s, "INR"@)
    ||| eq_ignore_case(s, "KRW"@)
    ||| eq_ignore_case(s, "BRL"@)
    ||| eq_ignore_case(s, "RUB"@)
    ||| eq_ignore_case(s, "ZAR"@)
    ||| eq_ignore_case(s, "MXN"@)
    ||| eq_ignore_case(s, "SGD"@)
    ||| eq_ignore_case(s, "NZD"@)
    ||| eq_ignore_case(s, "HKD"@)
    ||| eq_ignore_case(s, "THB"@)
    ||| eq_ignore_case(s, "PHP"@)
    ||| eq_ignore_case(s, "MYR"@)
    ||| eq_ignore_case(s, "IDR"@)
    ||| eq_ignore_case(s, "EGP"@)
    ||| eq_ignore_case(s, "CLP"@)
    ||| eq_ignore_case(s, "NOK"@)
    ||| eq_ignore_case(s, "SEK"@)
    ||| eq_ignore_case(s, "DKK"@)
    ||| eq_ignore_case(s, "PLN"@)
    ||| eq_ignore_case(s, "CZK"@)
    ||| eq_ignore_case(s, "HUF"@)
    ||| eq_ignore_case(s, "ISK"@)
    ||| eq_ignore_case(s, "RON"@)
    ||| eq_ignore_case(s, "HRK"@)
    ||| eq_ignore_case(s, "ILS"@)
    ||| eq_ignore_case(s, "AED"@)
    ||| eq_ignore_case(s, "SAR"@)
    ||| eq_ignore_case(s, "TRY"@)
    ||| eq_ignore_case(s, "KWD"@)
    ||| eq_ignore_case(s, "QAR"@)
    ||| eq_ignore_case(s, "MAD"@)
    ||| eq_ignore_case(s, "NGN"@)
    ||| eq_ignore_case(s, "BTC"@)
    ||| eq_ignore_case(s, "ETH"@)
    ||| eq_ignore_case(s, "LTC"@)
    ||| eq_ignore_case(s, "XRP"@)
    ||| eq_ignore_case(s, "ADA"@)
    ||| eq_ignore_case(s, "DOGE"@)
    ||| eq_ignore_case(s, "DOT"@)
    ||| eq_ignore_case(s, "SOL"@)
    ||| eq_ignore_case(s, "USDT"@)
    ||| eq_ignore_case(s, "USDC"@)
    ||| eq_ignore_case(s, "XAU"@)
    ||| eq_ignore_case(s, "XAG"@)
    ||| eq_ignore_case(s, "XPT"@)
    ||| eq_ignore_case(s, "XPD"@)
    ||| eq_ignore_case(s, "XRH"@)
}

/// Whether a number is the numeric code of a registered currency.
pub open spec fn supported_numeric(n: int) -> bool {
    ||| n == 840
    ||| n == 978
    ||| n == 826
    ||| n == 392
    ||| n == 756
    ||| n == 124
    ||| n == 36
    ||| n == 156
    ||| n == 356
    ||| n == 410
    ||| n == 986
    ||| n == 643
    ||| n == 710
    ||| n == 484
    ||| n == 702
    ||| n == 554
    ||| n == 344
    ||| n == 764
    ||| n == 608
    ||| n == 458
    ||| n == 360
    ||| n == 818
    ||| n == 152
    ||| n == 578
    ||| n == 752
    ||| n == 208
    ||| n == 985
    ||| n == 203
    ||| n == 348
    ||| n == 352
    ||| n == 946
    ||| n == 191
    ||| n == 376
    ||| n == 784
    ||| n == 682
    ||| n == 949
    ||| n == 414
    ||| n == 634
    ||| n == 504
    ||| n == 566
    ||| n == 0
    ||| n == 959
    ||| n == 961
    ||| n == 962
    ||| n == 964
}

fn upper_u32(c: char) -> (r: u32)
    ensures
        r == upper_code_of(c),
{
    let x = c as u32;
    if c >= 'a' && c <= 'z' {
        x - 32
    } else {
        x
    }
}

/// ASCII-case-insensitive comparison of two texts.
#[verifier::loop_isolation(false)]
fn str_eq_ignore_case(a: &str, b: &str) -> (r: bool)
    ensures
        r == eq_ignore_case(a@, b@),
{
    let na = a.unicode_len();
    let nb = b.unicode_len();
    if na != nb {
        return false;
    }
    let mut i: usize = 0;
    while i < na
        invariant
            0 <= i <= na,
            forall|j: int| 0 <= j < i ==> upper_code_of(#[trigger] a@[j]) == upper_code_of(b@[j]),
        decreases na - i,
    {
        let ca = a.get_char(i);
        let cb = b.get_char(i);
        if upper_u32(ca) != upper_u32(cb) {
            return false;
        }
        i = i + 1;
    }
    true
}

/// Exact equality of two texts.
#[verifier::loop_isolation(false)]
fn str_eq_exact(a: &str, b: &str) -> (r: bool)
    ensures
        r == (a@ == b@),
{
    let na = a.unicode_len();
    let nb = b.unicode_len();
    if na != nb {
        proof {
            assert(a@.len() != b@.len());
        }
        return false;
    }
    let mut i: usize = 0;
    while i < na
        invariant
            0 <= i <= na,
            forall|j: int| 0 <= j < i ==> #[trigger] a@[j] == b@[j],
        decreases na - i,
    {
        let ca = a.get_char(i);
        let cb = b.get_char(i);
        if ca != cb {
            return false;
        }
        i = i + 1;
    }
    proof {
        assert(a@ =~= b@);
    }
    true
}

impl Currency {
    pub closed spec fn spec_unit(&self) -> CurrencyUnit {
        self.unit
    }

    pub closed spec fn spec_symbol(&self) -> Seq<char> {
        self.symbol@
    }

    pub open spec fn spec_code(&self) -> Seq<char> {
        self.spec_unit().spec_code()
    }

    pub open spec fn spec_numeric_code(&self) -> int {
        self.spec_unit().spec_numeric_code()
    }

    pub open spec fn spec_fraction_digits(&self) -> int {
        self.spec_unit().spec_fraction_digits()
    }

    pub open spec fn spec_display_name(&self) -> Seq<char> {
        self.spec_unit().spec_display_name()
    }

    pub fn new(unit: CurrencyUnit, symbol: &str) -> (r: Self)
        ensures
            r.spec_unit() == unit,
            r.spec_symbol() == symbol@,
    {
        Self { unit, symbol: symbol.to_owned() }
    }

    pub fn code(&self) -> (r: &str)
        ensures
            r@ == self.spec_code(),
    {
        self.unit.get_code()
    }

    pub fn numeric_code(&self) -> (r: i32)
        ensures
            r == self.spec_numeric_code(),
    {
        self.unit.get_numeric_code()
    }

    pub fn precision(&self) -> (r: i32)
        ensures
            r == self.spec_fraction_digits(),
    {
        self.unit.get_default_fraction_digits()
    }

    pub fn display_name(&self) -> (r: &str)
        ensures
            r@ == self.spec_display_name(),
    {
        self.unit.get_display_name()
    }

    pub fn symbol(&self) -> (r: &str)
        ensures
            r@ == self.spec_symbol(),
    {
        self.symbol.as_str()
    }

    pub fn get_unit(&self) -> (r: &CurrencyUnit)
        ensures
            *r == self.spec_unit(),
    {
        &self.unit
    }

    /// Find the registered currency named by `code`, ignoring ASCII case.
    pub fn from_code(code: &str) -> (r: Option<Self>)
        ensures
            (match r {
                Some(c) => in_registry(c) && eq_ignore_case(code@, c.spec_code()),
                None => !supported_code(code@),
            }),
    {
        if str_eq_ignore_case(code, "USD") {
            return Some(Self::usd());
        }
        if str_eq_ignore_case(code, "EUR") {
            return Some(Self::eur());
        }
        if str_eq_ignore_case(code, "GBP") {
            return Some(Self::gbp());
        }
        if str_eq_ignore_case(code, "JPY") {
            return Some(Self::jpy());
        }
        if str_eq_ignore_case(code, "CHF") {
            return Some(Self::chf());
        }
        if str_eq_ignore_case(code, "CAD") {
            return Some(Self::cad());
        }
        if str_eq_ignore_case(code, "AUD") {
            return Some(Self::aud());
        }
        if str_eq_ignore_case(code, "CNY") {
            return Some(Self::cny());
        }
        if str_eq_ignore_case(code, "INR") {
            return Some(Self::inr());
        }
        if str_eq_ignore_case(code, "KRW") {
            return Some(Self::krw());
        }
        if str_eq_ignore_case(code, "BRL") {
            return Some(Self::brl());
        }
        if str_eq_ignore_case(code, "RUB") {
            return Some(Self::rub());
        }
        if str_eq_ignore_case(code, "ZAR") {
            return Some(Self::zar());
        }
        if str_eq_ignore_case(code, "MXN") {
            return Some(Self::mxn());
        }
        if str_eq_ignore_case(code, "SGD") {
            return Some(Self::sgd());
        }
        if str_eq_ignore_case(code, "NZD") {
            return Some(Self::nzd());
        }
        if str_eq_ignore_case(code, "HKD") {
            return Some(Self::hkd());
        }
        if str_eq_ignore_case(code, "THB") {
            return Some(Self::thb());
        }
        if str_eq_ignore_case(code, "PHP") {
            return Some(Self::php());
        }
        if str_eq_ignore_case(code, "MYR") {
            return Some(Self::myr());
        }
        if str_eq_ignore_case(code, "IDR") {
            return Some(Self::idr());
        }
        if str_eq_ignore_case(code, "EGP") {
            return Some(Self::egp());
        }
        if str_eq_ignore_case(code, "CLP") {
            return Some(Self::clp());
        }
        if str_eq_ignore_case(code, "NOK") {
            return Some(Self::nok());
        }
        if str_eq_ignore_case(code, "SEK") {
            return Some(Self::sek());
        }
        if str_eq_ignore_case(code, "DKK") {
            return Some(Self::dkk());
        }
        if str_eq_ignore_case(code, "PLN") {
            return Some(Self::pln());
        }
        if str_eq_ignore_case(code, "CZK") {
            return Some(Self::czk());
        }
        if str_eq_ignore_case(code, "HUF") {
            return Some(Self::huf());
        }
        if str_eq_ignore_case(code, "ISK") {
            return Some(Self::isk());
        }
        if str_eq_ignore_case(code, "RON") {
            return Some(Self::ron());
        }
        if str_eq_ignore_case(code, "HRK") {
            return Some(Self::hrk());
        }
        if str_eq_ignore_case(code, "ILS") {
            return Some(Self::ils());
        }
        if str_eq_ignore_case(code, "AED") {
            return Some(Self::aed());
        }
        if str_eq_ignore_case(code, "SAR") {
            return Some(Self::sar());
        }
        if str_eq_ignore_case(code, "TRY") {
            return Some(Self::try_currency());
        }
        if str_eq_ignore_case(code, "KWD") {
            return Some(Self::kwd());
        }
        if str_eq_ignore_case(code, "QAR") {
            return Some(Self::qar());
        }
        if str_eq_ignore_case(code, "MAD") {
            return Some(Self::mad());
        }
        if str_eq_ignore_case(code, "NGN") {
            return Some(Self::ngn());
        }
        if str_eq_ignore_case(code, "BTC") {
            return Some(Self::btc());
        }
        if str_eq_ignore_case(code, "ETH") {
            return Some(Self::eth());
        }
        if str_eq_ignore_case(code, "LTC") {
            return Some(Self::ltc());
        }
        if str_eq_ignore_case(code, "XRP") {
            return Some(Self::xrp());
        }
        if str_eq_ignore_case(code, "ADA") {
            return Some(Self::ada());
        }
        if str_eq_ignore_case(code, "DOGE") {
            return Some(Self::doge());
        }
        if str_eq_ignore_case(code, "DOT") {
            return Some(Self::dot());
        }
        if str_eq_ignore_case(code, "SOL") {
            return Some(Self::sol());
        }
        if str_eq_ignore_case(code, "USDT") {
            return Some(Self::usdt());
        }
        if str_eq_ignore_case(code, "USDC") {
            return Some(Self::usdc());
        }
        if str_eq_ignore_case(code, "XAU") {
            return Some(Self::xau());
        }
        if str_eq_ignore_case(code, "XAG") {
            return Some(Self::xag());
        }
        if str_eq_ignore_case(code, "XPT") {
            return Some(Self::xpt());
        }
        if str_eq_ignore_case(code, "XPD") {
            return Some(Self::xpd());
        }
        if str_eq_ignore_case(code, "XRH") {
            return Some(Self::xrh());
        }
        None
    }

    /// The registered descriptor for `code`, but displayed with a
    /// custom symbol.
    pub fn with_symbol(code: &str, symbol: &str) -> (r: Option<Self>)
        ensures
            (match r {
                Some(c) => {
                    &&& eq_ignore_case(code@, c.spec_code())
                    &&& c.spec_symbol() == symbol@
                    &&& exists|b: Currency|
                        in_registry(b) && b.spec_code() == c.spec_code()
                            && b.spec_numeric_code() == c.spec_numeric_code()
                            && b.spec_fraction_digits() == c.spec_fraction_digits()
                            && b.spec_display_name() == c.spec_display_name()
                },
                None => !supported_code(code@),
            }),
    {
        match Self::from_code(code) {
            Some(base) => {
                let ghost b = base;
                let r = Self { unit: base.unit, symbol: symbol.to_owned() };
                proof {
                    assert(in_registry(b) && b.spec_code() == r.spec_code()
                        && b.spec_numeric_code() == r.spec_numeric_code()
                        && b.spec_fraction_digits() == r.spec_fraction_digits()
                        && b.spec_display_name() == r.spec_display_name());
                }
                Some(r)
            },
            None => None,
        }
    }

    pub fn usd() -> (r: Self)
        ensures
            entry_is(r, "USD"@, 840, 2, "US Dollar"@, "$"@),
            in_registry(r),
    {
        let unit = CurrencyUnit::new("USD", 840, 2, "US Dollar");
        Self::new(unit, "$")
    }

    pub fn eur() -> (r: Self)
        ensures
            entry_is(r, "EUR"@, 978, 2, "Euro"@, "€"@),
            in_registry(r),
    {
        let unit = CurrencyUnit::new("EUR", 978, 2, "Euro");
        Self::new(unit, "€")
    }

    pub fn gbp() -> (r: Self)
        ensures
            entry_is(r, "GBP"@, 826, 2, "British Pound Sterling"@, "£"@),
            in_registry(r),
    {
        let unit = CurrencyUnit::new("GBP", 826, 2, "British Pound Sterling");
        Self::new(unit, "£")
    }

    pub fn jpy() -> (r: Self)
        ensures
            entry_is(r, "JPY"@, 392, 0, "Japanese Yen"@, "¥"@),
            in_registry(r),
    {
        let unit = CurrencyUnit::new("JPY", 392, 0, "Japanese Yen");
        Self::new(unit, "¥")
    }

    pub fn chf() -> (r: Self)
        ensures
            entry_is(r, "CHF"@, 756, 2, "Swiss Franc"@, "Fr"@),
            in_registry(r),
    {
        let unit = CurrencyUnit::new("CHF", 756, 2, "Swiss Franc");
        Self::new(unit, "Fr")
    }

    pub fn cad() -> (r: Self)
        ensures
            entry_is(r, "CAD"@, 124, 2, "Canadian Dollar"@, "C$"@),
            in_registry(r),
    {
        let unit = CurrencyUnit::new("CAD", 124, 2, "Canadian Dollar");
        Self::new(unit, "C$")
    }

    pub fn aud() -> (r: Self)
        ensures
            entry_is(r, "AUD"@, 36, 2, "Australian Dollar"@, "A$"@),
            in_registry(r),
    {
        let unit = CurrencyUnit::new("AUD", 36, 2, "Australian Dollar");
        Self::new(unit, "A$")
    }

    pub fn cny() -> (r: Self)
        ensures
            entry_is(r, "CNY"@, 156, 2, "Chinese Yuan"@, "¥"@),
            in_registry(r),
    {
        let unit = CurrencyUnit::new("CNY", 156, 2, "Chinese Yuan");
        Self::new(unit, "¥")
    }

    pub fn inr() -> (r: Self)
        ensures
            entry_is(r, "INR"@, 356, 2, "Indian Rupee"@, "₹"@),
            in_registry(r),
    {
        let unit = CurrencyUnit::new("INR", 356, 2, "Indian Rupee");
        Self::new(unit, "₹")
    }

    pub fn krw() -> (r: Self)
        ensures
            entry_is(r, "KRW"@, 410, 0, "South Korean Won"@, "₩"@),
            in_registry(r),
    {
        let unit = CurrencyUnit::new("KRW", 410, 0, "South Korean Won");
        Self::new(unit, "₩")
    }

    pub fn brl() -> (r: Self)
        ensures
            entry_is(r, "BRL"@, 986, 2, "Brazilian Real"@, "R$"@),
            in_registry(r),
    {
        let unit = CurrencyUnit::new("BRL", 986, 2, "Brazilian Real");
        Self::new(unit, "R$")
    }

    pub fn rub() -> (r: Self)
        ensures
            entry_is(r, "RUB"@, 643, 2, "Russian Ruble"@, "₽"@),
            in_registry(r),
    {
        let unit = CurrencyUnit::new("RUB", 643, 2, "Russian Ruble");
        Self::new(unit, "₽")
    }

    pub fn zar() -> (r: Self)
        ensures
            entry_is(r, "ZAR"@, 710, 2, "South African Rand"@, "R"@),
            in_registry(r),
    {
        let unit = CurrencyUnit::new("ZAR", 710, 2, "South African Rand");
        Self::new(unit, "R")
    }

    pub fn mxn() -> (r: Self)
        ensures
            entry_is(r, "MXN"@, 484, 2, "Mexican Peso"@, "$"@),
            in_registry(r),
    {
        let unit = CurrencyUnit::new("MXN", 484, 2, "Mexican Peso");
        Self::new(unit, "$")
    }

    pub fn sgd() -> (r: Self)
        ensures
            entry_is(r, "SGD"@, 702, 2, "Singapore Dollar"@, "S$"@),
            in_registry(r),
    {
        let unit = CurrencyUnit::new("SGD", 702, 2, "Singapore Dollar");
        Self::new(unit, "S$")
    }

    pub fn nzd() -> (r: Self)
        ensures
            entry_is(r, "NZD"@, 554, 2, "New Zealand Dollar"@, "NZ$"@),
            in_registry(r),
    {
        let unit = CurrencyUnit::new("NZD", 554, 2, "New Zealand Dollar");
        Self::new(unit, "NZ$")
    }

    pub fn hkd() -> (r: Self)
        ensures
            entry_is(r, "HKD"@, 344, 2, "Hong Kong Dollar"@, "HK$"@),
            in_registry(r),
    {
        let unit = CurrencyUnit::new("HKD", 344, 2, "Hong Kong Dollar");
        Self::new(unit, "HK$")
    }

    pub fn thb() -> (r: Self)
        ensures
            entry_is(r, "THB"@, 764, 2, "Thai Baht"@, "฿"@),
            in_registry(r),
    {
        let unit = CurrencyUnit::new("THB", 764, 2, "Thai Baht");
        Self::new(unit, "฿")
    }

    pub fn php() -> (r: Self)
        ensures
            entry_is(r, "PHP"@, 608, 2, "Philippine Peso"@, "₱"@),
            in_registry(r),
    {
        let unit = CurrencyUnit::new("PHP", 608, 2, "Philippine Peso");
        Self::new(unit, "₱")
    }

    pub fn myr() -> (r: Self)
        ensures
            entry_is(r, "MYR"@, 458, 2, "Malaysian Ringgit"@, "RM"@),
            in_registry(r),
    {
        let unit = CurrencyUnit::new("MYR", 458, 2, "Malaysian Ringgit");
        Self::new(unit, "RM")
    }

    pub fn idr() -> (r: Self)
        ensures
            entry_is(r, "IDR"@, 360, 2, "Indonesian Rupiah"@, "Rp"@),
            in_registry(r),
    {
        let unit = CurrencyUnit::new("IDR", 360, 2, "Indonesian Rupiah");
        Self::new(unit, "Rp")
    }

    pub fn egp() -> (r: Self)
        ensures
            entry_is(r, "EGP"@, 818, 2, "Egyptian Pound"@, "E£"@),
            in_registry(r),
    {
        let unit = CurrencyUnit::new("EGP", 818, 2, "Egyptian Pound");
        Self::new(unit, "E£")
    }

    pub fn clp() -> (r: Self)
        ensures
            entry_is(r, "CLP"@, 152, 0, "Chilean Peso"@, "CLP$"@),
            in_registry(r),
    {
        let unit = CurrencyUnit::new("CLP", 152, 0, "Chilean Peso");
        Self::new(unit, "CLP$")
    }

    pub fn nok() -> (r: Self)
        ensures
            entry_is(r, "NOK"@, 578, 2, "Norwegian Krone"@, "kr"@),
            in_registry(r),
    {
        let unit = CurrencyUnit::new("NOK", 578, 2, "Norwegian Krone");
        Self::new(unit, "kr")
    }

    pub fn sek() -> (r: Self)
        ensures
            entry_is(r, "SEK"@, 752, 2, "Swedish Krona"@, "kr"@),
            in_registry(r),
    {
        let unit = CurrencyUnit::new("SEK", 752, 2, "Swedish Krona");
        Self::new(unit, "kr")
    }

    pub fn dkk() -> (r: Self)
        ensures
            entry_is(r, "DKK"@, 208, 2, "Danish Krone"@, "kr"@),
            in_registry(r),
    {
        let unit = CurrencyUnit::new("DKK", 208, 2, "Danish Krone");
        Self::new(unit, "kr")
    }

    pub fn pln() -> (r: Self)
        ensures
            entry_is(r, "PLN"@, 985, 2, "Polish Zloty"@, "zł"@),
            in_registry(r),
    {
        let unit = CurrencyUnit::new("PLN", 985, 2, "Polish Zloty");
        Self::new(unit, "zł")
    }

    pub fn czk() -> (r: Self)
        ensures
            entry_is(r, "CZK"@, 203, 2, "Czech Koruna"@, "Kč"@),
            in_registry(r),
    {
        let unit = CurrencyUnit::new("CZK", 203, 2, "Czech Koruna");
        Self::new(unit, "Kč")
    }

    pub fn huf() -> (r: Self)
        ensures
            entry_is(r, "HUF"@, 348, 2, "Hungarian Forint"@, "Ft"@),
            in_registry(r),
    {
        let unit = CurrencyUnit::new("HUF", 348, 2, "Hungarian Forint");
        Self::new(unit, "Ft")
    }

    pub fn isk() -> (r: Self)
        ensures
            entry_is(r, "ISK"@, 352, 0, "Icelandic Króna"@, "kr"@),
            in_registry(r),
    {
        let unit = CurrencyUnit::new("ISK", 352, 0, "Icelandic Króna");
        Self::new(unit, "kr")
    }

    pub fn ron() -> (r: Self)
        ensures
            entry_is(r, "RON"@, 946, 2, "Romanian Leu"@, "lei"@),
            in_registry(r),
    {
        let unit = CurrencyUnit::new("RON", 946, 2, "Romanian Leu");
        Self::new(unit, "lei")
    }

    pub fn hrk() -> (r: Self)
        ensures
            entry_is(r, "HRK"@, 191, 2, "Croatian Kuna"@, "kn"@),
            in_registry(r),
    {
        let unit = CurrencyUnit::new("HRK", 191, 2, "Croatian Kuna");
        Self::new(unit, "kn")
    }

    pub fn ils() -> (r: Self)
        ensures
            entry_is(r, "ILS"@, 376, 2, "Israeli New Shekel"@, "₪"@),
            in_registry(r),
    {
        let unit = CurrencyUnit::new("ILS", 376, 2, "Israeli New Shekel");
        Self::new(unit, "₪")
    }

    pub fn aed() -> (r: Self)
        ensures
            entry_is(r, "AED"@, 784, 2, "UAE Dirham"@, "د.إ"@),
            in_registry(r),
    {
        let unit = CurrencyUnit::new("AED", 784, 2, "UAE Dirham");
        Self::new(unit, "د.إ")
    }

    pub fn sar() -> (r: Self)
        ensures
            entry_is(r, "SAR"@, 682, 2, "Saudi Riyal"@, "﷼"@),
            in_registry(r),
    {
        let unit = CurrencyUnit::new("SAR", 682, 2, "Saudi Riyal");
        Self::new(unit, "﷼")
    }

    pub fn try_currency() -> (r: Self)
        ensures
            entry_is(r, "TRY"@, 949, 2, "Turkish Lira"@, "₺"@),
            in_registry(r),
    {
        let unit = CurrencyUnit::new("TRY", 949, 2, "Turkish Lira");
        Self::new(unit, "₺")
    }

    pub fn kwd() -> (r: Self)
        ensures
            entry_is(r, "KWD"@, 414, 3, "Kuwaiti Dinar"@, "KD"@),
            in_registry(r),
    {
        let unit = CurrencyUnit::new("KWD", 414, 3, "Kuwaiti Dinar");
        Self::new(unit, "KD")
    }

    pub fn qar() -> (r: Self)
        ensures
            entry_is(r, "QAR"@, 634, 2, "Qatari Riyal"@, "QR"@),
            in_registry(r),
    {
        let unit = CurrencyUnit::new("QAR", 634, 2, "Qatari Riyal");
        Self::new(unit, "QR")
    }

    pub fn mad() -> (r: Self)
        ensures
            entry_is(r, "MAD"@, 504, 2, "Moroccan Dirham"@, "د.م."@),
            in_registry(r),
    {
        let unit = CurrencyUnit::new("MAD", 504, 2, "Moroccan Dirham");
        Self::new(unit, "د.م.")
    }

    pub fn ngn() -> (r: Self)
        ensures
            entry_is(r, "NGN"@, 566, 2, "Nigerian Naira"@, "₦"@),
            in_registry(r),
    {
        let unit = CurrencyUnit::new("NGN", 566, 2, "Nigerian Naira");
        Self::new(unit, "₦")
    }

    pub fn btc() -> (r: Self)
        ensures
            entry_is(r, "BTC"@, 0, 8, "Bitcoin"@, "₿"@),
            in_registry(r),
    {
        let unit = CurrencyUnit::new("BTC", 0, 8, "Bitcoin");
        Self::new(unit, "₿")
    }

    pub fn eth() -> (r: Self)
        ensures
            entry_is(r, "ETH"@, 0, 18, "Ethereum"@, "Ξ"@),
            in_registry(r),
    {
        let unit = CurrencyUnit::new("ETH", 0, 18, "Ethereum");
        Self::new(unit, "Ξ")
    }

    pub fn ltc() -> (r: Self)
        ensures
            entry_is(r, "LTC"@, 0, 8, "Litecoin"@, "Ł"@),
            in_registry(r),
    {
        let unit = CurrencyUnit::new("LTC", 0, 8, "Litecoin");
        Self::new(unit, "Ł")
    }

    pub fn xrp() -> (r: Self)
        ensures
            entry_is(r, "XRP"@, 0, 6, "Ripple"@, "✕"@),
            in_registry(r),
    {
        let unit = CurrencyUnit::new("XRP", 0, 6, "Ripple");
        Self::new(unit, "✕")
    }

    pub fn ada() -> (r: Self)
        ensures
            entry_is(r, "ADA"@, 0, 6, "Cardano"@, "₳"@),
            in_registry(r),
    {
        let unit = CurrencyUnit::new("ADA", 0, 6, "Cardano");
        Self::new(unit, "₳")
    }

    pub fn doge() -> (r: Self)
        ensures
            entry_is(r, "DOGE"@, 0, 8, "Dogecoin"@, "Ð"@),
            in_registry(r),
    {
        let unit = CurrencyUnit::new("DOGE", 0, 8, "Dogecoin");
        Self::new(unit, "Ð")
    }

    pub fn dot() -> (r: Self)
        ensures
            entry_is(r, "DOT"@, 0, 10, "Polkadot"@, "●"@),
            in_registry(r),
    {
        let unit = CurrencyUnit::new("DOT", 0, 10, "Polkadot");
        Self::new(unit, "●")
    }

    pub fn sol() -> (r: Self)
        ensures
            entry_is(r, "SOL"@, 0, 9, "Solana"@, "◎"@),
            in_registry(r),
    {
        let unit = CurrencyUnit::new("SOL", 0, 9, "Solana");
        Self::new(unit, "◎")
    }

    pub fn usdt() -> (r: Self)
        ensures
            entry_is(r, "USDT"@, 0, 6, "Tether USD"@, "$"@),
            in_registry(r),
    {
        let unit = CurrencyUnit::new("USDT", 0, 6, "Tether USD");
        Self::new(unit, "$")
    }

    pub fn usdc() -> (r: Self)
        ensures
            entry_is(r, "USDC"@, 0, 6, "USD Coin"@, "$"@),
            in_registry(r),
    {
        let unit = CurrencyUnit::new("USDC", 0, 6, "USD Coin");
        Self::new(unit, "$")
    }

    pub fn xau() -> (r: Self)
        ensures
            entry_is(r, "XAU"@, 959, 4, "Gold (troy ounce)"@, "Au"@),
            in_registry(r),
    {
        let unit = CurrencyUnit::new("XAU", 959, 4, "Gold (troy ounce)");
        Self::new(unit, "Au")
    }

    pub fn xag() -> (r: Self)
        ensures
            entry_is(r, "XAG"@, 961, 4, "Silver (troy ounce)"@, "Ag"@),
            in_registry(r),
    {
        let unit = CurrencyUnit::new("XAG", 961, 4, "Silver (troy ounce)");
        Self::new(unit, "Ag")
    }

    pub fn xpt() -> (r: Self)
        ensures
            entry_is(r, "XPT"@, 962, 4, "Platinum (troy ounce)"@, "Pt"@),
            in_registry(r),
    {
        let unit = CurrencyUnit::new("XPT", 962, 4, "Platinum (troy ounce)");
        Self::new(unit, "Pt")
    }

    pub fn xpd() -> (r: Self)
        ensures
            entry_is(r, "XPD"@, 964, 4, "Palladium (troy ounce)"@, "Pd"@),
            in_registry(r),
    {
        let unit = CurrencyUnit::new("XPD", 964, 4, "Palladium (troy ounce)");
        Self::new(unit, "Pd")
    }

    pub fn xrh() -> (r: Self)
        ensures
            entry_is(r, "XRH"@, 0, 4, "Rhodium (troy ounce)"@, "Rh"@),
            in_registry(r),
    {
        let unit = CurrencyUnit::new("XRH", 0, 4, "Rhodium (troy ounce)");
        Self::new(unit, "Rh")
    }


    /// All registered currencies, in registry order: the entry at each
    /// position carries the code the registry lists there.
    #[verifier::rlimit(60)]
    pub fn available_currencies() -> (r: Vec<Currency>)
        ensures
            r@.len() == 55,
            forall|i: int| 0 <= i < r@.len() ==> in_registry(#[trigger] r@[i]),
            forall|i: int| 0 <= i < r@.len() ==> (#[trigger] r@[i]).spec_code()
                == registry_code_at(i),
    {
        let mut v: Vec<Currency> = Vec::new();
        push_registry(&mut v, Self::usd());
        push_registry(&mut v, Self::eur());
        push_registry(&mut v, Self::gbp());
        push_registry(&mut v, Self::jpy());
        push_registry(&mut v, Self::chf());
        push_registry(&mut v, Self::cad());
        push_registry(&mut v, Self::aud());
        push_registry(&mut v, Self::cny());
        push_registry(&mut v, Self::inr());
        push_registry(&mut v, Self::krw());
        push_registry(&mut v, Self::brl());
        push_registry(&mut v, Self::rub());
        push_registry(&mut v, Self::zar());
        push_registry(&mut v, Self::mxn());
        push_registry(&mut v, Self::sgd());
        push_registry(&mut v, Self::nzd());
        push_registry(&mut v, Self::hkd());
        push_registry(&mut v, Self::thb());
        push_registry(&mut v, Self::php());
        push_registry(&mut v, Self::myr());
        push_registry(&mut v, Self::idr());
        push_registry(&mut v, Self::egp());
        push_registry(&mut v, Self::clp());
        push_registry(&mut v, Self::nok());
        push_registry(&mut v, Self::sek());
        push_registry(&mut v, Self::dkk());
        push_registry(&mut v, Self::pln());
        push_registry(&mut v, Self::czk());
        push_registry(&mut v, Self::huf());
        push_registry(&mut v, Self::isk());
        push_registry(&mut v, Self::ron());
        push_registry(&mut v, Self::hrk());
        push_registry(&mut v, Self::ils());
        push_registry(&mut v, Self::aed());
        push_registry(&mut v, Self::sar());
        push_registry(&mut v, Self::try_currency());
        push_registry(&mut v, Self::kwd());
        push_registry(&mut v, Self::qar());
        push_registry(&mut v, Self::mad());
        push_registry(&mut v, Self::ngn());
        push_registry(&mut v, Self::btc());
        push_registry(&mut v, Self::eth());
        push_registry(&mut v, Self::ltc());
        push_registry(&mut v, Self::xrp());
        push_registry(&mut v, Self::ada());
        push_registry(&mut v, Self::doge());
        push_registry(&mut v, Self::dot());
        push_registry(&mut v, Self::sol());
        push_registry(&mut v, Self::usdt());
        push_registry(&mut v, Self::usdc());
        push_registry(&mut v, Self::xau());
        push_registry(&mut v, Self::xag());
        push_registry(&mut v, Self::xpt());
        push_registry(&mut v, Self::xpd());
        push_registry(&mut v, Self::xrh());
        v
    }

    /// Whether `code` names a registered currency, ignoring ASCII case.
    pub fn is_supported(code: &str) -> (r: bool)
        ensures
            r == supported_code(code@),
    {
        Self::from_code(code).is_some()
    }

    /// The first registered currency carrying this numeric code, in
    /// registry order (several non-ISO tokens share the code 0).
    pub fn from_numeric_code(numeric_code: i32) -> (r: Option<Self>)
        ensures
            (match r {
                Some(c) => in_registry(c) && c.spec_numeric_code() == numeric_code,
                None => !supported_numeric(numeric_code as int),
            }),
    {
        if numeric_code == 840 {
            return Some(Self::usd());
        }
        if numeric_code == 978 {
            return Some(Self::eur());
        }
        if numeric_code == 826 {
            return Some(Self::gbp());
        }
        if numeric_code == 392 {
            return Some(Self::jpy());
        }
        if numeric_code == 756 {
            return Some(Self::chf());
        }
        if numeric_code == 124 {
            return Some(Self::cad());
        }
        if numeric_code == 36 {
            return Some(Self::aud());
        }
        if numeric_code == 156 {
            return Some(Self::cny());
        }
        if numeric_code == 356 {
            return Some(Self::inr());
        }
        if numeric_code == 410 {
            return Some(Self::krw());
        }
        if numeric_code == 986 {
            return Some(Self::brl());
        }
        if numeric_code == 643 {
            return Some(Self::rub());
        }
        if numeric_code == 710 {
            return Some(Self::zar());
        }
        if numeric_code == 484 {
            return Some(Self::mxn());
        }
        if numeric_code == 702 {
            return Some(Self::sgd());
        }
        if numeric_code == 554 {
            return Some(Self::nzd());
        }
        if numeric_code == 344 {
            return Some(Self::hkd());
        }
        if numeric_code == 764 {
            return Some(Self::thb());
        }
        if numeric_code == 608 {
            return Some(Self::php());
        }
        if numeric_code == 458 {
            return Some(Self::myr());
        }
        if numeric_code == 360 {
            return Some(Self::idr());
        }
        if numeric_code == 818 {
            return Some(Self::egp());
        }
        if numeric_code == 152 {
            return Some(Self::clp());
        }
        if numeric_code == 578 {
            return Some(Self::nok());
        }
        if numeric_code == 752 {
            return Some(Self::sek());
        }
        if numeric_code == 208 {
            return Some(Self::dkk());
        }
        if numeric_code == 985 {
            return Some(Self::pln());
        }
        if numeric_code == 203 {
            return Some(Self::czk());
        }
        if numeric_code == 348 {
            return Some(Self::huf());
        }
        if numeric_code == 352 {
            return Some(Self::isk());
        }
        if numeric_code == 946 {
            return Some(Self::ron());
        }
        if numeric_code == 191 {
            return Some(Self::hrk());
        }
        if numeric_code == 376 {
            return Some(Self::ils());
        }
        if numeric_code == 784 {
            return Some(Self::aed());
        }
        if numeric_code == 682 {
            return Some(Self::sar());
        }
        if numeric_code == 949 {
            return Some(Self::try_currency());
        }
        if numeric_code == 414 {
            return Some(Self::kwd());
        }
        if numeric_code == 634 {
            return Some(Self::qar());
        }
        if numeric_code == 504 {
            return Some(Self::mad());
        }
        if numeric_code == 566 {
            return Some(Self::ngn());
        }
        if numeric_code == 0 {
            return Some(Self::btc());
        }
        if numeric_code == 959 {
            return Some(Self::xau());
        }
        if numeric_code == 961 {
            return Some(Self::xag());
        }
        if numeric_code == 962 {
            return Some(Self::xpt());
        }
        if numeric_code == 964 {
            return Some(Self::xpd());
        }
        None
    }

    /// Same-currency check by numeric code alone.
    pub fn same_currency(&self, other: &Currency) -> (r: bool)
        ensures
            r == (self.spec_numeric_code() == other.spec_numeric_code()),
    {
        self.numeric_code() == other.numeric_code()
    }

    /// Whether the code names a cryptocurrency.
    pub fn is_cryptocurrency(&self) -> (r: bool)
        ensures
            r == is_crypto_code(self.spec_code()),
    {
        let c = self.code();
        str_eq_exact(c, "BTC") || str_eq_exact(c, "ETH") || str_eq_exact(c, "LTC")
            || str_eq_exact(c, "XRP") || str_eq_exact(c, "ADA") || str_eq_exact(c, "DOGE")
            || str_eq_exact(c, "DOT") || str_eq_exact(c, "SOL") || str_eq_exact(c, "USDT")
            || str_eq_exact(c, "USDC")
    }

    /// Whether the code names a precious metal.
    pub fn is_precious_metal(&self) -> (r: bool)
        ensures
            r == is_metal_code(self.spec_code()),
    {
        let c = self.code();
        str_eq_exact(c, "XAU") || str_eq_exact(c, "XAG") || str_eq_exact(c, "XPT")
            || str_eq_exact(c, "XPD") || str_eq_exact(c, "XRH")
    }

    /// Whether the currency is ordinary fiat money: neither a
    /// cryptocurrency nor a precious metal.
    pub fn is_fiat(&self) -> (r: bool)
        ensures
            r == (!is_crypto_code(self.spec_code()) && !is_metal_code(self.spec_code())),
    {
        !self.is_cryptocurrency() && !self.is_precious_metal()
    }

    /// The display symbol, optionally followed by a space and the code.
    pub fn format_with_symbol(&self, show_code: bool) -> (r: String)
        ensures
            show_code ==> r@ == self.spec_symbol() + " "@ + self.spec_code(),
            !show_code ==> r@ == self.spec_symbol(),
    {
        let mut out = String::new();
        out.append(self.symbol.as_str());
        if show_code {
            out.append(" ");
            out.append(self.unit.get_code());
        }
        out
    }
}

/// The cryptocurrency codes.
pub open spec fn is_crypto_code(s: Seq<char>) -> bool {
    ||| s == "BTC"@
    ||| s == "ETH"@
    ||| s == "LTC"@
    ||| s == "XRP"@
    ||| s == "ADA"@
    ||| s == "DOGE"@
    ||| s == "DOT"@
    ||| s == "SOL"@
    ||| s == "USDT"@
    ||| s == "USDC"@
}

/// The precious-metal codes.
pub open spec fn is_metal_code(s: Seq<char>) -> bool {
    ||| s == "XAU"@
    ||| s == "XAG"@
    ||| s == "XPT"@
    ||| s == "XPD"@
    ||| s == "XRH"@
}

/// The code of the registry entry at each position, in registry order.
pub open spec fn registry_code_at(i: int) -> Seq<char> {
    if i == 0 {
        "USD"@
    } else if i == 1 {
        "EUR"@
    } else if i == 2 {
        "GBP"@
    } else if i == 3 {
        "JPY"@
    } else if i == 4 {
        "CHF"@
    } else if i == 5 {
        "CAD"@
    } else if i == 6 {
        "AUD"@
    } else if i == 7 {
        "CNY"@
    } else if i == 8 {
        "INR"@
    } else if i == 9 {
        "KRW"@
    } else if i == 10 {
        "BRL"@
    } else if i == 11 {
        "RUB"@
    } else if i == 12 {
        "ZAR"@
    } else if i == 13 {
        "MXN"@
    } else if i == 14 {
        "SGD"@
    } else if i == 15 {
        "NZD"@
    } else if i == 16 {
        "HKD"@
    } else if i == 17 {
        "THB"@
    } else if i == 18 {
        "PHP"@
    } else if i == 19 {
        "MYR"@
    } else if i == 20 {
        "IDR"@
    } else if i == 21 {
        "EGP"@
    } else if i == 22 {
        "CLP"@
    } else if i == 23 {
        "NOK"@
    } else if i == 24 {
        "SEK"@
    } else if i == 25 {
        "DKK"@
    } else if i == 26 {
        "PLN"@
    } else if i == 27 {
        "CZK"@
    } else if i == 28 {
        "HUF"@
    } else if i == 29 {
        "ISK"@
    } else if i == 30 {
        "RON"@
    } else if i == 31 {
        "HRK"@
    } else if i == 32 {
        "ILS"@
    } else if i == 33 {
        "AED"@
    } else if i == 34 {
        "SAR"@
    } else if i == 35 {
        "TRY"@
    } else if i == 36 {
        "KWD"@
    } else if i == 37 {
        "QAR"@
    } else if i == 38 {
        "MAD"@
    } else if i == 39 {
        "NGN"@
    } else if i == 40 {
        "BTC"@
    } else if i == 41 {
        "ETH"@
    } else if i == 42 {
        "LTC"@
    } else if i == 43 {
        "XRP"@
    } else if i == 44 {
        "ADA"@
    } else if i == 45 {
        "DOGE"@
    } else if i == 46 {
        "DOT"@
    } else if i == 47 {
        "SOL"@
    } else if i == 48 {
        "USDT"@
    } else if i == 49 {
        "USDC"@
    } else if i == 50 {
        "XAU"@
    } else if i == 51 {
        "XAG"@
    } else if i == 52 {
        "XPT"@
    } else if i == 53 {
        "XPD"@
    } else {
        "XRH"@
    }
}

/// Append a registered currency, keeping every element registered.
fn push_registry(v: &mut Vec<Currency>, c: Currency)
    requires
        in_registry(c),
        forall|i: int| 0 <= i < old(v)@.len() ==> in_registry(#[trigger] old(v)@[i]),
    ensures
        final(v)@ == old(v)@.push(c),
        forall|i: int| 0 <= i < final(v)@.len() ==> in_registry(#[trigger] final(v)@[i]),
{
    v.push(c);
}

impl Clone for Currency {
    /// A clone is equal to the original, field for field.
    fn clone(&self) -> (r: Self)
        ensures
            r == *self,
    {
        Self { unit: self.unit.clone(), symbol: self.symbol.clone() }
    }
}

impl PartialEq for Currency {
    /// Full-descriptor equality, symbol included.
    fn eq(&self, other: &Self) -> (r: bool) {
        self.unit == other.unit && self.symbol == other.symbol
    }
}

/// Full-descriptor currency equality, symbol included.
pub open spec fn currency_eq(a: &Currency, b: &Currency) -> bool {
    &&& a.spec_code() == b.spec_code()
    &&& a.spec_numeric_code() == b.spec_numeric_code()
    &&& a.spec_fraction_digits() == b.spec_fraction_digits()
    &&& a.spec_display_name() == b.spec_display_name()
    &&& a.spec_symbol() == b.spec_symbol()
}

impl vstd::std_specs::cmp::PartialEqSpecImpl for Currency {
    open spec fn obeys_eq_spec() -> bool {
        true
    }

    open spec fn eq_spec(&self, other: &Self) -> bool {
        currency_eq(self, other)
    }
}

impl core::str::FromStr for Currency {
    type Err = CurrencyError;

    fn from_str(s: &str) -> Result<Self, Self::Err> {
        match Self::from_code(s) {
            Some(c) => Ok(c),
            None => Err(CurrencyError::unknown_currency(s)),
        }
    }
}

} // verus!
