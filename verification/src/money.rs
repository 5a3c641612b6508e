//! Currencies that appear in salary strings.

use vstd::prelude::*;
use crate::text::{contains, occurs_at, str_contains};

verus! {

/// A currency that salary strings are quoted in.
#[derive(Debug, Clone, Copy, PartialEq, Eq, Structural, Hash)]
pub enum Currency {
    Usd,
    Eur,
    Gbp,
    Cad,
    Aud,
    Chf,
    Jpy,
    Inr,
    Brl,
    Sgd,
    Hkd,
    Nzd,
    Mxn,
    Sek,
    Nok,
    Dkk,
    Zar,
    Aed,
}

/// The symbol that identifies `c` in a raw salary string.
pub open spec fn symbol_of(c: Currency) -> Seq<char> {
    match c {
        Currency::Usd => "$"@,
        Currency::Eur => "€"@,
        Currency::Gbp => "£"@,
        Currency::Jpy => "¥"@,
        Currency::Inr => "₹"@,
        Currency::Brl => "R$"@,
        Currency::Cad => "CA$"@,
        Currency::Aud => "A$"@,
        Currency::Sgd => "S$"@,
        Currency::Hkd => "HK$"@,
        Currency::Nzd => "NZ$"@,
        Currency::Mxn => "MX$"@,
        Currency::Chf => "CHF"@,
        Currency::Sek => "SEK"@,
        Currency::Nok => "NOK"@,
        Currency::Dkk => "DKK"@,
        Currency::Zar => "ZAR"@,
        Currency::Aed => "AED"@,
    }
}

/// The ISO 4217 code of `c`.
pub open spec fn iso_code_of(c: Currency) -> Seq<char> {
    match c {
        Currency::Usd => "USD"@,
        Currency::Eur => "EUR"@,
        Currency::Gbp => "GBP"@,
        Currency::Cad => "CAD"@,
        Currency::Aud => "AUD"@,
        Currency::Chf => "CHF"@,
        Currency::Jpy => "JPY"@,
        Currency::Inr => "INR"@,
        Currency::Brl => "BRL"@,
        Currency::Sgd => "SGD"@,
        Currency::Hkd => "HKD"@,
        Currency::Nzd => "NZD"@,
        Currency::Mxn => "MXN"@,
        Currency::Sek => "SEK"@,
        Currency::Nok => "NOK"@,
        Currency::Dkk => "DKK"@,
        Currency::Zar => "ZAR"@,
        Currency::Aed => "AED"@,
    }
}

/// Law: every currency's code is its ISO 4217 code, the one the exchange
/// rates are asked for.
pub proof fn lemma_iso_codes()
    ensures
        iso_code_of(Currency::Usd) == "USD"@,
        iso_code_of(Currency::Eur) == "EUR"@,
        iso_code_of(Currency::Gbp) == "GBP"@,
        iso_code_of(Currency::Cad) == "CAD"@,
        iso_code_of(Currency::Aud) == "AUD"@,
        iso_code_of(Currency::Chf) == "CHF"@,
        iso_code_of(Currency::Jpy) == "JPY"@,
        iso_code_of(Currency::Inr) == "INR"@,
        iso_code_of(Currency::Brl) == "BRL"@,
        iso_code_of(Currency::Sgd) == "SGD"@,
        iso_code_of(Currency::Hkd) == "HKD"@,
        iso_code_of(Currency::Nzd) == "NZD"@,
        iso_code_of(Currency::Mxn) == "MXN"@,
        iso_code_of(Currency::Sek) == "SEK"@,
        iso_code_of(Currency::Nok) == "NOK"@,
        iso_code_of(Currency::Dkk) == "DKK"@,
        iso_code_of(Currency::Zar) == "ZAR"@,
        iso_code_of(Currency::Aed) == "AED"@,
{
    reveal_strlit("USD");
    reveal_strlit("EUR");
    reveal_strlit("GBP");
    reveal_strlit("CAD");
    reveal_strlit("AUD");
    reveal_strlit("CHF");
    reveal_strlit("JPY");
    reveal_strlit("INR");
    reveal_strlit("BRL");
    reveal_strlit("SGD");
    reveal_strlit("HKD");
    reveal_strlit("NZD");
    reveal_strlit("MXN");
    reveal_strlit("SEK");
    reveal_strlit("NOK");
    reveal_strlit("DKK");
    reveal_strlit("ZAR");
    reveal_strlit("AED");
}

/// Law: the symbol by which each currency is recognised in a salary text.
pub proof fn lemma_symbols()
    ensures
        symbol_of(Currency::Usd) == "$"@,
        symbol_of(Currency::Eur) == "€"@,
        symbol_of(Currency::Gbp) == "£"@,
        symbol_of(Currency::Jpy) == "¥"@,
        symbol_of(Currency::Inr) == "₹"@,
        symbol_of(Currency::Brl) == "R$"@,
        symbol_of(Currency::Cad) == "CA$"@,
        symbol_of(Currency::Aud) == "A$"@,
        symbol_of(Currency::Sgd) == "S$"@,
        symbol_of(Currency::Hkd) == "HK$"@,
        symbol_of(Currency::Nzd) == "NZ$"@,
        symbol_of(Currency::Mxn) == "MX$"@,
        symbol_of(Currency::Chf) == "CHF"@,
        symbol_of(Currency::Sek) == "SEK"@,
        symbol_of(Currency::Nok) == "NOK"@,
        symbol_of(Currency::Dkk) == "DKK"@,
        symbol_of(Currency::Zar) == "ZAR"@,
        symbol_of(Currency::Aed) == "AED"@,
{
    reveal_strlit("$");
    reveal_strlit("€");
    reveal_strlit("£");
    reveal_strlit("¥");
    reveal_strlit("₹");
    reveal_strlit("R$");
    reveal_strlit("CA$");
    reveal_strlit("A$");
    reveal_strlit("S$");
    reveal_strlit("HK$");
    reveal_strlit("NZ$");
    reveal_strlit("MX$");
    reveal_strlit("CHF");
    reveal_strlit("SEK");
    reveal_strlit("NOK");
    reveal_strlit("DKK");
    reveal_strlit("ZAR");
    reveal_strlit("AED");
}

/// The order in which `detect` tries currencies: multi-character symbols
/// first, plain "$" last.
pub open spec fn detection_order() -> Seq<Currency> {
    seq![
        Currency::Cad,
        Currency::Aud,
        Currency::Sgd,
        Currency::Hkd,
        Currency::Nzd,
        Currency::Mxn,
        Currency::Brl,
        Currency::Chf,
        Currency::Sek,
        Currency::Nok,
        Currency::Dkk,
        Currency::Zar,
        Currency::Aed,
        Currency::Eur,
        Currency::Gbp,
        Currency::Jpy,
        Currency::Inr,
        Currency::Usd,
    ]
}

/// The first currency of `order`, from position `i` on, whose symbol occurs
/// in `raw`; `Usd` when there is none.
pub open spec fn first_detected(raw: Seq<char>, order: Seq<Currency>, i: int) -> Currency
    decreases order.len() - i,
{
    if i < 0 || i >= order.len() {
        Currency::Usd
    } else if contains(raw, symbol_of(order[i])) {
        order[i]
    } else {
        first_detected(raw, order, i + 1)
    }
}

/// The currency that `Currency::detect` finds in `raw`.
pub open spec fn detected(raw: Seq<char>) -> Currency {
    first_detected(raw, detection_order(), 0)
}

impl Currency {
    /// The symbol(s) that uniquely identify this currency in a raw salary string.
    pub fn symbol(&self) -> (r: &'static str)
        ensures
            r@ == symbol_of(*self),
    {
        match self {
            Currency::Usd => "$",
            Currency::Eur => "€",
            Currency::Gbp => "£",
            Currency::Jpy => "¥",
            Currency::Inr => "₹",
            Currency::Brl => "R$",
            Currency::Cad => "CA$",
            Currency::Aud => "A$",
            Currency::Sgd => "S$",
            Currency::Hkd => "HK$",
            Currency::Nzd => "NZ$",
            Currency::Mxn => "MX$",
            Currency::Chf => "CHF",
            Currency::Sek => "SEK",
            Currency::Nok => "NOK",
            Currency::Dkk => "DKK",
            Currency::Zar => "ZAR",
            Currency::Aed => "AED",
        }
    }

    /// ISO 4217 code, used in exchange-rate requests.
    pub fn iso_code(&self) -> (r: &'static str)
        ensures
            r@ == iso_code_of(*self),
    {
        match self {
            Currency::Usd => "USD",
            Currency::Eur => "EUR",
            Currency::Gbp => "GBP",
            Currency::Cad => "CAD",
            Currency::Aud => "AUD",
            Currency::Chf => "CHF",
            Currency::Jpy => "JPY",
            Currency::Inr => "INR",
            Currency::Brl => "BRL",
            Currency::Sgd => "SGD",
            Currency::Hkd => "HKD",
            Currency::Nzd => "NZD",
            Currency::Mxn => "MXN",
            Currency::Sek => "SEK",
            Currency::Nok => "NOK",
            Currency::Dkk => "DKK",
            Currency::Zar => "ZAR",
            Currency::Aed => "AED",
        }
    }

    /// The display form of the currency: its ISO code.
    pub fn to_string(&self) -> (r: String)
        ensures
            r@ == iso_code_of(*self),
    {
        self.iso_code().to_owned()
    }

    /// Detect currency from a raw salary string by scanning for known symbols.
    /// More specific multi-char symbols are checked before single-char ones;
    /// with no symbol found the currency is USD.
    pub fn detect(raw: &str) -> (r: Currency)
        ensures
            r == detected(raw@),
    {
        let candidates = [
            Currency::Cad,
            Currency::Aud,
            Currency::Sgd,
            Currency::Hkd,
            Currency::Nzd,
            Currency::Mxn,
            Currency::Brl,
            Currency::Chf,
            Currency::Sek,
            Currency::Nok,
            Currency::Dkk,
            Currency::Zar,
            Currency::Aed,
            Currency::Eur,
            Currency::Gbp,
            Currency::Jpy,
            Currency::Inr,
            Currency::Usd,
        ];
        assert(candidates@ == detection_order());
        let mut i: usize = 0;
        while i < 18
            invariant
                candidates@ == detection_order(),
                i <= 18,
                first_detected(raw@, detection_order(), 0) == first_detected(
                    raw@,
                    detection_order(),
                    i as int,
                ),
            decreases 18 - i,
        {
            let currency = candidates[i];
            if str_contains(raw, currency.symbol()) {
                return currency;
            }
            i = i + 1;
        }
        Currency::Usd
    }
}

/// Where `t` occurs at `i`, each character of `t` is the one of `s` there.
proof fn lemma_occurs_elementwise(s: Seq<char>, t: Seq<char>, i: int, j: int)
    requires
        occurs_at(s, t, i),
        0 <= j < t.len(),
    ensures
        s[i + j] == t[j],
{
    assert(s.subrange(i, i + t.len())[j] == s[i + j]);
}

/// Every text occurs in itself.
proof fn lemma_contains_itself(s: Seq<char>)
    ensures
        contains(s, s),
{
    assert(s.subrange(0, s.len() as int) =~= s);
    assert(occurs_at(s, s, 0));
}

/// The characters of each currency's symbol.
proof fn lemma_symbol_chars()
    ensures
        symbol_of(Currency::Cad) == seq!['C', 'A', '$'],
        symbol_of(Currency::Aud) == seq!['A', '$'],
        symbol_of(Currency::Sgd) == seq!['S', '$'],
        symbol_of(Currency::Hkd) == seq!['H', 'K', '$'],
        symbol_of(Currency::Nzd) == seq!['N', 'Z', '$'],
        symbol_of(Currency::Mxn) == seq!['M', 'X', '$'],
        symbol_of(Currency::Brl) == seq!['R', '$'],
        symbol_of(Currency::Chf) == seq!['C', 'H', 'F'],
        symbol_of(Currency::Sek) == seq!['S', 'E', 'K'],
        symbol_of(Currency::Nok) == seq!['N', 'O', 'K'],
        symbol_of(Currency::Dkk) == seq!['D', 'K', 'K'],
        symbol_of(Currency::Zar) == seq!['Z', 'A', 'R'],
        symbol_of(Currency::Aed) == seq!['A', 'E', 'D'],
        symbol_of(Currency::Eur) == seq!['€'],
        symbol_of(Currency::Gbp) == seq!['£'],
        symbol_of(Currency::Jpy) == seq!['¥'],
        symbol_of(Currency::Inr) == seq!['₹'],
        symbol_of(Currency::Usd) == seq!['$'],
{
    reveal_strlit("$");
    reveal_strlit("A$");
    reveal_strlit("AED");
    reveal_strlit("CA$");
    reveal_strlit("CHF");
    reveal_strlit("DKK");
    reveal_strlit("HK$");
    reveal_strlit("MX$");
    reveal_strlit("NOK");
    reveal_strlit("NZ$");
    reveal_strlit("R$");
    reveal_strlit("S$");
    reveal_strlit("SEK");
    reveal_strlit("ZAR");
    reveal_strlit("£");
    reveal_strlit("¥");
    reveal_strlit("€");
    reveal_strlit("₹");
    assert(symbol_of(Currency::Cad) =~= seq!['C', 'A', '$']);
    assert(symbol_of(Currency::Aud) =~= seq!['A', '$']);
    assert(symbol_of(Currency::Sgd) =~= seq!['S', '$']);
    assert(symbol_of(Currency::Hkd) =~= seq!['H', 'K', '$']);
    assert(symbol_of(Currency::Nzd) =~= seq!['N', 'Z', '$']);
    assert(symbol_of(Currency::Mxn) =~= seq!['M', 'X', '$']);
    assert(symbol_of(Currency::Brl) =~= seq!['R', '$']);
    assert(symbol_of(Currency::Chf) =~= seq!['C', 'H', 'F']);
    assert(symbol_of(Currency::Sek) =~= seq!['S', 'E', 'K']);
    assert(symbol_of(Currency::Nok) =~= seq!['N', 'O', 'K']);
    assert(symbol_of(Currency::Dkk) =~= seq!['D', 'K', 'K']);
    assert(symbol_of(Currency::Zar) =~= seq!['Z', 'A', 'R']);
    assert(symbol_of(Currency::Aed) =~= seq!['A', 'E', 'D']);
    assert(symbol_of(Currency::Eur) =~= seq!['€']);
    assert(symbol_of(Currency::Gbp) =~= seq!['£']);
    assert(symbol_of(Currency::Jpy) =~= seq!['¥']);
    assert(symbol_of(Currency::Inr) =~= seq!['₹']);
    assert(symbol_of(Currency::Usd) =~= seq!['$']);
}

/// A text does not occur in a shorter one.
proof fn lemma_too_long(s: Seq<char>, t: Seq<char>)
    requires
        s.len() < t.len(),
    ensures
        !contains(s, t),
{
}

/// A text does not occur in `s` when one of its characters is not in `s`.
proof fn lemma_foreign_char(s: Seq<char>, t: Seq<char>, j: int)
    requires
        0 <= j < t.len(),
        !s.contains(t[j]),
    ensures
        !contains(s, t),
{
    assert forall|i: int| !occurs_at(s, t, i) by {
        if occurs_at(s, t, i) {
            lemma_occurs_elementwise(s, t, i, j);
            assert(s[i + j] == t[j]);
        }
    }
}

/// No symbol tried before `c`'s occurs in `c`'s symbol: each is longer, or
/// has a character that `c`'s symbol lacks.
proof fn lemma_not_shadowed(c: Currency)
    ensures
        forall|m: int|
            0 <= m < detection_rank(c) ==> !contains(
                symbol_of(c),
                #[trigger] symbol_of(detection_order()[m]),
            ),
{
    lemma_symbol_chars();
    match c {
        Currency::Cad => {},
        Currency::Aud => {
            lemma_too_long(symbol_of(Currency::Aud), symbol_of(Currency::Cad));
        },
        Currency::Sgd => {
            lemma_too_long(symbol_of(Currency::Sgd), symbol_of(Currency::Cad));
            lemma_foreign_char(symbol_of(Currency::Sgd), symbol_of(Currency::Aud), 0);
        },
        Currency::Hkd => {
            lemma_foreign_char(symbol_of(Currency::Hkd), symbol_of(Currency::Cad), 0);
            lemma_foreign_char(symbol_of(Currency::Hkd), symbol_of(Currency::Aud), 0);
            lemma_foreign_char(symbol_of(Currency::Hkd), symbol_of(Currency::Sgd), 0);
        },
        Currency::Nzd => {
            lemma_foreign_char(symbol_of(Currency::Nzd), symbol_of(Currency::Cad), 0);
            lemma_foreign_char(symbol_of(Currency::Nzd), symbol_of(Currency::Aud), 0);
            lemma_foreign_char(symbol_of(Currency::Nzd), symbol_of(Currency::Sgd), 0);
            lemma_foreign_char(symbol_of(Currency::Nzd), symbol_of(Currency::Hkd), 0);
        },
        Currency::Mxn => {
            lemma_foreign_char(symbol_of(Currency::Mxn), symbol_of(Currency::Cad), 0);
            lemma_foreign_char(symbol_of(Currency::Mxn), symbol_of(Currency::Aud), 0);
            lemma_foreign_char(symbol_of(Currency::Mxn), symbol_of(Currency::Sgd), 0);
            lemma_foreign_char(symbol_of(Currency::Mxn), symbol_of(Currency::Hkd), 0);
            lemma_foreign_char(symbol_of(Currency::Mxn), symbol_of(Currency::Nzd), 0);
        },
        Currency::Brl => {
            lemma_too_long(symbol_of(Currency::Brl), symbol_of(Currency::Cad));
            lemma_foreign_char(symbol_of(Currency::Brl), symbol_of(Currency::Aud), 0);
            lemma_foreign_char(symbol_of(Currency::Brl), symbol_of(Currency::Sgd), 0);
            lemma_too_long(symbol_of(Currency::Brl), symbol_of(Currency::Hkd));
            lemma_too_long(symbol_of(Currency::Brl), symbol_of(Currency::Nzd));
            lemma_too_long(symbol_of(Currency::Brl), symbol_of(Currency::Mxn));
        },
        Currency::Chf => {
            lemma_foreign_char(symbol_of(Currency::Chf), symbol_of(Currency::Cad), 1);
            lemma_foreign_char(symbol_of(Currency::Chf), symbol_of(Currency::Aud), 0);
            lemma_foreign_char(symbol_of(Currency::Chf), symbol_of(Currency::Sgd), 0);
            lemma_foreign_char(symbol_of(Currency::Chf), symbol_of(Currency::Hkd), 1);
            lemma_foreign_char(symbol_of(Currency::Chf), symbol_of(Currency::Nzd), 0);
            lemma_foreign_char(symbol_of(Currency::Chf), symbol_of(Currency::Mxn), 0);
            lemma_foreign_char(symbol_of(Currency::Chf), symbol_of(Currency::Brl), 0);
        },
        Currency::Sek => {
            lemma_foreign_char(symbol_of(Currency::Sek), symbol_of(Currency::Cad), 0);
            lemma_foreign_char(symbol_of(Currency::Sek), symbol_of(Currency::Aud), 0);
            lemma_foreign_char(symbol_of(Currency::Sek), symbol_of(Currency::Sgd), 1);
            lemma_foreign_char(symbol_of(Currency::Sek), symbol_of(Currency::Hkd), 0);
            lemma_foreign_char(symbol_of(Currency::Sek), symbol_of(Currency::Nzd), 0);
            lemma_foreign_char(symbol_of(Currency::Sek), symbol_of(Currency::Mxn), 0);
            lemma_foreign_char(symbol_of(Currency::Sek), symbol_of(Currency::Brl), 0);
            lemma_foreign_char(symbol_of(Currency::Sek), symbol_of(Currency::Chf), 0);
        },
        Currency::Nok => {
            lemma_foreign_char(symbol_of(Currency::Nok), symbol_of(Currency::Cad), 0);
            lemma_foreign_char(symbol_of(Currency::Nok), symbol_of(Currency::Aud), 0);
            lemma_foreign_char(symbol_of(Currency::Nok), symbol_of(Currency::Sgd), 0);
            lemma_foreign_char(symbol_of(Currency::Nok), symbol_of(Currency::Hkd), 0);
            lemma_foreign_char(symbol_of(Currency::Nok), symbol_of(Currency::Nzd), 1);
            lemma_foreign_char(symbol_of(Currency::Nok), symbol_of(Currency::Mxn), 0);
            lemma_foreign_char(symbol_of(Currency::Nok), symbol_of(Currency::Brl), 0);
            lemma_foreign_char(symbol_of(Currency::Nok), symbol_of(Currency::Chf), 0);
            lemma_foreign_char(symbol_of(Currency::Nok), symbol_of(Currency::Sek), 0);
        },
        Currency::Dkk => {
            lemma_foreign_char(symbol_of(Currency::Dkk), symbol_of(Currency::Cad), 0);
            lemma_foreign_char(symbol_of(Currency::Dkk), symbol_of(Currency::Aud), 0);
            lemma_foreign_char(symbol_of(Currency::Dkk), symbol_of(Currency::Sgd), 0);
            lemma_foreign_char(symbol_of(Currency::Dkk), symbol_of(Currency::Hkd), 0);
            lemma_foreign_char(symbol_of(Currency::Dkk), symbol_of(Currency::Nzd), 0);
            lemma_foreign_char(symbol_of(Currency::Dkk), symbol_of(Currency::Mxn), 0);
            lemma_foreign_char(symbol_of(Currency::Dkk), symbol_of(Currency::Brl), 0);
            lemma_foreign_char(symbol_of(Currency::Dkk), symbol_of(Currency::Chf), 0);
            lemma_foreign_char(symbol_of(Currency::Dkk), symbol_of(Currency::Sek), 0);
            lemma_foreign_char(symbol_of(Currency::Dkk), symbol_of(Currency::Nok), 0);
        },
        Currency::Zar => {
            lemma_foreign_char(symbol_of(Currency::Zar), symbol_of(Currency::Cad), 0);
            lemma_foreign_char(symbol_of(Currency::Zar), symbol_of(Currency::Aud), 1);
            lemma_foreign_char(symbol_of(Currency::Zar), symbol_of(Currency::Sgd), 0);
            lemma_foreign_char(symbol_of(Currency::Zar), symbol_of(Currency::Hkd), 0);
            lemma_foreign_char(symbol_of(Currency::Zar), symbol_of(Currency::Nzd), 0);
            lemma_foreign_char(symbol_of(Currency::Zar), symbol_of(Currency::Mxn), 0);
            lemma_foreign_char(symbol_of(Currency::Zar), symbol_of(Currency::Brl), 1);
            lemma_foreign_char(symbol_of(Currency::Zar), symbol_of(Currency::Chf), 0);
            lemma_foreign_char(symbol_of(Currency::Zar), symbol_of(Currency::Sek), 0);
            lemma_foreign_char(symbol_of(Currency::Zar), symbol_of(Currency::Nok), 0);
            lemma_foreign_char(symbol_of(Currency::Zar), symbol_of(Currency::Dkk), 0);
        },
        Currency::Aed => {
            lemma_foreign_char(symbol_of(Currency::Aed), symbol_of(Currency::Cad), 0);
            lemma_foreign_char(symbol_of(Currency::Aed), symbol_of(Currency::Aud), 1);
            lemma_foreign_char(symbol_of(Currency::Aed), symbol_of(Currency::Sgd), 0);
            lemma_foreign_char(symbol_of(Currency::Aed), symbol_of(Currency::Hkd), 0);
            lemma_foreign_char(symbol_of(Currency::Aed), symbol_of(Currency::Nzd), 0);
            lemma_foreign_char(symbol_of(Currency::Aed), symbol_of(Currency::Mxn), 0);
            lemma_foreign_char(symbol_of(Currency::Aed), symbol_of(Currency::Brl), 0);
            lemma_foreign_char(symbol_of(Currency::Aed), symbol_of(Currency::Chf), 0);
            lemma_foreign_char(symbol_of(Currency::Aed), symbol_of(Currency::Sek), 0);
            lemma_foreign_char(symbol_of(Currency::Aed), symbol_of(Currency::Nok), 0);
            lemma_foreign_char(symbol_of(Currency::Aed), symbol_of(Currency::Dkk), 1);
            lemma_foreign_char(symbol_of(Currency::Aed), symbol_of(Currency::Zar), 0);
        },
        Currency::Eur => {
            lemma_too_long(symbol_of(Currency::Eur), symbol_of(Currency::Cad));
            lemma_too_long(symbol_of(Currency::Eur), symbol_of(Currency::Aud));
            lemma_too_long(symbol_of(Currency::Eur), symbol_of(Currency::Sgd));
            lemma_too_long(symbol_of(Currency::Eur), symbol_of(Currency::Hkd));
            lemma_too_long(symbol_of(Currency::Eur), symbol_of(Currency::Nzd));
            lemma_too_long(symbol_of(Currency::Eur), symbol_of(Currency::Mxn));
            lemma_too_long(symbol_of(Currency::Eur), symbol_of(Currency::Brl));
            lemma_too_long(symbol_of(Currency::Eur), symbol_of(Currency::Chf));
            lemma_too_long(symbol_of(Currency::Eur), symbol_of(Currency::Sek));
            lemma_too_long(symbol_of(Currency::Eur), symbol_of(Currency::Nok));
            lemma_too_long(symbol_of(Currency::Eur), symbol_of(Currency::Dkk));
            lemma_too_long(symbol_of(Currency::Eur), symbol_of(Currency::Zar));
            lemma_too_long(symbol_of(Currency::Eur), symbol_of(Currency::Aed));
        },
        Currency::Gbp => {
            lemma_too_long(symbol_of(Currency::Gbp), symbol_of(Currency::Cad));
            lemma_too_long(symbol_of(Currency::Gbp), symbol_of(Currency::Aud));
            lemma_too_long(symbol_of(Currency::Gbp), symbol_of(Currency::Sgd));
            lemma_too_long(symbol_of(Currency::Gbp), symbol_of(Currency::Hkd));
            lemma_too_long(symbol_of(Currency::Gbp), symbol_of(Currency::Nzd));
            lemma_too_long(symbol_of(Currency::Gbp), symbol_of(Currency::Mxn));
            lemma_too_long(symbol_of(Currency::Gbp), symbol_of(Currency::Brl));
            lemma_too_long(symbol_of(Currency::Gbp), symbol_of(Currency::Chf));
            lemma_too_long(symbol_of(Currency::Gbp), symbol_of(Currency::Sek));
            lemma_too_long(symbol_of(Currency::Gbp), symbol_of(Currency::Nok));
            lemma_too_long(symbol_of(Currency::Gbp), symbol_of(Currency::Dkk));
            lemma_too_long(symbol_of(Currency::Gbp), symbol_of(Currency::Zar));
            lemma_too_long(symbol_of(Currency::Gbp), symbol_of(Currency::Aed));
            lemma_foreign_char(symbol_of(Currency::Gbp), symbol_of(Currency::Eur), 0);
        },
        Currency::Jpy => {
            lemma_too_long(symbol_of(Currency::Jpy), symbol_of(Currency::Cad));
            lemma_too_long(symbol_of(Currency::Jpy), symbol_of(Currency::Aud));
            lemma_too_long(symbol_of(Currency::Jpy), symbol_of(Currency::Sgd));
            lemma_too_long(symbol_of(Currency::Jpy), symbol_of(Currency::Hkd));
            lemma_too_long(symbol_of(Currency::Jpy), symbol_of(Currency::Nzd));
            lemma_too_long(symbol_of(Currency::Jpy), symbol_of(Currency::Mxn));
            lemma_too_long(symbol_of(Currency::Jpy), symbol_of(Currency::Brl));
            lemma_too_long(symbol_of(Currency::Jpy), symbol_of(Currency::Chf));
            lemma_too_long(symbol_of(Currency::Jpy), symbol_of(Currency::Sek));
            lemma_too_long(symbol_of(Currency::Jpy), symbol_of(Currency::Nok));
            lemma_too_long(symbol_of(Currency::Jpy), symbol_of(Currency::Dkk));
            lemma_too_long(symbol_of(Currency::Jpy), symbol_of(Currency::Zar));
            lemma_too_long(symbol_of(Currency::Jpy), symbol_of(Currency::Aed));
            lemma_foreign_char(symbol_of(Currency::Jpy), symbol_of(Currency::Eur), 0);
            lemma_foreign_char(symbol_of(Currency::Jpy), symbol_of(Currency::Gbp), 0);
        },
        Currency::Inr => {
            lemma_too_long(symbol_of(Currency::Inr), symbol_of(Currency::Cad));
            lemma_too_long(symbol_of(Currency::Inr), symbol_of(Currency::Aud));
            lemma_too_long(symbol_of(Currency::Inr), symbol_of(Currency::Sgd));
            lemma_too_long(symbol_of(Currency::Inr), symbol_of(Currency::Hkd));
            lemma_too_long(symbol_of(Currency::Inr), symbol_of(Currency::Nzd));
            lemma_too_long(symbol_of(Currency::Inr), symbol_of(Currency::Mxn));
            lemma_too_long(symbol_of(Currency::Inr), symbol_of(Currency::Brl));
            lemma_too_long(symbol_of(Currency::Inr), symbol_of(Currency::Chf));
            lemma_too_long(symbol_of(Currency::Inr), symbol_of(Currency::Sek));
            lemma_too_long(symbol_of(Currency::Inr), symbol_of(Currency::Nok));
            lemma_too_long(symbol_of(Currency::Inr), symbol_of(Currency::Dkk));
            lemma_too_long(symbol_of(Currency::Inr), symbol_of(Currency::Zar));
            lemma_too_long(symbol_of(Currency::Inr), symbol_of(Currency::Aed));
            lemma_foreign_char(symbol_of(Currency::Inr), symbol_of(Currency::Eur), 0);
            lemma_foreign_char(symbol_of(Currency::Inr), symbol_of(Currency::Gbp), 0);
            lemma_foreign_char(symbol_of(Currency::Inr), symbol_of(Currency::Jpy), 0);
        },
        Currency::Usd => {
            lemma_too_long(symbol_of(Currency::Usd), symbol_of(Currency::Cad));
            lemma_too_long(symbol_of(Currency::Usd), symbol_of(Currency::Aud));
            lemma_too_long(symbol_of(Currency::Usd), symbol_of(Currency::Sgd));
            lemma_too_long(symbol_of(Currency::Usd), symbol_of(Currency::Hkd));
            lemma_too_long(symbol_of(Currency::Usd), symbol_of(Currency::Nzd));
            lemma_too_long(symbol_of(Currency::Usd), symbol_of(Currency::Mxn));
            lemma_too_long(symbol_of(Currency::Usd), symbol_of(Currency::Brl));
            lemma_too_long(symbol_of(Currency::Usd), symbol_of(Currency::Chf));
            lemma_too_long(symbol_of(Currency::Usd), symbol_of(Currency::Sek));
            lemma_too_long(symbol_of(Currency::Usd), symbol_of(Currency::Nok));
            lemma_too_long(symbol_of(Currency::Usd), symbol_of(Currency::Dkk));
            lemma_too_long(symbol_of(Currency::Usd), symbol_of(Currency::Zar));
            lemma_too_long(symbol_of(Currency::Usd), symbol_of(Currency::Aed));
            lemma_foreign_char(symbol_of(Currency::Usd), symbol_of(Currency::Eur), 0);
            lemma_foreign_char(symbol_of(Currency::Usd), symbol_of(Currency::Gbp), 0);
            lemma_foreign_char(symbol_of(Currency::Usd), symbol_of(Currency::Jpy), 0);
            lemma_foreign_char(symbol_of(Currency::Usd), symbol_of(Currency::Inr), 0);
        },
    }
}

/// Searching the detection order from `i` on finds the currency at `k`
/// when its symbol occurs and none of those between does.
proof fn lemma_first_detected_reaches(raw: Seq<char>, i: int, k: int)
    requires
        0 <= i <= k < 18,
        contains(raw, symbol_of(detection_order()[k])),
        forall|m: int| i <= m < k ==> !contains(raw, #[trigger] symbol_of(detection_order()[m])),
    ensures
        first_detected(raw, detection_order(), i) == detection_order()[k],
    decreases k - i,
{
    if i < k {
        lemma_first_detected_reaches(raw, i + 1, k);
    }
}

/// Law: the symbol of every currency is detected as that currency, so the
/// detection order never lets a shorter symbol (such as "$") shadow a longer
/// one (such as "CA$").
pub proof fn lemma_detect_symbol(c: Currency)
    ensures
        detected(symbol_of(c)) == c,
{
    lemma_not_shadowed(c);
    lemma_contains_itself(symbol_of(c));
    assert(detection_order()[detection_rank(c)] == c);
    lemma_first_detected_reaches(symbol_of(c), 0, detection_rank(c));
}

/// Position of `c` in the detection order.
pub open spec fn detection_rank(c: Currency) -> int {
    match c {
        Currency::Cad => 0,
        Currency::Aud => 1,
        Currency::Sgd => 2,
        Currency::Hkd => 3,
        Currency::Nzd => 4,
        Currency::Mxn => 5,
        Currency::Brl => 6,
        Currency::Chf => 7,
        Currency::Sek => 8,
        Currency::Nok => 9,
        Currency::Dkk => 10,
        Currency::Zar => 11,
        Currency::Aed => 12,
        Currency::Eur => 13,
        Currency::Gbp => 14,
        Currency::Jpy => 15,
        Currency::Inr => 16,
        Currency::Usd => 17,
    }
}

/// Law: a currency found by `detect` has its symbol in the raw string
/// (unless it is the USD fallback), and no currency tried before it has.
pub proof fn lemma_detect_sound(raw: Seq<char>)
    ensures
        detected(raw) != Currency::Usd ==> contains(raw, symbol_of(detected(raw))),
        forall|m: int|
            0 <= m < detection_rank(detected(raw)) ==> !contains(
                raw,
                #[trigger] symbol_of(detection_order()[m]),
            ),
{
    lemma_first_detected(raw, 0);
}

proof fn lemma_first_detected(raw: Seq<char>, i: int)
    requires
        0 <= i <= 18,
        forall|m: int| 0 <= m < i ==> !contains(raw, #[trigger] symbol_of(detection_order()[m])),
    ensures
        ({
            let c = first_detected(raw, detection_order(), i);
            &&& c != Currency::Usd ==> contains(raw, symbol_of(c))
            &&& forall|m: int|
                0 <= m < detection_rank(c) ==> !contains(
                    raw,
                    #[trigger] symbol_of(detection_order()[m]),
                )
        }),
    decreases 18 - i,
{
    if i < 18 {
        if contains(raw, symbol_of(detection_order()[i])) {
            assert(detection_rank(detection_order()[i]) == i);
        } else {
            lemma_first_detected(raw, i + 1);
        }
    }
}

/// Law: no two currencies share an ISO code.
pub proof fn lemma_iso_code_distinct(a: Currency, b: Currency)
    ensures
        iso_code_of(a) == iso_code_of(b) ==> a == b,
{
    reveal_strlit("USD");
    reveal_strlit("EUR");
    reveal_strlit("GBP");
    reveal_strlit("CAD");
    reveal_strlit("AUD");
    reveal_strlit("CHF");
    reveal_strlit("JPY");
    reveal_strlit("INR");
    reveal_strlit("BRL");
    reveal_strlit("SGD");
    reveal_strlit("HKD");
    reveal_strlit("NZD");
    reveal_strlit("MXN");
    reveal_strlit("SEK");
    reveal_strlit("NOK");
    reveal_strlit("DKK");
    reveal_strlit("ZAR");
    reveal_strlit("AED");
    if iso_code_of(a) == iso_code_of(b) {
        assert(iso_code_of(a)[0] == iso_code_of(b)[0]);
        assert(iso_code_of(a)[1] == iso_code_of(b)[1]);
        assert(iso_code_of(a)[2] == iso_code_of(b)[2]);
    }
}

} // verus!
