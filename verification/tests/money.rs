use the_handler::money::Currency;

const ALL: [Currency; 18] = [
    Currency::Usd,
    Currency::Eur,
    Currency::Gbp,
    Currency::Cad,
    Currency::Aud,
    Currency::Chf,
    Currency::Jpy,
    Currency::Inr,
    Currency::Brl,
    Currency::Sgd,
    Currency::Hkd,
    Currency::Nzd,
    Currency::Mxn,
    Currency::Sek,
    Currency::Nok,
    Currency::Dkk,
    Currency::Zar,
    Currency::Aed,
];

#[test]
fn symbols_of_currencies() {
    assert_eq!(Currency::Usd.symbol(), "$");
    assert_eq!(Currency::Eur.symbol(), "€");
    assert_eq!(Currency::Gbp.symbol(), "£");
    assert_eq!(Currency::Jpy.symbol(), "¥");
    assert_eq!(Currency::Inr.symbol(), "₹");
    assert_eq!(Currency::Brl.symbol(), "R$");
    assert_eq!(Currency::Cad.symbol(), "CA$");
    assert_eq!(Currency::Aud.symbol(), "A$");
    assert_eq!(Currency::Sgd.symbol(), "S$");
    assert_eq!(Currency::Hkd.symbol(), "HK$");
    assert_eq!(Currency::Nzd.symbol(), "NZ$");
    assert_eq!(Currency::Mxn.symbol(), "MX$");
    assert_eq!(Currency::Chf.symbol(), "CHF");
    assert_eq!(Currency::Sek.symbol(), "SEK");
    assert_eq!(Currency::Nok.symbol(), "NOK");
    assert_eq!(Currency::Dkk.symbol(), "DKK");
    assert_eq!(Currency::Zar.symbol(), "ZAR");
    assert_eq!(Currency::Aed.symbol(), "AED");
}

#[test]
fn iso_codes_of_currencies() {
    assert_eq!(Currency::Usd.iso_code(), "USD");
    assert_eq!(Currency::Eur.iso_code(), "EUR");
    assert_eq!(Currency::Cad.iso_code(), "CAD");
    assert_eq!(Currency::Jpy.iso_code(), "JPY");
    assert_eq!(Currency::Aed.iso_code(), "AED");
    assert_eq!(Currency::Gbp.to_string(), "GBP");
    assert_eq!(Currency::Nzd.to_string(), "NZD");
}

#[test]
fn iso_codes_are_distinct() {
    for (i, a) in ALL.iter().enumerate() {
        for b in ALL.iter().skip(i + 1) {
            assert_ne!(a.iso_code(), b.iso_code());
        }
    }
}

#[test]
fn detect_finds_each_symbol() {
    for c in ALL {
        assert_eq!(Currency::detect(c.symbol()), c);
    }
}

#[test]
fn detect_prefers_longer_dollar_symbols() {
    assert_eq!(Currency::detect("CA$120,000 - CA$140,000/yr"), Currency::Cad);
    assert_eq!(Currency::detect("A$90K"), Currency::Aud);
    assert_eq!(Currency::detect("HK$ 40,000"), Currency::Hkd);
    assert_eq!(Currency::detect("R$ 8.000"), Currency::Brl);
    assert_eq!(Currency::detect("$120K/yr"), Currency::Usd);
}

#[test]
fn detect_falls_back_to_usd() {
    assert_eq!(Currency::detect("120,000 a year"), Currency::Usd);
    assert_eq!(Currency::detect(""), Currency::Usd);
}

#[test]
fn detect_single_char_symbols() {
    assert_eq!(Currency::detect("€50K/yr - €60K/yr"), Currency::Eur);
    assert_eq!(Currency::detect("£45,000"), Currency::Gbp);
    assert_eq!(Currency::detect("¥5,000,000"), Currency::Jpy);
    assert_eq!(Currency::detect("₹12,00,000"), Currency::Inr);
    assert_eq!(Currency::detect("CHF 100'000"), Currency::Chf);
}
