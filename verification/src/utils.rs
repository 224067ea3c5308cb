//! Helpers shared by the connector: card expiry dates in MMYY form, decimal
//! text, error messages and the mandate check.
use vstd::prelude::*;
use vstd::utf8::encode_utf8;

use crate::types::{Card, ConnectorError, PaymentMethodData, PaymentMethodType};

verus! {

broadcast use vstd::utf8::group_utf8_lib;

/// A decimal digit character.
pub open spec fn is_digit_char(c: char) -> bool {
    '0' <= c <= '9'
}

/// The two-digit year of a card's expiry year: its last two characters, when
/// it has at least two and both are decimal digits.
pub open spec fn expiry_year_two_digits(year: Seq<char>) -> Option<Seq<char>> {
    if year.len() >= 2 && is_digit_char(year[year.len() - 2]) && is_digit_char(
        year[year.len() - 1],
    ) {
        Some(year.subrange(year.len() - 2, year.len() as int))
    } else {
        None
    }
}

/// The error for an expiry month that is not the decimal text of a month.
pub open spec fn invalid_expiry_month() -> ConnectorError {
    ConnectorError::InvalidDataFormat { field_name: "payment_method_data.card.card_exp_month" }
}

/// A card's expiry date in MMYY form, from its month and year as the card
/// holds them: the month (read as `u8::from_str` reads it, one to twelve)
/// with two digits, then the two-digit year. A year that yields no two-digit
/// year is refused first, then a month that is not a month.
pub open spec fn expiry_mmyy(month: Seq<char>, year: Seq<char>) -> Result<Seq<char>, ConnectorError> {
    match expiry_year_two_digits(year) {
        None => Err(ConnectorError::RequestEncodingFailed),
        Some(y) => match parse_u8_spec(encode_utf8(month)) {
            Some(m) => if is_month(m) {
                Ok(two_digit_text(m) + y)
            } else {
                Err(invalid_expiry_month())
            },
            None => Err(invalid_expiry_month()),
        },
    }
}

/// An expiry date in MMYY form: four decimal digits, the first two writing a
/// month.
pub open spec fn is_mmyy(d: Seq<char>) -> bool {
    &&& d.len() == 4
    &&& forall|i: int| 0 <= i < 4 ==> is_digit_char(#[trigger] d[i])
    &&& 1 <= (d[0] as int - 48) * 10 + (d[1] as int - 48) <= 12
}

/// Every successful expiry date is in MMYY form.
pub proof fn lemma_expiry_mmyy_form(month: Seq<char>, year: Seq<char>)
    ensures
        expiry_mmyy(month, year) matches Ok(d) ==> is_mmyy(d),
{
    if let Ok(d) = expiry_mmyy(month, year) {
        let m = parse_u8_spec(encode_utf8(month))->0;
        let y = expiry_year_two_digits(year)->0;
        assert(d == two_digit_text(m) + y);
        assert(d[0] == digit_char((m / 10) as int));
        assert(d[1] == digit_char((m % 10) as int));
        assert(d[2] == year[year.len() - 2]);
        assert(d[3] == year[year.len() - 1]);
        assert((d[0] as int - 48) * 10 + (d[1] as int - 48) == m);
    }
}

/// A card's expiry date in MMYY form, from its month and year.
pub fn expiry_date_as_mmyy(month: &str, year: &str) -> (r: Result<String, ConnectorError>)
    ensures
        match r {
            Ok(d) => expiry_mmyy(month@, year@) == Ok::<Seq<char>, ConnectorError>(d@) && is_mmyy(
                d@,
            ),
            Err(e) => expiry_mmyy(month@, year@) == Err::<Seq<char>, ConnectorError>(e),
        },
{
    proof {
        lemma_expiry_mmyy_form(month@, year@);
    }
    let n = year.unicode_len();
    if n < 2 {
        return Err(ConnectorError::RequestEncodingFailed);
    }
    let tens = year.get_char(n - 2);
    let units = year.get_char(n - 1);
    if !('0' <= tens && tens <= '9' && '0' <= units && units <= '9') {
        return Err(ConnectorError::RequestEncodingFailed);
    }
    let two_digit_year = year.substring_char(n - 2, n);
    let exp_month = match parse_u8(month) {
        Some(m) => m,
        None => {
            return Err(
                ConnectorError::InvalidDataFormat {
                    field_name: "payment_method_data.card.card_exp_month",
                },
            );
        },
    };
    if exp_month < 1 || exp_month > 12 {
        return Err(
            ConnectorError::InvalidDataFormat {
                field_name: "payment_method_data.card.card_exp_month",
            },
        );
    }
    Ok(two_digits_month(exp_month).concat(two_digit_year))
}

impl Card {
    /// The last two characters of the expiry year, which must be decimal
    /// digits.
    pub fn get_card_expiry_year_2_digit(&self) -> (r: Result<String, ConnectorError>)
        ensures
            match r {
                Ok(y) => expiry_year_two_digits(self.card_exp_year@) == Some(y@),
                Err(e) => expiry_year_two_digits(self.card_exp_year@) is None && e
                    == ConnectorError::RequestEncodingFailed,
            },
    {
        let year = self.card_exp_year.as_str();
        let n = year.unicode_len();
        if n < 2 {
            return Err(ConnectorError::RequestEncodingFailed);
        }
        let tens = year.get_char(n - 2);
        let units = year.get_char(n - 1);
        if !('0' <= tens && tens <= '9' && '0' <= units && units <= '9') {
            return Err(ConnectorError::RequestEncodingFailed);
        }
        Ok(year.substring_char(n - 2, n).to_owned())
    }

    /// The expiry date in MMYY form.
    pub fn get_expiry_date_as_mmyy(&self) -> (r: Result<String, ConnectorError>)
        ensures
            match r {
                Ok(d) => expiry_mmyy(self.card_exp_month@, self.card_exp_year@) == Ok::<
                    Seq<char>,
                    ConnectorError,
                >(d@) && is_mmyy(d@),
                Err(e) => expiry_mmyy(self.card_exp_month@, self.card_exp_year@) == Err::<
                    Seq<char>,
                    ConnectorError,
                >(e),
            },
    {
        expiry_date_as_mmyy(self.card_exp_month.as_str(), self.card_exp_year.as_str())
    }
}

/// Whether two texts are equal.
pub fn text_eq(a: &str, b: &str) -> (r: bool)
    ensures
        r == (a@ == b@),
{
    a.to_owned() == b.to_owned()
}

/// An ASCII decimal digit.
pub open spec fn is_digit(b: u8) -> bool {
    48 <= b <= 57
}

/// Every byte is a decimal digit.
pub open spec fn all_digits(d: Seq<u8>) -> bool {
    forall|i: int| 0 <= i < d.len() ==> is_digit(#[trigger] d[i])
}

/// The number that a string of decimal digits writes.
pub open spec fn decimal_value(d: Seq<u8>) -> int
    decreases d.len(),
{
    if d.len() == 0 {
        0
    } else {
        decimal_value(d.drop_last()) * 10 + (d.last() - 48)
    }
}

/// What `u8::from_str` gives for these bytes: an optional `+`, then one or
/// more decimal digits writing a number no greater than 255.
pub open spec fn parse_u8_spec(b: Seq<u8>) -> Option<u8> {
    let digits = if b.len() > 0 && b[0] == 43 {
        b.drop_first()
    } else {
        b
    };
    if digits.len() > 0 && all_digits(digits) && decimal_value(digits) <= 255 {
        Some(decimal_value(digits) as u8)
    } else {
        None
    }
}

/// Digits write a number no smaller than any of their prefixes do.
proof fn lemma_decimal_value_prefix(d: Seq<u8>, k: int)
    requires
        all_digits(d),
        0 <= k <= d.len(),
    ensures
        0 <= decimal_value(d.take(k)) <= decimal_value(d),
    decreases d.len(),
{
    if d.len() > 0 {
        let t = d.drop_last();
        assert(all_digits(t));
        if k == d.len() {
            assert(d.take(k) =~= d);
            lemma_decimal_value_prefix(t, 0);
        } else {
            assert(d.take(k) =~= t.take(k));
            lemma_decimal_value_prefix(t, k);
        }
    } else {
        assert(d.take(k) =~= d);
    }
}

/// Reads the decimal text of a byte value, as `u8::from_str` does.
pub fn parse_u8(s: &str) -> (r: Option<u8>)
    ensures
        r == parse_u8_spec(encode_utf8(s@)),
{
    let b = s.as_bytes();
    let n = b.len();
    let ghost bytes = b@;
    let start: usize = if n > 0 && b[0] == 43u8 {
        1
    } else {
        0
    };
    let ghost digits = bytes.subrange(start as int, n as int);
    assert(digits =~= if bytes.len() > 0 && bytes[0] == 43 {
        bytes.drop_first()
    } else {
        bytes
    });
    if start >= n {
        return None;
    }
    let mut value: u32 = 0;
    let mut i: usize = start;
    while i < n
        invariant
            b@ == bytes,
            bytes == encode_utf8(s@),
            digits == (if bytes.len() > 0 && bytes[0] == 43 {
                bytes.drop_first()
            } else {
                bytes
            }),
            n == bytes.len(),
            start <= i <= n,
            start < n,
            digits == bytes.subrange(start as int, n as int),
            all_digits(digits.take(i - start)),
            value == decimal_value(digits.take(i - start)),
            value <= 255,
        decreases n - i,
    {
        let c = b[i];
        assert(digits[i - start] == c);
        if c < 48u8 || c > 57u8 {
            assert(!all_digits(digits));
            return None;
        }
        let ghost next = digits.take(i + 1 - start);
        assert(next.drop_last() =~= digits.take(i - start));
        value = value * 10 + (c - 48u8) as u32;
        if value > 255 {
            proof {
                if all_digits(digits) {
                    lemma_decimal_value_prefix(digits, i + 1 - start);
                }
            }
            return None;
        }
        i = i + 1;
    }
    assert(digits.take(n - start) =~= digits);
    Some(value as u8)
}

/// The character of a decimal digit.
pub open spec fn digit_char(d: int) -> char {
    (48 + d) as char
}

/// A month as two decimal digits.
pub open spec fn two_digit_text(m: u8) -> Seq<char> {
    seq![digit_char((m / 10) as int), digit_char((m % 10) as int)]
}

/// A calendar month, one through twelve.
pub open spec fn is_month(m: u8) -> bool {
    1 <= m <= 12
}

/// A month written with two digits (`01` to `12`).
pub fn two_digits_month(m: u8) -> (s: String)
    requires
        is_month(m),
    ensures
        s@ == two_digit_text(m),
{
    let t: &str = match m {
        1 => "01",
        2 => "02",
        3 => "03",
        4 => "04",
        5 => "05",
        6 => "06",
        7 => "07",
        8 => "08",
        9 => "09",
        10 => "10",
        11 => "11",
        _ => "12",
    };
    proof {
        reveal_strlit("01");
        reveal_strlit("02");
        reveal_strlit("03");
        reveal_strlit("04");
        reveal_strlit("05");
        reveal_strlit("06");
        reveal_strlit("07");
        reveal_strlit("08");
        reveal_strlit("09");
        reveal_strlit("10");
        reveal_strlit("11");
        reveal_strlit("12");
        assert(t@ =~= two_digit_text(m));
    }
    t.to_owned()
}

/// The message of the error for a payment method that a connector does not
/// support.
pub open spec fn unimplemented_payment_method_message(connector: Seq<char>) -> Seq<char> {
    "Selected payment method through "@ + connector
}

/// The message of the error for a payment method that a connector does not
/// support.
pub fn get_unimplemented_payment_method_error_message(connector: &str) -> (s: String)
    ensures
        s@ == unimplemented_payment_method_message(connector@),
{
    "Selected payment method through ".to_owned().concat(connector)
}

/// Kind of payment method data, as the mandate check names it.
#[derive(Clone, Copy, Debug, PartialEq, Eq, Structural)]
pub enum PaymentMethodDataType {
    Card,
    VaultDataCard,
    CardRedirect,
    Wallet,
    PayLater,
    BankRedirect,
    BankDebit,
    BankTransfer,
    Crypto,
    MandatePayment,
    Upi,
    Voucher,
    GiftCard,
    CardToken,
    NetworkToken,
}

/// The kind of some payment method data.
pub open spec fn data_type_of(d: PaymentMethodData) -> PaymentMethodDataType {
    match d {
        PaymentMethodData::Card(_) => PaymentMethodDataType::Card,
        PaymentMethodData::VaultDataCard(_) => PaymentMethodDataType::VaultDataCard,
        PaymentMethodData::CardRedirect => PaymentMethodDataType::CardRedirect,
        PaymentMethodData::Wallet => PaymentMethodDataType::Wallet,
        PaymentMethodData::PayLater => PaymentMethodDataType::PayLater,
        PaymentMethodData::BankRedirect => PaymentMethodDataType::BankRedirect,
        PaymentMethodData::BankDebit => PaymentMethodDataType::BankDebit,
        PaymentMethodData::BankTransfer => PaymentMethodDataType::BankTransfer,
        PaymentMethodData::Crypto => PaymentMethodDataType::Crypto,
        PaymentMethodData::MandatePayment => PaymentMethodDataType::MandatePayment,
        PaymentMethodData::Upi => PaymentMethodDataType::Upi,
        PaymentMethodData::Voucher => PaymentMethodDataType::Voucher,
        PaymentMethodData::GiftCard => PaymentMethodDataType::GiftCard,
        PaymentMethodData::CardToken => PaymentMethodDataType::CardToken,
        PaymentMethodData::NetworkToken => PaymentMethodDataType::NetworkToken,
    }
}

impl PaymentMethodDataType {
    /// The kind of some payment method data.
    pub fn from_data(d: &PaymentMethodData) -> (t: PaymentMethodDataType)
        ensures
            t == data_type_of(*d),
    {
        match d {
            PaymentMethodData::Card(_) => PaymentMethodDataType::Card,
            PaymentMethodData::VaultDataCard(_) => PaymentMethodDataType::VaultDataCard,
            PaymentMethodData::CardRedirect => PaymentMethodDataType::CardRedirect,
            PaymentMethodData::Wallet => PaymentMethodDataType::Wallet,
            PaymentMethodData::PayLater => PaymentMethodDataType::PayLater,
            PaymentMethodData::BankRedirect => PaymentMethodDataType::BankRedirect,
            PaymentMethodData::BankDebit => PaymentMethodDataType::BankDebit,
            PaymentMethodData::BankTransfer => PaymentMethodDataType::BankTransfer,
            PaymentMethodData::Crypto => PaymentMethodDataType::Crypto,
            PaymentMethodData::MandatePayment => PaymentMethodDataType::MandatePayment,
            PaymentMethodData::Upi => PaymentMethodDataType::Upi,
            PaymentMethodData::Voucher => PaymentMethodDataType::Voucher,
            PaymentMethodData::GiftCard => PaymentMethodDataType::GiftCard,
            PaymentMethodData::CardToken => PaymentMethodDataType::CardToken,
            PaymentMethodData::NetworkToken => PaymentMethodDataType::NetworkToken,
        }
    }
}

/// The message of the error for a mandate on an unsupported payment method.
pub open spec fn mandate_not_supported_message(pm_type: Option<PaymentMethodType>) -> Seq<char> {
    match pm_type {
        Some(t) => t.display_text() + " mandate payment"@,
        None => " mandate payment"@,
    }
}

/// Accepts a mandate exactly when the kind of the payment method data is
/// among those for which the connector implements mandates.
pub fn is_mandate_supported(
    selected_pmd: &PaymentMethodData,
    payment_method_type: Option<PaymentMethodType>,
    mandate_implemented_pmds: &Vec<PaymentMethodDataType>,
    connector: &'static str,
) -> (r: Result<(), ConnectorError>)
    ensures
        mandate_implemented_pmds@.contains(data_type_of(*selected_pmd)) ==> r is Ok,
        !mandate_implemented_pmds@.contains(data_type_of(*selected_pmd)) ==> (r matches Err(
            ConnectorError::NotSupported { message, connector: c },
        ) && message@ == mandate_not_supported_message(payment_method_type) && c == connector),
{
    let kind = PaymentMethodDataType::from_data(selected_pmd);
    let n = mandate_implemented_pmds.len();
    for i in 0..n
        invariant
            n == mandate_implemented_pmds@.len(),
            kind == data_type_of(*selected_pmd),
            forall|j: int| 0 <= j < i ==> mandate_implemented_pmds@[j] != kind,
    {
        if mandate_implemented_pmds[i] == kind {
            return Ok(());
        }
    }
    let message = match payment_method_type {
        Some(pm_type) => pm_type.to_string().concat(" mandate payment"),
        None => " mandate payment".to_owned(),
    };
    Err(ConnectorError::NotSupported { message, connector })
}

} // verus!
