//! Amounts: the minor-unit integer and the notations that connectors ask for.
//!
//! The minor-unit integer is the single source of truth. Every other form is
//! derived from it by shifting the decimal point by the currency's exponent,
//! digit by digit, so that no conversion loses precision.

use vstd::prelude::*;
use crate::enums::Currency;
use crate::errors::ParsingError;
use crate::text::{
    all_digits, char_to_digit, chars_of, decimal_digits, digits_value, fixed_digits,
    lemma_decimal_digits, lemma_digits_value_concat, lemma_fixed_digits, lemma_pow10_monotone,
    lemma_pow10_positive, lemma_pow10_values, pow10, push_decimal, push_fixed, string_of,
};

verus! {

/// Decimal notation of the magnitude `m` with the point shifted by `e` places.
pub open spec fn unsigned_amount_text(m: nat, e: nat) -> Seq<char> {
    if e == 0 {
        decimal_digits(m)
    } else {
        decimal_digits(m / pow10(e)) + seq!['.'] + fixed_digits(m % pow10(e), e)
    }
}

/// Decimal notation of `n` minor units in a currency with exponent `e`.
pub open spec fn amount_text(n: int, e: nat) -> Seq<char> {
    if n < 0 {
        seq!['-'] + unsigned_amount_text((-n) as nat, e)
    } else {
        unsigned_amount_text(n as nat, e)
    }
}

/// The magnitude that an unsigned amount denotes, when it is well formed:
/// at least one digit, and for `e > 0` a point followed by exactly `e` digits.
pub open spec fn parse_unsigned_amount_text(body: Seq<char>, e: nat) -> Option<nat> {
    if e == 0 {
        if body.len() >= 1 && all_digits(body) {
            Some(digits_value(body))
        } else {
            None
        }
    } else {
        let k = body.len() - e - 1;
        if body.len() >= e + 2 && body[k] == '.' && all_digits(body.subrange(0, k)) && all_digits(
            body.subrange(k + 1, body.len() as int),
        ) {
            Some(digits_value(body.subrange(0, k) + body.subrange(k + 1, body.len() as int)))
        } else {
            None
        }
    }
}

/// The number of minor units that an amount denotes, when it is well formed:
/// an optional minus sign before an unsigned amount.
pub open spec fn parse_amount_text(s: Seq<char>, e: nat) -> Option<int> {
    if s.len() > 0 && s[0] == '-' {
        match parse_unsigned_amount_text(s.skip(1), e) {
            Some(m) => Some(-(m as int)),
            None => None,
        }
    } else {
        match parse_unsigned_amount_text(s, e) {
            Some(m) => Some(m as int),
            None => None,
        }
    }
}

/// What reading an amount gives: the minor units when the text is well formed
/// and they fit 64 bits, and otherwise the reason.
pub open spec fn read_amount_text(s: Seq<char>, e: nat) -> Result<i64, ParsingError> {
    match parse_amount_text(s, e) {
        Some(n) => if i64::MIN <= n <= i64::MAX {
            Ok(n as i64)
        } else {
            Err(ParsingError::DecimalToI64ConversionFailure)
        },
        None => Err(ParsingError::StringToDecimalConversionFailure),
    }
}

/// Reading the notation of a magnitude gives the magnitude back.
pub proof fn lemma_unsigned_amount_text_round_trip(m: nat, e: nat)
    ensures
        parse_unsigned_amount_text(unsigned_amount_text(m, e), e) == Some(m),
        unsigned_amount_text(m, e).len() >= 1,
        unsigned_amount_text(m, e)[0] != '-',
{
    lemma_decimal_digits(m);
    if e == 0 {
        let d = decimal_digits(m);
        assert(crate::text::is_digit(d[0]));
    } else {
        let p = pow10(e);
        lemma_pow10_positive(e);
        let whole = decimal_digits(m / p);
        let frac = fixed_digits(m % p, e);
        lemma_decimal_digits(m / p);
        lemma_fixed_digits(m % p, e);
        let body = whole + seq!['.'] + frac;
        let k = body.len() - e - 1;
        assert(k == whole.len());
        assert(body[k] == '.');
        assert(body.subrange(0, k) =~= whole);
        assert(body.subrange(k + 1, body.len() as int) =~= frac);
        lemma_digits_value_concat(whole, frac);
        assert((m % p) % p == m % p) by (nonlinear_arith)
            requires
                p > 0,
        ;
        assert((m / p) * p + m % p == m) by (nonlinear_arith)
            requires
                p > 0,
        ;
        assert(crate::text::is_digit(whole[0]));
        assert(body[0] == whole[0]);
    }
}

/// Reading the notation of an amount gives the amount back.
pub proof fn lemma_amount_text_round_trip(n: int, e: nat)
    ensures
        parse_amount_text(amount_text(n, e), e) == Some(n),
{
    if n < 0 {
        let m = (-n) as nat;
        lemma_unsigned_amount_text_round_trip(m, e);
        let s = seq!['-'] + unsigned_amount_text(m, e);
        assert(s[0] == '-');
        assert(s.skip(1) =~= unsigned_amount_text(m, e));
    } else {
        lemma_unsigned_amount_text_round_trip(n as nat, e);
    }
}

/// The magnitude of `n`.
pub fn magnitude(n: i64) -> (m: u64)
    ensures
        m == if n < 0 {
            -(n as int)
        } else {
            n as int
        },
{
    if n == i64::MIN {
        9223372036854775808u64
    } else if n < 0 {
        (-n) as u64
    } else {
        n as u64
    }
}

/// Ten to the power `e`, as far as it fits 64 bits.
pub fn power_of_ten(e: u8) -> (p: u64)
    requires
        e <= 19,
    ensures
        p == pow10(e as nat),
        p >= 1,
{
    let mut p: u64 = 1;
    let mut i: u8 = 0;
    while i < e
        invariant
            i <= e <= 19,
            p == pow10(i as nat),
            p >= 1,
        decreases e - i,
    {
        proof {
            lemma_pow10_values();
            lemma_pow10_monotone(i as nat, 18);
        }
        p = p * 10;
        i += 1;
    }
    p
}

/// Writes `n` minor units in decimal notation with `e` decimal places.
pub fn write_amount_text(n: i64, e: u8) -> (s: String)
    ensures
        s@ == amount_text(n as int, e as nat),
{
    let mut v: Vec<char> = Vec::new();
    let m = magnitude(n);
    if n < 0 {
        v.push('-');
    }
    let ghost sign = v@;
    if e == 0 {
        push_decimal(&mut v, m);
    } else if e <= 19 {
        let p = power_of_ten(e);
        push_decimal(&mut v, m / p);
        v.push('.');
        push_fixed(&mut v, m % p, e);
        proof {
            assert(v@ =~= sign + unsigned_amount_text(m as nat, e as nat));
        }
    } else {
        proof {
            lemma_pow10_values();
            lemma_pow10_monotone(20, e as nat);
            let p = pow10(e as nat);
            assert(m < p);
            assert(m as nat / p == 0 && m as nat % p == m) by (nonlinear_arith)
                requires
                    0 <= m < p,
            ;
        }
        push_decimal(&mut v, 0);
        v.push('.');
        push_fixed(&mut v, m, e);
        proof {
            assert(v@ =~= sign + unsigned_amount_text(m as nat, e as nat));
        }
    }
    proof {
        assert(v@ =~= amount_text(n as int, e as nat));
    }
    string_of(&v)
}

/// The digits of a well-formed unsigned amount, without its point.
#[verifier::loop_isolation(false)]
fn amount_digits(chars: &Vec<char>, start: usize, e: u8) -> (r: Option<Vec<char>>)
    requires
        start <= chars.len(),
    ensures
        r is Some <==> parse_unsigned_amount_text(chars@.skip(start as int), e as nat) is Some,
        r matches Some(d) ==> all_digits(d@) && parse_unsigned_amount_text(
            chars@.skip(start as int),
            e as nat,
        ) == Some(digits_value(d@)),
{
    let ghost body = chars@.skip(start as int);
    let n = chars.len() - start;
    let width: usize = e as usize;
    if e == 0 {
        if n < 1 {
            return None;
        }
    } else {
        if n < width + 2 {
            return None;
        }
        if chars[chars.len() - width - 1] != '.' {
            return None;
        }
    }
    let point: usize = if e == 0 {
        chars.len()
    } else {
        chars.len() - width - 1
    };
    let ghost k = point - start;
    let ghost whole = body.subrange(0, k);
    let ghost frac = if e == 0 {
        Seq::<char>::empty()
    } else {
        body.subrange(k + 1, body.len() as int)
    };
    proof {
        if e == 0 {
            assert(whole =~= body);
        }
    }
    let mut d: Vec<char> = Vec::new();
    let mut i: usize = start;
    while i < point
        invariant
            start <= i <= point <= chars.len(),
            body == chars@.skip(start as int),
            whole == body.subrange(0, point - start),
            d@ == whole.subrange(0, i - start),
            all_digits(d@),
        decreases point - i,
    {
        let c = chars[i];
        if char_to_digit(c).is_none() {
            proof {
                assert(whole[i - start] == c);
                assert(!all_digits(whole));
            }
            return None;
        }
        d.push(c);
        i += 1;
        proof {
            assert(d@ =~= whole.subrange(0, i - start));
        }
    }
    proof {
        assert(d@ =~= whole);
    }
    if e != 0 {
        let mut j: usize = point + 1;
        while j < chars.len()
            invariant
                point + 1 <= j <= chars.len(),
                point >= start,
                body == chars@.skip(start as int),
                frac == body.subrange(point - start + 1, body.len() as int),
                d@ == whole + frac.subrange(0, j - point - 1),
                all_digits(d@),
            decreases chars.len() - j,
        {
            let c = chars[j];
            if char_to_digit(c).is_none() {
                proof {
                    assert(frac[j - point - 1] == c);
                    assert(!all_digits(frac));
                }
                return None;
            }
            d.push(c);
            j += 1;
            proof {
                assert(d@ =~= whole + frac.subrange(0, j - point - 1));
            }
        }
        proof {
            assert(frac.subrange(0, frac.len() as int) =~= frac);
            assert forall|x: int| 0 <= x < whole.len() implies crate::text::is_digit(
                #[trigger] whole[x],
            ) by {
                assert(d@[x] == whole[x]);
            }
            assert forall|x: int| 0 <= x < frac.len() implies crate::text::is_digit(
                #[trigger] frac[x],
            ) by {
                assert(d@[whole.len() + x] == frac[x]);
            }
        }
    }
    Some(d)
}

/// The value of a digit string, unless it exceeds `limit`.
fn bounded_digits_value(d: &Vec<char>, limit: u64) -> (r: Option<u64>)
    requires
        all_digits(d@),
    ensures
        r is Some <==> digits_value(d@) <= limit,
        r matches Some(v) ==> v == digits_value(d@),
{
    let mut acc: u64 = 0;
    let mut i: usize = 0;
    proof {
        assert(d@.subrange(0, 0) =~= Seq::<char>::empty());
    }
    while i < d.len()
        invariant
            i <= d.len(),
            all_digits(d@),
            acc == digits_value(d@.subrange(0, i as int)),
            acc <= limit,
        decreases d.len() - i,
    {
        let digit = match char_to_digit(d[i]) {
            Some(x) => x as u64,
            None => 0,
        };
        proof {
            let next = d@.subrange(0, i + 1);
            assert(next.drop_last() =~= d@.subrange(0, i as int));
            assert(next.last() == d@[i as int]);
            assert(digits_value(next) == acc * 10 + digit);
            let rest = d@.subrange(i + 1, d.len() as int);
            assert(next + rest =~= d@);
            lemma_digits_value_concat(next, rest);
            lemma_pow10_positive(rest.len());
            assert(digits_value(next) * pow10(rest.len()) >= digits_value(next))
                by (nonlinear_arith)
                requires
                    pow10(rest.len()) >= 1,
            ;
        }
        if digit > limit || acc > (limit - digit) / 10 {
            return None;
        }
        acc = acc * 10 + digit;
        i += 1;
    }
    proof {
        assert(d@.subrange(0, d.len() as int) =~= d@);
    }
    Some(acc)
}

/// Reads an amount in decimal notation with `e` decimal places.
pub fn parse_amount(s: &str, e: u8) -> (r: Result<i64, ParsingError>)
    ensures
        r == read_amount_text(s@, e as nat),
{
    let chars = chars_of(s);
    let negative = chars.len() > 0 && chars[0] == '-';
    let start: usize = if negative {
        1
    } else {
        0
    };
    proof {
        if !negative {
            assert(chars@.skip(0) =~= chars@);
        }
    }
    let digits = match amount_digits(&chars, start, e) {
        Some(d) => d,
        None => {
            return Err(ParsingError::StringToDecimalConversionFailure);
        },
    };
    let limit: u64 = if negative {
        9223372036854775808u64
    } else {
        9223372036854775807u64
    };
    match bounded_digits_value(&digits, limit) {
        None => Err(ParsingError::DecimalToI64ConversionFailure),
        Some(v) => {
            if negative {
                if v == 9223372036854775808u64 {
                    Ok(i64::MIN)
                } else {
                    Ok(-(v as i64))
                }
            } else {
                Ok(v as i64)
            }
        },
    }
}

/// An amount in the minor unit of its currency, such as cents.
#[derive(Clone, Copy, Debug, PartialEq, Eq, Hash, Structural)]
pub struct MinorUnit {
    amount: i64,
}

impl MinorUnit {
    /// The number of minor units.
    pub closed spec fn view(&self) -> int {
        self.amount as int
    }

    /// The amount of `amount` minor units.
    pub fn new(amount: i64) -> (r: Self)
        ensures
            r@ == amount,
    {
        MinorUnit { amount }
    }

    /// The amount of no money.
    pub fn zero() -> (r: Self)
        ensures
            r@ == 0,
    {
        MinorUnit { amount: 0 }
    }

    /// The number of minor units.
    pub fn get_amount_as_i64(&self) -> (r: i64)
        ensures
            r == self@,
    {
        self.amount
    }
}

/// An amount in minor units, written as a decimal integer.
#[derive(Debug, PartialEq, Eq)]
pub struct StringMinorUnit {
    text: String,
}

impl StringMinorUnit {
    /// The text of the amount.
    pub closed spec fn view(&self) -> Seq<char> {
        self.text@
    }

    /// The amount that `text` spells; nothing is checked until it is read back.
    pub fn new(text: String) -> (r: Self)
        ensures
            r@ == text@,
    {
        StringMinorUnit { text }
    }

    /// The text of the amount.
    pub fn as_str(&self) -> (r: &str)
        ensures
            r@ == self@,
    {
        self.text.as_str()
    }

    /// The notation of `amount`.
    pub fn from_minor_unit(amount: MinorUnit) -> (r: Self)
        ensures
            r@ == amount_text(amount@, 0),
    {
        StringMinorUnit { text: write_amount_text(amount.get_amount_as_i64(), 0) }
    }

    /// The minor units that the text denotes.
    pub fn to_minor_unit(&self) -> (r: Result<MinorUnit, ParsingError>)
        ensures
            match read_amount_text(self@, 0) {
                Ok(n) => r matches Ok(m) && m@ == n,
                Err(e) => r == Err::<MinorUnit, ParsingError>(e),
            },
    {
        match parse_amount(self.text.as_str(), 0) {
            Ok(n) => Ok(MinorUnit::new(n)),
            Err(e) => Err(e),
        }
    }
}

impl Clone for StringMinorUnit {
    fn clone(&self) -> (r: Self)
        ensures
            r == *self,
    {
        StringMinorUnit { text: self.text.clone() }
    }
}

/// An amount in major units, written with the decimal places of its currency.
#[derive(Debug, PartialEq, Eq)]
pub struct StringMajorUnit {
    text: String,
}

impl StringMajorUnit {
    /// The text of the amount.
    pub closed spec fn view(&self) -> Seq<char> {
        self.text@
    }

    /// The amount that `text` spells; nothing is checked until it is read back.
    pub fn new(text: String) -> (r: Self)
        ensures
            r@ == text@,
    {
        StringMajorUnit { text }
    }

    /// The text of the amount.
    pub fn as_str(&self) -> (r: &str)
        ensures
            r@ == self@,
    {
        self.text.as_str()
    }

    /// The notation of `amount` in `currency`.
    pub fn from_minor_unit(amount: MinorUnit, currency: Currency) -> (r: Self)
        ensures
            r@ == amount_text(amount@, currency.exponent_spec()),
    {
        StringMajorUnit { text: write_amount_text(amount.get_amount_as_i64(), currency.exponent()) }
    }

    /// The minor units of `currency` that the text denotes.
    pub fn to_minor_unit(&self, currency: Currency) -> (r: Result<MinorUnit, ParsingError>)
        ensures
            match read_amount_text(self@, currency.exponent_spec()) {
                Ok(n) => r matches Ok(m) && m@ == n,
                Err(e) => r == Err::<MinorUnit, ParsingError>(e),
            },
    {
        match parse_amount(self.text.as_str(), currency.exponent()) {
            Ok(n) => Ok(MinorUnit::new(n)),
            Err(e) => Err(e),
        }
    }
}

impl Clone for StringMajorUnit {
    fn clone(&self) -> (r: Self)
        ensures
            r == *self,
    {
        StringMajorUnit { text: self.text.clone() }
    }
}

/// An amount in major units as an exact decimal number: `minor` divided by
/// ten to the power `exponent`. It is the form handed to connectors that ask
/// for a number with a fraction.
#[derive(Clone, Copy, Debug, PartialEq, Eq, Hash, Structural)]
pub struct DecimalMajorUnit {
    pub minor: i64,
    pub exponent: u8,
}

impl DecimalMajorUnit {
    /// The exact decimal form of `amount` in `currency`.
    pub fn from_minor_unit(amount: MinorUnit, currency: Currency) -> (r: Self)
        ensures
            r.minor == amount@,
            r.exponent == currency.exponent_spec(),
    {
        DecimalMajorUnit { minor: amount.get_amount_as_i64(), exponent: currency.exponent() }
    }

    /// The minor units of `currency`, when the decimal places are those of the currency.
    pub fn to_minor_unit(&self, currency: Currency) -> (r: Result<MinorUnit, ParsingError>)
        ensures
            self.exponent == currency.exponent_spec() ==> (r matches Ok(m) && m@ == self.minor),
            self.exponent != currency.exponent_spec() ==> r == Err::<MinorUnit, ParsingError>(
                ParsingError::DecimalScaleMismatch,
            ),
    {
        if self.exponent == currency.exponent() {
            Ok(MinorUnit::new(self.minor))
        } else {
            Err(ParsingError::DecimalScaleMismatch)
        }
    }

    /// The decimal notation of the amount.
    pub fn to_text(&self) -> (r: String)
        ensures
            r@ == amount_text(self.minor as int, self.exponent as nat),
    {
        write_amount_text(self.minor, self.exponent)
    }
}

/// The notation in which a connector takes amounts.
#[derive(Clone, Copy, Debug, PartialEq, Eq, Hash, Structural)]
pub enum AmountFormat {
    /// The minor-unit integer itself.
    MinorUnit,
    /// The minor-unit integer as text.
    StringMinorUnit,
    /// Major units as text, with the decimal places of the currency.
    StringMajorUnit,
    /// Major units as an exact decimal number.
    DecimalMajorUnit,
}

/// An amount in the notation of a connector.
#[derive(Clone, Debug, PartialEq, Eq)]
pub enum ConnectorAmountView {
    MinorUnit(MinorUnit),
    StringMinorUnit(StringMinorUnit),
    StringMajorUnit(StringMajorUnit),
    DecimalMajorUnit(DecimalMajorUnit),
}

/// What a connector amount holds.
pub enum AmountModel {
    MinorUnit(int),
    StringMinorUnit(Seq<char>),
    StringMajorUnit(Seq<char>),
    DecimalMajorUnit { minor: int, exponent: nat },
}

impl ConnectorAmountView {
    /// What the amount holds.
    pub open spec fn view(&self) -> AmountModel {
        match self {
            ConnectorAmountView::MinorUnit(m) => AmountModel::MinorUnit(m@),
            ConnectorAmountView::StringMinorUnit(s) => AmountModel::StringMinorUnit(s@),
            ConnectorAmountView::StringMajorUnit(s) => AmountModel::StringMajorUnit(s@),
            ConnectorAmountView::DecimalMajorUnit(d) => AmountModel::DecimalMajorUnit {
                minor: d.minor as int,
                exponent: d.exponent as nat,
            },
        }
    }
}

/// The connector form of `minor_units` of `currency` in the notation `format`.
pub open spec fn connector_amount_of(
    minor_units: int,
    currency: Currency,
    format: AmountFormat,
) -> AmountModel {
    match format {
        AmountFormat::MinorUnit => AmountModel::MinorUnit(minor_units),
        AmountFormat::StringMinorUnit => AmountModel::StringMinorUnit(amount_text(minor_units, 0)),
        AmountFormat::StringMajorUnit => AmountModel::StringMajorUnit(
            amount_text(minor_units, currency.exponent_spec()),
        ),
        AmountFormat::DecimalMajorUnit => AmountModel::DecimalMajorUnit {
            minor: minor_units,
            exponent: currency.exponent_spec(),
        },
    }
}

/// The minor units of `currency` that a connector amount denotes, or why it denotes none.
pub open spec fn minor_units_of(view: AmountModel, currency: Currency) -> Result<
    i64,
    ParsingError,
> {
    match view {
        AmountModel::MinorUnit(n) => if i64::MIN <= n <= i64::MAX {
            Ok(n as i64)
        } else {
            Err(ParsingError::DecimalToI64ConversionFailure)
        },
        AmountModel::StringMinorUnit(s) => read_amount_text(s, 0),
        AmountModel::StringMajorUnit(s) => read_amount_text(s, currency.exponent_spec()),
        AmountModel::DecimalMajorUnit { minor, exponent } => if exponent
            != currency.exponent_spec() {
            Err(ParsingError::DecimalScaleMismatch)
        } else if i64::MIN <= minor <= i64::MAX {
            Ok(minor as i64)
        } else {
            Err(ParsingError::DecimalToI64ConversionFailure)
        },
    }
}

/// Converts minor units into the notation that a connector asks for.
pub fn to_connector_amount(minor_units: i64, currency: Currency, format: AmountFormat) -> (r:
    ConnectorAmountView)
    ensures
        r@ == connector_amount_of(minor_units as int, currency, format),
{
    let amount = MinorUnit::new(minor_units);
    match format {
        AmountFormat::MinorUnit => ConnectorAmountView::MinorUnit(amount),
        AmountFormat::StringMinorUnit => ConnectorAmountView::StringMinorUnit(
            StringMinorUnit::from_minor_unit(amount),
        ),
        AmountFormat::StringMajorUnit => ConnectorAmountView::StringMajorUnit(
            StringMajorUnit::from_minor_unit(amount, currency),
        ),
        AmountFormat::DecimalMajorUnit => ConnectorAmountView::DecimalMajorUnit(
            DecimalMajorUnit::from_minor_unit(amount, currency),
        ),
    }
}

/// Converts an amount in a connector's notation back into minor units.
pub fn from_connector_amount(view: &ConnectorAmountView, currency: Currency) -> (r: Result<
    i64,
    ParsingError,
>)
    ensures
        r == minor_units_of(view@, currency),
{
    match view {
        ConnectorAmountView::MinorUnit(m) => Ok(m.get_amount_as_i64()),
        ConnectorAmountView::StringMinorUnit(s) => parse_amount(s.as_str(), 0),
        ConnectorAmountView::StringMajorUnit(s) => parse_amount(s.as_str(), currency.exponent()),
        ConnectorAmountView::DecimalMajorUnit(d) => {
            if d.exponent == currency.exponent() {
                Ok(d.minor)
            } else {
                Err(ParsingError::DecimalScaleMismatch)
            }
        },
    }
}

/// Converting an amount into any connector notation and back gives the
/// amount again, for every 64-bit amount and every currency.
pub proof fn lemma_connector_amount_round_trip(
    minor_units: i64,
    currency: Currency,
    format: AmountFormat,
)
    ensures
        minor_units_of(connector_amount_of(minor_units as int, currency, format), currency) == Ok::<
            i64,
            ParsingError,
        >(minor_units),
{
    lemma_amount_text_round_trip(minor_units as int, 0);
    lemma_amount_text_round_trip(minor_units as int, currency.exponent_spec());
}

} // verus!
