//! The descriptor validator: field lengths, the amount grammar, the currency,
//! and the triad of reference type, reference number and IBAN.
use crate::descriptor::{same_but_iban, text_or_empty, QrData};
use crate::error::Error;
use crate::iban_text::{country_allowed, is_allowed_country, paper_format, parse_iban, parsed_iban};
use crate::text::{all_digits, all_digits_in, chars_of, digits_value, digits_value_capped};
use vstd::prelude::*;
use vstd::string::StrSliceExecFns;

verus! {

/// Why a descriptor was refused.
#[derive(PartialEq, Eq, Structural, Clone, Copy, Debug)]
pub enum ValidationFailure {
    CreditorNameLength,
    CreditorAddressLength,
    CreditorCountryLength,
    DebtorNameLength,
    DebtorAddressLength,
    DebtorCountryLength,
    AdditionalInformationLength,
    AmountParts,
    AmountLeadingZero,
    AmountFractionDigits,
    AmountIntegral,
    AmountFractional,
    AmountTooSmall,
    AmountTooLarge,
    Currency,
    CreditorZipCity,
    DebtorZipCity,
    QrrReferenceMissing,
    QrrReferenceLength,
    QrrReferenceDigits,
    QrrRequiresQrIban,
    ScorReferenceMissing,
    ScorReferenceLength,
    ScorReferenceAlphanumeric,
    NonReferencePresent,
    QrIbanRequiresQrr,
    ReferenceType,
}

/// The text that explains a failure.
pub open spec fn failure_text(f: ValidationFailure) -> Seq<char> {
    match f {
        ValidationFailure::CreditorNameLength => "creditor_name must be 1 to 70 characters long"@,
        ValidationFailure::CreditorAddressLength => "creditor_address must be 1 to 70 characters long"@,
        ValidationFailure::CreditorCountryLength => "creditor_country must be 2 characters long"@,
        ValidationFailure::DebtorNameLength => "debtor_name must be 1 to 70 characters long"@,
        ValidationFailure::DebtorAddressLength => "debtor_address must be 1 to 70 characters long"@,
        ValidationFailure::DebtorCountryLength => "debtor_country must be 2 characters long"@,
        ValidationFailure::AdditionalInformationLength => "additional_information may not exceed 140 characters"@,
        ValidationFailure::AmountParts => "Decimal amount not formatted correctly, expected both integral and fractional parts"@,
        ValidationFailure::AmountLeadingZero => "Decimal amount not formatted correctly, amount must not start with leading 0s"@,
        ValidationFailure::AmountFractionDigits => "Decimal amount not formatted correctly, amount must contain 2 fractional digits"@,
        ValidationFailure::AmountIntegral => "Decimal amount not formatted correctly, integral is not a valid number"@,
        ValidationFailure::AmountFractional => "Decimal amount not formatted correctly, fractional is not a valid number"@,
        ValidationFailure::AmountTooSmall => "Decimal amount not formatted correctly, amount must be at least 0.01"@,
        ValidationFailure::AmountTooLarge => "Decimal amount not formatted correctly, amount may not exceed 999999999.99"@,
        ValidationFailure::Currency => "Currency must be either CHF or EUR"@,
        ValidationFailure::CreditorZipCity => "Combined length of creditor zip code and city may not exceed 69"@,
        ValidationFailure::DebtorZipCity => "Combined length of debtor zip code and city may not exceed 69"@,
        ValidationFailure::QrrReferenceMissing => "Reference number must be provided when the reference type is QRR"@,
        ValidationFailure::QrrReferenceLength => "Reference number must be of length 27 when the reference type is QRR"@,
        ValidationFailure::QrrReferenceDigits => "Reference number must be numerical when the reference type is QRR"@,
        ValidationFailure::QrrRequiresQrIban => "IBAN must be a QR-IBAN (1-based position 5-9 must be between 30000 and 31999) when the reference type is QRR"@,
        ValidationFailure::ScorReferenceMissing => "Reference number must be provided when the reference type is SCOR"@,
        ValidationFailure::ScorReferenceLength => "Reference number must be of length 5 - 25 when the reference type is SCOR"@,
        ValidationFailure::ScorReferenceAlphanumeric => "Reference number must be alphanumeric when the reference type is SCOR"@,
        ValidationFailure::NonReferencePresent => "Reference number must not be provided when the reference type is NON"@,
        ValidationFailure::QrIbanRequiresQrr => "Reference type must be QRR if the IBAN is a QR-IBAN"@,
        ValidationFailure::ReferenceType => "Reference type must be QRR, SCOR or NON"@,
    }
}

impl ValidationFailure {
    /// The text that explains this failure.
    pub fn message(&self) -> (r: String)
        ensures
            r@ == failure_text(*self),
    {
        let t = match self {
            ValidationFailure::CreditorNameLength => "creditor_name must be 1 to 70 characters long",
            ValidationFailure::CreditorAddressLength => "creditor_address must be 1 to 70 characters long",
            ValidationFailure::CreditorCountryLength => "creditor_country must be 2 characters long",
            ValidationFailure::DebtorNameLength => "debtor_name must be 1 to 70 characters long",
            ValidationFailure::DebtorAddressLength => "debtor_address must be 1 to 70 characters long",
            ValidationFailure::DebtorCountryLength => "debtor_country must be 2 characters long",
            ValidationFailure::AdditionalInformationLength => "additional_information may not exceed 140 characters",
            ValidationFailure::AmountParts => "Decimal amount not formatted correctly, expected both integral and fractional parts",
            ValidationFailure::AmountLeadingZero => "Decimal amount not formatted correctly, amount must not start with leading 0s",
            ValidationFailure::AmountFractionDigits => "Decimal amount not formatted correctly, amount must contain 2 fractional digits",
            ValidationFailure::AmountIntegral => "Decimal amount not formatted correctly, integral is not a valid number",
            ValidationFailure::AmountFractional => "Decimal amount not formatted correctly, fractional is not a valid number",
            ValidationFailure::AmountTooSmall => "Decimal amount not formatted correctly, amount must be at least 0.01",
            ValidationFailure::AmountTooLarge => "Decimal amount not formatted correctly, amount may not exceed 999999999.99",
            ValidationFailure::Currency => "Currency must be either CHF or EUR",
            ValidationFailure::CreditorZipCity => "Combined length of creditor zip code and city may not exceed 69",
            ValidationFailure::DebtorZipCity => "Combined length of debtor zip code and city may not exceed 69",
            ValidationFailure::QrrReferenceMissing => "Reference number must be provided when the reference type is QRR",
            ValidationFailure::QrrReferenceLength => "Reference number must be of length 27 when the reference type is QRR",
            ValidationFailure::QrrReferenceDigits => "Reference number must be numerical when the reference type is QRR",
            ValidationFailure::QrrRequiresQrIban => "IBAN must be a QR-IBAN (1-based position 5-9 must be between 30000 and 31999) when the reference type is QRR",
            ValidationFailure::ScorReferenceMissing => "Reference number must be provided when the reference type is SCOR",
            ValidationFailure::ScorReferenceLength => "Reference number must be of length 5 - 25 when the reference type is SCOR",
            ValidationFailure::ScorReferenceAlphanumeric => "Reference number must be alphanumeric when the reference type is SCOR",
            ValidationFailure::NonReferencePresent => "Reference number must not be provided when the reference type is NON",
            ValidationFailure::QrIbanRequiresQrr => "Reference type must be QRR if the IBAN is a QR-IBAN",
            ValidationFailure::ReferenceType => "Reference type must be QRR, SCOR or NON",
        };
        String::from_str(t)
    }
}

// ---------------------------------------------------------------------------
// Amount
// ---------------------------------------------------------------------------

/// `a` holds exactly one `.`.
pub open spec fn single_dot(a: Seq<char>) -> bool {
    exists|p: int|
        0 <= p < a.len() && #[trigger] a[p] == '.' && forall|j: int|
            0 <= j < a.len() && j != p ==> #[trigger] a[j] != '.'
}

/// The position of a `.` in `a`.
pub open spec fn dot_position(a: Seq<char>) -> int {
    choose|p: int| 0 <= p < a.len() && #[trigger] a[p] == '.'
}

/// What stands before the dot of an amount.
pub open spec fn integral_part(a: Seq<char>) -> Seq<char> {
    a.subrange(0, dot_position(a))
}

/// What stands after the dot of an amount.
pub open spec fn fractional_part(a: Seq<char>) -> Seq<char> {
    a.subrange(dot_position(a) + 1, a.len() as int)
}

/// The first rule of the amount grammar that `a` breaks: `I "." F` where
/// `F` is two digits and `I` is digits without a leading zero (but `0`
/// itself), with a value of at least 0.01 and at most 999999999.99.
pub open spec fn amount_failure(a: Seq<char>) -> Option<ValidationFailure> {
    if !single_dot(a) {
        Some(ValidationFailure::AmountParts)
    } else {
        let i = integral_part(a);
        let f = fractional_part(a);
        if i.len() > 1 && i[0] == '0' {
            Some(ValidationFailure::AmountLeadingZero)
        } else if f.len() != 2 {
            Some(ValidationFailure::AmountFractionDigits)
        } else if i.len() == 0 || !all_digits(i) {
            Some(ValidationFailure::AmountIntegral)
        } else if !all_digits(f) {
            Some(ValidationFailure::AmountFractional)
        } else if digits_value(i) == 0 && digits_value(f) == 0 {
            Some(ValidationFailure::AmountTooSmall)
        } else if digits_value(i) > 999_999_999 {
            Some(ValidationFailure::AmountTooLarge)
        } else {
            None
        }
    }
}

/// Checks the amount grammar.
pub fn validate_amount(amount: &str) -> (r: Result<(), ValidationFailure>)
    ensures
        r == match amount_failure(amount@) {
            None => Ok(()),
            Some(f) => Err(f),
        },
{
    let v = chars_of(amount);
    let n = v.len();
    let mut found = false;
    let mut pos: usize = 0;
    let mut k: usize = 0;
    while k < n
        invariant
            n == v@.len(),
            v@ == amount@,
            k <= n,
            !found ==> forall|j: int| 0 <= j < k ==> #[trigger] v@[j] != '.',
            found ==> pos < k && v@[pos as int] == '.',
            found ==> forall|j: int| 0 <= j < k && j != pos ==> #[trigger] v@[j] != '.',
        decreases n - k,
    {
        if v[k] == '.' {
            if found {
                proof {
                    assert forall|p: int|
                        0 <= p < v@.len() && #[trigger] v@[p] == '.' implies !(forall|j: int|
                        0 <= j < v@.len() && j != p ==> #[trigger] v@[j] != '.') by {
                        if p == pos {
                            assert(v@[k as int] == '.');
                        } else {
                            assert(v@[pos as int] == '.');
                        }
                    }
                }
                return Err(ValidationFailure::AmountParts);
            }
            found = true;
            pos = k;
        }
        k = k + 1;
    }
    if !found {
        return Err(ValidationFailure::AmountParts);
    }
    proof {
        assert(single_dot(v@));
        let p = dot_position(v@);
        assert(v@[p] == '.');
        assert(p == pos as int);
    }
    if pos > 1 && v[0] == '0' {
        return Err(ValidationFailure::AmountLeadingZero);
    }
    if n - pos - 1 != 2 {
        return Err(ValidationFailure::AmountFractionDigits);
    }
    if pos == 0 || !all_digits_in(&v, 0, pos) {
        return Err(ValidationFailure::AmountIntegral);
    }
    if !all_digits_in(&v, pos + 1, n) {
        return Err(ValidationFailure::AmountFractional);
    }
    let integral = digits_value_capped(&v, 0, pos);
    let fractional = digits_value_capped(&v, pos + 1, n);
    if integral == 0 && fractional == 0 {
        return Err(ValidationFailure::AmountTooSmall);
    }
    if integral > 999_999_999 {
        return Err(ValidationFailure::AmountTooLarge);
    }
    Ok(())
}

// ---------------------------------------------------------------------------
// Currency, QR-IBAN, reference
// ---------------------------------------------------------------------------

/// Whether `a` and `b` hold the same characters.
fn same_chars(a: &Vec<char>, b: &Vec<char>) -> (r: bool)
    ensures
        r == (a@ == b@),
{
    if a.len() != b.len() {
        return false;
    }
    let mut k: usize = 0;
    while k < a.len()
        invariant
            a@.len() == b@.len(),
            k <= a@.len(),
            forall|j: int| 0 <= j < k ==> a@[j] == b@[j],
        decreases a.len() - k,
    {
        if a[k] != b[k] {
            return false;
        }
        k = k + 1;
    }
    assert(a@ =~= b@);
    true
}

/// Whether `s` reads exactly `word`.
fn is_word(s: &str, word: &str) -> (r: bool)
    ensures
        r == (s@ == word@),
{
    same_chars(&chars_of(s), &chars_of(word))
}

/// Slips are paid in Swiss francs or euros.
pub open spec fn currency_allowed(c: Seq<char>) -> bool {
    c == "CHF"@ || c == "EUR"@
}

/// Checks that the currency is CHF or EUR.
pub fn validate_currency(currency: &str) -> (r: Result<(), ValidationFailure>)
    ensures
        r == (if currency_allowed(currency@) {
            Ok(())
        } else {
            Err(ValidationFailure::Currency)
        }),
{
    if is_word(currency, "CHF") || is_word(currency, "EUR") {
        Ok(())
    } else {
        Err(ValidationFailure::Currency)
    }
}

/// A QR-IBAN: its characters at positions 5 to 9 (counted from 1) are
/// digits whose value, the QR-IID, lies in 30000..=31999.
pub open spec fn qr_iban(s: Seq<char>) -> bool {
    &&& s.len() >= 9
    &&& all_digits(s.subrange(4, 9))
    &&& 30000 <= digits_value(s.subrange(4, 9)) <= 31999
}

/// Whether `iban` is a QR-IBAN; false for any text too short to tell.
pub fn is_qr_iban(iban: &str) -> (r: bool)
    ensures
        r == qr_iban(iban@),
{
    let v = chars_of(iban);
    if v.len() < 9 || !all_digits_in(&v, 4, 9) {
        return false;
    }
    let iid = digits_value_capped(&v, 4, 9);
    30000 <= iid && iid <= 31999
}

/// Whether `c` is alphabetic or numeric in Unicode's sense.
pub uninterp spec fn alphanumeric(c: char) -> bool;

/// Relies on `char::is_alphanumeric`, whose answer depends on `c` alone.
#[verifier::external_body]
fn is_alphanumeric(c: char) -> (r: bool)
    ensures
        r == alphanumeric(c),
{
    c.is_alphanumeric()
}

/// Every character of `s` is alphanumeric.
pub open spec fn all_alphanumeric(s: Seq<char>) -> bool {
    forall|i: int| 0 <= i < s.len() ==> alphanumeric(#[trigger] s[i])
}

fn all_alphanumeric_in(v: &Vec<char>) -> (r: bool)
    ensures
        r == all_alphanumeric(v@),
{
    let mut k: usize = 0;
    while k < v.len()
        invariant
            k <= v@.len(),
            forall|j: int| 0 <= j < k ==> alphanumeric(#[trigger] v@[j]),
        decreases v.len() - k,
    {
        if !is_alphanumeric(v[k]) {
            return false;
        }
        k = k + 1;
    }
    true
}

/// The first rule of the reference triad that a descriptor breaks, given its
/// reference type, its reference number (empty where absent) and the
/// electronic form of its IBAN.
pub open spec fn reference_failure(kind: Seq<char>, number: Seq<char>, iban: Seq<char>) -> Option<
    ValidationFailure,
> {
    if kind == "QRR"@ {
        if number.len() == 0 {
            Some(ValidationFailure::QrrReferenceMissing)
        } else if number.len() != 27 {
            Some(ValidationFailure::QrrReferenceLength)
        } else if !all_digits(number) {
            Some(ValidationFailure::QrrReferenceDigits)
        } else if !qr_iban(iban) {
            Some(ValidationFailure::QrrRequiresQrIban)
        } else {
            None
        }
    } else if kind == "SCOR"@ {
        if number.len() == 0 {
            Some(ValidationFailure::ScorReferenceMissing)
        } else if number.len() < 5 || number.len() > 25 {
            Some(ValidationFailure::ScorReferenceLength)
        } else if !all_alphanumeric(number) {
            Some(ValidationFailure::ScorReferenceAlphanumeric)
        } else if qr_iban(iban) {
            Some(ValidationFailure::QrIbanRequiresQrr)
        } else {
            None
        }
    } else if kind == "NON"@ {
        if number.len() != 0 {
            Some(ValidationFailure::NonReferencePresent)
        } else if qr_iban(iban) {
            Some(ValidationFailure::QrIbanRequiresQrr)
        } else {
            None
        }
    } else {
        Some(ValidationFailure::ReferenceType)
    }
}

/// Checks the reference triad.
pub fn validate_reference(kind: &str, number: &Option<String>, iban: &str) -> (r: Result<
    (),
    ValidationFailure,
>)
    ensures
        r == match reference_failure(kind@, text_or_empty(*number), iban@) {
            None => Ok(()),
            Some(f) => Err(f),
        },
{
    let digits: Vec<char> = match number {
        Some(s) => chars_of(s.as_str()),
        None => Vec::new(),
    };
    assert(digits@ == text_or_empty(*number));
    if is_word(kind, "QRR") {
        if digits.len() == 0 {
            Err(ValidationFailure::QrrReferenceMissing)
        } else if digits.len() != 27 {
            Err(ValidationFailure::QrrReferenceLength)
        } else if !all_digits_in(&digits, 0, digits.len()) {
            assert(digits@.subrange(0, digits@.len() as int) =~= digits@);
            Err(ValidationFailure::QrrReferenceDigits)
        } else if !is_qr_iban(iban) {
            assert(digits@.subrange(0, digits@.len() as int) =~= digits@);
            Err(ValidationFailure::QrrRequiresQrIban)
        } else {
            assert(digits@.subrange(0, digits@.len() as int) =~= digits@);
            Ok(())
        }
    } else if is_word(kind, "SCOR") {
        if digits.len() == 0 {
            Err(ValidationFailure::ScorReferenceMissing)
        } else if digits.len() < 5 || digits.len() > 25 {
            Err(ValidationFailure::ScorReferenceLength)
        } else if !all_alphanumeric_in(&digits) {
            Err(ValidationFailure::ScorReferenceAlphanumeric)
        } else if is_qr_iban(iban) {
            Err(ValidationFailure::QrIbanRequiresQrr)
        } else {
            Ok(())
        }
    } else if is_word(kind, "NON") {
        if digits.len() != 0 {
            Err(ValidationFailure::NonReferencePresent)
        } else if is_qr_iban(iban) {
            Err(ValidationFailure::QrIbanRequiresQrr)
        } else {
            Ok(())
        }
    } else {
        Err(ValidationFailure::ReferenceType)
    }
}

// ---------------------------------------------------------------------------
// The whole descriptor
// ---------------------------------------------------------------------------

/// A length of 1 to 70 characters, as names and address lines must have.
pub open spec fn line_length_ok(s: Seq<char>) -> bool {
    1 <= s.len() <= 70
}

/// The first rule that `d` breaks, in the order in which they are checked,
/// given the electronic form `iban` of its creditor IBAN.
pub open spec fn rules_failure(d: QrData, iban: Seq<char>) -> Option<ValidationFailure> {
    if !line_length_ok(d.creditor_name@) {
        Some(ValidationFailure::CreditorNameLength)
    } else if !line_length_ok(d.creditor_address@) {
        Some(ValidationFailure::CreditorAddressLength)
    } else if d.creditor_country@.len() != 2 {
        Some(ValidationFailure::CreditorCountryLength)
    } else if !line_length_ok(d.debtor_name@) {
        Some(ValidationFailure::DebtorNameLength)
    } else if !line_length_ok(d.debtor_address@) {
        Some(ValidationFailure::DebtorAddressLength)
    } else if d.debtor_country@.len() != 2 {
        Some(ValidationFailure::DebtorCountryLength)
    } else if text_or_empty(d.additional_information).len() > 140 {
        Some(ValidationFailure::AdditionalInformationLength)
    } else if amount_failure(d.amount@) is Some {
        amount_failure(d.amount@)
    } else if !currency_allowed(d.currency@) {
        Some(ValidationFailure::Currency)
    } else if d.creditor_zip_code@.len() + d.creditor_city@.len() > 69 {
        Some(ValidationFailure::CreditorZipCity)
    } else if d.debtor_zip_code@.len() + d.debtor_city@.len() > 69 {
        Some(ValidationFailure::DebtorZipCity)
    } else {
        reference_failure(d.reference_type@, text_or_empty(d.reference_number), iban)
    }
}

/// The rules read every field but the creditor IBAN itself.
pub proof fn lemma_rules_ignore_iban(a: QrData, b: QrData, iban: Seq<char>)
    requires
        same_but_iban(a, b),
    ensures
        rules_failure(a, iban) == rules_failure(b, iban),
{
}

/// The number of characters of `s`.
fn char_count(s: &String) -> (r: usize)
    ensures
        r == s@.len(),
{
    s.as_str().unicode_len()
}

/// Checks every rule of the descriptor but the IBAN's own form, against the
/// electronic form `iban` of its creditor IBAN.
pub fn validate_qr_data(qr_data: &QrData, iban: &str) -> (r: Result<(), ValidationFailure>)
    ensures
        r == match rules_failure(*qr_data, iban@) {
            None => Ok(()),
            Some(f) => Err(f),
        },
{
    let name = char_count(&qr_data.creditor_name);
    if name < 1 || name > 70 {
        return Err(ValidationFailure::CreditorNameLength);
    }
    let address = char_count(&qr_data.creditor_address);
    if address < 1 || address > 70 {
        return Err(ValidationFailure::CreditorAddressLength);
    }
    if char_count(&qr_data.creditor_country) != 2 {
        return Err(ValidationFailure::CreditorCountryLength);
    }
    let name = char_count(&qr_data.debtor_name);
    if name < 1 || name > 70 {
        return Err(ValidationFailure::DebtorNameLength);
    }
    let address = char_count(&qr_data.debtor_address);
    if address < 1 || address > 70 {
        return Err(ValidationFailure::DebtorAddressLength);
    }
    if char_count(&qr_data.debtor_country) != 2 {
        return Err(ValidationFailure::DebtorCountryLength);
    }
    match &qr_data.additional_information {
        Some(info) => {
            if char_count(info) > 140 {
                return Err(ValidationFailure::AdditionalInformationLength);
            }
        },
        None => {},
    }
    match validate_amount(qr_data.amount.as_str()) {
        Err(f) => {
            return Err(f);
        },
        Ok(()) => {},
    }
    match validate_currency(qr_data.currency.as_str()) {
        Err(f) => {
            return Err(f);
        },
        Ok(()) => {},
    }
    let zip = char_count(&qr_data.creditor_zip_code);
    let city = char_count(&qr_data.creditor_city);
    if zip > 69 || city > 69 - zip {
        return Err(ValidationFailure::CreditorZipCity);
    }
    let zip = char_count(&qr_data.debtor_zip_code);
    let city = char_count(&qr_data.debtor_city);
    if zip > 69 || city > 69 - zip {
        return Err(ValidationFailure::DebtorZipCity);
    }
    validate_reference(qr_data.reference_type.as_str(), &qr_data.reference_number, iban)
}

/// The message of a descriptor whose IBAN is not of an allowed country.
pub open spec fn country_message() -> Seq<char> {
    "Country code of IBAN must be CH or LI"@
}

/// The message of a descriptor that breaks rule `f`.
pub open spec fn rule_message(f: ValidationFailure) -> Seq<char> {
    "Validation failed for QrData: "@ + failure_text(f)
}

/// `d` passes validation: its IBAN parses, belongs to an allowed country,
/// and the other fields keep every rule.
pub open spec fn validated(d: QrData) -> bool {
    match parsed_iban(d.creditor_iban@) {
        Some(e) => country_allowed(e) && rules_failure(d, e) is None,
        None => false,
    }
}

/// What one call of [`QrData::verify`] does: `before` is the descriptor it
/// was given, `after` the descriptor it left, `r` its result.
pub open spec fn verify_outcome(before: QrData, after: QrData, r: Result<(), Error>) -> bool {
    match parsed_iban(before.creditor_iban@) {
        None => {
            &&& after == before
            &&& r matches Err(Error::InvalidRequestInputError(_))
        },
        Some(e) => if !country_allowed(e) {
            &&& after == before
            &&& r matches Err(Error::InvalidRequestInputError(m))
            &&& m@ == country_message()
        } else {
            &&& same_but_iban(after, before)
            &&& after.creditor_iban@ == paper_format(e)
            &&& parsed_iban(after.creditor_iban@) == Some(e)
            &&& match rules_failure(before, e) {
                None => r is Ok,
                Some(f) => r matches Err(Error::InvalidRequestInputError(m)) && m@ == rule_message(
                    f,
                ),
            }
        },
    }
}

impl QrData {
    /// Validates the descriptor. Once its IBAN has parsed and belongs to an
    /// allowed country, the IBAN is rewritten to its print form, whatever the
    /// other rules then find; every failure is an invalid request input.
    pub fn verify(&mut self) -> (r: Result<(), Error>)
        ensures
            verify_outcome(*old(self), *final(self), r),
            r is Ok <==> validated(*old(self)),
            r is Ok ==> validated(*final(self)),
    {
        let ghost before = *self;
        let (electronic, printed) = match parse_iban(self.creditor_iban.as_str()) {
            Ok(p) => p,
            Err(reason) => {
                let mut m = String::from_str("Provided IBAN '");
                m.append(self.creditor_iban.as_str());
                m.append("' is invalid: ");
                m.append(reason.as_str());
                return Err(Error::InvalidRequestInputError(m));
            },
        };
        if !is_allowed_country(electronic.as_str()) {
            return Err(Error::InvalidRequestInputError(String::from_str("Country code of IBAN must be CH or LI")));
        }
        self.creditor_iban = printed;
        proof {
            lemma_rules_ignore_iban(*self, before, electronic@);
        }
        match validate_qr_data(self, electronic.as_str()) {
            Ok(()) => Ok(()),
            Err(f) => {
                let mut m = String::from_str("Validation failed for QrData: ");
                m.append(f.message().as_str());
                Err(Error::InvalidRequestInputError(m))
            },
        }
    }
}

// ---------------------------------------------------------------------------
// Laws
// ---------------------------------------------------------------------------

/// A descriptor of reference type QRR passes validation only with a QR-IBAN
/// (read in the IBAN's electronic form) and a reference number of 27 digits.
pub proof fn lemma_qrr_reference(d: QrData)
    requires
        validated(d),
        d.reference_type@ == "QRR"@,
    ensures
        qr_iban(parsed_iban(d.creditor_iban@)->0),
        text_or_empty(d.reference_number).len() == 27,
        all_digits(text_or_empty(d.reference_number)),
{
}

/// A descriptor of reference type SCOR passes validation only without a
/// QR-IBAN and with an alphanumeric reference number of 5 to 25 characters.
pub proof fn lemma_scor_reference(d: QrData)
    requires
        validated(d),
        d.reference_type@ == "SCOR"@,
    ensures
        !qr_iban(parsed_iban(d.creditor_iban@)->0),
        5 <= text_or_empty(d.reference_number).len() <= 25,
        all_alphanumeric(text_or_empty(d.reference_number)),
{
    assert("SCOR"@ != "QRR"@) by {
        reveal_strlit("SCOR");
        reveal_strlit("QRR");
        assert("SCOR"@.len() == 4 && "QRR"@.len() == 3);
    }
}

/// A descriptor of reference type NON passes validation only without a
/// reference number and without a QR-IBAN.
pub proof fn lemma_non_reference(d: QrData)
    requires
        validated(d),
        d.reference_type@ == "NON"@,
    ensures
        text_or_empty(d.reference_number).len() == 0,
        !qr_iban(parsed_iban(d.creditor_iban@)->0),
{
    assert("NON"@ != "QRR"@ && "NON"@ != "SCOR"@) by {
        reveal_strlit("NON");
        reveal_strlit("QRR");
        reveal_strlit("SCOR");
        assert("NON"@[0] == 'N' && "QRR"@[0] == 'Q' && "SCOR"@.len() == 4);
    }
}

/// After a successful validation the creditor IBAN is in print form, and
/// the parser reads that form back as the same IBAN, which prints as the
/// same text.
pub proof fn lemma_normalised_iban_round_trips(before: QrData, after: QrData, r: Result<(), Error>)
    requires
        verify_outcome(before, after, r),
        r is Ok,
    ensures
        parsed_iban(after.creditor_iban@) is Some,
        paper_format(parsed_iban(after.creditor_iban@)->0) == after.creditor_iban@,
        parsed_iban(after.creditor_iban@) == parsed_iban(before.creditor_iban@),
{
}

/// Validating a descriptor that has passed validation passes again and
/// leaves it as it was.
pub proof fn lemma_verify_idempotent(
    d0: QrData,
    d1: QrData,
    d2: QrData,
    r1: Result<(), Error>,
    r2: Result<(), Error>,
)
    requires
        verify_outcome(d0, d1, r1),
        r1 is Ok,
        verify_outcome(d1, d2, r2),
    ensures
        r2 is Ok,
        same_but_iban(d2, d1),
        d2.creditor_iban@ == d1.creditor_iban@,
{
    let e = parsed_iban(d0.creditor_iban@)->0;
    lemma_rules_ignore_iban(d1, d0, e);
}

} // verus!
