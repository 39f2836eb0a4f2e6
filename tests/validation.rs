use qr_slip::descriptor::QrData;
use qr_slip::error::Error;
use qr_slip::validation::{
    is_qr_iban, validate_amount, validate_currency, validate_qr_data, validate_reference,
    ValidationFailure,
};

fn descriptor(iban: &str, kind: &str, reference: Option<&str>) -> QrData {
    QrData {
        creditor_iban: iban.to_string(),
        creditor_name: "Robert Schneider AG".to_string(),
        creditor_address: "Rue du Lac 1268".to_string(),
        creditor_zip_code: "2501".to_string(),
        creditor_city: "Biel".to_string(),
        creditor_country: "CH".to_string(),
        debtor_name: "Pia-Maria Rutschmann-Schnyder".to_string(),
        debtor_address: "Grosse Marktgasse 28".to_string(),
        debtor_zip_code: "9400".to_string(),
        debtor_city: "Rorschach".to_string(),
        debtor_country: "CH".to_string(),
        amount: "199.95".to_string(),
        currency: "CHF".to_string(),
        reference_type: kind.to_string(),
        reference_number: reference.map(|r| r.to_string()),
        additional_information: None,
    }
}

fn qrr() -> QrData {
    descriptor("CH4431999123000889012", "QRR", Some("210000000003139471430009017"))
}

fn plain(kind: &str, reference: Option<&str>) -> QrData {
    descriptor("CH9300762011623852957", kind, reference)
}

fn message(e: &Error) -> String {
    match e {
        Error::InvalidRequestInputError(m) => m.clone(),
        _ => panic!("not an invalid request input"),
    }
}

#[test]
fn qrr_happy_path_validates_and_normalises_iban() {
    let mut d = qrr();
    assert!(d.verify().is_ok());
    assert_eq!(d.creditor_iban, "CH44 3199 9123 0008 8901 2");
}

#[test]
fn validation_is_idempotent() {
    let mut d = qrr();
    assert!(d.verify().is_ok());
    let first = d.creditor_iban.clone();
    assert!(d.verify().is_ok());
    assert_eq!(d.creditor_iban, first);
}

#[test]
fn normalised_iban_parses_to_itself() {
    let mut d = plain("SCOR", Some("RF18539007547034"));
    d.creditor_iban = "CH93 0076 2011 6238 5295 7".to_string();
    assert!(d.verify().is_ok());
    assert_eq!(d.creditor_iban, "CH93 0076 2011 6238 5295 7");
}

#[test]
fn qrr_with_plain_iban_is_rejected() {
    let mut d = plain("QRR", Some("210000000003139471430009017"));
    let e = d.verify().unwrap_err();
    assert_eq!(e.status_code(), 400);
    assert!(message(&e).contains("QR-IBAN"));
}

#[test]
fn scor_reference_is_accepted() {
    let mut d = plain("SCOR", Some("RF18539007547034"));
    assert!(d.verify().is_ok());
}

#[test]
fn scor_with_qr_iban_is_rejected() {
    let mut d = descriptor("CH4431999123000889012", "SCOR", Some("RF18539007547034"));
    assert!(d.verify().is_err());
}

#[test]
fn scor_reference_must_be_alphanumeric() {
    let d = plain("SCOR", Some("RF18-5390-0754"));
    assert_eq!(
        validate_qr_data(&d, "CH9300762011623852957"),
        Err(ValidationFailure::ScorReferenceAlphanumeric)
    );
}

#[test]
fn non_with_reference_is_rejected() {
    let mut d = plain("NON", Some("X"));
    let e = d.verify().unwrap_err();
    assert_eq!(e.status_code(), 400);
    assert_eq!(
        message(&e),
        "Validation failed for QrData: Reference number must not be provided when the reference type is NON"
    );
}

#[test]
fn non_without_reference_is_accepted() {
    assert!(plain("NON", None).verify().is_ok());
    assert!(plain("NON", Some("")).verify().is_ok());
}

#[test]
fn non_with_qr_iban_is_rejected() {
    let mut d = descriptor("CH4431999123000889012", "NON", None);
    assert!(d.verify().is_err());
}

#[test]
fn unknown_reference_type_is_rejected() {
    assert_eq!(
        validate_reference("ABC", &None, "CH9300762011623852957"),
        Err(ValidationFailure::ReferenceType)
    );
}

#[test]
fn qrr_reference_rules() {
    let iban = "CH4431999123000889012";
    assert_eq!(validate_reference("QRR", &None, iban), Err(ValidationFailure::QrrReferenceMissing));
    assert_eq!(
        validate_reference("QRR", &Some("12345".to_string()), iban),
        Err(ValidationFailure::QrrReferenceLength)
    );
    assert_eq!(
        validate_reference("QRR", &Some("21000000000313947143000901A".to_string()), iban),
        Err(ValidationFailure::QrrReferenceDigits)
    );
    assert_eq!(
        validate_reference("QRR", &Some("210000000003139471430009017".to_string()), iban),
        Ok(())
    );
}

#[test]
fn leading_zero_amount_is_rejected() {
    let mut d = qrr();
    d.amount = "01.00".to_string();
    let e = d.verify().unwrap_err();
    assert_eq!(e.status_code(), 400);
}

#[test]
fn amount_boundaries() {
    assert_eq!(validate_amount("0.01"), Ok(()));
    assert_eq!(validate_amount("0.00"), Err(ValidationFailure::AmountTooSmall));
    assert_eq!(validate_amount("999999999.99"), Ok(()));
    assert_eq!(validate_amount("1000000000.00"), Err(ValidationFailure::AmountTooLarge));
    assert_eq!(validate_amount("01.00"), Err(ValidationFailure::AmountLeadingZero));
    assert_eq!(validate_amount("1.0"), Err(ValidationFailure::AmountFractionDigits));
    assert_eq!(validate_amount("1"), Err(ValidationFailure::AmountParts));
}

#[test]
fn amount_grammar_failures() {
    assert_eq!(validate_amount("1.2.3"), Err(ValidationFailure::AmountParts));
    assert_eq!(validate_amount(".50"), Err(ValidationFailure::AmountIntegral));
    assert_eq!(validate_amount("1a.50"), Err(ValidationFailure::AmountIntegral));
    assert_eq!(validate_amount("1.5x"), Err(ValidationFailure::AmountFractional));
    assert_eq!(validate_amount("199.95"), Ok(()));
}

#[test]
fn creditor_name_length_boundaries() {
    let mut d = qrr();
    d.creditor_name = "a".repeat(70);
    assert!(d.verify().is_ok());
    let mut d = qrr();
    d.creditor_name = "a".repeat(71);
    assert!(d.verify().is_err());
    let mut d = qrr();
    d.creditor_name = String::new();
    assert!(d.verify().is_err());
}

#[test]
fn zip_and_city_combined_length() {
    let mut d = qrr();
    d.creditor_zip_code = "1".repeat(34);
    d.creditor_city = "c".repeat(35);
    assert!(d.verify().is_ok());
    let mut d = qrr();
    d.creditor_zip_code = "1".repeat(34);
    d.creditor_city = "c".repeat(36);
    assert_eq!(
        validate_qr_data(&d, "CH4431999123000889012"),
        Err(ValidationFailure::CreditorZipCity)
    );
}

#[test]
fn creditor_country_length() {
    let mut d = qrr();
    d.creditor_country = "CH".to_string();
    assert!(d.verify().is_ok());
    let mut d = qrr();
    d.creditor_country = "CHE".to_string();
    assert_eq!(
        validate_qr_data(&d, "CH4431999123000889012"),
        Err(ValidationFailure::CreditorCountryLength)
    );
}

#[test]
fn additional_information_length() {
    let mut d = qrr();
    d.additional_information = Some("i".repeat(140));
    assert!(d.verify().is_ok());
    d.additional_information = Some("i".repeat(141));
    assert!(d.verify().is_err());
}

#[test]
fn currency_must_be_chf_or_eur() {
    assert_eq!(validate_currency("CHF"), Ok(()));
    assert_eq!(validate_currency("EUR"), Ok(()));
    assert_eq!(validate_currency("USD"), Err(ValidationFailure::Currency));
    assert_eq!(validate_currency("chf"), Err(ValidationFailure::Currency));
}

#[test]
fn qr_iban_detection() {
    assert!(is_qr_iban("CH4431999123000889012"));
    assert!(is_qr_iban("CH0130000000000000000"));
    assert!(!is_qr_iban("CH9300762011623852957"));
    assert!(!is_qr_iban("CH0132000000000000000"));
    assert!(!is_qr_iban("CH44"));
    assert!(!is_qr_iban("CH44 3199 9123 0008 8901 2"));
}

#[test]
fn unparsable_iban_is_rejected_unchanged() {
    let mut d = descriptor("CH4431999123000889013", "QRR", Some("210000000003139471430009017"));
    let e = d.verify().unwrap_err();
    assert!(message(&e).starts_with("Provided IBAN 'CH4431999123000889013' is invalid: "));
    assert_eq!(d.creditor_iban, "CH4431999123000889013");
}

#[test]
fn foreign_iban_is_rejected() {
    let mut d = descriptor("DE44500105175407324931", "NON", None);
    let e = d.verify().unwrap_err();
    assert_eq!(message(&e), "Country code of IBAN must be CH or LI");
    assert_eq!(d.creditor_iban, "DE44500105175407324931");
}

#[test]
fn failure_messages() {
    assert_eq!(ValidationFailure::Currency.message(), "Currency must be either CHF or EUR");
    assert_eq!(
        ValidationFailure::AmountTooLarge.message(),
        "Decimal amount not formatted correctly, amount may not exceed 999999999.99"
    );
}
