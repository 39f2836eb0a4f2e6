//! The payment descriptor: everything one slip carries.
use vstd::prelude::*;

verus! {

/// One payment slip's data, as it arrives in a request.
pub struct QrData {
    pub creditor_iban: String,
    pub creditor_name: String,
    pub creditor_address: String,
    pub creditor_zip_code: String,
    pub creditor_city: String,
    pub creditor_country: String,
    pub debtor_name: String,
    pub debtor_address: String,
    pub debtor_zip_code: String,
    pub debtor_city: String,
    pub debtor_country: String,
    pub amount: String,
    pub currency: String,
    pub reference_type: String,
    pub reference_number: Option<String>,
    pub additional_information: Option<String>,
}

/// The text of an optional field, empty where it is absent.
pub open spec fn text_or_empty(o: Option<String>) -> Seq<char> {
    match o {
        Some(s) => s@,
        None => Seq::empty(),
    }
}

/// `a` and `b` agree on every field but the creditor IBAN.
pub open spec fn same_but_iban(a: QrData, b: QrData) -> bool {
    &&& a.creditor_name == b.creditor_name
    &&& a.creditor_address == b.creditor_address
    &&& a.creditor_zip_code == b.creditor_zip_code
    &&& a.creditor_city == b.creditor_city
    &&& a.creditor_country == b.creditor_country
    &&& a.debtor_name == b.debtor_name
    &&& a.debtor_address == b.debtor_address
    &&& a.debtor_zip_code == b.debtor_zip_code
    &&& a.debtor_city == b.debtor_city
    &&& a.debtor_country == b.debtor_country
    &&& a.amount == b.amount
    &&& a.currency == b.currency
    &&& a.reference_type == b.reference_type
    &&& a.reference_number == b.reference_number
    &&& a.additional_information == b.additional_information
}

} // verus!
