//! The QR payload: a descriptor serialised into the "SPC / 0200 / 1" text
//! that the Swiss QR-bill standard prescribes, one field per line.
use crate::descriptor::{text_or_empty, QrData};
use crate::text::{count_char, lemma_count_concat};
use vstd::prelude::*;

verus! {

/// The payload of `d`: 31 lines, the unused structured-address and
/// ultimate-creditor fields left blank, with no newline after `EPD`.
pub open spec fn payload(d: QrData) -> Seq<char> {
    "SPC\n0200\n1\n"@ + d.creditor_iban@ + "\nK\n"@ + d.creditor_name@ + "\n"@
        + d.creditor_address@ + "\n"@ + d.creditor_zip_code@ + " "@ + d.creditor_city@
        + "\n\n\n"@ + d.creditor_country@ + "\n\n\n\n\n\n\n\n"@ + d.amount@ + "\n"@
        + d.currency@ + "\nK\n"@ + d.debtor_name@ + "\n"@ + d.debtor_address@ + "\n"@
        + d.debtor_zip_code@ + " "@ + d.debtor_city@ + "\n\n\n"@ + d.debtor_country@ + "\n"@
        + d.reference_type@ + "\n"@ + text_or_empty(d.reference_number) + "\n"@
        + text_or_empty(d.additional_information) + "\nEPD"@
}

/// Appends an optional field, nothing where it is absent.
fn append_optional(s: &mut String, o: &Option<String>)
    ensures
        final(s)@ == old(s)@ + text_or_empty(*o),
{
    match o {
        Some(t) => s.append(t.as_str()),
        None => {
            assert(old(s)@ + Seq::<char>::empty() =~= old(s)@);
        },
    }
}

/// The payload text of a descriptor.
pub fn qr_payload(d: &QrData) -> (r: String)
    ensures
        r@ == payload(*d),
{
    let mut s = String::from_str("SPC\n0200\n1\n");
    s.append(d.creditor_iban.as_str());
    s.append("\nK\n");
    s.append(d.creditor_name.as_str());
    s.append("\n");
    s.append(d.creditor_address.as_str());
    s.append("\n");
    s.append(d.creditor_zip_code.as_str());
    s.append(" ");
    s.append(d.creditor_city.as_str());
    s.append("\n\n\n");
    s.append(d.creditor_country.as_str());
    s.append("\n\n\n\n\n\n\n\n");
    s.append(d.amount.as_str());
    s.append("\n");
    s.append(d.currency.as_str());
    s.append("\nK\n");
    s.append(d.debtor_name.as_str());
    s.append("\n");
    s.append(d.debtor_address.as_str());
    s.append("\n");
    s.append(d.debtor_zip_code.as_str());
    s.append(" ");
    s.append(d.debtor_city.as_str());
    s.append("\n\n\n");
    s.append(d.debtor_country.as_str());
    s.append("\n");
    s.append(d.reference_type.as_str());
    s.append("\n");
    append_optional(&mut s, &d.reference_number);
    s.append("\n");
    append_optional(&mut s, &d.additional_information);
    s.append("\nEPD");
    s
}

/// No line break in `s`.
pub open spec fn single_line(s: Seq<char>) -> bool {
    count_char(s, '\n') == 0
}

/// Every field of `d` fits on one line.
pub open spec fn fields_single_line(d: QrData) -> bool {
    &&& single_line(d.creditor_iban@)
    &&& single_line(d.creditor_name@)
    &&& single_line(d.creditor_address@)
    &&& single_line(d.creditor_zip_code@)
    &&& single_line(d.creditor_city@)
    &&& single_line(d.creditor_country@)
    &&& single_line(d.amount@)
    &&& single_line(d.currency@)
    &&& single_line(d.debtor_name@)
    &&& single_line(d.debtor_address@)
    &&& single_line(d.debtor_zip_code@)
    &&& single_line(d.debtor_city@)
    &&& single_line(d.debtor_country@)
    &&& single_line(d.reference_type@)
    &&& single_line(text_or_empty(d.reference_number))
    &&& single_line(text_or_empty(d.additional_information))
}

/// The line breaks of the fixed parts of the payload.
proof fn lemma_literal_counts()
    ensures
        count_char("SPC\n0200\n1\n"@, '\n') == 3,
        count_char("\nK\n"@, '\n') == 2,
        count_char("\n"@, '\n') == 1,
        count_char(" "@, '\n') == 0,
        count_char("\n\n\n"@, '\n') == 3,
        count_char("\n\n\n\n\n\n\n\n"@, '\n') == 8,
        count_char("\nEPD"@, '\n') == 1,
{
    reveal_strlit("SPC\n0200\n1\n");
    reveal_strlit("\nK\n");
    reveal_strlit("\n");
    reveal_strlit(" ");
    reveal_strlit("\n\n\n");
    reveal_strlit("\n\n\n\n\n\n\n\n");
    reveal_strlit("\nEPD");
    reveal_with_fuel(count_char, 12);
    assert("SPC\n0200\n1\n"@.drop_last() =~= "SPC\n0200\n1"@) by {
        reveal_strlit("SPC\n0200\n1");
    }
}

/// Appending to `t` keeps its first `k` characters.
proof fn lemma_prefix_kept(t: Seq<char>, u: Seq<char>, k: int)
    requires
        0 <= k <= t.len(),
    ensures
        (t + u).subrange(0, k) == t.subrange(0, k),
{
    assert((t + u).subrange(0, k) =~= t.subrange(0, k));
}

/// The payload's line breaks are those of its fields and its fixed parts.
proof fn lemma_payload_count(d: QrData)
    requires
        fields_single_line(d),
    ensures
        count_char(payload(d), '\n') == 30,
{
    lemma_literal_counts();
    let s0 = "SPC\n0200\n1\n"@;
    lemma_count_concat(s0, d.creditor_iban@, '\n');
    let s1 = s0 + d.creditor_iban@;
    lemma_count_concat(s1, "\nK\n"@, '\n');
    let s2 = s1 + "\nK\n"@;
    lemma_count_concat(s2, d.creditor_name@, '\n');
    let s3 = s2 + d.creditor_name@;
    lemma_count_concat(s3, "\n"@, '\n');
    let s4 = s3 + "\n"@;
    lemma_count_concat(s4, d.creditor_address@, '\n');
    let s5 = s4 + d.creditor_address@;
    lemma_count_concat(s5, "\n"@, '\n');
    let s6 = s5 + "\n"@;
    lemma_count_concat(s6, d.creditor_zip_code@, '\n');
    let s7 = s6 + d.creditor_zip_code@;
    lemma_count_concat(s7, " "@, '\n');
    let s8 = s7 + " "@;
    lemma_count_concat(s8, d.creditor_city@, '\n');
    let s9 = s8 + d.creditor_city@;
    lemma_count_concat(s9, "\n\n\n"@, '\n');
    let s10 = s9 + "\n\n\n"@;
    lemma_count_concat(s10, d.creditor_country@, '\n');
    let s11 = s10 + d.creditor_country@;
    lemma_count_concat(s11, "\n\n\n\n\n\n\n\n"@, '\n');
    let s12 = s11 + "\n\n\n\n\n\n\n\n"@;
    lemma_count_concat(s12, d.amount@, '\n');
    let s13 = s12 + d.amount@;
    lemma_count_concat(s13, "\n"@, '\n');
    let s14 = s13 + "\n"@;
    lemma_count_concat(s14, d.currency@, '\n');
    let s15 = s14 + d.currency@;
    lemma_count_concat(s15, "\nK\n"@, '\n');
    let s16 = s15 + "\nK\n"@;
    lemma_count_concat(s16, d.debtor_name@, '\n');
    let s17 = s16 + d.debtor_name@;
    lemma_count_concat(s17, "\n"@, '\n');
    let s18 = s17 + "\n"@;
    lemma_count_concat(s18, d.debtor_address@, '\n');
    let s19 = s18 + d.debtor_address@;
    lemma_count_concat(s19, "\n"@, '\n');
    let s20 = s19 + "\n"@;
    lemma_count_concat(s20, d.debtor_zip_code@, '\n');
    let s21 = s20 + d.debtor_zip_code@;
    lemma_count_concat(s21, " "@, '\n');
    let s22 = s21 + " "@;
    lemma_count_concat(s22, d.debtor_city@, '\n');
    let s23 = s22 + d.debtor_city@;
    lemma_count_concat(s23, "\n\n\n"@, '\n');
    let s24 = s23 + "\n\n\n"@;
    lemma_count_concat(s24, d.debtor_country@, '\n');
    let s25 = s24 + d.debtor_country@;
    lemma_count_concat(s25, "\n"@, '\n');
    let s26 = s25 + "\n"@;
    lemma_count_concat(s26, d.reference_type@, '\n');
    let s27 = s26 + d.reference_type@;
    lemma_count_concat(s27, "\n"@, '\n');
    let s28 = s27 + "\n"@;
    lemma_count_concat(s28, text_or_empty(d.reference_number), '\n');
    let s29 = s28 + text_or_empty(d.reference_number);
    lemma_count_concat(s29, "\n"@, '\n');
    let s30 = s29 + "\n"@;
    lemma_count_concat(s30, text_or_empty(d.additional_information), '\n');
    let s31 = s30 + text_or_empty(d.additional_information);
    lemma_count_concat(s31, "\nEPD"@, '\n');
    let s32 = s31 + "\nEPD"@;
    assert(s32 == payload(d));
}

/// The payload opens with `SPC` and a line break, and closes with a line
/// break and `EPD`.
proof fn lemma_payload_ends(d: QrData)
    ensures
        payload(d).subrange(0, 4) == "SPC\n"@,
        payload(d).subrange(payload(d).len() - 4, payload(d).len() as int) == "\nEPD"@,
{
    reveal_strlit("SPC\n0200\n1\n");
    reveal_strlit("SPC\n");
    assert("SPC\n0200\n1\n"@.subrange(0, 4) =~= "SPC\n"@);
    let s0 = "SPC\n0200\n1\n"@;
    lemma_prefix_kept(s0, d.creditor_iban@, 4);
    let s1 = s0 + d.creditor_iban@;
    lemma_prefix_kept(s1, "\nK\n"@, 4);
    let s2 = s1 + "\nK\n"@;
    lemma_prefix_kept(s2, d.creditor_name@, 4);
    let s3 = s2 + d.creditor_name@;
    lemma_prefix_kept(s3, "\n"@, 4);
    let s4 = s3 + "\n"@;
    lemma_prefix_kept(s4, d.creditor_address@, 4);
    let s5 = s4 + d.creditor_address@;
    lemma_prefix_kept(s5, "\n"@, 4);
    let s6 = s5 + "\n"@;
    lemma_prefix_kept(s6, d.creditor_zip_code@, 4);
    let s7 = s6 + d.creditor_zip_code@;
    lemma_prefix_kept(s7, " "@, 4);
    let s8 = s7 + " "@;
    lemma_prefix_kept(s8, d.creditor_city@, 4);
    let s9 = s8 + d.creditor_city@;
    lemma_prefix_kept(s9, "\n\n\n"@, 4);
    let s10 = s9 + "\n\n\n"@;
    lemma_prefix_kept(s10, d.creditor_country@, 4);
    let s11 = s10 + d.creditor_country@;
    lemma_prefix_kept(s11, "\n\n\n\n\n\n\n\n"@, 4);
    let s12 = s11 + "\n\n\n\n\n\n\n\n"@;
    lemma_prefix_kept(s12, d.amount@, 4);
    let s13 = s12 + d.amount@;
    lemma_prefix_kept(s13, "\n"@, 4);
    let s14 = s13 + "\n"@;
    lemma_prefix_kept(s14, d.currency@, 4);
    let s15 = s14 + d.currency@;
    lemma_prefix_kept(s15, "\nK\n"@, 4);
    let s16 = s15 + "\nK\n"@;
    lemma_prefix_kept(s16, d.debtor_name@, 4);
    let s17 = s16 + d.debtor_name@;
    lemma_prefix_kept(s17, "\n"@, 4);
    let s18 = s17 + "\n"@;
    lemma_prefix_kept(s18, d.debtor_address@, 4);
    let s19 = s18 + d.debtor_address@;
    lemma_prefix_kept(s19, "\n"@, 4);
    let s20 = s19 + "\n"@;
    lemma_prefix_kept(s20, d.debtor_zip_code@, 4);
    let s21 = s20 + d.debtor_zip_code@;
    lemma_prefix_kept(s21, " "@, 4);
    let s22 = s21 + " "@;
    lemma_prefix_kept(s22, d.debtor_city@, 4);
    let s23 = s22 + d.debtor_city@;
    lemma_prefix_kept(s23, "\n\n\n"@, 4);
    let s24 = s23 + "\n\n\n"@;
    lemma_prefix_kept(s24, d.debtor_country@, 4);
    let s25 = s24 + d.debtor_country@;
    lemma_prefix_kept(s25, "\n"@, 4);
    let s26 = s25 + "\n"@;
    lemma_prefix_kept(s26, d.reference_type@, 4);
    let s27 = s26 + d.reference_type@;
    lemma_prefix_kept(s27, "\n"@, 4);
    let s28 = s27 + "\n"@;
    lemma_prefix_kept(s28, text_or_empty(d.reference_number), 4);
    let s29 = s28 + text_or_empty(d.reference_number);
    lemma_prefix_kept(s29, "\n"@, 4);
    let s30 = s29 + "\n"@;
    lemma_prefix_kept(s30, text_or_empty(d.additional_information), 4);
    let s31 = s30 + text_or_empty(d.additional_information);
    lemma_prefix_kept(s31, "\nEPD"@, 4);
    let s32 = s31 + "\nEPD"@;
    assert(s32 == payload(d));
    reveal_strlit("\nEPD");
    assert(s32.subrange(s32.len() - 4, s32.len() as int) =~= "\nEPD"@);
}

/// Where no field holds a line break, the payload has exactly 31 lines
/// (30 line breaks), the first `SPC` and the last `EPD`.
pub proof fn lemma_payload_lines(d: QrData)
    requires
        fields_single_line(d),
    ensures
        count_char(payload(d), '\n') == 30,
        payload(d).subrange(0, 4) == "SPC\n"@,
        payload(d).subrange(payload(d).len() - 4, payload(d).len() as int) == "\nEPD"@,
{
    lemma_payload_count(d);
    lemma_payload_ends(d);
}

} // verus!
