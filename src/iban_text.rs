//! The IBAN forms the validator works with, and the parser it relies on.
use iban::IbanLike;
use vstd::prelude::*;

verus! {

/// The electronic form (no spaces, upper case) that the `iban` crate's
/// parser yields for `s`, or `None` where it refuses `s`.
pub uninterp spec fn parsed_iban(s: Seq<char>) -> Option<Seq<char>>;

/// The print form of an electronic IBAN: groups of four characters
/// separated by single spaces.
pub open spec fn paper_format(e: Seq<char>) -> Seq<char>
    decreases e.len(),
{
    if e.len() <= 4 {
        e
    } else {
        e.subrange(0, 4) + seq![' '] + paper_format(e.subrange(4, e.len() as int))
    }
}

/// The country code of an electronic IBAN: its first two characters.
pub open spec fn iban_country(e: Seq<char>) -> Seq<char> {
    e.subrange(0, 2)
}

/// Slips are issued for Swiss and Liechtenstein accounts only.
pub open spec fn country_allowed(e: Seq<char>) -> bool {
    e.len() >= 2 && (iban_country(e) == seq!['C', 'H'] || iban_country(e) == seq!['L', 'I'])
}

/// Relies on `str::parse::<iban::Iban>` (iban_validate 4), with
/// `IbanLike::electronic_str` and `Display` on the parsed value. The parser
/// accepts the electronic form and the print form; the parsed value is a
/// plain function of the text. Its `Display` writes the electronic form in
/// space-separated groups of four, which the parser reads back as the same
/// IBAN. On failure the error's `Display` text is handed back.
#[verifier::external_body]
pub(crate) fn parse_iban(s: &str) -> (r: Result<(String, String), String>)
    ensures
        r is Ok <==> parsed_iban(s@) is Some,
        r matches Ok(p) ==> {
            &&& parsed_iban(s@) == Some(p.0@)
            &&& p.1@ == paper_format(p.0@)
            &&& parsed_iban(p.1@) == Some(p.0@)
        },
{
    match s.parse::<iban::Iban>() {
        Ok(parsed) => Ok((parsed.electronic_str().to_string(), parsed.to_string())),
        Err(e) => Err(e.to_string()),
    }
}

/// The two characters of `e` are `a` then `b`.
fn starts_with_pair(e: &Vec<char>, a: char, b: char) -> (r: bool)
    ensures
        r == (e@.len() >= 2 && e@.subrange(0, 2) == seq![a, b]),
{
    if e.len() >= 2 && e[0] == a && e[1] == b {
        assert(e@.subrange(0, 2) =~= seq![a, b]);
        true
    } else {
        proof {
            if e@.len() >= 2 {
                assert(e@.subrange(0, 2)[0] == e@[0] && e@.subrange(0, 2)[1] == e@[1]);
            }
        }
        false
    }
}

/// Whether the electronic IBAN `e` belongs to a Swiss or Liechtenstein account.
pub fn is_allowed_country(e: &str) -> (r: bool)
    ensures
        r == country_allowed(e@),
{
    let v = crate::text::chars_of(e);
    starts_with_pair(&v, 'C', 'H') || starts_with_pair(&v, 'L', 'I')
}

} // verus!
