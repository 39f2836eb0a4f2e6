//! The QR symbol of a payload, rendered as SVG with the Swiss cross laid
//! over its centre.
use crate::descriptor::QrData;
use crate::validation::{validated, verify_outcome};
use crate::error::Error;
use crate::payload::{payload, qr_payload};
use crate::text::{chars_of, decimal, decimal_string};
use qrcode::render::svg;
use qrcode::types::QrError;
use qrcode::{EcLevel, QrCode};
use vstd::prelude::*;

verus! {

#[verifier::external_type_specification]
#[verifier::external_body]
pub struct ExQrCode(QrCode);

#[verifier::external_type_specification]
#[verifier::external_body]
pub struct ExQrError(QrError);

/// The error-correction level of a QR symbol.
#[derive(PartialEq, Eq, Structural, Clone, Copy, Debug)]
pub enum CorrectionLevel {
    L,
    M,
    Q,
    H,
}

/// Whether the bytes of `data` fit in a QR symbol at `level`.
pub uninterp spec fn qr_fits(data: Seq<char>, level: CorrectionLevel) -> bool;

/// Relies on `qrcode::QrCode::with_error_correction_level` (qrcode 0.12):
/// the smallest symbol that holds the bytes of `data` at `level`, or an
/// error where they do not fit; the outcome depends on `data` and `level`
/// alone.
#[verifier::external_body]
fn build_qr(data: &str, level: CorrectionLevel) -> (r: Result<QrCode, QrError>)
    ensures
        r is Ok <==> qr_fits(data@, level),
{
    let ec = match level {
        CorrectionLevel::L => EcLevel::L,
        CorrectionLevel::M => EcLevel::M,
        CorrectionLevel::Q => EcLevel::Q,
        CorrectionLevel::H => EcLevel::H,
    };
    QrCode::with_error_correction_level(data.as_bytes(), ec)
}

/// Relies on `qrcode::QrCode::width`: the modules per side, quiet zone not
/// counted; 17 + 4 × version for the normal versions 1 to 40, 9 + 2 ×
/// version for the micro versions 1 to 4.
#[verifier::external_body]
fn qr_module_count(code: &QrCode) -> (r: usize)
    ensures
        11 <= r <= 177,
{
    code.width()
}

/// The closing tag of an SVG document.
pub open spec fn close_tag() -> Seq<char> {
    seq!['<', '/', 's', 'v', 'g', '>']
}

/// A closing tag starts at position `i` of `s`.
pub open spec fn close_tag_at(s: Seq<char>, i: int) -> bool {
    0 <= i && i + 6 <= s.len() && s.subrange(i, i + 6) == close_tag()
}

/// `s` ends with a closing tag and holds no other.
pub open spec fn closed_once(s: Seq<char>) -> bool {
    &&& s.len() >= 6
    &&& close_tag_at(s, s.len() - 6)
    &&& forall|i: int| #[trigger] close_tag_at(s, i) ==> i == s.len() - 6
}

/// Relies on `QrCode::render::<qrcode::render::svg::Color>()` with
/// `Renderer::module_dimensions` and `Renderer::build`: an SVG document of
/// the symbol, `module_pixels` pixels per module, black on white. Its text
/// is an XML declaration, the `<svg>` open tag, a background `<rect>` and one
/// `<path>`, followed by the document's only `</svg>`.
#[verifier::external_body]
fn render_qr_svg(code: &QrCode, module_pixels: u32) -> (r: String)
    requires
        1 <= module_pixels <= 1000,
    ensures
        closed_once(r@),
{
    code.render::<svg::Color>().module_dimensions(module_pixels, module_pixels).build()
}

/// Relies on `Display` for `qrcode::QrError`: a short description.
#[verifier::external_body]
fn qr_error_text(e: &QrError) -> (r: String) {
    e.to_string()
}

/// The overlay of the Swiss cross centred on (`c`, `c`): a white 36×36
/// square, a black 24×24 square, and a white 16×4 and a white 4×16 bar,
/// with the stylesheet that makes class `st0` white.
pub open spec fn swiss_cross(c: nat) -> Seq<char> {
    "\n<rect x=\""@ + decimal((c - 18) as nat) + "\" y=\""@ + decimal((c - 18) as nat)
        + "\" class=\"st0\" width=\"36\" height=\"36\"/>\n<rect x=\""@ + decimal((c - 12) as nat)
        + "\" y=\""@ + decimal((c - 12) as nat) + "\" width=\"24\" height=\"24\"/>\n<rect x=\""@
        + decimal((c - 8) as nat) + "\" y=\""@ + decimal((c - 2) as nat)
        + "\" class=\"st0\" width=\"16\" height=\"4\"/>\n<rect x=\""@ + decimal((c - 2) as nat)
        + "\" y=\""@ + decimal((c - 8) as nat)
        + "\" class=\"st0\" width=\"4\" height=\"16\"/>\n<style type=\"text/css\">\n.st0 {\n    fill:#FFFFFF;\n}\n</style>\n"@
}

/// The overlay text.
fn swiss_cross_text(c: usize) -> (r: String)
    requires
        c >= 18,
    ensures
        r@ == swiss_cross(c as nat),
{
    let outer = decimal_string(c - 18);
    let inner = decimal_string(c - 12);
    let wide = decimal_string(c - 8);
    let short = decimal_string(c - 2);
    let mut s = String::from_str("\n<rect x=\"");
    s.append(outer.as_str());
    s.append("\" y=\"");
    s.append(outer.as_str());
    s.append("\" class=\"st0\" width=\"36\" height=\"36\"/>\n<rect x=\"");
    s.append(inner.as_str());
    s.append("\" y=\"");
    s.append(inner.as_str());
    s.append("\" width=\"24\" height=\"24\"/>\n<rect x=\"");
    s.append(wide.as_str());
    s.append("\" y=\"");
    s.append(short.as_str());
    s.append("\" class=\"st0\" width=\"16\" height=\"4\"/>\n<rect x=\"");
    s.append(short.as_str());
    s.append("\" y=\"");
    s.append(wide.as_str());
    s.append(
        "\" class=\"st0\" width=\"4\" height=\"16\"/>\n<style type=\"text/css\">\n.st0 {\n    fill:#FFFFFF;\n}\n</style>\n",
    );
    s
}

/// The pixel centre of a symbol of `module_count` modules per side, drawn
/// four pixels per module with a quiet zone of four modules on each side.
pub open spec fn cross_center(module_count: nat) -> nat {
    4 * (module_count + 8) / 2
}

/// `s` holds a closing tag somewhere.
pub open spec fn has_close_tag(s: Seq<char>) -> bool {
    exists|p: int| close_tag_at(s, p)
}

/// The position of the last closing tag of `s`.
pub open spec fn last_close_tag(s: Seq<char>) -> int {
    choose|p: int| close_tag_at(s, p) && forall|q: int| #[trigger] close_tag_at(s, q) ==> q <= p
}

/// `svg` with the overlay centred on (`c`, `c`) inserted just before its
/// last closing tag; `svg` as it is where it has none.
pub open spec fn with_cross(svg: Seq<char>, c: nat) -> Seq<char> {
    if has_close_tag(svg) {
        let p = last_close_tag(svg);
        svg.subrange(0, p) + swiss_cross(c) + svg.subrange(p, svg.len() as int)
    } else {
        svg
    }
}

/// Whether a closing tag starts at `v[i]`.
fn close_tag_starts(v: &Vec<char>, i: usize) -> (r: bool)
    requires
        i + 6 <= v@.len(),
    ensures
        r == close_tag_at(v@, i as int),
{
    let n = v.len();
    let r = v[i] == '<' && v[i + 1] == '/' && v[i + 2] == 's' && v[i + 3] == 'v' && v[i + 4]
        == 'g' && v[i + 5] == '>';
    proof {
        let sub = v@.subrange(i as int, i + 6);
        if r {
            assert(sub =~= close_tag());
        } else {
            assert(sub[0] == v@[i as int] && sub[1] == v@[i + 1] && sub[2] == v@[i + 2] && sub[3]
                == v@[i + 3] && sub[4] == v@[i + 4] && sub[5] == v@[i + 5]);
        }
    }
    r
}

/// Lays the Swiss cross over the centre of an SVG rendering of a symbol of
/// `module_count` modules per side, just before its last `</svg>`; where
/// the document has no `</svg>` it is handed back unchanged.
pub fn add_swiss_cross(svg: String, module_count: usize) -> (r: String)
    requires
        1 <= module_count <= 1_000_000,
    ensures
        r@ == with_cross(svg@, cross_center(module_count as nat)),
{
    let v = chars_of(svg.as_str());
    let n = v.len();
    let pixel_width = 4 * (module_count + 8);
    let center = pixel_width / 2;
    assert(center as nat == cross_center(module_count as nat) && center >= 18);
    if n < 6 {
        assert(!has_close_tag(svg@));
        return svg;
    }
    let mut i: usize = n - 5;
    while i > 0
        invariant
            v@ == svg@,
            n == v@.len(),
            n >= 6,
            i <= n - 5,
            center as nat == cross_center(module_count as nat),
            center >= 18,
            forall|q: int| i <= q ==> !#[trigger] close_tag_at(v@, q),
        decreases i,
    {
        i = i - 1;
        if close_tag_starts(&v, i) {
            proof {
                let p = last_close_tag(svg@);
                assert(close_tag_at(svg@, i as int));
                assert(p == i as int);
                assert(has_close_tag(svg@));
            }
            let overlay = swiss_cross_text(center);
            let mut out = String::from_str(svg.as_str().substring_char(0, i));
            out.append(overlay.as_str());
            out.append(svg.as_str().substring_char(i, n));
            return out;
        }
    }
    assert(!has_close_tag(svg@));
    svg
}

/// An SVG slip: a rendering that closes with its only `</svg>`, of a symbol
/// of `m` modules per side, with the Swiss cross laid over its centre.
pub open spec fn slip_svg(s: Seq<char>) -> bool {
    exists|raw: Seq<char>, m: nat|
        closed_once(raw) && 11 <= m <= 177 && s == #[trigger] with_cross(raw, cross_center(m))
}

/// Renders the QR slip symbol of a descriptor: its payload at error
/// correction level Q, four pixels per module, with the Swiss cross.
pub fn generate_qr_svg(qr_data: &QrData) -> (r: Result<String, Error>)
    ensures
        r is Ok <==> qr_fits(payload(*qr_data), CorrectionLevel::Q),
        r matches Ok(s) ==> slip_svg(s@),
        r matches Err(e) ==> e is QrCodeError,
{
    let data = qr_payload(qr_data);
    let code = match build_qr(data.as_str(), CorrectionLevel::Q) {
        Ok(code) => code,
        Err(e) => {
            return Err(Error::QrCodeError(qr_error_text(&e)));
        },
    };
    let module_pixels: u32 = 4;
    let raw = render_qr_svg(&code, module_pixels);
    let module_count = qr_module_count(&code);
    let ghost raw_view = raw@;
    let svg = add_swiss_cross(raw, module_count);
    assert(closed_once(raw_view) && 11 <= module_count as nat <= 177 && svg@ == with_cross(
        raw_view,
        cross_center(module_count as nat),
    ));
    Ok(svg)
}

/// No `v` in `s`.
pub open spec fn free_of_v(s: Seq<char>) -> bool {
    forall|i: int| 0 <= i < s.len() ==> #[trigger] s[i] != 'v'
}

proof fn lemma_decimal_digits(n: nat)
    ensures
        free_of_v(decimal(n)),
    decreases n,
{
    if n >= 10 {
        lemma_decimal_digits(n / 10);
        let d = decimal(n / 10);
        assert(decimal(n) == d.push(crate::text::digit_char(n % 10)));
        assert forall|i: int| 0 <= i < decimal(n).len() implies #[trigger] decimal(n)[i] != 'v' by {
            if i < d.len() {
                assert(decimal(n)[i] == d[i]);
            }
        }
    }
}

proof fn lemma_free_concat(a: Seq<char>, b: Seq<char>)
    requires
        free_of_v(a),
        free_of_v(b),
    ensures
        free_of_v(a + b),
{
    assert forall|i: int| 0 <= i < (a + b).len() implies #[trigger] (a + b)[i] != 'v' by {
        if i < a.len() {
            assert((a + b)[i] == a[i]);
        } else {
            assert((a + b)[i] == b[i - a.len()]);
        }
    }
}

/// The overlay holds no `v`, and so no closing tag.
proof fn lemma_cross_free_of_v(c: nat)
    requires
        c >= 18,
    ensures
        free_of_v(swiss_cross(c)),
        swiss_cross(c).len() > 0,
        swiss_cross(c)[0] == '\n',
{
    reveal_strlit("\n<rect x=\"");
    reveal_strlit("\" y=\"");
    reveal_strlit("\" class=\"st0\" width=\"36\" height=\"36\"/>\n<rect x=\"");
    reveal_strlit("\" width=\"24\" height=\"24\"/>\n<rect x=\"");
    reveal_strlit("\" class=\"st0\" width=\"16\" height=\"4\"/>\n<rect x=\"");
    reveal_strlit(
        "\" class=\"st0\" width=\"4\" height=\"16\"/>\n<style type=\"text/css\">\n.st0 {\n    fill:#FFFFFF;\n}\n</style>\n",
    );
    let l1 = "\n<rect x=\""@;
    let l2 = "\" y=\""@;
    let l3 = "\" class=\"st0\" width=\"36\" height=\"36\"/>\n<rect x=\""@;
    let l4 = "\" width=\"24\" height=\"24\"/>\n<rect x=\""@;
    let l5 = "\" class=\"st0\" width=\"16\" height=\"4\"/>\n<rect x=\""@;
    let l6 = "\" class=\"st0\" width=\"4\" height=\"16\"/>\n<style type=\"text/css\">\n.st0 {\n    fill:#FFFFFF;\n}\n</style>\n"@;
    assert(free_of_v(l1));
    assert(free_of_v(l2));
    assert(free_of_v(l3));
    assert(free_of_v(l4));
    assert(free_of_v(l5));
    assert(free_of_v(l6));
    let d18 = decimal((c - 18) as nat);
    let d12 = decimal((c - 12) as nat);
    let d8 = decimal((c - 8) as nat);
    let d2 = decimal((c - 2) as nat);
    lemma_decimal_digits((c - 18) as nat);
    lemma_decimal_digits((c - 12) as nat);
    lemma_decimal_digits((c - 8) as nat);
    lemma_decimal_digits((c - 2) as nat);
    let s1 = l1 + d18;
    lemma_free_concat(l1, d18);
    let s2 = s1 + l2;
    lemma_free_concat(s1, l2);
    let s3 = s2 + d18;
    lemma_free_concat(s2, d18);
    let s4 = s3 + l3;
    lemma_free_concat(s3, l3);
    let s5 = s4 + d12;
    lemma_free_concat(s4, d12);
    let s6 = s5 + l2;
    lemma_free_concat(s5, l2);
    let s7 = s6 + d12;
    lemma_free_concat(s6, d12);
    let s8 = s7 + l4;
    lemma_free_concat(s7, l4);
    let s9 = s8 + d8;
    lemma_free_concat(s8, d8);
    let s10 = s9 + l2;
    lemma_free_concat(s9, l2);
    let s11 = s10 + d2;
    lemma_free_concat(s10, d2);
    let s12 = s11 + l5;
    lemma_free_concat(s11, l5);
    let s13 = s12 + d2;
    lemma_free_concat(s12, d2);
    let s14 = s13 + l2;
    lemma_free_concat(s13, l2);
    let s15 = s14 + d8;
    lemma_free_concat(s14, d8);
    let s16 = s15 + l6;
    lemma_free_concat(s15, l6);
    assert(s16 == swiss_cross(c));
    assert(s16[0] == l1[0]);
}

/// The characters of a closing tag at `i`.
proof fn lemma_tag_chars(s: Seq<char>, i: int)
    requires
        close_tag_at(s, i),
    ensures
        s[i + 3] == 'v',
        s[i + 4] == 'g',
        s[i + 5] == '>',
{
    let sub = s.subrange(i, i + 6);
    assert(sub[3] == s[i + 3] && sub[4] == s[i + 4] && sub[5] == s[i + 5]);
}

/// A text free of `v` that opens with a line break, put between a text
/// without closing tags and a closing tag, leaves that tag the only one.
#[verifier::rlimit(30)]
proof fn lemma_insert_keeps_single_tag(x: Seq<char>, cross: Seq<char>)
    requires
        forall|i: int| !#[trigger] close_tag_at(x, i),
        free_of_v(cross),
        cross.len() > 0,
        cross[0] == '\n',
    ensures
        closed_once(x + cross + close_tag()),
{
    let r = x + cross + close_tag();
    let a = x.len() as int;
    let b = cross.len() as int;
    assert(r.subrange(r.len() - 6, r.len() as int) =~= close_tag());
    assert forall|i: int| #[trigger] close_tag_at(r, i) implies i == r.len() - 6 by {
        lemma_tag_chars(r, i);
        if i + 3 < a {
            if i + 6 > a {
                assert(r[a] == cross[0]);
                assert(false);
            }
            assert(x.subrange(i, i + 6) =~= r.subrange(i, i + 6));
            assert(close_tag_at(x, i));
            assert(false);
        } else if i + 3 < a + b {
            assert(r[i + 3] == cross[i + 3 - a]);
            assert(false);
        } else {
            assert(r[i + 3] == close_tag()[i + 3 - a - b]);
            assert(i + 3 - a - b == 3);
        }
    }
}

/// Where a document closes with its only `</svg>`, the cross goes just
/// before it.
proof fn lemma_cross_position(raw: Seq<char>, c: nat)
    requires
        closed_once(raw),
    ensures
        with_cross(raw, c) == raw.subrange(0, raw.len() - 6) + swiss_cross(c) + close_tag(),
        forall|i: int| !#[trigger] close_tag_at(raw.subrange(0, raw.len() - 6), i),
{
    let a = raw.len() - 6;
    let x = raw.subrange(0, a);
    assert(close_tag_at(raw, a));
    let p = last_close_tag(raw);
    assert(p == a);
    assert(raw.subrange(a, raw.len() as int) =~= close_tag());
    assert forall|i: int| !#[trigger] close_tag_at(x, i) by {
        if close_tag_at(x, i) {
            assert(raw.subrange(i, i + 6) =~= x.subrange(i, i + 6));
            assert(close_tag_at(raw, i));
        }
    }
}

/// Laying the cross over a rendering that closes with its only `</svg>`
/// puts the overlay's four rectangles, centred on the symbol's pixel
/// centre, just before that tag, and leaves exactly one `</svg>`: the last
/// six characters of the document.
pub proof fn lemma_cross_overlay(raw: Seq<char>, m: nat)
    requires
        closed_once(raw),
        m >= 1,
    ensures
        with_cross(raw, cross_center(m)) == raw.subrange(0, raw.len() - 6) + swiss_cross(
            cross_center(m),
        ) + close_tag(),
        closed_once(with_cross(raw, cross_center(m))),
{
    let c = cross_center(m);
    lemma_cross_position(raw, c);
    lemma_cross_free_of_v(c);
    lemma_insert_keeps_single_tag(raw.subrange(0, raw.len() - 6), swiss_cross(c));
}

/// `before` validated, became `after`, and the payload of `after` fits in a
/// QR symbol at level Q.
pub open spec fn prepared(before: QrData, after: QrData) -> bool {
    verify_outcome(before, after, Ok(())) && qr_fits(payload(after), CorrectionLevel::Q)
}

/// Validates every descriptor and renders its QR slip symbol, in order,
/// stopping at the first failure: a descriptor that fails validation, or
/// whose payload does not fit in a QR symbol, fails the whole call and the
/// descriptors after it are left as they were.
pub fn generate_qr_svg_for_all(qr_data_vec: &mut Vec<QrData>) -> (r: Result<Vec<String>, Error>)
    ensures
        final(qr_data_vec)@.len() == old(qr_data_vec)@.len(),
        r is Ok <==> forall|i: int|
            0 <= i < old(qr_data_vec)@.len() ==> #[trigger] prepared(
                old(qr_data_vec)@[i],
                final(qr_data_vec)@[i],
            ),
        (exists|i: int|
            0 <= i < old(qr_data_vec)@.len() && !validated(#[trigger] old(qr_data_vec)@[i]))
            ==> r is Err,
        r matches Ok(svgs) ==> {
            &&& svgs@.len() == old(qr_data_vec)@.len()
            &&& forall|i: int| 0 <= i < svgs@.len() ==> slip_svg(#[trigger] svgs@[i]@)
        },
        r matches Err(e) ==> exists|k: int|
            0 <= k < old(qr_data_vec)@.len() && {
                &&& forall|i: int|
                    0 <= i < k ==> #[trigger] prepared(
                        old(qr_data_vec)@[i],
                        final(qr_data_vec)@[i],
                    )
                &&& forall|i: int|
                    k < i < old(qr_data_vec)@.len() ==> #[trigger] final(qr_data_vec)@[i]
                        == old(qr_data_vec)@[i]
                &&& verify_outcome(old(qr_data_vec)@[k], final(qr_data_vec)@[k], Err(e)) || {
                    &&& verify_outcome(old(qr_data_vec)@[k], final(qr_data_vec)@[k], Ok(()))
                    &&& !qr_fits(payload(final(qr_data_vec)@[k]), CorrectionLevel::Q)
                    &&& e is QrCodeError
                }
            },
{
    let ghost before = qr_data_vec@;
    let mut svgs: Vec<String> = Vec::new();
    let n = qr_data_vec.len();
    let mut i: usize = 0;
    while i < n
        invariant
            before == old(qr_data_vec)@,
            n == before.len(),
            qr_data_vec@.len() == n,
            i <= n,
            svgs@.len() == i,
            forall|j: int| 0 <= j < i ==> #[trigger] prepared(before[j], qr_data_vec@[j]),
            forall|j: int| 0 <= j < i ==> slip_svg(#[trigger] svgs@[j]@),
            forall|j: int| i <= j < n ==> #[trigger] qr_data_vec@[j] == before[j],
        decreases n - i,
    {
        let checked = qr_data_vec[i].verify();
        match checked {
            Err(e) => {
                assert(verify_outcome(before[i as int], qr_data_vec@[i as int], Err(e)));
                assert(!prepared(before[i as int], qr_data_vec@[i as int]));
                return Err(e);
            },
            Ok(()) => {},
        }
        match generate_qr_svg(&qr_data_vec[i]) {
            Ok(svg) => {
                svgs.push(svg);
            },
            Err(e) => {
                assert(!prepared(before[i as int], qr_data_vec@[i as int]));
                return Err(e);
            },
        }
        i = i + 1;
    }
    proof {
        assert forall|j: int| 0 <= j < n && !validated(#[trigger] before[j]) implies false by {
            assert(prepared(before[j], qr_data_vec@[j]));
        }
    }
    Ok(svgs)
}

} // verus!
