use qr_slip::descriptor::QrData;
use qr_slip::error::Error;
use qr_slip::payload::qr_payload;
use qr_slip::svg::{add_swiss_cross, generate_qr_svg, generate_qr_svg_for_all};

fn descriptor(iban: &str, kind: &str, reference: Option<&str>) -> QrData {
    QrData {
        creditor_iban: iban.to_string(),
        creditor_name: "Robert Schneider AG".to_string(),
        creditor_address: "Rue du Lac 1268".to_string(),
        creditor_zip_code: "2501".to_string(),
        creditor_city: "Biel".to_string(),
        creditor_country: "CH".to_string(),
        debtor_name: "Pia-Maria Rutschmann-Schnyder".to_string(),
        debtor_address: "Grosse Marktgasse 28".to_string(),
        debtor_zip_code: "9400".to_string(),
        debtor_city: "Rorschach".to_string(),
        debtor_country: "CH".to_string(),
        amount: "199.95".to_string(),
        currency: "CHF".to_string(),
        reference_type: kind.to_string(),
        reference_number: reference.map(|r| r.to_string()),
        additional_information: None,
    }
}

fn qrr() -> QrData {
    descriptor("CH4431999123000889012", "QRR", Some("210000000003139471430009017"))
}

fn pixel_width(svg: &str) -> usize {
    let start = svg.find("width=\"").unwrap() + 7;
    let end = start + svg[start..].find('"').unwrap();
    svg[start..end].parse().unwrap()
}

#[test]
fn payload_of_validated_descriptor() {
    let mut d = qrr();
    d.verify().unwrap();
    let p = qr_payload(&d);
    assert!(p.starts_with("SPC\n0200\n1\nCH44 3199 9123 0008 8901 2\n"));
    let lines: Vec<&str> = p.split('\n').collect();
    assert_eq!(lines.len(), 31);
    assert_eq!(lines[0], "SPC");
    assert_eq!(lines[30], "EPD");
    assert!(!p.ends_with('\n'));
}

#[test]
fn payload_field_positions() {
    let mut d = qrr();
    d.additional_information = Some("Order 2024".to_string());
    let p = qr_payload(&d);
    let lines: Vec<&str> = p.split('\n').collect();
    assert_eq!(lines[3], "CH4431999123000889012");
    assert_eq!(lines[4], "K");
    assert_eq!(lines[5], "Robert Schneider AG");
    assert_eq!(lines[7], "2501 Biel");
    assert_eq!(lines[10], "CH");
    assert_eq!(lines[18], "199.95");
    assert_eq!(lines[19], "CHF");
    assert_eq!(lines[20], "K");
    assert_eq!(lines[23], "9400 Rorschach");
    assert_eq!(lines[26], "CH");
    assert_eq!(lines[27], "QRR");
    assert_eq!(lines[28], "210000000003139471430009017");
    assert_eq!(lines[29], "Order 2024");
    for blank in [8, 9, 11, 12, 13, 14, 15, 16, 17, 24, 25] {
        assert_eq!(lines[blank], "");
    }
}

#[test]
fn absent_optional_fields_are_empty_lines() {
    let mut d = descriptor("CH9300762011623852957", "NON", None);
    d.additional_information = None;
    let p = qr_payload(&d);
    assert!(p.ends_with("\nNON\n\n\nEPD"));
}

#[test]
fn swiss_cross_is_inserted_before_closing_tag() {
    let out = add_swiss_cross("<svg></svg>".to_string(), 21);
    let expected = [
        "<svg>",
        "\n<rect x=\"40\" y=\"40\" class=\"st0\" width=\"36\" height=\"36\"/>",
        "\n<rect x=\"46\" y=\"46\" width=\"24\" height=\"24\"/>",
        "\n<rect x=\"50\" y=\"56\" class=\"st0\" width=\"16\" height=\"4\"/>",
        "\n<rect x=\"56\" y=\"50\" class=\"st0\" width=\"4\" height=\"16\"/>",
        "\n<style type=\"text/css\">\n.st0 {\n    fill:#FFFFFF;\n}\n</style>\n",
        "</svg>",
    ]
    .concat();
    assert_eq!(out, expected);
}

#[test]
fn swiss_cross_goes_before_the_last_closing_tag() {
    let out = add_swiss_cross("a</svg>b</svg>c".to_string(), 177);
    assert!(out.starts_with("a</svg>b\n<rect x=\"352\" y=\"352\""));
    assert!(out.ends_with("</style>\n</svg>c"));
}

#[test]
fn svg_without_closing_tag_is_left_alone() {
    assert_eq!(add_swiss_cross("<svg>".to_string(), 21), "<svg>");
    assert_eq!(add_swiss_cross(String::new(), 21), "");
}

#[test]
fn rendered_slip_has_one_closing_tag_and_centred_cross() {
    let mut d = qrr();
    d.verify().unwrap();
    let svg = generate_qr_svg(&d).ok().unwrap();
    assert_eq!(svg.matches("</svg>").count(), 1);
    assert!(svg.ends_with("</style>\n</svg>"));
    let w = pixel_width(&svg);
    assert_eq!(w % 4, 0);
    assert_eq!((w / 4 - 8) % 4, 1);
    let c = w / 2;
    let outer = format!("<rect x=\"{}\" y=\"{}\" class=\"st0\" width=\"36\" height=\"36\"/>", c - 18, c - 18);
    let inner = format!("<rect x=\"{}\" y=\"{}\" width=\"24\" height=\"24\"/>", c - 12, c - 12);
    let wide = format!("<rect x=\"{}\" y=\"{}\" class=\"st0\" width=\"16\" height=\"4\"/>", c - 8, c - 2);
    let tall = format!("<rect x=\"{}\" y=\"{}\" class=\"st0\" width=\"4\" height=\"16\"/>", c - 2, c - 8);
    for rect in [&outer, &inner, &wide, &tall] {
        assert_eq!(svg.matches(rect.as_str()).count(), 1);
    }
    let overlay = &svg[svg.find(&outer).unwrap()..];
    assert_eq!(overlay.matches("<rect").count(), 4);
}

#[test]
fn oversized_payload_is_a_qr_error() {
    let mut d = qrr();
    d.additional_information = Some("x".repeat(5000));
    match generate_qr_svg(&d) {
        Err(Error::QrCodeError(m)) => assert_eq!(m, "data too long"),
        _ => panic!("expected a QR code error"),
    }
}

#[test]
fn all_descriptors_render_in_order() {
    let mut v = vec![qrr(), descriptor("CH9300762011623852957", "SCOR", Some("RF18539007547034"))];
    let svgs = generate_qr_svg_for_all(&mut v).ok().unwrap();
    assert_eq!(svgs.len(), 2);
    assert_eq!(v[0].creditor_iban, "CH44 3199 9123 0008 8901 2");
    assert_eq!(v[1].creditor_iban, "CH93 0076 2011 6238 5295 7");
    assert_ne!(svgs[0], svgs[1]);
}

#[test]
fn one_invalid_descriptor_fails_the_request() {
    let mut v = vec![
        qrr(),
        descriptor("CH9300762011623852957", "NON", Some("X")),
        descriptor("CH9300762011623852957", "SCOR", Some("RF18539007547034")),
    ];
    match generate_qr_svg_for_all(&mut v) {
        Err(e) => assert_eq!(e.status_code(), 400),
        Ok(_) => panic!("expected a failure"),
    }
    assert_eq!(v[0].creditor_iban, "CH44 3199 9123 0008 8901 2");
    assert_eq!(v[2].creditor_iban, "CH9300762011623852957");
}
