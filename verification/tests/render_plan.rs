use print_core::decimal::Decimal;
use print_core::models::{Orientation, PaperFormat, PrintConfig};
use print_core::render::{
    data_uri_from_encoded, fits_base64, html_data_uri, pdf_options, render_error, temp_pdf_name,
    temp_pdf_name_for, DocumentKind, Inches, RenderStep, INCH_THOUSANDTHS, SETTLE_DELAY_MS,
};

#[test]
fn the_data_uri_carries_the_document_in_base64() {
    assert_eq!(html_data_uri("<p>"), Some("data:text/html;base64,PHA+".to_string()));
    assert_eq!(html_data_uri("hello"), Some("data:text/html;base64,aGVsbG8=".to_string()));
    assert_eq!(html_data_uri("hi"), Some("data:text/html;base64,aGk=".to_string()));
    assert_eq!(html_data_uri("h"), Some("data:text/html;base64,aA==".to_string()));
    assert_eq!(html_data_uri(""), Some("data:text/html;base64,".to_string()));
    assert_eq!(html_data_uri("é???"), Some("data:text/html;base64,w6k/Pz8=".to_string()));
}

#[test]
fn the_data_uri_prefix_comes_before_the_encoded_text() {
    assert_eq!(data_uri_from_encoded("QUJD"), "data:text/html;base64,QUJD");
    assert_eq!(data_uri_from_encoded(""), "data:text/html;base64,");
}

#[test]
fn base64_fits_unless_its_length_overflows() {
    assert!(fits_base64(0));
    assert!(fits_base64(1));
    assert!(fits_base64(3));
    assert!(fits_base64(1 << 20));
    let chunks = usize::MAX / 4;
    assert!(fits_base64(chunks * 3));
    assert!(!fits_base64(chunks * 3 + 1));
    assert!(fits_base64((chunks - 1) * 3 + 2));
    assert!(!fits_base64((chunks + 1) * 3));
    assert!(!fits_base64(usize::MAX));
}

#[test]
fn capture_options_follow_the_configuration() {
    let config = PrintConfig {
        format: PaperFormat::A4,
        orientation: Orientation::Portrait,
        margins_mm: Decimal::from_thousandths(10_000),
        scale: Decimal::from_thousandths(950),
    };
    let options = pdf_options(&config);
    assert!(!options.landscape);
    assert!(!options.display_header_footer);
    assert!(options.print_background);
    assert!(options.prefer_css_page_size);
    assert_eq!(options.scale, Decimal::from_thousandths(950));
    assert_eq!(options.paper_width, Inches { numerator: 210_000, denominator: 25_400 });
    assert_eq!(options.paper_height, Inches { numerator: 297_000, denominator: 25_400 });
    for margin in [options.margin_top, options.margin_bottom, options.margin_left, options.margin_right] {
        assert_eq!(margin, Inches::zero());
        assert_eq!(margin.numerator, 0);
    }
    let width = options.paper_width.numerator as f64 / options.paper_width.denominator as f64;
    assert!((width - 8.267716535).abs() < 1e-6);

    let turned = pdf_options(&PrintConfig { orientation: Orientation::Landscape, format: PaperFormat::Letter, ..config });
    assert!(turned.landscape);
    assert_eq!(turned.paper_width, Inches::from_mm(Decimal::from_thousandths(279_400)));
    assert_eq!(turned.paper_height, Inches { numerator: 215_900, denominator: INCH_THOUSANDTHS });
    assert_eq!(INCH_THOUSANDTHS, 25_400);
}

#[test]
fn the_pause_before_the_capture_is_half_a_second() {
    assert_eq!(SETTLE_DELAY_MS, 500);
}

#[test]
fn each_step_of_the_rendering_has_its_error() {
    assert_eq!(
        render_error(RenderStep::StartBrowser, "no chrome"),
        "Error starting Chrome headless: no chrome. Is Chrome/Chromium installed?"
    );
    assert_eq!(render_error(RenderStep::OpenTab, "x"), "Error creating new tab: x");
    assert_eq!(render_error(RenderStep::LoadHtml, "x"), "Error loading HTML: x");
    assert_eq!(render_error(RenderStep::AwaitNavigation, "x"), "Error waiting for navigation: x");
    assert_eq!(render_error(RenderStep::GeneratePdf, "x"), "Error generating PDF: x");
    assert_eq!(render_error(RenderStep::SavePdf, "disk full"), "Error saving PDF: disk full");
    assert_eq!(render_error(RenderStep::SavePdf, ""), "Error saving PDF: ");
}

#[test]
fn temporary_names_are_made_of_prefix_identifier_and_extension() {
    let id = "936da01f-9abd-4d9d-80c7-02af85c822a8";
    assert_eq!(temp_pdf_name_for(DocumentKind::Single, id), "print-936da01f-9abd-4d9d-80c7-02af85c822a8.pdf");
    assert_eq!(
        temp_pdf_name_for(DocumentKind::Merged, id),
        "print-merged-936da01f-9abd-4d9d-80c7-02af85c822a8.pdf"
    );
}

fn is_uuid_text(id: &str) -> bool {
    let chars: Vec<char> = id.chars().collect();
    chars.len() == 36
        && chars.iter().enumerate().all(|(i, c)| {
            if i == 8 || i == 13 || i == 18 || i == 23 {
                *c == '-'
            } else {
                c.is_ascii_digit() || ('a'..='f').contains(c)
            }
        })
        && chars[14] == '4'
        && "89ab".contains(chars[19])
}

#[test]
fn fresh_temporary_names_carry_a_random_uuid() {
    let mut seen: Vec<String> = Vec::new();
    for _ in 0..64 {
        let name = temp_pdf_name(DocumentKind::Single);
        let id = name.strip_prefix("print-").and_then(|rest| rest.strip_suffix(".pdf")).expect("prefix and extension");
        assert!(is_uuid_text(id), "{}", name);
        assert!(!name.contains('/') && !name.contains('\\'));
        assert!(!seen.contains(&name));
        seen.push(name);
    }
    let merged = temp_pdf_name(DocumentKind::Merged);
    let id = merged.strip_prefix("print-merged-").and_then(|rest| rest.strip_suffix(".pdf")).expect("prefix and extension");
    assert!(is_uuid_text(id), "{}", merged);
}
