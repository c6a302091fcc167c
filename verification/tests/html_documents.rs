use print_core::decimal::Decimal;
use print_core::html::{prepare_full_html, prepare_pages_html, push_page_block, PAGE_BREAK_ALWAYS};
use print_core::models::{Orientation, PaperFormat, PrintConfig, PrintRequest};

fn config(format: PaperFormat, orientation: Orientation, margin: u32) -> PrintConfig {
    PrintConfig {
        format,
        orientation,
        margins_mm: Decimal::from_thousandths(margin),
        scale: Decimal::from_thousandths(1000),
    }
}

fn request(config: PrintConfig, html: &str) -> PrintRequest {
    PrintRequest { config, html_content: html.to_string(), printer_id: None }
}

/// The single-page document written out with floating-point numbers.
fn single_by_hand(page_width: f32, page_height: f32, margins_mm: f32, content: &str) -> String {
    format!(
        r#"<!DOCTYPE html>
<html>
<head>
    <meta charset="UTF-8">
    <style>
        * {{
            margin: 0;
            padding: 0;
            box-sizing: border-box;
        }}
        
        @page {{
            size: {}mm {}mm;
            margin: 0;
        }}
        
        body {{
            width: {}mm;
            margin: 0;
            padding: 0;
            background: white;
        }}
        
        .print-page {{
            width: {}mm;
            min-height: {}mm;
            padding: {}mm;
            background: white;
            page-break-after: always;
            font-family: 'Times New Roman', serif;
            font-size: 12pt;
            line-height: 1.5;
        }}
        
        .print-page:last-child {{
            page-break-after: avoid;
        }}
        
        h1, h2, h3, h4, h5, h6 {{
            margin-bottom: 0.5em;
        }}
        
        p {{
            margin-bottom: 0.5em;
        }}
    </style>
</head>
<body>
{}
</body>
</html>"#,
        page_width, page_height, page_width, page_width, page_height, margins_mm, content
    )
}

/// The document of several pages written out with floating-point numbers.
fn pages_by_hand(page_width: f32, page_height: f32, margins_mm: f32, pages: &[String]) -> String {
    let mut pages_html = String::new();
    for (idx, page_content) in pages.iter().enumerate() {
        let page_break = if idx < pages.len() - 1 { "page-break-after: always;" } else { "" };
        pages_html.push_str(&format!(
            r#"<div class="print-page" style="
                width: {}mm;
                height: {}mm;
                padding: {}mm;
                background: white;
                font-family: 'Times New Roman', serif;
                font-size: 12pt;
                line-height: 1.5;
                box-sizing: border-box;
                overflow: hidden;
                {}
            ">{}</div>"#,
            page_width, page_height, margins_mm, page_break, page_content
        ));
    }
    format!(
        r#"<!DOCTYPE html>
<html>
<head>
    <meta charset="UTF-8">
    <style>
        * {{
            margin: 0;
            padding: 0;
            box-sizing: border-box;
        }}
        
        @page {{
            size: {}mm {}mm;
            margin: 0;
        }}
        
        body {{
            margin: 0;
            padding: 0;
            background: white;
        }}
        
        .print-page {{
            page-break-inside: avoid;
        }}
        
        h1, h2, h3, h4, h5, h6 {{
            margin-bottom: 0.5em;
        }}
        
        p {{
            margin-bottom: 0.5em;
        }}
    </style>
</head>
<body>
{}
</body>
</html>"#,
        page_width, page_height, pages_html
    )
}

#[test]
fn single_page_document_is_written_out() {
    let html = prepare_full_html("<p>Hi</p>", &request(config(PaperFormat::A4, Orientation::Portrait, 10_000), "<p>Hi</p>"));
    assert_eq!(html, single_by_hand(210.0, 297.0, 10.0, "<p>Hi</p>"));
    assert!(html.starts_with("<!DOCTYPE html>\n<html>\n<head>\n"));
    assert!(html.contains("            size: 210mm 297mm;\n"));
    assert!(html.contains("        body {\n            width: 210mm;\n"));
    assert!(html.contains("            min-height: 297mm;\n            padding: 10mm;\n"));
    assert!(html.ends_with("<body>\n<p>Hi</p>\n</body>\n</html>"));
}

#[test]
fn single_page_document_follows_format_and_orientation() {
    let cases = [
        (PaperFormat::A4, Orientation::Portrait, 210.0f32, 297.0f32),
        (PaperFormat::A4, Orientation::Landscape, 297.0, 210.0),
        (PaperFormat::A3, Orientation::Portrait, 297.0, 420.0),
        (PaperFormat::A3, Orientation::Landscape, 420.0, 297.0),
        (PaperFormat::Letter, Orientation::Portrait, 215.9, 279.4),
        (PaperFormat::Letter, Orientation::Landscape, 279.4, 215.9),
    ];
    for (format, orientation, width, height) in cases {
        let html = prepare_full_html("x", &request(config(format, orientation, 12_700), "ignored"));
        assert_eq!(html, single_by_hand(width, height, 12.7, "x"));
    }
    let html = prepare_full_html("", &request(config(PaperFormat::Letter, Orientation::Landscape, 0), ""));
    assert!(html.contains("size: 279.4mm 215.9mm;"));
    assert!(html.contains("padding: 0mm;"));
}

#[test]
fn pages_break_after_every_page_but_the_last() {
    let pages = vec!["<p>1</p>".to_string(), "<p>2</p>".to_string(), "<p>3</p>".to_string()];
    let html = prepare_pages_html(&pages, &config(PaperFormat::A4, Orientation::Portrait, 5_000));
    assert_eq!(html, pages_by_hand(210.0, 297.0, 5.0, &pages));
    assert_eq!(html.matches(PAGE_BREAK_ALWAYS).count(), 2);
    let blocks: Vec<&str> = html.split("<div class=\"print-page\"").skip(1).collect();
    assert_eq!(blocks.len(), 3);
    assert!(blocks[0].contains("page-break-after: always;") && blocks[0].contains("<p>1</p>"));
    assert!(blocks[1].contains("page-break-after: always;") && blocks[1].contains("<p>2</p>"));
    assert!(!blocks[2].contains("page-break-after") && blocks[2].contains("<p>3</p>"));
}

#[test]
fn one_page_has_no_page_break_and_no_pages_have_no_block() {
    let one = vec!["only".to_string()];
    let html = prepare_pages_html(&one, &config(PaperFormat::A3, Orientation::Landscape, 0));
    assert_eq!(html, pages_by_hand(420.0, 297.0, 0.0, &one));
    assert_eq!(html.matches("page-break-after").count(), 0);
    assert_eq!(html.matches("<div class=\"print-page\"").count(), 1);

    let none: Vec<String> = Vec::new();
    let html = prepare_pages_html(&none, &config(PaperFormat::A4, Orientation::Portrait, 0));
    assert_eq!(html.matches("<div").count(), 0);
    assert!(html.ends_with("<body>\n\n</body>\n</html>"));
    assert!(html.contains("size: 210mm 297mm;"));
}

#[test]
fn pages_follow_format_and_orientation() {
    let pages = vec!["a".to_string(), "b".to_string()];
    let html = prepare_pages_html(&pages, &config(PaperFormat::Letter, Orientation::Portrait, 6_350));
    assert_eq!(html, pages_by_hand(215.9, 279.4, 6.35, &pages));
    let html = prepare_pages_html(&pages, &config(PaperFormat::Letter, Orientation::Landscape, 6_350));
    assert_eq!(html, pages_by_hand(279.4, 215.9, 6.35, &pages));
}

#[test]
fn a_page_block_has_the_size_of_the_sheet() {
    let mut out = String::from("before");
    push_page_block(
        &mut out,
        Decimal::from_thousandths(210_000),
        Decimal::from_thousandths(297_000),
        Decimal::from_thousandths(10_500),
        true,
        "<b>x</b>",
    );
    assert!(out.starts_with("before<div class=\"print-page\" style=\"\n                width: 210mm;\n                height: 297mm;\n                padding: 10.5mm;\n"));
    assert!(out.contains("                overflow: hidden;\n                page-break-after: always;\n            \"><b>x</b></div>"));
    let mut last = String::new();
    push_page_block(
        &mut last,
        Decimal::from_thousandths(210_000),
        Decimal::from_thousandths(297_000),
        Decimal::from_thousandths(10_500),
        false,
        "<b>x</b>",
    );
    assert!(last.ends_with("                overflow: hidden;\n                \n            \"><b>x</b></div>"));
}
