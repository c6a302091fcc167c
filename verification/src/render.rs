//! What the renderer is given: the address that carries the document, the
//! options of the PDF capture, the pause before it, the name of the file that
//! receives the PDF, and the message for each step that can fail.

use vstd::prelude::*;
use vstd::utf8::encode_utf8;
use base64::Engine;
use crate::decimal::Decimal;
use crate::models::{page_thousandths, Orientation, PrintConfig};

verus! {

/// The standard base64 text of `bytes`: alphabet `A-Z a-z 0-9 + /`, padded with
/// `=` to a multiple of four characters.
pub uninterp spec fn base64_standard(bytes: Seq<u8>) -> Seq<char>;

/// True if the base64 text of `len` bytes has a length that fits in `usize`.
pub open spec fn base64_fits(len: nat) -> bool {
    (len / 3) * 4 + (if len % 3 > 0 { 4int } else { 0int }) <= usize::MAX
}

/// `Engine::encode` of the base64 crate, on its `STANDARD` engine: the result
/// is the standard padded base64 text of the input, the same for the same
/// bytes. The call panics where the text's length overflows `usize`, which the
/// precondition leaves out.
#[verifier::external_body]
fn encode_base64(bytes: &[u8]) -> (encoded: String)
    requires
        base64_fits(bytes@.len()),
    ensures
        encoded@ == base64_standard(bytes@),
{
    base64::engine::general_purpose::STANDARD.encode(bytes)
}

/// Scheme, media type and encoding marker of the address of a document.
pub const DATA_URI_PREFIX: &'static str = "data:text/html;base64,";

/// The `data:` address for a document whose base64 text is `encoded`.
pub open spec fn data_uri_text(encoded: Seq<char>) -> Seq<char> {
    DATA_URI_PREFIX@ + encoded
}

/// Puts the `data:` prefix before the base64 text of a document.
pub fn data_uri_from_encoded(encoded: &str) -> (uri: String)
    ensures
        uri@ == data_uri_text(encoded@),
{
    let mut uri = String::from_str(DATA_URI_PREFIX);
    uri.append(encoded);
    uri
}

/// True if `len` bytes can be encoded: exec form of [`base64_fits`].
pub fn fits_base64(len: usize) -> (fits: bool)
    ensures
        fits == base64_fits(len as nat),
{
    let chunks: usize = len / 3;
    if chunks > usize::MAX / 4 {
        false
    } else if len % 3 == 0 {
        true
    } else {
        chunks * 4 <= usize::MAX - 4
    }
}

/// The `data:` address that embeds `html`, so that the renderer loads the
/// document without a file or a server: the prefix, then the base64 text of
/// the document's UTF-8 bytes. `None` only for a document so long that its
/// base64 text has no length in `usize`.
pub fn html_data_uri(html: &str) -> (uri: Option<String>)
    ensures
        uri is Some <==> base64_fits(encode_utf8(html@).len()),
        uri matches Some(u) ==> u@ == data_uri_text(base64_standard(encode_utf8(html@))),
{
    let bytes = html.as_bytes();
    if fits_base64(bytes.len()) {
        let encoded = encode_base64(bytes);
        Some(data_uri_from_encoded(encoded.as_str()))
    } else {
        None
    }
}

/// Milliseconds to wait after navigation before the capture, so that fonts
/// and styles that load late are in place.
pub const SETTLE_DELAY_MS: u64 = 500;

/// Thousandths of a millimetre in one inch.
pub const INCH_THOUSANDTHS: u32 = 25_400;

/// A length in inches, held exactly as the quotient `numerator / denominator`.
#[derive(Clone, Copy, Debug, PartialEq, Eq, Structural)]
pub struct Inches {
    pub numerator: u32,
    pub denominator: u32,
}

impl Inches {
    /// No length at all.
    pub fn zero() -> (inches: Inches)
        ensures
            inches == (Inches { numerator: 0, denominator: 1 }),
    {
        Inches { numerator: 0, denominator: 1 }
    }

    /// The length `mm` millimetres in inches: `mm` divided by 25.4.
    pub fn from_mm(mm: Decimal) -> (inches: Inches)
        ensures
            inches == (Inches { numerator: mm.thousandths, denominator: INCH_THOUSANDTHS }),
    {
        Inches { numerator: mm.thousandths, denominator: INCH_THOUSANDTHS }
    }
}

/// Options of the PDF capture.
#[derive(Clone, Copy, Debug, PartialEq, Eq, Structural)]
pub struct PdfOptions {
    pub landscape: bool,
    pub display_header_footer: bool,
    pub print_background: bool,
    pub scale: Decimal,
    pub paper_width: Inches,
    pub paper_height: Inches,
    pub margin_top: Inches,
    pub margin_bottom: Inches,
    pub margin_left: Inches,
    pub margin_right: Inches,
    pub prefer_css_page_size: bool,
}

/// The capture options for `config`: no header or footer, backgrounds
/// printed, the scale of the configuration, the oriented page size in inches,
/// no margins (the document's own padding makes them), and the page size of
/// the document's `@page` rule preferred over the renderer's.
pub open spec fn pdf_options_for(config: PrintConfig) -> PdfOptions {
    PdfOptions {
        landscape: config.orientation == Orientation::Landscape,
        display_header_footer: false,
        print_background: true,
        scale: config.scale,
        paper_width: Inches {
            numerator: page_thousandths(config.format, config.orientation).0 as u32,
            denominator: INCH_THOUSANDTHS,
        },
        paper_height: Inches {
            numerator: page_thousandths(config.format, config.orientation).1 as u32,
            denominator: INCH_THOUSANDTHS,
        },
        margin_top: Inches { numerator: 0, denominator: 1 },
        margin_bottom: Inches { numerator: 0, denominator: 1 },
        margin_left: Inches { numerator: 0, denominator: 1 },
        margin_right: Inches { numerator: 0, denominator: 1 },
        prefer_css_page_size: true,
    }
}

/// The capture options for `config`, as [`pdf_options_for`] defines them.
pub fn pdf_options(config: &PrintConfig) -> (options: PdfOptions)
    ensures
        options == pdf_options_for(*config),
{
    let (page_width, page_height) = config.page_dimensions_mm();
    PdfOptions {
        landscape: config.orientation.is_landscape(),
        display_header_footer: false,
        print_background: true,
        scale: config.scale,
        paper_width: Inches::from_mm(page_width),
        paper_height: Inches::from_mm(page_height),
        margin_top: Inches::zero(),
        margin_bottom: Inches::zero(),
        margin_left: Inches::zero(),
        margin_right: Inches::zero(),
        prefer_css_page_size: true,
    }
}

/// The steps of a rendering that can fail.
#[derive(Clone, Copy, Debug, PartialEq, Eq, Structural)]
pub enum RenderStep {
    StartBrowser,
    OpenTab,
    LoadHtml,
    AwaitNavigation,
    GeneratePdf,
    SavePdf,
}

/// Opens the error for a browser that could not be started.
pub const START_BROWSER_FAILED: &'static str = "Error starting Chrome headless: ";

/// Closes that error.
pub const START_BROWSER_HINT: &'static str = ". Is Chrome/Chromium installed?";

/// Opens the error for a tab that could not be opened.
pub const OPEN_TAB_FAILED: &'static str = "Error creating new tab: ";

/// Opens the error for a document that could not be loaded.
pub const LOAD_HTML_FAILED: &'static str = "Error loading HTML: ";

/// Opens the error for a navigation that did not complete.
pub const AWAIT_NAVIGATION_FAILED: &'static str = "Error waiting for navigation: ";

/// Opens the error for a capture that failed.
pub const GENERATE_PDF_FAILED: &'static str = "Error generating PDF: ";

/// Opens the error for a PDF that could not be written or copied.
pub const SAVE_PDF_FAILED: &'static str = "Error saving PDF: ";

/// The message for a rendering that failed at `step` with the cause `detail`.
pub open spec fn render_error_text(step: RenderStep, detail: Seq<char>) -> Seq<char> {
    match step {
        RenderStep::StartBrowser => START_BROWSER_FAILED@ + detail + START_BROWSER_HINT@,
        RenderStep::OpenTab => OPEN_TAB_FAILED@ + detail,
        RenderStep::LoadHtml => LOAD_HTML_FAILED@ + detail,
        RenderStep::AwaitNavigation => AWAIT_NAVIGATION_FAILED@ + detail,
        RenderStep::GeneratePdf => GENERATE_PDF_FAILED@ + detail,
        RenderStep::SavePdf => SAVE_PDF_FAILED@ + detail,
    }
}

/// The message for a rendering that failed at `step` with the cause `detail`.
pub fn render_error(step: RenderStep, detail: &str) -> (message: String)
    ensures
        message@ == render_error_text(step, detail@),
{
    let mut message = match step {
        RenderStep::StartBrowser => String::from_str(START_BROWSER_FAILED),
        RenderStep::OpenTab => String::from_str(OPEN_TAB_FAILED),
        RenderStep::LoadHtml => String::from_str(LOAD_HTML_FAILED),
        RenderStep::AwaitNavigation => String::from_str(AWAIT_NAVIGATION_FAILED),
        RenderStep::GeneratePdf => String::from_str(GENERATE_PDF_FAILED),
        RenderStep::SavePdf => String::from_str(SAVE_PDF_FAILED),
    };
    message.append(detail);
    match step {
        RenderStep::StartBrowser => {
            message.append(START_BROWSER_HINT);
        },
        _ => {},
    }
    message
}

/// True for the digits `0` to `9` and the letters `a` to `f`.
pub open spec fn is_lower_hex(c: char) -> bool {
    let u = c as u32;
    0x30 <= u <= 0x39 || 0x61 <= u <= 0x66
}

/// True if `s` has the shape of a random UUID in lower-case hyphenated form:
/// groups of 8, 4, 4, 4 and 12 hexadecimal digits with a hyphen between them,
/// the third group beginning with the version `4` and the fourth with one of
/// `8`, `9`, `a`, `b`.
pub open spec fn is_random_uuid_text(s: Seq<char>) -> bool {
    &&& s.len() == 36
    &&& forall|i: int|
        0 <= i < 36 ==> if i == 8 || i == 13 || i == 18 || i == 23 {
            #[trigger] s[i] == '-'
        } else {
            is_lower_hex(#[trigger] s[i])
        }
    &&& s[14] == '4'
    &&& (s[19] == '8' || s[19] == '9' || s[19] == 'a' || s[19] == 'b')
}

/// `Uuid::new_v4` of the uuid crate, printed through its `Display`: a random
/// UUID of version 4 in lower-case hyphenated form. Nothing is said of which
/// one: two calls give two texts.
#[verifier::external_body]
fn random_uuid_text() -> (id: String)
    ensures
        is_random_uuid_text(id@),
{
    uuid::Uuid::new_v4().to_string()
}

/// The two kinds of document that are rendered.
#[derive(Clone, Copy, Debug, PartialEq, Eq, Structural)]
pub enum DocumentKind {
    /// One block of content.
    Single,
    /// Several pages merged into one document.
    Merged,
}

/// What the name of the temporary file of a single document begins with.
pub const TEMP_NAME_SINGLE: &'static str = "print-";

/// What the name of the temporary file of a merged document begins with.
pub const TEMP_NAME_MERGED: &'static str = "print-merged-";

/// What the name of a temporary file ends with.
pub const PDF_EXTENSION: &'static str = ".pdf";

/// The name of the temporary file for the PDF of a job with identifier `id`.
pub open spec fn temp_pdf_name_text(kind: DocumentKind, id: Seq<char>) -> Seq<char> {
    match kind {
        DocumentKind::Single => TEMP_NAME_SINGLE@ + id + PDF_EXTENSION@,
        DocumentKind::Merged => TEMP_NAME_MERGED@ + id + PDF_EXTENSION@,
    }
}

/// True if `name` can be joined to a directory as a single component: it is
/// not empty and holds neither a slash nor a backslash.
pub open spec fn is_plain_file_name(name: Seq<char>) -> bool {
    &&& name.len() > 0
    &&& forall|i: int| 0 <= i < name.len() ==> #[trigger] name[i] != '/' && name[i] != '\\'
}

/// The temporary file of a job whose identifier is a random UUID has a plain
/// file name, so that it lies in the directory it is joined to.
pub proof fn lemma_temp_pdf_name_is_plain(kind: DocumentKind, id: Seq<char>)
    requires
        is_random_uuid_text(id),
    ensures
        is_plain_file_name(temp_pdf_name_text(kind, id)),
{
    reveal_strlit("print-");
    reveal_strlit("print-merged-");
    reveal_strlit(".pdf");
}

/// The name of the temporary file for the PDF of a job with identifier `id`.
pub fn temp_pdf_name_for(kind: DocumentKind, id: &str) -> (name: String)
    ensures
        name@ == temp_pdf_name_text(kind, id@),
{
    let mut name = match kind {
        DocumentKind::Single => String::from_str(TEMP_NAME_SINGLE),
        DocumentKind::Merged => String::from_str(TEMP_NAME_MERGED),
    };
    name.append(id);
    name.append(PDF_EXTENSION);
    name
}

/// A fresh name for the temporary file that receives the PDF of a job: the
/// prefix of the document's kind, a random UUID and the extension `.pdf`.
pub fn temp_pdf_name(kind: DocumentKind) -> (name: String)
    ensures
        exists|id: Seq<char>|
            is_random_uuid_text(id) && name@ == #[trigger] temp_pdf_name_text(kind, id),
        is_plain_file_name(name@),
{
    let id = random_uuid_text();
    proof {
        lemma_temp_pdf_name_is_plain(kind, id@);
    }
    temp_pdf_name_for(kind, id.as_str())
}

} // verus!
