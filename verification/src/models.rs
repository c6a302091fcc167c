//! The values that requests and results are made of.

use vstd::prelude::*;
use crate::decimal::Decimal;

verus! {

/// Page orientation.
#[derive(Clone, Copy, Debug, PartialEq, Eq, Structural)]
pub enum Orientation {
    Portrait,
    Landscape,
}

/// Supported paper format.
#[derive(Clone, Copy, Debug, PartialEq, Eq, Structural)]
pub enum PaperFormat {
    A4,
    A3,
    Letter,
}

impl PaperFormat {
    /// Width and height of the sheet in portrait position, in thousandths of a
    /// millimetre.
    pub open spec fn portrait_thousandths(self) -> (nat, nat) {
        match self {
            PaperFormat::A4 => (210_000, 297_000),
            PaperFormat::A3 => (297_000, 420_000),
            PaperFormat::Letter => (215_900, 279_400),
        }
    }

    /// Width and height in millimetres of the sheet in portrait position.
    pub fn dimensions_mm(&self) -> (dims: (Decimal, Decimal))
        ensures
            dims.0.thousandths == self.portrait_thousandths().0,
            dims.1.thousandths == self.portrait_thousandths().1,
    {
        match self {
            PaperFormat::A4 => (Decimal { thousandths: 210_000 }, Decimal { thousandths: 297_000 }),
            PaperFormat::A3 => (Decimal { thousandths: 297_000 }, Decimal { thousandths: 420_000 }),
            PaperFormat::Letter => (
                Decimal { thousandths: 215_900 },
                Decimal { thousandths: 279_400 },
            ),
        }
    }
}

impl Orientation {
    /// True for `Landscape`.
    pub fn is_landscape(&self) -> (l: bool)
        ensures
            l == (*self == Orientation::Landscape),
    {
        match self {
            Orientation::Portrait => false,
            Orientation::Landscape => true,
        }
    }
}

/// Width and height of a page of `format` turned to `orientation`, in
/// thousandths of a millimetre: the portrait dimensions, exchanged for
/// `Landscape`.
pub open spec fn page_thousandths(format: PaperFormat, orientation: Orientation) -> (nat, nat) {
    match orientation {
        Orientation::Portrait => format.portrait_thousandths(),
        Orientation::Landscape => (format.portrait_thousandths().1, format.portrait_thousandths().0),
    }
}

/// Turning a sheet to landscape exchanges its width and height, and landscape
/// pages are wider than high while portrait pages are higher than wide.
pub proof fn lemma_landscape_swaps(format: PaperFormat)
    ensures
        page_thousandths(format, Orientation::Portrait) == format.portrait_thousandths(),
        page_thousandths(format, Orientation::Landscape).0 == page_thousandths(
            format,
            Orientation::Portrait,
        ).1,
        page_thousandths(format, Orientation::Landscape).1 == page_thousandths(
            format,
            Orientation::Portrait,
        ).0,
        page_thousandths(format, Orientation::Portrait).0 < page_thousandths(
            format,
            Orientation::Portrait,
        ).1,
        page_thousandths(format, Orientation::Landscape).0 > page_thousandths(
            format,
            Orientation::Landscape,
        ).1,
{
}

/// Print configuration.
#[derive(Clone, Copy, Debug, PartialEq, Eq, Structural)]
pub struct PrintConfig {
    pub format: PaperFormat,
    pub orientation: Orientation,
    /// Inner margin of every page, in millimetres.
    pub margins_mm: Decimal,
    /// Scale factor handed to the renderer; `1` prints at natural size.
    pub scale: Decimal,
}

impl PrintConfig {
    /// Width and height in millimetres of the page as it is oriented.
    pub fn page_dimensions_mm(&self) -> (dims: (Decimal, Decimal))
        ensures
            dims.0.thousandths == page_thousandths(self.format, self.orientation).0,
            dims.1.thousandths == page_thousandths(self.format, self.orientation).1,
    {
        let (width, height) = self.format.dimensions_mm();
        match self.orientation {
            Orientation::Portrait => (width, height),
            Orientation::Landscape => (height, width),
        }
    }
}

/// Complete print request for one block of HTML.
#[derive(Clone, Debug, PartialEq, Eq)]
pub struct PrintRequest {
    pub config: PrintConfig,
    pub html_content: String,
    /// `None` stands for the system's default printer.
    pub printer_id: Option<String>,
}

/// Print request with several pages, each laid out on a sheet of its own.
#[derive(Clone, Debug, PartialEq, Eq)]
pub struct PrintRequestPages {
    pub config: PrintConfig,
    /// HTML contents, one for each page.
    pub pages: Vec<String>,
    /// `None` stands for the system's default printer.
    pub printer_id: Option<String>,
}

/// Information about an available printer.
#[derive(Clone, Debug, PartialEq, Eq)]
pub struct PrinterInfo {
    /// Technical name, as the system knows the printer.
    pub id: String,
    /// Friendly name.
    pub display_name: String,
    pub is_default: bool,
}

/// What a [`PrinterInfo`] holds, as mathematical values.
pub struct PrinterInfoView {
    pub id: Seq<char>,
    pub display_name: Seq<char>,
    pub is_default: bool,
}

impl View for PrinterInfo {
    type V = PrinterInfoView;

    open spec fn view(&self) -> PrinterInfoView {
        PrinterInfoView { id: self.id@, display_name: self.display_name@, is_default: self.is_default }
    }
}

impl DeepView for PrinterInfo {
    type V = PrinterInfoView;

    open spec fn deep_view(&self) -> PrinterInfoView {
        self@
    }
}

/// Result of a print operation.
#[derive(Clone, Debug, PartialEq, Eq)]
pub struct PrintResult {
    pub success: bool,
    pub message: String,
    pub job_id: Option<String>,
}

/// What a [`PrintResult`] holds, as mathematical values.
pub struct PrintResultView {
    pub success: bool,
    pub message: Seq<char>,
    pub job_id: Option<Seq<char>>,
}

impl View for PrintResult {
    type V = PrintResultView;

    open spec fn view(&self) -> PrintResultView {
        PrintResultView {
            success: self.success,
            message: self.message@,
            job_id: match self.job_id {
                Some(id) => Some(id@),
                None => None,
            },
        }
    }
}

impl DeepView for PrintResult {
    type V = PrintResultView;

    open spec fn deep_view(&self) -> PrintResultView {
        self@
    }
}

} // verus!
