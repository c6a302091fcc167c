//! The HTML documents that are handed to the renderer.
//!
//! A document fixes the sheet size in its `@page` rule, taken from the paper
//! format and the orientation, and applies the margin as padding inside the
//! page, so that the renderer itself prints without margins.

use vstd::prelude::*;
use crate::decimal::{decimal_text, push_decimal, Decimal};
use crate::models::{page_thousandths, PrintConfig, PrintRequest};

verus! {

/// Opening of a document, up to the page width in its `@page` rule.
pub const DOCUMENT_OPENING: &'static str = r#"<!DOCTYPE html>
<html>
<head>
    <meta charset="UTF-8">
    <style>
        * {
            margin: 0;
            padding: 0;
            box-sizing: border-box;
        }
        
        @page {
            size: "#;

/// Stands between the page's width and its height.
pub const SIZE_SEPARATOR: &'static str = r#"mm "#;

/// From the page height of the `@page` rule to the width of `body`.
pub const SINGLE_BODY_WIDTH: &'static str = r#"mm;
            margin: 0;
        }
        
        body {
            width: "#;

/// From the width of `body` to the width of a `.print-page`.
pub const SINGLE_PAGE_WIDTH: &'static str = r#"mm;
            margin: 0;
            padding: 0;
            background: white;
        }
        
        .print-page {
            width: "#;

/// From the width of a `.print-page` to its least height.
pub const SINGLE_PAGE_MIN_HEIGHT: &'static str = r#"mm;
            min-height: "#;

/// From the least height of a `.print-page` to its padding.
pub const SINGLE_PAGE_PADDING: &'static str = r#"mm;
            padding: "#;

/// From the padding of a `.print-page` to the opening of `body`.
pub const SINGLE_STYLE_REST: &'static str = r#"mm;
            background: white;
            page-break-after: always;
            font-family: 'Times New Roman', serif;
            font-size: 12pt;
            line-height: 1.5;
        }
        
        .print-page:last-child {
            page-break-after: avoid;
        }
        
        h1, h2, h3, h4, h5, h6 {
            margin-bottom: 0.5em;
        }
        
        p {
            margin-bottom: 0.5em;
        }
    </style>
</head>
<body>
"#;

/// Closing of a document, after the content of `body`.
pub const DOCUMENT_CLOSING: &'static str = r#"
</body>
</html>"#;

/// In a document of several pages, from the page height of the `@page` rule to
/// the opening of `body`.
pub const PAGED_STYLE_REST: &'static str = r#"mm;
            margin: 0;
        }
        
        body {
            margin: 0;
            padding: 0;
            background: white;
        }
        
        .print-page {
            page-break-inside: avoid;
        }
        
        h1, h2, h3, h4, h5, h6 {
            margin-bottom: 0.5em;
        }
        
        p {
            margin-bottom: 0.5em;
        }
    </style>
</head>
<body>
"#;

/// Opening of a page block, up to its width.
pub const BLOCK_WIDTH: &'static str = r#"<div class="print-page" style="
                width: "#;

/// From the width of a page block to its height.
pub const BLOCK_HEIGHT: &'static str = r#"mm;
                height: "#;

/// From the height of a page block to its padding.
pub const BLOCK_PADDING: &'static str = r#"mm;
                padding: "#;

/// From the padding of a page block to the place of its page-break rule.
pub const BLOCK_STYLE_REST: &'static str = r#"mm;
                background: white;
                font-family: 'Times New Roman', serif;
                font-size: 12pt;
                line-height: 1.5;
                box-sizing: border-box;
                overflow: hidden;
                "#;

/// From the place of the page-break rule to the content of the block.
pub const BLOCK_STYLE_END: &'static str = r#"
            ">"#;

/// Closing of a page block.
pub const BLOCK_END: &'static str = r#"</div>"#;

/// The rule that makes the renderer start a new sheet after a block.
pub const PAGE_BREAK_ALWAYS: &'static str = r#"page-break-after: always;"#;

/// The document for one block of content on pages of `width` by `height`
/// thousandths of a millimetre, with `margin` thousandths of padding.
pub open spec fn single_page_document(width: nat, height: nat, margin: nat, content: Seq<char>) -> Seq<
    char,
> {
    DOCUMENT_OPENING@ + decimal_text(width) + SIZE_SEPARATOR@ + decimal_text(height)
        + SINGLE_BODY_WIDTH@ + decimal_text(width) + SINGLE_PAGE_WIDTH@ + decimal_text(width)
        + SINGLE_PAGE_MIN_HEIGHT@ + decimal_text(height) + SINGLE_PAGE_PADDING@ + decimal_text(
        margin,
    ) + SINGLE_STYLE_REST@ + content + DOCUMENT_CLOSING@
}

/// The page-break rule of a block: present where another page follows.
pub open spec fn page_break_rule(break_after: bool) -> Seq<char> {
    if break_after {
        PAGE_BREAK_ALWAYS@
    } else {
        Seq::<char>::empty()
    }
}

/// One page of a document of several: a block of exactly the sheet's size that
/// hides what overflows, followed by a page break if `break_after`.
pub open spec fn page_block(
    width: nat,
    height: nat,
    margin: nat,
    break_after: bool,
    content: Seq<char>,
) -> Seq<char> {
    BLOCK_WIDTH@ + decimal_text(width) + BLOCK_HEIGHT@ + decimal_text(height) + BLOCK_PADDING@
        + decimal_text(margin) + BLOCK_STYLE_REST@ + page_break_rule(break_after)
        + BLOCK_STYLE_END@ + content + BLOCK_END@
}

/// The blocks of `pages`, in order: every page but the last breaks after itself.
pub open spec fn page_blocks(width: nat, height: nat, margin: nat, pages: Seq<Seq<char>>) -> Seq<
    Seq<char>,
> {
    Seq::new(
        pages.len(),
        |i: int| page_block(width, height, margin, i + 1 < pages.len(), pages[i]),
    )
}

/// The document for `pages`, one sheet each.
pub open spec fn multi_page_document(
    width: nat,
    height: nat,
    margin: nat,
    pages: Seq<Seq<char>>,
) -> Seq<char> {
    DOCUMENT_OPENING@ + decimal_text(width) + SIZE_SEPARATOR@ + decimal_text(height)
        + PAGED_STYLE_REST@ + page_blocks(width, height, margin, pages).flatten()
        + DOCUMENT_CLOSING@
}

/// In a document of several pages, the block of each page but the last carries
/// the page-break rule, and the block of the last page carries none.
pub proof fn lemma_page_breaks(
    width: nat,
    height: nat,
    margin: nat,
    pages: Seq<Seq<char>>,
    i: int,
)
    requires
        0 <= i < pages.len(),
    ensures
        page_blocks(width, height, margin, pages).len() == pages.len(),
        i < pages.len() - 1 ==> page_blocks(width, height, margin, pages)[i] == page_block(
            width,
            height,
            margin,
            true,
            pages[i],
        ),
        i == pages.len() - 1 ==> page_blocks(width, height, margin, pages)[i] == page_block(
            width,
            height,
            margin,
            false,
            pages[i],
        ),
        page_block(width, height, margin, true, pages[i]) == BLOCK_WIDTH@ + decimal_text(width)
            + BLOCK_HEIGHT@ + decimal_text(height) + BLOCK_PADDING@ + decimal_text(margin)
            + BLOCK_STYLE_REST@ + PAGE_BREAK_ALWAYS@ + BLOCK_STYLE_END@ + pages[i] + BLOCK_END@,
        page_block(width, height, margin, false, pages[i]) == BLOCK_WIDTH@ + decimal_text(width)
            + BLOCK_HEIGHT@ + decimal_text(height) + BLOCK_PADDING@ + decimal_text(margin)
            + BLOCK_STYLE_REST@ + BLOCK_STYLE_END@ + pages[i] + BLOCK_END@,
{
}

/// Wraps `content` in a full document whose page size follows the request's
/// paper format and orientation and whose padding is the request's margin.
pub fn prepare_full_html(content: &str, request: &PrintRequest) -> (html: String)
    ensures
        html@ == single_page_document(
            page_thousandths(request.config.format, request.config.orientation).0,
            page_thousandths(request.config.format, request.config.orientation).1,
            request.config.margins_mm.thousandths as nat,
            content@,
        ),
{
    let (page_width, page_height) = request.config.page_dimensions_mm();
    let mut html = String::from_str(DOCUMENT_OPENING);
    push_decimal(&mut html, page_width);
    html.append(SIZE_SEPARATOR);
    push_decimal(&mut html, page_height);
    html.append(SINGLE_BODY_WIDTH);
    push_decimal(&mut html, page_width);
    html.append(SINGLE_PAGE_WIDTH);
    push_decimal(&mut html, page_width);
    html.append(SINGLE_PAGE_MIN_HEIGHT);
    push_decimal(&mut html, page_height);
    html.append(SINGLE_PAGE_PADDING);
    push_decimal(&mut html, request.config.margins_mm);
    html.append(SINGLE_STYLE_REST);
    html.append(content);
    html.append(DOCUMENT_CLOSING);
    html
}

/// Appends to `out` the block of one page.
pub fn push_page_block(
    out: &mut String,
    width: Decimal,
    height: Decimal,
    margin: Decimal,
    break_after: bool,
    content: &str,
)
    ensures
        final(out)@ == old(out)@ + page_block(
            width.thousandths as nat,
            height.thousandths as nat,
            margin.thousandths as nat,
            break_after,
            content@,
        ),
{
    let mut block = String::from_str(BLOCK_WIDTH);
    push_decimal(&mut block, width);
    block.append(BLOCK_HEIGHT);
    push_decimal(&mut block, height);
    block.append(BLOCK_PADDING);
    push_decimal(&mut block, margin);
    block.append(BLOCK_STYLE_REST);
    if break_after {
        block.append(PAGE_BREAK_ALWAYS);
    }
    block.append(BLOCK_STYLE_END);
    block.append(content);
    block.append(BLOCK_END);
    out.append(block.as_str());
}

/// Lays out `pages` one per sheet in a single document: each page is a block
/// of the sheet's size, and every block but the last breaks the page.
pub fn prepare_pages_html(pages: &Vec<String>, config: &PrintConfig) -> (html: String)
    ensures
        html@ == multi_page_document(
            page_thousandths(config.format, config.orientation).0,
            page_thousandths(config.format, config.orientation).1,
            config.margins_mm.thousandths as nat,
            pages.deep_view(),
        ),
{
    let (page_width, page_height) = config.page_dimensions_mm();
    let ghost blocks = page_blocks(
        page_width.thousandths as nat,
        page_height.thousandths as nat,
        config.margins_mm.thousandths as nat,
        pages.deep_view(),
    );
    let mut pages_html = String::new();
    let count = pages.len();
    let mut index: usize = 0;
    while index < count
        invariant
            index <= count,
            count == pages.len(),
            blocks == page_blocks(
                page_width.thousandths as nat,
                page_height.thousandths as nat,
                config.margins_mm.thousandths as nat,
                pages.deep_view(),
            ),
            pages_html@ == blocks.take(index as int).flatten(),
        decreases count - index,
    {
        push_page_block(
            &mut pages_html,
            page_width,
            page_height,
            config.margins_mm,
            index + 1 < count,
            pages[index].as_str(),
        );
        proof {
            let block = page_block(
                page_width.thousandths as nat,
                page_height.thousandths as nat,
                config.margins_mm.thousandths as nat,
                index + 1 < count,
                pages[index as int]@,
            );
            assert(blocks.take(index + 1) =~= blocks.take(index as int).push(block));
            blocks.take(index as int).lemma_flatten_push(block);
        }
        index = index + 1;
    }
    assert(blocks.take(count as int) =~= blocks);
    let mut html = String::from_str(DOCUMENT_OPENING);
    push_decimal(&mut html, page_width);
    html.append(SIZE_SEPARATOR);
    push_decimal(&mut html, page_height);
    html.append(PAGED_STYLE_REST);
    html.append(pages_html.as_str());
    html.append(DOCUMENT_CLOSING);
    html
}

} // verus!
