use vstd::prelude::*;

verus! {

/// pulldown-cmark's `Options::ENABLE_TABLES` bit.
pub const ENABLE_TABLES: u32 = 2;

/// pulldown-cmark's `Options::ENABLE_STRIKETHROUGH` bit.
pub const ENABLE_STRIKETHROUGH: u32 = 8;

/// The parser options used for every document: tables and strikethrough.
pub const MARKDOWN_OPTIONS: u32 = ENABLE_TABLES | ENABLE_STRIKETHROUGH;

/// The HTML that pulldown-cmark writes for `md` parsed with the option bits `options`.
pub uninterp spec fn cmark_html(md: Seq<char>, options: u32) -> Seq<char>;

/// The HTML for a Markdown document, with tables and strikethrough enabled.
pub open spec fn html_of(md: Seq<char>) -> Seq<char> {
    cmark_html(md, MARKDOWN_OPTIONS)
}

/// Relies on pulldown_cmark::html::push_html over Parser::new_ext: the HTML
/// depends on the text and the option bits alone.
#[verifier::external_body]
fn cmark_push_html(md: &str, options: u32) -> (r: String)
    ensures
        r@ == cmark_html(md@, options),
{
    let opts = pulldown_cmark::Options::from_bits_truncate(options);
    let mut out = String::new();
    pulldown_cmark::html::push_html(&mut out, pulldown_cmark::Parser::new_ext(md, opts));
    out
}

/// Converts Markdown text to HTML, with tables and strikethrough enabled.
pub fn markdown_to_html(md: &str) -> (r: String)
    ensures
        r@ == html_of(md@),
{
    cmark_push_html(md, MARKDOWN_OPTIONS)
}

/// Conversion is a function of the text: equal documents give equal HTML,
/// however often and in whatever order they are converted.
pub proof fn lemma_conversion_is_stable(m1: Seq<char>, m2: Seq<char>)
    requires
        m1 == m2,
    ensures
        html_of(m1) == html_of(m2),
{
}

} // verus!
