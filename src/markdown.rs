use vstd::prelude::*;

verus! {

/// The HTML that pulldown-cmark makes of a Markdown text with strikethrough
/// enabled.
pub uninterp spec fn markdown_html(input: Seq<char>) -> Seq<char>;

/// Markdown rendering of an optional text.
pub open spec fn markdown_opt(input: Option<Seq<char>>) -> Option<Seq<char>> {
    match input {
        Some(s) => Some(markdown_html(s)),
        None => None,
    }
}

/// Renders Markdown to HTML.
///
/// Relies on `pulldown_cmark::Parser::new_ext` with `ENABLE_STRIKETHROUGH`
/// and `pulldown_cmark::html::push_html` into an empty string: the output
/// depends on the input text alone.
#[verifier::external_body]
pub fn render_markdown(input: &str) -> (r: String)
    ensures
        r@ == markdown_html(input@),
{
    let parser = pulldown_cmark::Parser::new_ext(input, pulldown_cmark::Options::ENABLE_STRIKETHROUGH);
    let mut output = String::new();
    pulldown_cmark::html::push_html(&mut output, parser);
    output
}

} // verus!
