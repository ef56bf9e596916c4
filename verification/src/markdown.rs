//! Rendering of untrusted Markdown into safe HTML.
//!
//! The pipeline has two stages that never change places: a permissive
//! rendering, which lets raw HTML through, and a strict sanitising of what
//! the rendering produced. All of the safety of the output rests on the
//! second stage.

use vstd::prelude::*;

verus! {

/// The switches of the Markdown renderer that this library sets.
#[derive(Debug, Clone, Copy, PartialEq, Eq)]
pub struct RenderOptions {
    /// Typographic quotes and dashes in place of plain ones.
    pub smart: bool,
    /// `~~text~~` as struck-through text.
    pub strikethrough: bool,
    /// GitHub-style tables.
    pub table: bool,
    /// `- [ ]` and `- [x]` as task list items.
    pub tasklist: bool,
    /// Bare URLs as links.
    pub autolink: bool,
    /// Raw HTML of the source is written out as it stands.
    pub raw_html: bool,
}

/// The HTML that the Markdown renderer writes for `markdown` under the given
/// switches; every other switch of the renderer has its default.
pub uninterp spec fn rendered_html(
    markdown: Seq<char>,
    smart: bool,
    strikethrough: bool,
    table: bool,
    tasklist: bool,
    autolink: bool,
    raw_html: bool,
) -> Seq<char>;

/// What the sanitiser's default allow-list leaves of `html`.
pub uninterp spec fn sanitized_html(html: Seq<char>) -> Seq<char>;

/// The HTML of `markdown` before sanitising, as the pipeline renders it.
pub open spec fn raw_html_of(markdown: Seq<char>) -> Seq<char> {
    rendered_html(markdown, true, true, true, true, true, true)
}

/// The safe HTML of `markdown`: the rendering, then the sanitising.
pub open spec fn safe_html_of(markdown: Seq<char>) -> Seq<char> {
    sanitized_html(raw_html_of(markdown))
}

/// Calls `comrak::markdown_to_html` with comrak's default options, changed in
/// the six switches of `options`. The contract only names the result: the
/// HTML is a function of the text and the switches.
#[verifier::external_body]
fn markdown_to_html(markdown: &str, options: &RenderOptions) -> (html: String)
    ensures
        html@ == rendered_html(
            markdown@,
            options.smart,
            options.strikethrough,
            options.table,
            options.tasklist,
            options.autolink,
            options.raw_html,
        ),
{
    let mut o = comrak::Options::default();
    o.parse.smart = options.smart;
    o.extension.strikethrough = options.strikethrough;
    o.extension.table = options.table;
    o.extension.tasklist = options.tasklist;
    o.extension.autolink = options.autolink;
    o.render.unsafe_ = options.raw_html;
    comrak::markdown_to_html(markdown, &o)
}

/// Calls `ammonia::Builder::clean` on a builder with ammonia's defaults and
/// writes the cleaned document out. The contract only names the result: the
/// output is a function of the input.
#[verifier::external_body]
fn clean_html(html: &str) -> (clean: String)
    ensures
        clean@ == sanitized_html(html@),
{
    ammonia::Builder::default().clean(html).to_string()
}

/// The switches that the pipeline renders with: smart punctuation,
/// strikethrough, tables, task lists and autolinks on, raw HTML let through.
pub fn pipeline_options() -> (o: RenderOptions)
    ensures
        o == (RenderOptions {
            smart: true,
            strikethrough: true,
            table: true,
            tasklist: true,
            autolink: true,
            raw_html: true,
        }),
{
    RenderOptions {
        smart: true,
        strikethrough: true,
        table: true,
        tasklist: true,
        autolink: true,
        raw_html: true,
    }
}

/// Renders `markdown` to HTML without sanitising it. Raw HTML of the source
/// comes out as it went in: the result is not safe to show.
pub fn render_unsanitized(markdown: &str) -> (html: String)
    ensures
        html@ == raw_html_of(markdown@),
{
    let options = pipeline_options();
    markdown_to_html(markdown, &options)
}

/// Sanitises `html` against the default allow-list.
pub fn sanitize_html(html: &str) -> (clean: String)
    ensures
        clean@ == sanitized_html(html@),
{
    clean_html(html)
}

/// Renders `markdown` to HTML and sanitises the result. It never fails:
/// malformed Markdown is rendered as far as the parser recovers.
pub fn render_markdown(markdown: String) -> (r: Result<String, String>)
    ensures
        r is Ok,
        r->Ok_0@ == safe_html_of(markdown@),
{
    let html = render_unsanitized(markdown.as_str());
    let clean = sanitize_html(html.as_str());
    Ok(clean)
}

} // verus!
