use reader_core::markdown::{pipeline_options, render_markdown, render_unsanitized, sanitize_html};

fn render(markdown: &str) -> String {
    render_markdown(markdown.to_string()).unwrap()
}

#[test]
fn strikethrough_strong_and_no_script() {
    let html = render("~~a~~ **b** <script>alert(1)</script>");
    println!("{}", html);
    assert!(html.contains("<del>a</del>"));
    assert!(html.contains("<strong>b</strong>"));
    assert!(!html.contains("<script"));
    assert!(!html.contains("alert(1)"));
}

#[test]
fn script_passes_the_rendering_and_not_the_sanitising() {
    let raw = render_unsanitized("~~a~~ **b** <script>alert(1)</script>");
    assert!(raw.contains("<script>alert(1)</script>"));
    assert_eq!(render("~~a~~ **b** <script>alert(1)</script>"), sanitize_html(&raw));
}

#[test]
fn event_handlers_and_script_urls_are_removed() {
    let html = render("<a href=\"javascript:alert(1)\" onclick=\"steal()\">x</a> <img src=\"a.png\" onerror=\"steal()\">");
    println!("{}", html);
    assert!(!html.contains("javascript:"));
    assert!(!html.contains("onclick"));
    assert!(!html.contains("onerror"));
    assert!(html.contains("<img src=\"a.png\">"));
}

#[test]
fn table_markup_is_kept() {
    let html = render("| a | b |\n|---|---|\n| 1 | 2 |\n");
    println!("{}", html);
    assert_eq!(
        html,
        "<table>\n<thead>\n<tr>\n<th>a</th>\n<th>b</th>\n</tr>\n</thead>\n<tbody>\n<tr>\n<td>1</td>\n<td>2</td>\n</tr>\n</tbody>\n</table>\n"
    );
}

#[test]
fn task_list_items_are_rendered_with_their_state() {
    let raw = render_unsanitized("- [x] done\n- [ ] open\n");
    println!("{}", raw);
    assert_eq!(
        raw,
        "<ul>\n<li><input type=\"checkbox\" checked=\"\" disabled=\"\" /> done</li>\n<li><input type=\"checkbox\" disabled=\"\" /> open</li>\n</ul>\n"
    );
    let html = render("- [x] done\n- [ ] open\n");
    println!("{}", html);
    assert_eq!(html, "<ul>\n<li> done</li>\n<li> open</li>\n</ul>\n");
}

#[test]
fn smart_punctuation_is_substituted() {
    let html = render("\"quoted\" -- and --- dashes");
    assert_eq!(html, "<p>\u{201C}quoted\u{201D} \u{2013} and \u{2014} dashes</p>\n");
}

#[test]
fn bare_urls_become_links() {
    let html = render("see https://example.com/page now");
    assert_eq!(
        html,
        "<p>see <a href=\"https://example.com/page\" rel=\"noopener noreferrer\">https://example.com/page</a> now</p>\n"
    );
}

#[test]
fn malformed_markdown_still_renders() {
    assert!(render_markdown("**unclosed [link](".to_string()).is_ok());
    assert_eq!(render(""), "");
}

#[test]
fn sanitised_output_is_a_fixed_point() {
    let inputs = [
        "~~a~~ **b** <script>alert(1)</script>",
        "| a | b |\n|---|---|\n| 1 | 2 |\n",
        "- [x] done\n- [ ] open\n",
        "see https://example.com/page now",
        "<div onclick=\"x()\"><b>bold</b></div>",
    ];
    for input in inputs {
        let once = render(input);
        assert_eq!(sanitize_html(&once), once);
    }
}

#[test]
fn pipeline_switches_are_all_on() {
    let o = pipeline_options();
    assert!(o.smart && o.strikethrough && o.table && o.tasklist && o.autolink && o.raw_html);
}
