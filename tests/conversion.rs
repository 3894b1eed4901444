use mdwatch::convert::convert_document;
use mdwatch::markdown::markdown_to_html;
use mdwatch::template::{apply_template, is_partial_free};

#[test]
fn heading_becomes_h1() {
    assert_eq!(markdown_to_html("# Hi"), "<h1>Hi</h1>\n");
}

#[test]
fn empty_document_gives_empty_html() {
    assert_eq!(markdown_to_html(""), "");
}

#[test]
fn strikethrough_is_enabled() {
    let html = markdown_to_html("~~gone~~");
    assert_eq!(html, "<p><del>gone</del></p>\n");
    assert!(!html.contains("~~"));
}

#[test]
fn tables_are_enabled() {
    let html = markdown_to_html("| a | b |\n|---|---|\n| 1 | 2 |\n");
    assert!(html.contains("<table>"));
    assert!(html.contains("<th>a</th>"));
    assert!(html.contains("<td>2</td>"));
    assert!(html.contains("</table>"));
    assert!(!html.contains("|"));
}

#[test]
fn converting_twice_gives_the_same_html() {
    let md = "# Title\n\nSome *text* with ~~old~~ words.\n\n| x |\n|---|\n| 1 |\n";
    assert_eq!(markdown_to_html(md), markdown_to_html(md));
    let other = markdown_to_html("plain");
    assert_eq!(other, "<p>plain</p>\n");
    assert_eq!(markdown_to_html(md), markdown_to_html(md));
}

#[test]
fn no_template_keeps_html() {
    for h in ["", "<p>x</p>\n", "not html at all {{html}}"] {
        assert_eq!(apply_template(h, None), Ok(h.to_string()));
    }
}

#[test]
fn raw_placeholder_is_substituted_once() {
    let page = apply_template("<h1>Hi</h1>", Some("<body>{{{html}}}</body>\n")).unwrap();
    assert_eq!(page, "<body><h1>Hi</h1></body>\n");
}

#[test]
fn escaped_placeholder_escapes_html() {
    let page = apply_template("<b>", Some("[{{html}}]")).unwrap();
    assert_eq!(page, "[&lt;b&gt;]");
}

#[test]
fn template_without_placeholder_is_literal() {
    let page = apply_template("<p>x</p>", Some("static page")).unwrap();
    assert_eq!(page, "static page");
}

#[test]
fn broken_template_is_an_error() {
    let r = apply_template("<p>x</p>", Some("{{html}"));
    assert!(r.is_err());
    assert!(!r.unwrap_err().message().is_empty());
}

#[test]
fn document_through_template() {
    let page = convert_document("# Hi", Some("<main>{{{html}}}</main>")).unwrap();
    assert_eq!(page, "<main><h1>Hi</h1>\n</main>");
}

#[test]
fn document_without_template() {
    assert_eq!(convert_document("# Hi", None), Ok("<h1>Hi</h1>\n".to_string()));
}

#[test]
fn self_including_inline_partial_is_refused() {
    let t = "{{#*inline \"p\"}}{{> p}}{{/inline}}{{> p}}";
    assert!(!is_partial_free(t));
    assert!(apply_template("<p>x</p>", Some(t)).is_err());
    assert!(convert_document("# Hi", Some(t)).is_err());
}

#[test]
fn partials_and_decorators_are_refused() {
    for t in [
        "{{> header}}",
        "{{~> header}}",
        "{{ ~ > header}}",
        "{{#> layout}}x{{/layout}}",
        "{{# > layout}}x{{/layout}}",
        "{{*inline \"p\"}}",
        "{{#*inline \"p\"}}x{{/inline}}",
        "{{~#~*inline \"p\"}}x{{/inline}}",
    ] {
        assert!(!is_partial_free(t), "{}", t);
        assert!(apply_template("h", Some(t)).is_err(), "{}", t);
    }
}

#[test]
fn comment_with_markup_renders() {
    assert!(is_partial_free("{{!-- <b> --}}{{{html}}}"));
    let page = apply_template("<p>x</p>", Some("{{!-- <b> --}}{{{html}}}")).unwrap();
    assert_eq!(page, "<p>x</p>");
    let page = apply_template("<p>x</p>", Some("{{! it's the page }}<main>{{{html}}}</main>")).unwrap();
    assert_eq!(page, "<main><p>x</p></main>");
}

#[test]
fn blocks_and_literals_render() {
    let t = "{{#if html}}<main>{{{html}}}</main>{{^}}empty{{/if}}";
    assert!(is_partial_free(t));
    assert_eq!(apply_template("<p>x</p>", Some(t)).unwrap(), "<main><p>x</p></main>");
    assert_eq!(apply_template("", Some(t)).unwrap(), "empty");
    let t = "{{#if (eq html \"a>b\")}}same{{else}}other{{/if}}";
    assert!(is_partial_free(t));
    assert_eq!(apply_template("a>b", Some(t)).unwrap(), "same");
}

#[test]
fn placeholders_are_partial_free() {
    for t in ["{{{html}}}", "<b>{{html}}</b>", "{{&html}}", "no tags", "} {", "a > b * c"] {
        assert!(is_partial_free(t), "{}", t);
    }
}

#[test]
fn unclosed_tag_is_an_error() {
    assert!(is_partial_free("<p>{{html"));
    assert!(apply_template("x", Some("<p>{{html")).is_err());
}
