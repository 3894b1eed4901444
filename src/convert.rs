use vstd::prelude::*;
use crate::markdown::{html_of, markdown_to_html};
use crate::template::{apply_template, page_of, TemplateError};

verus! {

/// The template source as a sequence of characters, where there is one.
pub open spec fn template_view(template: Option<&str>) -> Option<Seq<char>> {
    match template {
        None => None,
        Some(t) => Some(t@),
    }
}

/// Turns Markdown text into the page to write: its HTML, rendered through
/// the template source where one is given.
pub fn convert_document(md: &str, template: Option<&str>) -> (r: Result<String, TemplateError>)
    ensures
        match r {
            Ok(s) => page_of(html_of(md@), template_view(template)) == Some(s@),
            Err(_) => page_of(html_of(md@), template_view(template)) is None,
        },
        template is None ==> r is Ok,
{
    let html = markdown_to_html(md);
    apply_template(html.as_str(), template)
}

} // verus!
