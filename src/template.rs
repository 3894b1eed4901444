use vstd::prelude::*;
use vstd::string::StringExecFns;

verus! {

/// What handlebars renders from the template source `template` with the single
/// variable `key` bound to the string `value`; `None` where it reports an error
/// (the source does not parse, or rendering fails).
pub uninterp spec fn handlebars_output(
    template: Seq<char>,
    key: Seq<char>,
    value: Seq<char>,
) -> Option<Seq<char>>;

/// The name of the one variable a template sees.
pub open spec fn placeholder_name() -> Seq<char> {
    seq!['h', 't', 'm', 'l']
}

/// `{{` opens at index `i` of `t`.
pub open spec fn opens_at(t: Seq<char>, i: int) -> bool {
    0 <= i && i + 1 < t.len() && t[i] == '{' && t[i + 1] == '{'
}

/// Whitespace, or the `~` that trims it, as handlebars allows them between
/// the parts of a tag's opening.
pub open spec fn is_pad(c: char) -> bool {
    c == ' ' || c == '\t' || c == '\n' || c == '\r' || c == '~'
}

/// The first index at or after `j` whose character is not padding (`t.len()`
/// where there is none).
pub open spec fn skip_pad(t: Seq<char>, j: int) -> int
    decreases t.len() - j,
{
    if 0 <= j < t.len() && is_pad(t[j]) {
        skip_pad(t, j + 1)
    } else {
        j
    }
}

/// A partial (`>`) or decorator (`*`) mark at index `j` of `t`.
pub open spec fn is_partial_mark_at(t: Seq<char>, j: int) -> bool {
    0 <= j < t.len() && (t[j] == '>' || t[j] == '*')
}

/// The `{{` at index `i` opens a partial or a decorator: `{{>`, `{{*`, `{{#>`
/// or `{{#*`, with padding allowed after `{{` and after `#`.
pub open spec fn opens_partial_at(t: Seq<char>, i: int) -> bool {
    let j = skip_pad(t, i + 2);
    &&& opens_at(t, i)
    &&& (is_partial_mark_at(t, j) || (0 <= j < t.len() && t[j] == '#' && is_partial_mark_at(
        t,
        skip_pad(t, j + 1),
    )))
}

/// A template in which no `{{` opens a partial or a decorator (which defines
/// inline partials): only partials can include a template in itself, so
/// rendering such a template does not recurse.
pub open spec fn partial_free(t: Seq<char>) -> bool {
    forall|i: int| !#[trigger] opens_partial_at(t, i)
}

/// The page written for `html`: the HTML itself without a template, else the
/// template rendered with `html` bound to the HTML (`None` where the template
/// holds a partial or a decorator, or rendering fails).
pub open spec fn page_of(html: Seq<char>, template: Option<Seq<char>>) -> Option<Seq<char>> {
    match template {
        None => Some(html),
        Some(t) => if partial_free(t) {
            handlebars_output(t, placeholder_name(), html)
        } else {
            None
        },
    }
}

/// Why a template could not be rendered, in handlebars' words.
#[derive(Debug, Clone, PartialEq, Eq)]
pub struct TemplateError {
    pub reason: String,
}

impl TemplateError {
    /// The diagnostic line for this failure.
    pub fn message(&self) -> (r: String)
        ensures
            r@ == self.reason@,
    {
        self.reason.clone()
    }
}

/// Relies on handlebars::Handlebars::render_template on a fresh registry, with
/// a JSON object of one string field as data: the outcome depends on the
/// template source, the field's name and its value alone. Only templates free of
/// partials are handed over: an inline partial that includes itself recurses
/// without end.
#[verifier::external_body]
fn handlebars_render(template: &str, key: &str, value: &str) -> (r: Result<String, String>)
    requires
        partial_free(template@),
    ensures
        match r {
            Ok(s) => handlebars_output(template@, key@, value@) == Some(s@),
            Err(_) => handlebars_output(template@, key@, value@) is None,
        },
{
    let registry = handlebars::Handlebars::new();
    let mut data = serde_json::Map::new();
    data.insert(key.to_string(), serde_json::Value::String(value.to_string()));
    registry
        .render_template(template, &serde_json::Value::Object(data))
        .map_err(|e| e.to_string())
}

/// The first index at or after `j` whose character is not padding.
fn skip_pad_from(cs: &Vec<char>, j: usize) -> (r: usize)
    requires
        j <= cs@.len(),
    ensures
        r as int == skip_pad(cs@, j as int),
        j <= r <= cs@.len(),
{
    let mut k: usize = j;
    while k < cs.len() && (cs[k] == ' ' || cs[k] == '\t' || cs[k] == '\n' || cs[k] == '\r'
        || cs[k] == '~')
        invariant
            j <= k <= cs@.len(),
            skip_pad(cs@, j as int) == skip_pad(cs@, k as int),
        decreases cs@.len() - k,
    {
        k = k + 1;
    }
    k
}

/// Whether no tag of the template source opens a partial or a decorator.
pub fn is_partial_free(t: &str) -> (r: bool)
    ensures
        r == partial_free(t@),
{
    let n = t.unicode_len();
    let mut cs: Vec<char> = Vec::new();
    let mut p: usize = 0;
    while p < n
        invariant
            p <= n == t@.len(),
            cs@ == t@.subrange(0, p as int),
        decreases n - p,
    {
        cs.push(t.get_char(p));
        p = p + 1;
        assert(cs@ =~= t@.subrange(0, p as int));
    }
    assert(cs@ =~= t@);
    let mut i: usize = 0;
    while i < n
        invariant
            i <= n == t@.len(),
            cs@ == t@,
            forall|i0: int| 0 <= i0 < i ==> !#[trigger] opens_partial_at(t@, i0),
        decreases n - i,
    {
        if i + 1 < n && cs[i] == '{' && cs[i + 1] == '{' {
            let j = skip_pad_from(&cs, i + 2);
            if j < n && (cs[j] == '>' || cs[j] == '*') {
                assert(opens_partial_at(t@, i as int));
                return false;
            }
            if j < n && cs[j] == '#' {
                let k = skip_pad_from(&cs, j + 1);
                if k < n && (cs[k] == '>' || cs[k] == '*') {
                    assert(opens_partial_at(t@, i as int));
                    return false;
                }
            }
        }
        i = i + 1;
    }
    assert forall|i0: int| !#[trigger] opens_partial_at(t@, i0) by {
        if 0 <= i0 < n {
        } else {
            assert(!opens_at(t@, i0));
        }
    }
    true
}

/// Renders the HTML through the template source, if there is one. Without a
/// template the HTML is returned unchanged; a template that holds a partial or
/// a decorator is refused.
pub fn apply_template(html: &str, template: Option<&str>) -> (r: Result<String, TemplateError>)
    ensures
        match template {
            None => r is Ok && r->Ok_0@ == html@,
            Some(t) => {
                &&& !partial_free(t@) ==> r is Err
                &&& match r {
                    Ok(s) => page_of(html@, Some(t@)) == Some(s@),
                    Err(_) => page_of(html@, Some(t@)) is None,
                }
            },
        },
{
    match template {
        None => Ok(String::from_str(html)),
        Some(t) => {
            if !is_partial_free(t) {
                let reason = String::from_str(
                    "a template may not hold partials ({{> ...}}) or decorators ({{* ...}})",
                );
                return Err(TemplateError { reason });
            }
            let key = String::from_str("html");
            proof {
                reveal_strlit("html");
                assert(key@ =~= placeholder_name());
            }
            match handlebars_render(t, key.as_str(), html) {
                Ok(s) => Ok(s),
                Err(reason) => Err(TemplateError { reason }),
            }
        },
    }
}

/// Without a template the page is the HTML itself, whatever the HTML is.
pub proof fn lemma_template_identity(html: Seq<char>)
    ensures
        page_of(html, None) == Some(html),
{
}

} // verus!
