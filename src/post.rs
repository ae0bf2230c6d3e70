use crate::front_matter::{FrontMatter, Timestamp};
use vstd::prelude::*;

verus! {

/// One assembled blog entry. `path` is the name of the directory it was read
/// from, which is also its URL slug.
#[derive(Debug, Clone)]
pub struct Post {
    pub title: String,
    pub date: Timestamp,
    pub description: Option<String>,
    pub html: String,
    pub path: String,
    pub image: Option<String>,
}

/// The view of an optional string.
pub open spec fn opt_view(o: Option<String>) -> Option<Seq<char>> {
    match o {
        Some(s) => Some(s@),
        None => None,
    }
}

/// What the Markdown engine renders a document into under the given options
/// (front-matter recognition, raw HTML passthrough).
pub uninterp spec fn markdown_html(doc: Seq<char>, frontmatter: bool, raw_html: bool) -> Seq<char>;

/// Relies on `markdown::to_html_with_options`: it renders the document with
/// the front-matter construct and `allow_dangerous_html` set as asked, the
/// other options at their defaults. Its documentation states that it errors
/// only when MDX is turned on, which these options never do.
#[verifier::external_body]
fn markdown_to_html(doc: &str, frontmatter: bool, raw_html: bool) -> (r: String)
    ensures
        r@ == markdown_html(doc@, frontmatter, raw_html),
{
    let options = markdown::Options {
        parse: markdown::ParseOptions {
            constructs: markdown::Constructs { frontmatter, ..Default::default() },
            ..Default::default()
        },
        compile: markdown::CompileOptions { allow_dangerous_html: raw_html, ..Default::default() },
    };
    markdown::to_html_with_options(doc, &options).unwrap_or_default()
}

/// The HTML of a post body: the whole content file is rendered, the renderer
/// skipping the metadata block itself and passing embedded HTML through.
pub open spec fn rendered_body(contents: Seq<char>) -> Seq<char> {
    markdown_html(contents, true, true)
}

/// Renders a whole content file (metadata block included) to HTML, with raw
/// HTML passed through unescaped.
pub fn render_body(contents: &str) -> (r: String)
    ensures
        r@ == rendered_body(contents@),
{
    markdown_to_html(contents, true, true)
}

/// The pattern for a double-quoted `src` attribute, its value captured.
pub open spec fn src_attr_pattern() -> Seq<char> {
    seq!['s', 'r', 'c', '=', '"', '(', '[', '^', '"', ']', '+', ')', '"']
}

/// The text that opens a `src` attribute.
pub open spec fn src_attr_open() -> Seq<char> {
    seq!['s', 'r', 'c', '=', '"']
}

/// The index of the first double quote in `t` at or after `k`, or `t.len()`.
pub open spec fn next_quote(t: Seq<char>, k: int) -> int
    decreases t.len() - k,
{
    if k < 0 || k >= t.len() {
        t.len() as int
    } else if t[k] == '"' {
        k
    } else {
        next_quote(t, k + 1)
    }
}

/// The value of the leftmost `src="..."` in `t` at or after `i` whose value
/// is non-empty and closed by a quote.
pub open spec fn first_src_from(t: Seq<char>, i: int) -> Option<Seq<char>>
    decreases t.len() - i,
{
    if i < 0 || i + 5 >= t.len() {
        None
    } else if t.subrange(i, i + 5) == src_attr_open() && t[i + 5] != '"' && next_quote(t, i + 5)
        < t.len() {
        Some(t.subrange(i + 5, next_quote(t, i + 5)))
    } else {
        first_src_from(t, i + 1)
    }
}

/// The value of the first `src="..."` attribute in `t`.
pub open spec fn first_src(t: Seq<char>) -> Option<Seq<char>> {
    first_src_from(t, 0)
}

/// Relies on `regex::Regex::new`, `Regex::captures` and `Captures::get`: with
/// the pattern `src="([^"]+)"`, the leftmost match's first group is the
/// non-empty run of non-quote characters after the leftmost `src="` that has
/// one and a closing quote.
#[verifier::external_body]
fn first_capture(pattern: &str, text: &str) -> (r: Option<String>)
    requires
        pattern@ == src_attr_pattern(),
    ensures
        opt_view(r) == first_src(text@),
{
    let re = regex::Regex::new(pattern).ok()?;
    re.captures(text).and_then(|c| c.get(1)).map(|m| m.as_str().to_string())
}

/// The cover image of a post: the front matter's image if it names one,
/// else the first `src` attribute value in the rendered HTML, else none.
pub open spec fn resolved_image(explicit: Option<Seq<char>>, html: Seq<char>) -> Option<Seq<char>> {
    match explicit {
        Some(i) => Some(i),
        None => first_src(html),
    }
}

/// Resolves a post's cover image from its explicit image and rendered HTML.
pub fn resolve_image(explicit: Option<String>, html: &str) -> (r: Option<String>)
    ensures
        opt_view(r) == resolved_image(opt_view(explicit), html@),
        explicit is Some ==> r == explicit,
{
    match explicit {
        Some(i) => Some(i),
        None => {
            let pattern = "src=\"([^\"]+)\"";
            proof {
                reveal_strlit("src=\"([^\"]+)\"");
                assert(pattern@ =~= src_attr_pattern());
            }
            first_capture(pattern, html)
        },
    }
}

/// Assembles the post stored under directory `path` from its content file
/// and its decoded front matter.
pub fn get_post_for_path(path: &String, contents: &str, front_matter: FrontMatter) -> (r: Post)
    ensures
        r.path == *path,
        r.title == front_matter.title,
        r.date == front_matter.date,
        r.description == front_matter.description,
        r.html@ == rendered_body(contents@),
        opt_view(r.image) == resolved_image(opt_view(front_matter.image), r.html@),
{
    let html = render_body(contents);
    let image = resolve_image(front_matter.image, html.as_str());
    Post {
        title: front_matter.title,
        date: front_matter.date,
        description: front_matter.description,
        html,
        path: path.clone(),
        image,
    }
}

/// Rendering depends on the document text alone: the same text renders to
/// the same HTML every time.
pub proof fn lemma_rendering_repeatable(first: Seq<char>, second: Seq<char>)
    requires
        first == second,
    ensures
        rendered_body(first) == rendered_body(second),
{
}

} // verus!
