use vstd::prelude::*;
use crate::task::Task;

verus! {

/// The text with each `&` written as `&amp;`.
pub open spec fn amp_escaped(s: Seq<char>) -> Seq<char>
    decreases s.len(),
{
    if s.len() == 0 {
        s
    } else {
        amp_escaped(s.drop_last()) + if s.last() == '&' {
            "&amp;"@
        } else {
            seq![s.last()]
        }
    }
}

/// The hyperlink shown for a URL.
pub open spec fn link_text(url: Seq<char>) -> Seq<char> {
    "<a href=\""@ + amp_escaped(url) + "\">"@ + amp_escaped(url) + "</a>"@
}

/// The text with every URL (`scheme://` and what follows up to white space)
/// replaced by its `link_text`.
pub uninterp spec fn links_marked(s: Seq<char>) -> Seq<char>;

/// The text with every `+project` or `@context` tag that starts the text or
/// follows white space wrapped in `<b>` and `</b>`, the white space kept.
pub uninterp spec fn tags_marked(s: Seq<char>) -> Seq<char>;

/// Relies on str::replace: every `&` replaced by `&amp;`, the rest kept.
#[verifier::external_body]
fn replace_amp(s: &str) -> (r: String)
    ensures
        r@ == amp_escaped(s@),
{
    s.replace("&", "&amp;")
}

/// The hyperlink for a URL; the `&` in it are escaped.
pub fn link(url: &str) -> (r: String)
    ensures
        r@ == link_text(url@),
{
    let esc = replace_amp(url);
    let mut r = String::from_str("<a href=\"");
    r.append(esc.as_str());
    r.append("\">");
    r.append(esc.as_str());
    r.append("</a>");
    proof {
        reveal_strlit("<a href=\"");
        reveal_strlit("\">");
        reveal_strlit("</a>");
    }
    assert(r@ =~= link_text(url@));
    r
}

/// Relies on regex::Regex::replace_all with the pattern `[\w]+://[^\s]+`,
/// each match handed to `link`.
#[verifier::external_body]
fn mark_links(s: &str) -> (r: String)
    ensures
        r@ == links_marked(s@),
{
    let regex = regex::Regex::new("(?P<url>[\\w]+://[^\\s]+)").unwrap();
    regex.replace_all(s, |caps: &regex::Captures| link(&caps[1])).into_owned()
}

/// Relies on regex::Regex::replace_all with the pattern
/// `(^|[\s])([\+@][\w-]+)` and the replacement `$space<b>$tag</b>`.
#[verifier::external_body]
fn mark_tags(s: &str) -> (r: String)
    ensures
        r@ == tags_marked(s@),
{
    let regex = regex::Regex::new("(?P<space>^|[\\s])(?P<tag>[\\+@][\\w-]+)").unwrap();
    regex.replace_all(s, "$space<b>$tag</b>").into_owned()
}

impl Task {
    /// The subject for display: URLs become hyperlinks, then tags are set
    /// in bold. The task is not changed.
    pub fn markup_subject(&self) -> (r: String)
        ensures
            r@ == tags_marked(links_marked(self.base.subject@)),
    {
        let linked = mark_links(self.base.subject.as_str());
        mark_tags(linked.as_str())
    }
}

} // verus!
