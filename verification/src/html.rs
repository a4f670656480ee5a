//! The markup document handed to the embedded control surface.
//!
//! The document is a fixed page: a head that carries the style sheet inline,
//! and a body that carries the script bundle inline. The style text and the
//! script text are supplied by the embedding program; this module wraps them
//! in their tags and assembles the page around them.

use vstd::prelude::*;
use vstd::string::StringExecFns;

verus! {

/// The script text `s` wrapped in its inline tag.
pub open spec fn script_markup(s: Seq<char>) -> Seq<char> {
    "<script type=\"text/javascript\">"@ + s + "</script>"@
}

/// The style text `s` wrapped in its inline tag.
pub open spec fn style_markup(s: Seq<char>) -> Seq<char> {
    "<style type=\"text/css\">"@ + s + "</style>"@
}

/// The part of the page before the inline style.
pub open spec fn page_head() -> Seq<char> {
    "<!doctype html>\n<html>\n<head>\n<meta charset=\"utf-8\">\n<meta name=\"viewport\" content=\"width=device-width, initial-scale=1.0\">\n"@
}

/// The part of the page between the inline style and the inline script.
pub open spec fn page_body_open() -> Seq<char> {
    "\n</head>\n<body>\n<div id=\"app\"></div>\n<!--[if lt IE 9]>\n<div class=\"ie-upgrade-container\">\n<p class=\"ie-upgrade-message\">Please, upgrade Internet Explorer to continue using this software.</p>\n<a class=\"ie-upgrade-link\" target=\"_blank\" href=\"https://www.microsoft.com/en-us/download/internet-explorer.aspx\">Upgrade</a>\n</div>\n<![endif]-->\n<!--[if gte IE 9 | !IE ]> <!-->\n"@
}

/// The part of the page after the inline script.
pub open spec fn page_tail() -> Seq<char> {
    "\n<![endif]-->\n</body>\n</html>\n"@
}

/// The whole page around the given style and script text.
pub open spec fn page_markup(style: Seq<char>, script: Seq<char>) -> Seq<char> {
    page_head() + style_markup(style) + page_body_open() + script_markup(script) + page_tail()
}

/// Wrap a script in its inline tag.
pub fn inline_script(s: &str) -> (r: String)
    ensures
        r@ == script_markup(s@),
{
    let mut r = String::from_str("<script type=\"text/javascript\">");
    r.append(s);
    r.append("</script>");
    assert(r@ =~= script_markup(s@));
    r
}

/// Wrap a style sheet in its inline tag.
pub fn inline_style(s: &str) -> (r: String)
    ensures
        r@ == style_markup(s@),
{
    let mut r = String::from_str("<style type=\"text/css\">");
    r.append(s);
    r.append("</style>");
    assert(r@ =~= style_markup(s@));
    r
}

/// Assemble the control-surface page around the given style sheet and
/// script bundle.
pub fn get_html(style: &str, script: &str) -> (r: String)
    ensures
        r@ == page_markup(style@, script@),
{
    let mut r = String::from_str(
        "<!doctype html>\n<html>\n<head>\n<meta charset=\"utf-8\">\n<meta name=\"viewport\" content=\"width=device-width, initial-scale=1.0\">\n",
    );
    let styled = inline_style(style);
    r.append(styled.as_str());
    r.append(
        "\n</head>\n<body>\n<div id=\"app\"></div>\n<!--[if lt IE 9]>\n<div class=\"ie-upgrade-container\">\n<p class=\"ie-upgrade-message\">Please, upgrade Internet Explorer to continue using this software.</p>\n<a class=\"ie-upgrade-link\" target=\"_blank\" href=\"https://www.microsoft.com/en-us/download/internet-explorer.aspx\">Upgrade</a>\n</div>\n<![endif]-->\n<!--[if gte IE 9 | !IE ]> <!-->\n",
    );
    let scripted = inline_script(script);
    r.append(scripted.as_str());
    r.append("\n<![endif]-->\n</body>\n</html>\n");
    assert(r@ =~= page_markup(style@, script@));
    r
}

} // verus!
