//! The four pages of the site, as HTML text.
//!
//! Titles and descriptions are escaped; a post's body is HTML written by its
//! author and stands in the page as it is.
use vstd::prelude::*;
use vstd::string::StringExecFns;
use crate::date::Date;
use crate::html::{decimal, escape_html, escaped, push_decimal};
use crate::post::{BlogCollection, BlogList};

verus! {

pub const PAGE_HEAD: &'static str = "<!DOCTYPE html>\n<html lang=\"en\">\n<head>\n<meta charset=\"utf-8\">\n<link rel=\"stylesheet\" href=\"/static/style.css\">\n<title>";

pub const PAGE_BODY: &'static str = "</title>\n</head>\n<body>\n";

pub const PAGE_END: &'static str = "</body>\n</html>\n";

pub const SITE_TITLE: &'static str = "Blog";

pub const HOME_CONTENT: &'static str = "<h1>Welcome</h1>\n<p><a href=\"/blog\">Read the blog</a></p>\n";

pub const NOT_FOUND_TITLE: &'static str = "Page not found";

pub const NOT_FOUND_CONTENT: &'static str = "<h1>404</h1>\n<p>There is no page here.</p>\n<p><a href=\"/\">Home</a></p>\n";

pub const ERROR_TITLE: &'static str = "Error";

pub const ERROR_CONTENT: &'static str = "<h1>Something went wrong</h1>\n<p>The page could not be produced. Please try again later.</p>\n";

pub const LIST_OPEN: &'static str = "<h1>Blog</h1>\n<section class=\"english\">\n<h2>English</h2>\n<ul>\n";

pub const LIST_MIDDLE: &'static str = "</ul>\n</section>\n<section class=\"norwegian\">\n<h2>Norsk</h2>\n<ul>\n";

pub const LIST_CLOSE: &'static str = "</ul>\n</section>\n";

pub const ITEM_LINK: &'static str = "<li><a href=\"/post/";

pub const ITEM_TITLE: &'static str = "\">";

pub const ITEM_DESCRIPTION: &'static str = "</a>\n<p>";

pub const ITEM_DATE: &'static str = "</p>\n<time>";

pub const ITEM_END: &'static str = "</time></li>\n";

pub const POST_TITLE: &'static str = "<article>\n<h1>";

pub const POST_DATE: &'static str = "</h1>\n<time>";

pub const POST_BODY: &'static str = "</time>\n<div class=\"post-body\">\n";

pub const POST_END: &'static str = "\n</div>\n</article>\n<p><a href=\"/blog\">Back to the blog</a></p>\n";

/// A whole page around its title and content.
pub open spec fn page_html(title: Seq<char>, content: Seq<char>) -> Seq<char> {
    PAGE_HEAD@ + title + PAGE_BODY@ + content + PAGE_END@
}

pub open spec fn home_html() -> Seq<char> {
    page_html(SITE_TITLE@, HOME_CONTENT@)
}

pub open spec fn not_found_html() -> Seq<char> {
    page_html(NOT_FOUND_TITLE@, NOT_FOUND_CONTENT@)
}

/// The page of any failure; it tells nothing of the failure itself.
pub open spec fn error_html() -> Seq<char> {
    page_html(ERROR_TITLE@, ERROR_CONTENT@)
}

/// One listing entry: a link to the post, its title, description and date.
pub open spec fn item_html(e: BlogList) -> Seq<char> {
    ITEM_LINK@ + decimal(e.id as int) + ITEM_TITLE@ + escaped(e.title@) + ITEM_DESCRIPTION@
        + escaped(e.description@) + ITEM_DATE@ + e.date.spec_text() + ITEM_END@
}

pub open spec fn items_html(entries: Seq<BlogList>) -> Seq<char>
    decreases entries.len(),
{
    if entries.len() == 0 {
        seq![]
    } else {
        items_html(entries.drop_last()) + item_html(entries.last())
    }
}

/// The listing page: the English section, then the other one.
pub open spec fn list_html(english: Seq<BlogList>, others: Seq<BlogList>) -> Seq<char> {
    page_html(
        SITE_TITLE@,
        LIST_OPEN@ + items_html(english) + LIST_MIDDLE@ + items_html(others) + LIST_CLOSE@,
    )
}

/// A post's page: its title, date and body.
pub open spec fn post_html(title: Seq<char>, date: Date, body: Seq<char>) -> Seq<char> {
    page_html(
        escaped(title),
        POST_TITLE@ + escaped(title) + POST_DATE@ + date.spec_text() + POST_BODY@ + body
            + POST_END@,
    )
}

fn page(title: &str, content: &str) -> (r: String)
    ensures
        r@ == page_html(title@, content@),
{
    let mut out = String::new();
    out.append(PAGE_HEAD);
    out.append(title);
    out.append(PAGE_BODY);
    out.append(content);
    out.append(PAGE_END);
    assert(out@ =~= page_html(title@, content@));
    out
}

pub fn render_home() -> (r: String)
    ensures
        r@ == home_html(),
{
    page(SITE_TITLE, HOME_CONTENT)
}

pub fn render_not_found() -> (r: String)
    ensures
        r@ == not_found_html(),
{
    page(NOT_FOUND_TITLE, NOT_FOUND_CONTENT)
}

pub fn render_error() -> (r: String)
    ensures
        r@ == error_html(),
{
    page(ERROR_TITLE, ERROR_CONTENT)
}

fn push_items(out: &mut String, entries: &Vec<BlogList>)
    ensures
        final(out)@ == old(out)@ + items_html(entries@),
{
    let ghost start = out@;
    let mut i: usize = 0;
    while i < entries.len()
        invariant
            i <= entries@.len(),
            out@ == start + items_html(entries@.take(i as int)),
        decreases entries@.len() - i,
    {
        let e = &entries[i];
        let ghost before = out@;
        out.append(ITEM_LINK);
        push_decimal(out, e.id);
        out.append(ITEM_TITLE);
        let title = escape_html(e.title.as_str());
        out.append(title.as_str());
        out.append(ITEM_DESCRIPTION);
        let description = escape_html(e.description.as_str());
        out.append(description.as_str());
        out.append(ITEM_DATE);
        let date = e.date.text();
        out.append(date.as_str());
        out.append(ITEM_END);
        assert(out@ =~= before + item_html(entries@[i as int]));
        assert(entries@.take(i as int + 1).drop_last() =~= entries@.take(i as int));
        i = i + 1;
    }
    assert(entries@.take(entries@.len() as int) =~= entries@);
}

pub fn render_post_list(collection: &BlogCollection) -> (r: String)
    ensures
        r@ == list_html(collection.english@, collection.norwegian@),
{
    let mut content = String::new();
    content.append(LIST_OPEN);
    push_items(&mut content, &collection.english);
    content.append(LIST_MIDDLE);
    push_items(&mut content, &collection.norwegian);
    content.append(LIST_CLOSE);
    assert(content@ =~= LIST_OPEN@ + items_html(collection.english@) + LIST_MIDDLE@ + items_html(
        collection.norwegian@,
    ) + LIST_CLOSE@);
    page(SITE_TITLE, content.as_str())
}

/// The page of a post whose body has been decoded to `body`.
pub fn render_post_detail(title: &str, date: &Date, body: &str) -> (r: String)
    ensures
        r@ == post_html(title@, *date, body@),
{
    let safe_title = escape_html(title);
    let mut content = String::new();
    content.append(POST_TITLE);
    content.append(safe_title.as_str());
    content.append(POST_DATE);
    let date_text = date.text();
    content.append(date_text.as_str());
    content.append(POST_BODY);
    content.append(body);
    content.append(POST_END);
    assert(content@ =~= POST_TITLE@ + escaped(title@) + POST_DATE@ + date.spec_text() + POST_BODY@
        + body@ + POST_END@);
    page(safe_title.as_str(), content.as_str())
}

} // verus!
