//! What each route answers, given what the store returned.
//!
//! The store is read by the caller; these functions take its result and decide
//! the status and the page.
use vstd::prelude::*;
use crate::codec::{decode_body, decoded_body};
use crate::post::{group_posts, others_of, english_of, BlogPostDetail, BlogPostSummary};
use crate::view::{
    error_html, home_html, list_html, not_found_html, post_html, render_error, render_home,
    render_not_found, render_post_detail, render_post_list,
};

verus! {

pub const OK: u16 = 200;

pub const NOT_FOUND: u16 = 404;

pub const INTERNAL_SERVER_ERROR: u16 = 500;

/// A response: its status code and its HTML.
#[derive(Debug)]
pub struct Page {
    pub status: u16,
    pub body: String,
}

impl View for Page {
    type V = (u16, Seq<char>);

    open spec fn view(&self) -> (u16, Seq<char>) {
        (self.status, self.body@)
    }
}

/// The store could not run the query.
#[derive(Clone, Copy, Debug, PartialEq, Eq)]
pub enum StoreError {
    Unavailable,
}

/// Why the single post query gave no post.
#[derive(Clone, Copy, Debug, PartialEq, Eq)]
pub enum LookupError {
    /// No post has the id.
    NotFound,
    /// The store could not run the query.
    StoreUnavailable,
}

pub open spec fn is_digit(c: char) -> bool {
    '0' <= c && c <= '9'
}

pub open spec fn digit_value(c: char) -> int {
    c as int - '0' as int
}

/// The value of a string of decimal digits.
pub open spec fn digits_value(s: Seq<char>) -> int
    decreases s.len(),
{
    if s.len() == 0 {
        0
    } else {
        digits_value(s.drop_last()) * 10 + digit_value(s.last())
    }
}

pub open spec fn all_digits(s: Seq<char>) -> bool {
    forall|i: int| 0 <= i < s.len() ==> is_digit(#[trigger] s[i])
}

/// The post id that a path segment names: a positive `i32` in decimal, with
/// an optional leading `+`.
pub open spec fn parsed_id(s: Seq<char>) -> Option<int> {
    let digits = if s.len() > 0 && s[0] == '+' {
        s.drop_first()
    } else {
        s
    };
    if digits.len() > 0 && all_digits(digits) && 1 <= digits_value(digits) <= i32::MAX {
        Some(digits_value(digits))
    } else {
        None
    }
}

proof fn lemma_digits_value_nonneg(s: Seq<char>)
    requires
        all_digits(s),
    ensures
        digits_value(s) >= 0,
    decreases s.len(),
{
    if s.len() > 0 {
        lemma_digits_value_nonneg(s.drop_last());
    }
}

/// Reads the id of `/post/{id}`.
pub fn post_id(param: &str) -> (r: Option<i32>)
    ensures
        match r {
            Some(id) => parsed_id(param@) == Some(id as int),
            None => parsed_id(param@) is None,
        },
{
    let n = param.unicode_len();
    let start: usize = if n > 0 && param.get_char(0) == '+' {
        1
    } else {
        0
    };
    let ghost digits = param@.subrange(start as int, n as int);
    assert(digits =~= if param@.len() > 0 && param@[0] == '+' {
        param@.drop_first()
    } else {
        param@
    });
    if start == n {
        return None;
    }
    let mut value: i64 = 0;
    let mut over = false;
    let mut i: usize = start;
    while i < n
        invariant
            start <= i <= n,
            n == param@.len(),
            digits == param@.subrange(start as int, n as int),
            digits == if param@.len() > 0 && param@[0] == '+' {
                param@.drop_first()
            } else {
                param@
            },
            all_digits(param@.subrange(start as int, i as int)),
            !over ==> value == digits_value(param@.subrange(start as int, i as int)),
            !over ==> 0 <= value <= i32::MAX,
            over ==> digits_value(param@.subrange(start as int, i as int)) > i32::MAX,
        decreases n - i,
    {
        let c = param.get_char(i);
        if c < '0' || c > '9' {
            assert(!is_digit(digits[i - start]));
            return None;
        }
        let ghost prefix = param@.subrange(start as int, i as int);
        let ghost next = param@.subrange(start as int, i as int + 1);
        assert(next.drop_last() =~= prefix);
        assert(next.last() == c);
        proof {
            lemma_digits_value_nonneg(prefix);
        }
        let d: i64 = (c as u32 - '0' as u32) as i64;
        if !over {
            value = value * 10 + d;
            if value > i32::MAX as i64 {
                over = true;
            }
        }
        i = i + 1;
    }
    assert(param@.subrange(start as int, n as int) == digits);
    if over || value < 1 {
        None
    } else {
        Some(value as i32)
    }
}

/// The answer of `/post/{id}` once the store has answered for the id.
pub open spec fn lookup_page(lookup: Result<BlogPostDetail, LookupError>) -> (u16, Seq<char>) {
    match lookup {
        Ok(post) => match decoded_body(post.body@) {
            Some(body) => (OK, post_html(post.title@, post.date, body)),
            None => (INTERNAL_SERVER_ERROR, error_html()),
        },
        Err(LookupError::NotFound) => (NOT_FOUND, not_found_html()),
        Err(LookupError::StoreUnavailable) => (INTERNAL_SERVER_ERROR, error_html()),
    }
}

/// The answer of `/post/{param}`: a segment that names no id is answered as a
/// missing post, without asking the store.
pub open spec fn post_route_page(param: Seq<char>, lookup: Result<BlogPostDetail, LookupError>) -> (
    u16,
    Seq<char>,
) {
    match parsed_id(param) {
        Some(_) => lookup_page(lookup),
        None => (NOT_FOUND, not_found_html()),
    }
}

/// The answer of `/blog` once the store has answered.
pub open spec fn blog_page(rows: Result<Vec<BlogPostSummary>, StoreError>) -> (u16, Seq<char>) {
    match rows {
        Ok(rows) => (OK, list_html(english_of(rows@), others_of(rows@))),
        Err(_) => (INTERNAL_SERVER_ERROR, error_html()),
    }
}

/// `/`: the home page.
pub fn index() -> (r: Page)
    ensures
        r@ == (OK, home_html()),
{
    Page { status: OK, body: render_home() }
}

/// Any path that no route serves.
pub fn h404() -> (r: Page)
    ensures
        r@ == (NOT_FOUND, not_found_html()),
{
    Page { status: NOT_FOUND, body: render_not_found() }
}

fn internal_error() -> (r: Page)
    ensures
        r@ == (INTERNAL_SERVER_ERROR, error_html()),
{
    Page { status: INTERNAL_SERVER_ERROR, body: render_error() }
}

/// `/blog`, given the rows of the listing query.
pub fn blog(rows: Result<Vec<BlogPostSummary>, StoreError>) -> (r: Page)
    ensures
        r@ == blog_page(rows),
{
    match rows {
        Ok(rows) => {
            let collection = group_posts(&rows);
            Page { status: OK, body: render_post_list(&collection) }
        },
        Err(_) => internal_error(),
    }
}

/// `/post/{id}`, given the store's answer for the id.
pub fn get_blogpost(lookup: Result<BlogPostDetail, LookupError>) -> (r: Page)
    ensures
        r@ == lookup_page(lookup),
{
    match lookup {
        Ok(post) => match decode_body(post.body.as_str()) {
            Ok(body) => Page {
                status: OK,
                body: render_post_detail(post.title.as_str(), &post.date, body.as_str()),
            },
            Err(_) => internal_error(),
        },
        Err(LookupError::NotFound) => h404(),
        Err(LookupError::StoreUnavailable) => internal_error(),
    }
}

/// A missing post and a segment that is no id get the same answer: the
/// not-found page, with status 404.
pub proof fn lemma_missing_post_reads_as_malformed_id(
    missing: Seq<char>,
    malformed: Seq<char>,
    lookup: Result<BlogPostDetail, LookupError>,
)
    requires
        parsed_id(missing) is Some,
        parsed_id(malformed) is None,
    ensures
        post_route_page(missing, Err(LookupError::NotFound)) == post_route_page(malformed, lookup),
        post_route_page(malformed, lookup) == (NOT_FOUND, not_found_html()),
{
}

} // verus!
