//! Post records as the store gives them, and the listing grouped by language.
use vstd::prelude::*;
use crate::date::Date;

verus! {

/// A row of the post listing query.
#[derive(Debug)]
pub struct BlogPostSummary {
    pub id: i32,
    pub title: String,
    pub lang: String,
    pub short_desc: String,
    pub date: Date,
}

/// A row of the single post query; `body` is still base64.
#[derive(Debug)]
pub struct BlogPostDetail {
    pub title: String,
    pub body: String,
    pub date: Date,
}

/// One entry of the post listing.
#[derive(Debug)]
pub struct BlogList {
    pub id: i32,
    pub title: String,
    pub description: String,
    pub date: Date,
}

/// The post listing in two sections: English posts, and all others.
#[derive(Debug)]
pub struct BlogCollection {
    pub english: Vec<BlogList>,
    pub norwegian: Vec<BlogList>,
}

/// A post belongs to the English section when its language tag is exactly `en`.
pub open spec fn is_english(post: BlogPostSummary) -> bool {
    post.lang@ == seq!['e', 'n']
}

/// The listing entry of a post.
pub open spec fn entry_of(post: BlogPostSummary) -> BlogList {
    BlogList { id: post.id, title: post.title, description: post.short_desc, date: post.date }
}

/// The entries of the English posts, in the order of the rows.
pub open spec fn english_of(rows: Seq<BlogPostSummary>) -> Seq<BlogList>
    decreases rows.len(),
{
    if rows.len() == 0 {
        seq![]
    } else if is_english(rows.last()) {
        english_of(rows.drop_last()).push(entry_of(rows.last()))
    } else {
        english_of(rows.drop_last())
    }
}

/// The entries of the posts in any other language, in the order of the rows.
pub open spec fn others_of(rows: Seq<BlogPostSummary>) -> Seq<BlogList>
    decreases rows.len(),
{
    if rows.len() == 0 {
        seq![]
    } else if is_english(rows.last()) {
        others_of(rows.drop_last())
    } else {
        others_of(rows.drop_last()).push(entry_of(rows.last()))
    }
}

fn is_english_tag(lang: &String) -> (r: bool)
    ensures
        r == (lang@ == seq!['e', 'n']),
{
    let s = lang.as_str();
    let r = s.unicode_len() == 2 && s.get_char(0) == 'e' && s.get_char(1) == 'n';
    proof {
        if r {
            assert(lang@ =~= seq!['e', 'n']);
        }
    }
    r
}

/// Groups the rows of the listing query by language, keeping their order.
pub fn group_posts(rows: &Vec<BlogPostSummary>) -> (r: BlogCollection)
    ensures
        r.english@ == english_of(rows@),
        r.norwegian@ == others_of(rows@),
{
    let mut english: Vec<BlogList> = Vec::new();
    let mut norwegian: Vec<BlogList> = Vec::new();
    let mut i: usize = 0;
    while i < rows.len()
        invariant
            i <= rows@.len(),
            english@ == english_of(rows@.take(i as int)),
            norwegian@ == others_of(rows@.take(i as int)),
        decreases rows@.len() - i,
    {
        let row = &rows[i];
        let entry = BlogList {
            id: row.id,
            title: row.title.clone(),
            description: row.short_desc.clone(),
            date: row.date,
        };
        assert(rows@.take(i as int + 1).drop_last() =~= rows@.take(i as int));
        if is_english_tag(&row.lang) {
            english.push(entry);
        } else {
            norwegian.push(entry);
        }
        i = i + 1;
    }
    assert(rows@.take(rows@.len() as int) =~= rows@);
    BlogCollection { english, norwegian }
}

/// Every post of the listing lands in exactly one section: English posts in
/// the English one, all others in the other, and nothing else appears there.
pub proof fn lemma_sections_partition(rows: Seq<BlogPostSummary>)
    ensures
        english_of(rows).len() + others_of(rows).len() == rows.len(),
        forall|i: int|
            0 <= i < rows.len() && is_english(#[trigger] rows[i]) ==> english_of(rows).contains(
                entry_of(rows[i]),
            ),
        forall|i: int|
            0 <= i < rows.len() && !is_english(#[trigger] rows[i]) ==> others_of(rows).contains(
                entry_of(rows[i]),
            ),
        forall|k: int|
            0 <= k < english_of(rows).len() ==> exists|i: int|
                0 <= i < rows.len() && is_english(#[trigger] rows[i]) && #[trigger] english_of(rows)[k]
                    == entry_of(rows[i]),
        forall|k: int|
            0 <= k < others_of(rows).len() ==> exists|i: int|
                0 <= i < rows.len() && !is_english(#[trigger] rows[i]) && #[trigger] others_of(rows)[k]
                    == entry_of(rows[i]),
    decreases rows.len(),
{
    if rows.len() > 0 {
        let front = rows.drop_last();
        let n = rows.len() - 1;
        lemma_sections_partition(front);
        assert forall|i: int| 0 <= i < rows.len() && is_english(#[trigger] rows[i]) implies english_of(
            rows,
        ).contains(entry_of(rows[i])) by {
            if i < n {
                assert(front[i] == rows[i]);
                let k = choose|k: int| 0 <= k < english_of(front).len() && english_of(front)[k] == entry_of(front[i]);
                assert(english_of(rows)[k] == entry_of(rows[i]));
            } else {
                assert(english_of(rows).last() == entry_of(rows[i]));
            }
        }
        assert forall|i: int| 0 <= i < rows.len() && !is_english(#[trigger] rows[i]) implies others_of(
            rows,
        ).contains(entry_of(rows[i])) by {
            if i < n {
                assert(front[i] == rows[i]);
                let k = choose|k: int| 0 <= k < others_of(front).len() && others_of(front)[k] == entry_of(front[i]);
                assert(others_of(rows)[k] == entry_of(rows[i]));
            } else {
                assert(others_of(rows).last() == entry_of(rows[i]));
            }
        }
        assert forall|k: int| 0 <= k < english_of(rows).len() implies exists|i: int|
            0 <= i < rows.len() && is_english(#[trigger] rows[i]) && #[trigger] english_of(rows)[k]
                == entry_of(rows[i]) by {
            if k < english_of(front).len() {
                let i = choose|i: int| 0 <= i < front.len() && is_english(#[trigger] front[i]) && english_of(front)[k] == entry_of(front[i]);
                assert(rows[i] == front[i]);
            } else {
                assert(is_english(rows[n]));
            }
        }
        assert forall|k: int| 0 <= k < others_of(rows).len() implies exists|i: int|
            0 <= i < rows.len() && !is_english(#[trigger] rows[i]) && #[trigger] others_of(rows)[k]
                == entry_of(rows[i]) by {
            if k < others_of(front).len() {
                let i = choose|i: int| 0 <= i < front.len() && !is_english(#[trigger] front[i]) && others_of(front)[k] == entry_of(front[i]);
                assert(rows[i] == front[i]);
            } else {
                assert(!is_english(rows[n]));
            }
        }
    }
}

} // verus!
