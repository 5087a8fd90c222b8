use vstd::prelude::*;
use crate::validation::{
    Field, Violation, check_opt_length, check_url, finish, opt_length_violations, opt_view,
    url_violations,
};

verus! {

/// Body of a request that adds a chapter to a novel.
#[derive(Debug, Clone)]
pub struct CreateChapterRequest {
    pub chapter_number: i32,
    pub title: Option<String>,
    pub link: String,
}

/// Body of a request that changes a chapter; absent fields keep their value.
#[derive(Debug, Clone)]
pub struct UpdateChapterRequest {
    pub title: Option<String>,
    pub link: Option<String>,
}

/// Longest chapter title, in characters.
pub const MAX_CHAPTER_TITLE_LEN: u64 = 500;

impl CreateChapterRequest {
    /// The rules a new chapter must meet: where given, a title of at most 500
    /// characters; a link that is a URL.
    pub open spec fn violations(&self) -> Seq<Violation> {
        opt_length_violations(opt_view(self.title), 0, 500, Field::Title)
            + url_violations(self.link@, Field::Link)
    }

    /// Checks the rules; `Err` lists every broken one.
    pub fn validate(&self) -> (r: Result<(), Vec<Violation>>)
        ensures
            r is Ok <==> self.violations().len() == 0,
            r matches Err(v) ==> v@ == self.violations(),
    {
        let mut out: Vec<Violation> = Vec::new();
        check_opt_length(&mut out, &self.title, 0, MAX_CHAPTER_TITLE_LEN, Field::Title);
        check_url(&mut out, self.link.as_str(), Field::Link);
        assert(out@ =~= self.violations());
        finish(out)
    }
}

impl UpdateChapterRequest {
    /// The rules a chapter change must meet: where given, a title of at most
    /// 500 characters and a link that is a URL.
    pub open spec fn violations(&self) -> Seq<Violation> {
        opt_length_violations(opt_view(self.title), 0, 500, Field::Title)
            + match self.link {
                Some(l) => url_violations(l@, Field::Link),
                None => Seq::empty(),
            }
    }

    /// Checks the rules; `Err` lists every broken one.
    pub fn validate(&self) -> (r: Result<(), Vec<Violation>>)
        ensures
            r is Ok <==> self.violations().len() == 0,
            r matches Err(v) ==> v@ == self.violations(),
    {
        let mut out: Vec<Violation> = Vec::new();
        check_opt_length(&mut out, &self.title, 0, MAX_CHAPTER_TITLE_LEN, Field::Title);
        match &self.link {
            Some(l) => check_url(&mut out, l.as_str(), Field::Link),
            None => {},
        }
        assert(out@ =~= self.violations());
        finish(out)
    }
}

/// A chapter change that gives a link and the same title as a new chapter
/// is judged exactly as that new chapter is; a change that gives neither
/// breaks no rule.
pub proof fn lemma_chapter_change_judged_like_new_chapter(c: CreateChapterRequest, u: UpdateChapterRequest)
    ensures
        (u.title == c.title && u.link == Some(c.link)) ==> u.violations() == c.violations(),
        (u.title is None && u.link is None) ==> u.violations().len() == 0,
{
    if u.title is None && u.link is None {
        assert(u.violations() =~= Seq::<Violation>::empty());
    }
}

} // verus!
