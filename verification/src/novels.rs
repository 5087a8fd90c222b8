use vstd::prelude::*;
use crate::pagination::{paginate_checked, ListBind, PageWindow, paginate, window_fits, spec_page, spec_per_page, spec_offset};
use crate::slug::{slugify, slug_of, well_formed_slug};
use crate::text::str_eq;
use crate::validation::{
    Field, Violation, check_length, check_opt_length, finish, length_violations,
    opt_length_violations, opt_view,
};

verus! {

/// Body of a request that creates a novel.
#[derive(Debug, Clone)]
pub struct CreateNovelRequest {
    pub title: String,
    pub synopsis: Option<String>,
    pub cover_url: Option<String>,
    pub genres: Option<Vec<String>>,
    pub tags: Option<Vec<String>>,
}

/// Body of a request that updates a novel; absent fields keep their value.
#[derive(Debug, Clone)]
pub struct UpdateNovelRequest {
    pub title: Option<String>,
    pub synopsis: Option<String>,
    pub cover_url: Option<String>,
    pub status: Option<String>,
    pub genres: Option<Vec<String>>,
    pub tags: Option<Vec<String>>,
}

/// Query parameters of the novel listing.
#[derive(Debug, Clone)]
pub struct NovelListQuery {
    pub page: Option<i64>,
    pub per_page: Option<i64>,
    pub status: Option<String>,
    pub genre: Option<String>,
    pub sort: Option<String>,
}

/// Longest novel title, in characters.
pub const MAX_TITLE_LEN: u64 = 500;
/// Longest novel synopsis, in characters.
pub const MAX_SYNOPSIS_LEN: u64 = 10000;

impl CreateNovelRequest {
    /// The rules a new novel must meet: a title of 1 to 500 characters and,
    /// where given, a synopsis of at most 10000 characters.
    pub open spec fn violations(&self) -> Seq<Violation> {
        length_violations(self.title@, 1, 500, Field::Title)
            + opt_length_violations(opt_view(self.synopsis), 0, 10000, Field::Synopsis)
    }

    /// Checks the rules; `Err` lists every broken one.
    pub fn validate(&self) -> (r: Result<(), Vec<Violation>>)
        ensures
            r is Ok <==> self.violations().len() == 0,
            r matches Err(v) ==> v@ == self.violations(),
    {
        let mut out: Vec<Violation> = Vec::new();
        check_length(&mut out, self.title.as_str(), 1, MAX_TITLE_LEN, Field::Title);
        check_opt_length(&mut out, &self.synopsis, 0, MAX_SYNOPSIS_LEN, Field::Synopsis);
        assert(out@ =~= self.violations());
        finish(out)
    }

    /// The slug a new novel gets: the slug of its title.
    pub fn slug(&self) -> (s: String)
        ensures
            s@ == slug_of(self.title@),
            well_formed_slug(s@),
    {
        slugify(self.title.as_str())
    }

    /// Genres stored for the novel; none given means none.
    pub fn genres_or_empty(&self) -> (g: Vec<String>)
        ensures
            self.genres is None ==> g@.len() == 0,
            self.genres matches Some(v) ==> g@ == v@,
    {
        match &self.genres {
            Some(v) => v.clone(),
            None => Vec::new(),
        }
    }

    /// Tags stored for the novel; none given means none.
    pub fn tags_or_empty(&self) -> (t: Vec<String>)
        ensures
            self.tags is None ==> t@.len() == 0,
            self.tags matches Some(v) ==> t@ == v@,
    {
        match &self.tags {
            Some(v) => v.clone(),
            None => Vec::new(),
        }
    }
}

impl UpdateNovelRequest {
    /// The rules an update must meet: where given, a title of 1 to 500
    /// characters and a synopsis of at most 10000 characters.
    pub open spec fn violations(&self) -> Seq<Violation> {
        opt_length_violations(opt_view(self.title), 1, 500, Field::Title)
            + opt_length_violations(opt_view(self.synopsis), 0, 10000, Field::Synopsis)
    }

    /// Checks the rules; `Err` lists every broken one.
    pub fn validate(&self) -> (r: Result<(), Vec<Violation>>)
        ensures
            r is Ok <==> self.violations().len() == 0,
            r matches Err(v) ==> v@ == self.violations(),
    {
        let mut out: Vec<Violation> = Vec::new();
        check_opt_length(&mut out, &self.title, 1, MAX_TITLE_LEN, Field::Title);
        check_opt_length(&mut out, &self.synopsis, 0, MAX_SYNOPSIS_LEN, Field::Synopsis);
        assert(out@ =~= self.violations());
        finish(out)
    }

    /// The slug the new title would have, where one is given. An update
    /// does not store it: a novel keeps the slug it was created with.
    pub fn slug(&self) -> (s: Option<String>)
        ensures
            self.title is None ==> s is None,
            self.title matches Some(t) ==> (s matches Some(x) && x@ == slug_of(t@) && well_formed_slug(x@)),
    {
        match &self.title {
            Some(t) => Some(slugify(t.as_str())),
            None => None,
        }
    }
}

/// The statement that lists novels and the values bound to its
/// placeholders, in placeholder order.
#[derive(Debug, Clone)]
pub struct NovelListPlan {
    pub window: PageWindow,
    pub sql: String,
    pub binds: Vec<ListBind>,
}

/// The `ORDER BY` clause a sort key selects: `popular` and `rating` order by
/// views, `chapters` by chapter count, anything else (`latest` by default)
/// by creation time, newest first.
pub open spec fn spec_sort_clause(sort: Option<Seq<char>>) -> Seq<char> {
    match sort {
        Some(key) => if key == "popular"@ {
            "view_count DESC"@
        } else if key == "rating"@ {
            "view_count DESC"@
        } else if key == "chapters"@ {
            "chapter_count DESC"@
        } else {
            "created_at DESC"@
        },
        None => "created_at DESC"@,
    }
}

/// The status filter of the listing, bound to `$3`.
pub open spec fn status_fragment(has_status: bool) -> Seq<char> {
    if has_status { "AND status = $3"@ } else { ""@ }
}

/// The genre filter of the listing, bound to `$4` after a status filter and
/// to `$3` without one.
pub open spec fn genre_fragment(has_status: bool, has_genre: bool) -> Seq<char> {
    if has_genre {
        if has_status { "AND $4 = ANY(genres)"@ } else { "AND $3 = ANY(genres)"@ }
    } else {
        ""@
    }
}

/// The listing statement, visible novels only.
pub open spec fn spec_list_sql(has_status: bool, has_genre: bool, sort: Option<Seq<char>>) -> Seq<char> {
    "SELECT * FROM novels WHERE is_visible = TRUE "@ + status_fragment(has_status) + " "@
        + genre_fragment(has_status, has_genre) + " ORDER BY "@ + spec_sort_clause(sort)
        + " LIMIT $1 OFFSET $2"@
}

/// The values bound to the listing statement: page size, offset, then the
/// status and the genre where given.
pub open spec fn spec_list_binds(q: NovelListQuery, w: PageWindow) -> Seq<ListBind> {
    seq![ListBind::Int(w.per_page), ListBind::Int(w.offset)]
        + (match q.status { Some(s) => seq![ListBind::Text(s)], None => Seq::empty() })
        + (match q.genre { Some(g) => seq![ListBind::Text(g)], None => Seq::empty() })
}

/// Chooses the `ORDER BY` clause of the listing.
pub fn sort_clause(sort: &Option<String>) -> (c: &'static str)
    ensures
        c@ == spec_sort_clause(opt_view(*sort)),
{
    match sort {
        Some(key) => {
            let k = key.as_str();
            if str_eq(k, "popular") {
                "view_count DESC"
            } else if str_eq(k, "rating") {
                "view_count DESC"
            } else if str_eq(k, "chapters") {
                "chapter_count DESC"
            } else {
                "created_at DESC"
            }
        },
        None => "created_at DESC",
    }
}

/// The statement counting the novels the listing reports as its total.
pub fn count_sql() -> (s: &'static str)
    ensures
        s@ == "SELECT COUNT(*) FROM novels WHERE is_visible = TRUE"@,
{
    "SELECT COUNT(*) FROM novels WHERE is_visible = TRUE"
}

impl NovelListQuery {
    /// Whether the offset of the requested page fits an `i64`.
    pub fn fits(&self) -> (b: bool)
        ensures
            b == window_fits(self.page, self.per_page, 20, 100),
    {
        paginate_checked(self.page, self.per_page, 20, 100).is_some()
    }

    /// Page window of the listing: 20 novels per page by default, at most 100.
    pub fn window(&self) -> (w: PageWindow)
        requires
            window_fits(self.page, self.per_page, 20, 100),
        ensures
            w.page == spec_page(self.page),
            w.per_page == spec_per_page(self.per_page, 20, 100),
            w.offset == spec_offset(self.page, self.per_page, 20, 100),
    {
        paginate(self.page, self.per_page, 20, 100)
    }

    /// Builds the listing statement and its bound values.
    pub fn plan(&self) -> (p: NovelListPlan)
        requires
            window_fits(self.page, self.per_page, 20, 100),
        ensures
            p.window.page == spec_page(self.page),
            p.window.per_page == spec_per_page(self.per_page, 20, 100),
            p.window.offset == spec_offset(self.page, self.per_page, 20, 100),
            p.sql@ == spec_list_sql(self.status is Some, self.genre is Some, opt_view(self.sort)),
            p.binds@ == spec_list_binds(*self, p.window),
    {
        let w = self.window();
        let has_status = self.status.is_some();
        let has_genre = self.genre.is_some();
        let sf: &str = if has_status { "AND status = $3" } else { "" };
        let gf: &str = if has_genre {
            if has_status { "AND $4 = ANY(genres)" } else { "AND $3 = ANY(genres)" }
        } else {
            ""
        };
        let mut sql = String::from_str("SELECT * FROM novels WHERE is_visible = TRUE ");
        sql.append(sf);
        sql.append(" ");
        sql.append(gf);
        sql.append(" ORDER BY ");
        sql.append(sort_clause(&self.sort));
        sql.append(" LIMIT $1 OFFSET $2");

        let mut binds: Vec<ListBind> = Vec::new();
        binds.push(ListBind::Int(w.per_page));
        binds.push(ListBind::Int(w.offset));
        match &self.status {
            Some(s) => binds.push(ListBind::Text(s.clone())),
            None => {},
        }
        match &self.genre {
            Some(g) => binds.push(ListBind::Text(g.clone())),
            None => {},
        }
        assert(binds@ =~= spec_list_binds(*self, w));
        NovelListPlan { window: w, sql, binds }
    }
}

/// Every placeholder of the listing statement is bound to the value at its
/// position: `$1` to the page size, `$2` to the offset, `$3` to the status
/// where a status is given, and the genre's placeholder (`$4` after a
/// status, `$3` without) to the genre; no value is bound without a
/// placeholder.
pub proof fn lemma_list_placeholders_match_binds(q: NovelListQuery, w: PageWindow)
    ensures
        ({
            let binds = spec_list_binds(q, w);
            let tail = " LIMIT $1 OFFSET $2"@;
            let sf = status_fragment(q.status is Some);
            let gf = genre_fragment(q.status is Some, q.genre is Some);
            let genre_pos: int = if q.status is Some { 3 } else { 2 };
            &&& binds.len() == 2 + (if q.status is Some { 1int } else { 0 }) + (if q.genre is Some { 1int } else { 0 })
            &&& tail[7] == '$' && tail[8] == '1' && binds[0] == ListBind::Int(w.per_page)
            &&& tail[17] == '$' && tail[18] == '2' && binds[1] == ListBind::Int(w.offset)
            &&& q.status matches Some(s) ==> sf[13] == '$' && sf[14] == '3' && binds[2] == ListBind::Text(s)
            &&& q.genre matches Some(g) ==> gf[4] == '$' && gf[5] == (if q.status is Some { '4' } else { '3' })
                && binds[genre_pos] == ListBind::Text(g)
        }),
{
    reveal_strlit(" LIMIT $1 OFFSET $2");
    reveal_strlit("AND status = $3");
    reveal_strlit("AND $4 = ANY(genres)");
    reveal_strlit("AND $3 = ANY(genres)");
}

/// An update that gives a title and the same synopsis as a new novel is
/// judged exactly as that new novel is; an update that gives neither
/// breaks no rule.
pub proof fn lemma_novel_update_judged_like_new_novel(c: CreateNovelRequest, u: UpdateNovelRequest)
    ensures
        (u.title == Some(c.title) && u.synopsis == c.synopsis) ==> u.violations() == c.violations(),
        (u.title is None && u.synopsis is None) ==> u.violations().len() == 0,
{
    if u.title is None && u.synopsis is None {
        assert(u.violations() =~= Seq::<Violation>::empty());
    }
}

} // verus!
