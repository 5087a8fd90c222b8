use vstd::prelude::*;
use crate::admin::{CreateReportRequest, ResolveReportRequest, ShadowbanRequest, UpdateUserStatusRequest};
use crate::bookmarks::UpdateReadingHistoryRequest;
use crate::chapters::CreateChapterRequest;
use crate::pagination::PageWindow;
use crate::comments::{accepted_reply_depth, comment_depth, CreateCommentRequest, ParentDepth};
use crate::error::{AppError, ErrorView};
use crate::responses::Missing;
use crate::forums::{CreateReplyRequest, CreateThreadRequest};
use crate::novels::{CreateNovelRequest, UpdateNovelRequest};
use crate::reviews::{CreateReviewRequest, UpdateReviewRequest};
use crate::users::UpdateProfileRequest;
use crate::slug::{slug_of, well_formed_slug};
use crate::validation::opt_view;

verus! {

/// A value bound to a placeholder of a write statement.
#[derive(Debug, Clone)]
pub enum SqlValue {
    Id(u128),
    OptId(Option<u128>),
    Int16(i16),
    OptInt16(Option<i16>),
    Int32(i32),
    Int64(i64),
    Flag(bool),
    Text(String),
    OptText(Option<String>),
    TextList(Vec<String>),
    OptTextList(Option<Vec<String>>),
}

/// A bound value with its texts taken as character sequences.
pub enum SqlValueView {
    Id(u128),
    OptId(Option<u128>),
    Int16(i16),
    OptInt16(Option<i16>),
    Int32(i32),
    Int64(i64),
    Flag(bool),
    Text(Seq<char>),
    OptText(Option<Seq<char>>),
    TextList(Seq<Seq<char>>),
    OptTextList(Option<Seq<Seq<char>>>),
}

/// The texts of a list of strings.
pub open spec fn texts(v: Vec<String>) -> Seq<Seq<char>> {
    v@.map_values(|s: String| s@)
}

impl View for SqlValue {
    type V = SqlValueView;

    open spec fn view(&self) -> SqlValueView {
        match self {
            SqlValue::Id(x) => SqlValueView::Id(*x),
            SqlValue::OptId(x) => SqlValueView::OptId(*x),
            SqlValue::Int16(x) => SqlValueView::Int16(*x),
            SqlValue::OptInt16(x) => SqlValueView::OptInt16(*x),
            SqlValue::Int32(x) => SqlValueView::Int32(*x),
            SqlValue::Int64(x) => SqlValueView::Int64(*x),
            SqlValue::Flag(x) => SqlValueView::Flag(*x),
            SqlValue::Text(s) => SqlValueView::Text(s@),
            SqlValue::OptText(s) => SqlValueView::OptText(opt_view(*s)),
            SqlValue::TextList(v) => SqlValueView::TextList(texts(*v)),
            SqlValue::OptTextList(v) => SqlValueView::OptTextList(
                match v {
                    Some(l) => Some(texts(*l)),
                    None => None,
                },
            ),
        }
    }
}

/// A write statement and the values bound to its placeholders, `$1` first.
#[derive(Debug, Clone)]
pub struct Statement {
    pub sql: &'static str,
    pub binds: Vec<SqlValue>,
}

impl Statement {
    /// The bound values, by view, in placeholder order.
    pub open spec fn values(&self) -> Seq<SqlValueView> {
        self.binds@.map_values(|v: SqlValue| v@)
    }
}

/// A list of strings stored as given, or empty where none is given.
pub open spec fn texts_or_empty(v: Option<Vec<String>>) -> Seq<Seq<char>> {
    match v {
        Some(l) => texts(l),
        None => Seq::empty(),
    }
}

/// An optional list of strings by its texts.
pub open spec fn opt_texts(v: Option<Vec<String>>) -> Option<Seq<Seq<char>>> {
    match v {
        Some(l) => Some(texts(l)),
        None => None,
    }
}

/// Inserts a novel written by `author_id`, with the slug of its title and
/// empty genre and tag lists where none are given.
pub fn insert_novel(author_id: u128, req: CreateNovelRequest) -> (st: Statement)
    ensures
        st.sql@ == "INSERT INTO novels (author_id, title, slug, synopsis, cover_url, genres, tags) VALUES ($1, $2, $3, $4, $5, $6, $7) RETURNING *"@,
        st.values() == seq![
            SqlValueView::Id(author_id),
            SqlValueView::Text(req.title@),
            SqlValueView::Text(slug_of(req.title@)),
            SqlValueView::OptText(opt_view(req.synopsis)),
            SqlValueView::OptText(opt_view(req.cover_url)),
            SqlValueView::TextList(texts_or_empty(req.genres)),
            SqlValueView::TextList(texts_or_empty(req.tags)),
        ],
        well_formed_slug(slug_of(req.title@)),
{
    let slug = req.slug();
    let CreateNovelRequest { title, synopsis, cover_url, genres, tags } = req;
    let genres: Vec<String> = match genres {
        Some(g) => g,
        None => Vec::new(),
    };
    assert(texts(genres) =~= texts_or_empty(req.genres));
    let tags: Vec<String> = match tags {
        Some(t) => t,
        None => Vec::new(),
    };
    assert(texts(tags) =~= texts_or_empty(req.tags));
    let mut binds: Vec<SqlValue> = Vec::new();
    binds.push(SqlValue::Id(author_id));
    binds.push(SqlValue::Text(title));
    binds.push(SqlValue::Text(slug));
    binds.push(SqlValue::OptText(synopsis));
    binds.push(SqlValue::OptText(cover_url));
    binds.push(SqlValue::TextList(genres));
    binds.push(SqlValue::TextList(tags));
    let st = Statement {
        sql: "INSERT INTO novels (author_id, title, slug, synopsis, cover_url, genres, tags) VALUES ($1, $2, $3, $4, $5, $6, $7) RETURNING *",
        binds,
    };
    assert(st.values() =~~= seq![
        SqlValueView::Id(author_id),
        SqlValueView::Text(req.title@),
        SqlValueView::Text(slug_of(req.title@)),
        SqlValueView::OptText(opt_view(req.synopsis)),
        SqlValueView::OptText(opt_view(req.cover_url)),
        SqlValueView::TextList(texts_or_empty(req.genres)),
        SqlValueView::TextList(texts_or_empty(req.tags)),
    ]);
    st
}

/// Updates a novel of `author_id`: each given field replaces the stored one,
/// each missing field keeps it. The slug is left as it is.
pub fn update_novel(novel_id: u128, author_id: u128, req: UpdateNovelRequest) -> (st: Statement)
    ensures
        st.sql@ == "UPDATE novels SET title = COALESCE($3, title), synopsis = COALESCE($4, synopsis), cover_url = COALESCE($5, cover_url), status = COALESCE($6, status), genres = COALESCE($7, genres), tags = COALESCE($8, tags) WHERE id = $1 AND author_id = $2 RETURNING *"@,
        st.values() == seq![
            SqlValueView::Id(novel_id),
            SqlValueView::Id(author_id),
            SqlValueView::OptText(opt_view(req.title)),
            SqlValueView::OptText(opt_view(req.synopsis)),
            SqlValueView::OptText(opt_view(req.cover_url)),
            SqlValueView::OptText(opt_view(req.status)),
            SqlValueView::OptTextList(opt_texts(req.genres)),
            SqlValueView::OptTextList(opt_texts(req.tags)),
        ],
{
    let UpdateNovelRequest { title, synopsis, cover_url, status, genres, tags } = req;
    let mut binds: Vec<SqlValue> = Vec::new();
    binds.push(SqlValue::Id(novel_id));
    binds.push(SqlValue::Id(author_id));
    binds.push(SqlValue::OptText(title));
    binds.push(SqlValue::OptText(synopsis));
    binds.push(SqlValue::OptText(cover_url));
    binds.push(SqlValue::OptText(status));
    binds.push(SqlValue::OptTextList(genres));
    binds.push(SqlValue::OptTextList(tags));
    let st = Statement {
        sql: "UPDATE novels SET title = COALESCE($3, title), synopsis = COALESCE($4, synopsis), cover_url = COALESCE($5, cover_url), status = COALESCE($6, status), genres = COALESCE($7, genres), tags = COALESCE($8, tags) WHERE id = $1 AND author_id = $2 RETURNING *",
        binds,
    };
    assert(st.values() =~~= seq![
        SqlValueView::Id(novel_id),
        SqlValueView::Id(author_id),
        SqlValueView::OptText(opt_view(req.title)),
        SqlValueView::OptText(opt_view(req.synopsis)),
        SqlValueView::OptText(opt_view(req.cover_url)),
        SqlValueView::OptText(opt_view(req.status)),
        SqlValueView::OptTextList(opt_texts(req.genres)),
        SqlValueView::OptTextList(opt_texts(req.tags)),
    ]);
    st
}

/// A statement whose values are two ids, `$1` and `$2`.
fn two_ids(sql: &'static str, id: u128, owner: u128) -> (st: Statement)
    ensures
        st.sql == sql,
        st.values() == seq![SqlValueView::Id(id), SqlValueView::Id(owner)],
{
    let mut binds: Vec<SqlValue> = Vec::new();
    binds.push(SqlValue::Id(id));
    binds.push(SqlValue::Id(owner));
    let st = Statement { sql, binds };
    assert(st.values() =~= seq![SqlValueView::Id(id), SqlValueView::Id(owner)]);
    st
}

/// Deletes a novel of `author_id`.
pub fn delete_novel(novel_id: u128, author_id: u128) -> (st: Statement)
    ensures
        st.sql@ == "DELETE FROM novels WHERE id = $1 AND author_id = $2"@,
        st.values() == seq![SqlValueView::Id(novel_id), SqlValueView::Id(author_id)],
{
    two_ids("DELETE FROM novels WHERE id = $1 AND author_id = $2", novel_id, author_id)
}

/// Inserts a chapter of a novel.
pub fn insert_chapter(novel_id: u128, req: CreateChapterRequest) -> (st: Statement)
    ensures
        st.sql@ == "INSERT INTO chapters (novel_id, chapter_number, title, link) VALUES ($1, $2, $3, $4) RETURNING *"@,
        st.values() == seq![
            SqlValueView::Id(novel_id),
            SqlValueView::Int32(req.chapter_number),
            SqlValueView::OptText(opt_view(req.title)),
            SqlValueView::Text(req.link@),
        ],
{
    let CreateChapterRequest { chapter_number, title, link } = req;
    let mut binds: Vec<SqlValue> = Vec::new();
    binds.push(SqlValue::Id(novel_id));
    binds.push(SqlValue::Int32(chapter_number));
    binds.push(SqlValue::OptText(title));
    binds.push(SqlValue::Text(link));
    let st = Statement {
        sql: "INSERT INTO chapters (novel_id, chapter_number, title, link) VALUES ($1, $2, $3, $4) RETURNING *",
        binds,
    };
    assert(st.values() =~~= seq![
        SqlValueView::Id(novel_id),
        SqlValueView::Int32(req.chapter_number),
        SqlValueView::OptText(opt_view(req.title)),
        SqlValueView::Text(req.link@),
    ]);
    st
}

/// Deletes a chapter of the given novel.
pub fn delete_chapter(chapter_id: u128, novel_id: u128) -> (st: Statement)
    ensures
        st.sql@ == "DELETE FROM chapters WHERE id = $1 AND novel_id = $2"@,
        st.values() == seq![SqlValueView::Id(chapter_id), SqlValueView::Id(novel_id)],
{
    two_ids("DELETE FROM chapters WHERE id = $1 AND novel_id = $2", chapter_id, novel_id)
}

/// The depth a new comment is stored at, where its parent allows one: 0 at
/// the top level, one more than the parent's for a reply.
pub open spec fn new_comment_depth(parent: ParentDepth) -> Option<i16> {
    match parent {
        ParentDepth::NoParent => Some(0),
        ParentDepth::ParentMissing => None,
        ParentDepth::Parent(d) => accepted_reply_depth(d),
    }
}

/// The values bound to a comment insert at the given depth.
pub open spec fn comment_values(user_id: u128, req: CreateCommentRequest, depth: i16) -> Seq<SqlValueView> {
    seq![
        SqlValueView::Id(user_id),
        SqlValueView::Text(req.entity_type@),
        SqlValueView::Id(req.entity_id),
        SqlValueView::OptId(req.parent_id),
        SqlValueView::Int16(depth),
        SqlValueView::Text(req.body@),
    ]
}

fn comment_insert(user_id: u128, req: CreateCommentRequest, depth: i16) -> (st: Statement)
    ensures
        st.sql@ == "INSERT INTO comments (user_id, entity_type, entity_id, parent_id, depth, body) VALUES ($1, $2::content_type, $3, $4, $5, $6) RETURNING *"@,
        st.values() == comment_values(user_id, req, depth),
{
    let ghost g = req;
    let CreateCommentRequest { entity_type, entity_id, parent_id, body } = req;
    let mut binds: Vec<SqlValue> = Vec::new();
    binds.push(SqlValue::Id(user_id));
    binds.push(SqlValue::Text(entity_type));
    binds.push(SqlValue::Id(entity_id));
    binds.push(SqlValue::OptId(parent_id));
    binds.push(SqlValue::Int16(depth));
    binds.push(SqlValue::Text(body));
    let st = Statement {
        sql: "INSERT INTO comments (user_id, entity_type, entity_id, parent_id, depth, body) VALUES ($1, $2::content_type, $3, $4, $5, $6) RETURNING *",
        binds,
    };
    assert(st.values() =~~= comment_values(user_id, g, depth));
    st
}

/// Inserts a comment by `user_id` as the comment handler does: every
/// comment is stored at depth 0, replies included.
pub fn insert_comment(user_id: u128, req: CreateCommentRequest) -> (st: Statement)
    ensures
        st.sql@ == "INSERT INTO comments (user_id, entity_type, entity_id, parent_id, depth, body) VALUES ($1, $2::content_type, $3, $4, $5, $6) RETURNING *"@,
        st.values() == comment_values(user_id, req, 0),
{
    comment_insert(user_id, req, 0)
}

/// Inserts a comment by `user_id` at the depth its parent gives it, as the
/// comment repository does: depth 0 for a top-level comment, the parent's
/// depth plus one for a reply. A missing parent is `NotFound`, and a parent
/// at the deepest level refuses the reply with `BadRequest`; then nothing
/// is inserted.
pub fn insert_comment_under(user_id: u128, req: CreateCommentRequest, parent: ParentDepth) -> (r: Result<Statement, AppError>)
    ensures
        r is Ok <==> new_comment_depth(parent) is Some,
        r matches Ok(st) ==> {
            &&& st.sql@ == "INSERT INTO comments (user_id, entity_type, entity_id, parent_id, depth, body) VALUES ($1, $2::content_type, $3, $4, $5, $6) RETURNING *"@
            &&& st.values() == comment_values(user_id, req, new_comment_depth(parent)->Some_0)
        },
        parent == ParentDepth::ParentMissing ==> (r matches Err(e) && e@ == ErrorView::NotFound(Missing::ParentComment.spec_message())),
        parent matches ParentDepth::Parent(d) && d >= 5 ==> (r matches Err(e) && e@ == ErrorView::BadRequest("Maximum comment depth reached"@)),
{
    match comment_depth(parent) {
        Ok(depth) => Ok(comment_insert(user_id, req, depth)),
        Err(e) => Err(e),
    }
}

/// Deletes a comment written by `user_id`.
pub fn delete_comment(comment_id: u128, user_id: u128) -> (st: Statement)
    ensures
        st.sql@ == "DELETE FROM comments WHERE id = $1 AND user_id = $2"@,
        st.values() == seq![SqlValueView::Id(comment_id), SqlValueView::Id(user_id)],
{
    two_ids("DELETE FROM comments WHERE id = $1 AND user_id = $2", comment_id, user_id)
}

/// Inserts a forum thread by `user_id`, with the slug of its title.
pub fn insert_thread(user_id: u128, req: CreateThreadRequest) -> (st: Statement)
    ensures
        st.sql@ == "INSERT INTO forum_threads (category_id, user_id, title, slug, body) VALUES ($1, $2, $3, $4, $5) RETURNING *"@,
        st.values() == seq![
            SqlValueView::Id(req.category_id),
            SqlValueView::Id(user_id),
            SqlValueView::Text(req.title@),
            SqlValueView::Text(slug_of(req.title@)),
            SqlValueView::Text(req.body@),
        ],
{
    let slug = req.slug();
    let CreateThreadRequest { category_id, title, body } = req;
    let mut binds: Vec<SqlValue> = Vec::new();
    binds.push(SqlValue::Id(category_id));
    binds.push(SqlValue::Id(user_id));
    binds.push(SqlValue::Text(title));
    binds.push(SqlValue::Text(slug));
    binds.push(SqlValue::Text(body));
    let st = Statement {
        sql: "INSERT INTO forum_threads (category_id, user_id, title, slug, body) VALUES ($1, $2, $3, $4, $5) RETURNING *",
        binds,
    };
    assert(st.values() =~~= seq![
        SqlValueView::Id(req.category_id),
        SqlValueView::Id(user_id),
        SqlValueView::Text(req.title@),
        SqlValueView::Text(slug_of(req.title@)),
        SqlValueView::Text(req.body@),
    ]);
    st
}

/// Inserts a reply by `user_id` to a thread.
pub fn insert_reply(thread_id: u128, user_id: u128, req: CreateReplyRequest) -> (st: Statement)
    ensures
        st.sql@ == "INSERT INTO forum_replies (thread_id, user_id, body) VALUES ($1, $2, $3) RETURNING *"@,
        st.values() == seq![
            SqlValueView::Id(thread_id),
            SqlValueView::Id(user_id),
            SqlValueView::Text(req.body@),
        ],
{
    let CreateReplyRequest { body } = req;
    let mut binds: Vec<SqlValue> = Vec::new();
    binds.push(SqlValue::Id(thread_id));
    binds.push(SqlValue::Id(user_id));
    binds.push(SqlValue::Text(body));
    let st = Statement {
        sql: "INSERT INTO forum_replies (thread_id, user_id, body) VALUES ($1, $2, $3) RETURNING *",
        binds,
    };
    assert(st.values() =~~= seq![
        SqlValueView::Id(thread_id),
        SqlValueView::Id(user_id),
        SqlValueView::Text(req.body@),
    ]);
    st
}

/// Inserts a review of a novel by `user_id`.
pub fn insert_review(user_id: u128, novel_id: u128, req: CreateReviewRequest) -> (st: Statement)
    ensures
        st.sql@ == "INSERT INTO reviews (user_id, novel_id, rating, title, body) VALUES ($1, $2, $3, $4, $5) RETURNING *"@,
        st.values() == seq![
            SqlValueView::Id(user_id),
            SqlValueView::Id(novel_id),
            SqlValueView::Int16(req.rating),
            SqlValueView::OptText(opt_view(req.title)),
            SqlValueView::Text(req.body@),
        ],
{
    let CreateReviewRequest { rating, title, body } = req;
    let mut binds: Vec<SqlValue> = Vec::new();
    binds.push(SqlValue::Id(user_id));
    binds.push(SqlValue::Id(novel_id));
    binds.push(SqlValue::Int16(rating));
    binds.push(SqlValue::OptText(title));
    binds.push(SqlValue::Text(body));
    let st = Statement {
        sql: "INSERT INTO reviews (user_id, novel_id, rating, title, body) VALUES ($1, $2, $3, $4, $5) RETURNING *",
        binds,
    };
    assert(st.values() =~~= seq![
        SqlValueView::Id(user_id),
        SqlValueView::Id(novel_id),
        SqlValueView::Int16(req.rating),
        SqlValueView::OptText(opt_view(req.title)),
        SqlValueView::Text(req.body@),
    ]);
    st
}

/// Updates a review of `user_id` on the given novel: each given field
/// replaces the stored one, each missing field keeps it.
pub fn update_review(review_id: u128, user_id: u128, novel_id: u128, req: UpdateReviewRequest) -> (st: Statement)
    ensures
        st.sql@ == "UPDATE reviews SET rating = COALESCE($3, rating), title = COALESCE($4, title), body = COALESCE($5, body) WHERE id = $1 AND user_id = $2 AND novel_id = $6 RETURNING *"@,
        st.values() == seq![
            SqlValueView::Id(review_id),
            SqlValueView::Id(user_id),
            SqlValueView::OptInt16(req.rating),
            SqlValueView::OptText(opt_view(req.title)),
            SqlValueView::OptText(opt_view(req.body)),
            SqlValueView::Id(novel_id),
        ],
{
    let UpdateReviewRequest { rating, title, body } = req;
    let mut binds: Vec<SqlValue> = Vec::new();
    binds.push(SqlValue::Id(review_id));
    binds.push(SqlValue::Id(user_id));
    binds.push(SqlValue::OptInt16(rating));
    binds.push(SqlValue::OptText(title));
    binds.push(SqlValue::OptText(body));
    binds.push(SqlValue::Id(novel_id));
    let st = Statement {
        sql: "UPDATE reviews SET rating = COALESCE($3, rating), title = COALESCE($4, title), body = COALESCE($5, body) WHERE id = $1 AND user_id = $2 AND novel_id = $6 RETURNING *",
        binds,
    };
    assert(st.values() =~~= seq![
        SqlValueView::Id(review_id),
        SqlValueView::Id(user_id),
        SqlValueView::OptInt16(req.rating),
        SqlValueView::OptText(opt_view(req.title)),
        SqlValueView::OptText(opt_view(req.body)),
        SqlValueView::Id(novel_id),
    ]);
    st
}

/// Deletes a review written by `user_id`, whatever novel it is on.
pub fn delete_review(review_id: u128, user_id: u128) -> (st: Statement)
    ensures
        st.sql@ == "DELETE FROM reviews WHERE id = $1 AND user_id = $2"@,
        st.values() == seq![SqlValueView::Id(review_id), SqlValueView::Id(user_id)],
{
    two_ids("DELETE FROM reviews WHERE id = $1 AND user_id = $2", review_id, user_id)
}

/// Inserts an account with the given password hash.
pub fn insert_user(username: String, email: String, password_hash: String, display_name: Option<String>) -> (st: Statement)
    ensures
        st.sql@ == "INSERT INTO users (username, email, password_hash, display_name) VALUES ($1, $2, $3, $4) RETURNING *"@,
        st.values() == seq![
            SqlValueView::Text(username@),
            SqlValueView::Text(email@),
            SqlValueView::Text(password_hash@),
            SqlValueView::OptText(opt_view(display_name)),
        ],
{
    let ghost (u, e, h, d) = (username@, email@, password_hash@, opt_view(display_name));
    let mut binds: Vec<SqlValue> = Vec::new();
    binds.push(SqlValue::Text(username));
    binds.push(SqlValue::Text(email));
    binds.push(SqlValue::Text(password_hash));
    binds.push(SqlValue::OptText(display_name));
    let st = Statement {
        sql: "INSERT INTO users (username, email, password_hash, display_name) VALUES ($1, $2, $3, $4) RETURNING *",
        binds,
    };
    assert(st.values() =~~= seq![SqlValueView::Text(u), SqlValueView::Text(e), SqlValueView::Text(h), SqlValueView::OptText(d)]);
    st
}

/// Sets an account's last-login time to the database's current time.
pub fn update_last_login(user_id: u128) -> (st: Statement)
    ensures
        st.sql@ == "UPDATE users SET last_login_at = NOW() WHERE id = $1"@,
        st.values() == seq![SqlValueView::Id(user_id)],
{
    let mut binds: Vec<SqlValue> = Vec::new();
    binds.push(SqlValue::Id(user_id));
    let st = Statement { sql: "UPDATE users SET last_login_at = NOW() WHERE id = $1", binds };
    assert(st.values() =~= seq![SqlValueView::Id(user_id)]);
    st
}

/// Updates the caller's profile: each given field replaces the stored one,
/// each missing field keeps it.
pub fn update_profile(user_id: u128, req: UpdateProfileRequest) -> (st: Statement)
    ensures
        st.sql@ == "UPDATE users SET display_name = COALESCE($2, display_name), avatar_url = COALESCE($3, avatar_url), bio = COALESCE($4, bio) WHERE id = $1 RETURNING *"@,
        st.values() == seq![
            SqlValueView::Id(user_id),
            SqlValueView::OptText(opt_view(req.display_name)),
            SqlValueView::OptText(opt_view(req.avatar_url)),
            SqlValueView::OptText(opt_view(req.bio)),
        ],
{
    let UpdateProfileRequest { display_name, avatar_url, bio } = req;
    let mut binds: Vec<SqlValue> = Vec::new();
    binds.push(SqlValue::Id(user_id));
    binds.push(SqlValue::OptText(display_name));
    binds.push(SqlValue::OptText(avatar_url));
    binds.push(SqlValue::OptText(bio));
    let st = Statement {
        sql: "UPDATE users SET display_name = COALESCE($2, display_name), avatar_url = COALESCE($3, avatar_url), bio = COALESCE($4, bio) WHERE id = $1 RETURNING *",
        binds,
    };
    assert(st.values() =~~= seq![
        SqlValueView::Id(user_id),
        SqlValueView::OptText(opt_view(req.display_name)),
        SqlValueView::OptText(opt_view(req.avatar_url)),
        SqlValueView::OptText(opt_view(req.bio)),
    ]);
    st
}

/// Files a report by `reporter_id`.
pub fn insert_report(reporter_id: u128, req: CreateReportRequest) -> (st: Statement)
    ensures
        st.sql@ == "INSERT INTO reports (reporter_id, entity_type, entity_id, reason) VALUES ($1, $2::content_type, $3, $4) RETURNING *"@,
        st.values() == seq![
            SqlValueView::Id(reporter_id),
            SqlValueView::Text(req.entity_type@),
            SqlValueView::Id(req.entity_id),
            SqlValueView::Text(req.reason@),
        ],
{
    let CreateReportRequest { entity_type, entity_id, reason } = req;
    let mut binds: Vec<SqlValue> = Vec::new();
    binds.push(SqlValue::Id(reporter_id));
    binds.push(SqlValue::Text(entity_type));
    binds.push(SqlValue::Id(entity_id));
    binds.push(SqlValue::Text(reason));
    let st = Statement {
        sql: "INSERT INTO reports (reporter_id, entity_type, entity_id, reason) VALUES ($1, $2::content_type, $3, $4) RETURNING *",
        binds,
    };
    assert(st.values() =~~= seq![
        SqlValueView::Id(reporter_id),
        SqlValueView::Text(req.entity_type@),
        SqlValueView::Id(req.entity_id),
        SqlValueView::Text(req.reason@),
    ]);
    st
}

/// Resolves a report: its new status, the moderator, the note, and the
/// database's current time as the resolution time.
pub fn resolve_report(report_id: u128, moderator_id: u128, req: ResolveReportRequest) -> (st: Statement)
    ensures
        st.sql@ == "UPDATE reports SET status = $2::report_status, moderator_id = $3, moderator_note = $4, resolved_at = NOW() WHERE id = $1 RETURNING *"@,
        st.values() == seq![
            SqlValueView::Id(report_id),
            SqlValueView::Text(req.status@),
            SqlValueView::Id(moderator_id),
            SqlValueView::OptText(opt_view(req.moderator_note)),
        ],
{
    let ResolveReportRequest { status, moderator_note } = req;
    let mut binds: Vec<SqlValue> = Vec::new();
    binds.push(SqlValue::Id(report_id));
    binds.push(SqlValue::Text(status));
    binds.push(SqlValue::Id(moderator_id));
    binds.push(SqlValue::OptText(moderator_note));
    let st = Statement {
        sql: "UPDATE reports SET status = $2::report_status, moderator_id = $3, moderator_note = $4, resolved_at = NOW() WHERE id = $1 RETURNING *",
        binds,
    };
    assert(st.values() =~~= seq![
        SqlValueView::Id(report_id),
        SqlValueView::Text(req.status@),
        SqlValueView::Id(moderator_id),
        SqlValueView::OptText(opt_view(req.moderator_note)),
    ]);
    st
}

/// Sets or clears an account's shadowban.
pub fn set_shadowban(req: ShadowbanRequest) -> (st: Statement)
    ensures
        st.sql@ == "UPDATE users SET is_shadowbanned = $2 WHERE id = $1"@,
        st.values() == seq![SqlValueView::Id(req.user_id), SqlValueView::Flag(req.shadowban)],
{
    let mut binds: Vec<SqlValue> = Vec::new();
    binds.push(SqlValue::Id(req.user_id));
    binds.push(SqlValue::Flag(req.shadowban));
    let st = Statement { sql: "UPDATE users SET is_shadowbanned = $2 WHERE id = $1", binds };
    assert(st.values() =~= seq![SqlValueView::Id(req.user_id), SqlValueView::Flag(req.shadowban)]);
    st
}

/// Sets an account's status.
pub fn update_user_status(req: UpdateUserStatusRequest) -> (st: Statement)
    ensures
        st.sql@ == "UPDATE users SET status = $2::user_status WHERE id = $1"@,
        st.values() == seq![SqlValueView::Id(req.user_id), SqlValueView::Text(req.status@)],
{
    let UpdateUserStatusRequest { user_id, status } = req;
    let mut binds: Vec<SqlValue> = Vec::new();
    binds.push(SqlValue::Id(user_id));
    binds.push(SqlValue::Text(status));
    let st = Statement { sql: "UPDATE users SET status = $2::user_status WHERE id = $1", binds };
    assert(st.values() =~~= seq![SqlValueView::Id(req.user_id), SqlValueView::Text(req.status@)]);
    st
}

// ---------------------------------------------------------------- reads

/// A statement whose values are one key, then the page size and offset.
fn keyed_page(sql: &'static str, key: SqlValue, w: PageWindow) -> (st: Statement)
    ensures
        st.sql == sql,
        st.values() == seq![key@, SqlValueView::Int64(w.per_page), SqlValueView::Int64(w.offset)],
{
    let ghost k = key@;
    let mut binds: Vec<SqlValue> = Vec::new();
    binds.push(key);
    binds.push(SqlValue::Int64(w.per_page));
    binds.push(SqlValue::Int64(w.offset));
    let st = Statement { sql, binds };
    assert(st.values() =~= seq![k, SqlValueView::Int64(w.per_page), SqlValueView::Int64(w.offset)]);
    st
}

/// A statement whose only value is one id.
fn by_id(sql: &'static str, id: u128) -> (st: Statement)
    ensures
        st.sql == sql,
        st.values() == seq![SqlValueView::Id(id)],
{
    let mut binds: Vec<SqlValue> = Vec::new();
    binds.push(SqlValue::Id(id));
    let st = Statement { sql, binds };
    assert(st.values() =~= seq![SqlValueView::Id(id)]);
    st
}

/// One page of the visible comments on an entity, oldest first.
pub fn list_comments(entity_type: String, entity_id: u128, w: PageWindow) -> (st: Statement)
    ensures
        st.sql@ == "SELECT * FROM comments WHERE entity_type = $1::content_type AND entity_id = $2 AND is_visible = TRUE ORDER BY created_at ASC LIMIT $3 OFFSET $4"@,
        st.values() == seq![
            SqlValueView::Text(entity_type@),
            SqlValueView::Id(entity_id),
            SqlValueView::Int64(w.per_page),
            SqlValueView::Int64(w.offset),
        ],
{
    let ghost t = entity_type@;
    let mut binds: Vec<SqlValue> = Vec::new();
    binds.push(SqlValue::Text(entity_type));
    binds.push(SqlValue::Id(entity_id));
    binds.push(SqlValue::Int64(w.per_page));
    binds.push(SqlValue::Int64(w.offset));
    let st = Statement {
        sql: "SELECT * FROM comments WHERE entity_type = $1::content_type AND entity_id = $2 AND is_visible = TRUE ORDER BY created_at ASC LIMIT $3 OFFSET $4",
        binds,
    };
    assert(st.values() =~= seq![SqlValueView::Text(t), SqlValueView::Id(entity_id), SqlValueView::Int64(w.per_page), SqlValueView::Int64(w.offset)]);
    st
}

/// One page of the visible threads of a forum category: pinned threads
/// first, then by latest reply (threads without replies last), then newest.
pub fn list_threads(category_id: u128, w: PageWindow) -> (st: Statement)
    ensures
        st.sql@ == "SELECT * FROM forum_threads WHERE category_id = $1 AND is_visible = TRUE ORDER BY is_pinned DESC, last_reply_at DESC NULLS LAST, created_at DESC LIMIT $2 OFFSET $3"@,
        st.values() == seq![SqlValueView::Id(category_id), SqlValueView::Int64(w.per_page), SqlValueView::Int64(w.offset)],
{
    keyed_page(
        "SELECT * FROM forum_threads WHERE category_id = $1 AND is_visible = TRUE ORDER BY is_pinned DESC, last_reply_at DESC NULLS LAST, created_at DESC LIMIT $2 OFFSET $3",
        SqlValue::Id(category_id),
        w,
    )
}

/// One page of the visible replies to a thread, oldest first.
pub fn list_replies(thread_id: u128, w: PageWindow) -> (st: Statement)
    ensures
        st.sql@ == "SELECT * FROM forum_replies WHERE thread_id = $1 AND is_visible = TRUE ORDER BY created_at ASC LIMIT $2 OFFSET $3"@,
        st.values() == seq![SqlValueView::Id(thread_id), SqlValueView::Int64(w.per_page), SqlValueView::Int64(w.offset)],
{
    keyed_page(
        "SELECT * FROM forum_replies WHERE thread_id = $1 AND is_visible = TRUE ORDER BY created_at ASC LIMIT $2 OFFSET $3",
        SqlValue::Id(thread_id),
        w,
    )
}

/// One page of the visible reviews of a novel, newest first.
pub fn list_reviews(novel_id: u128, w: PageWindow) -> (st: Statement)
    ensures
        st.sql@ == "SELECT * FROM reviews WHERE novel_id = $1 AND is_visible = TRUE ORDER BY created_at DESC LIMIT $2 OFFSET $3"@,
        st.values() == seq![SqlValueView::Id(novel_id), SqlValueView::Int64(w.per_page), SqlValueView::Int64(w.offset)],
{
    keyed_page(
        "SELECT * FROM reviews WHERE novel_id = $1 AND is_visible = TRUE ORDER BY created_at DESC LIMIT $2 OFFSET $3",
        SqlValue::Id(novel_id),
        w,
    )
}

/// All chapters of a novel, by chapter number.
pub fn list_chapters(novel_id: u128) -> (st: Statement)
    ensures
        st.sql@ == "SELECT * FROM chapters WHERE novel_id = $1 ORDER BY chapter_number ASC"@,
        st.values() == seq![SqlValueView::Id(novel_id)],
{
    by_id("SELECT * FROM chapters WHERE novel_id = $1 ORDER BY chapter_number ASC", novel_id)
}

/// One page of a user's bookmarks, newest first.
pub fn list_bookmarks(user_id: u128, w: PageWindow) -> (st: Statement)
    ensures
        st.sql@ == "SELECT * FROM bookmarks WHERE user_id = $1 ORDER BY created_at DESC LIMIT $2 OFFSET $3"@,
        st.values() == seq![SqlValueView::Id(user_id), SqlValueView::Int64(w.per_page), SqlValueView::Int64(w.offset)],
{
    keyed_page(
        "SELECT * FROM bookmarks WHERE user_id = $1 ORDER BY created_at DESC LIMIT $2 OFFSET $3",
        SqlValue::Id(user_id),
        w,
    )
}

/// One page of a user's reading history, most recently updated first.
pub fn list_reading_history(user_id: u128, w: PageWindow) -> (st: Statement)
    ensures
        st.sql@ == "SELECT * FROM reading_history WHERE user_id = $1 ORDER BY updated_at DESC LIMIT $2 OFFSET $3"@,
        st.values() == seq![SqlValueView::Id(user_id), SqlValueView::Int64(w.per_page), SqlValueView::Int64(w.offset)],
{
    keyed_page(
        "SELECT * FROM reading_history WHERE user_id = $1 ORDER BY updated_at DESC LIMIT $2 OFFSET $3",
        SqlValue::Id(user_id),
        w,
    )
}

/// The number of a user's unread notifications.
pub fn count_unread_notifications(user_id: u128) -> (st: Statement)
    ensures
        st.sql@ == "SELECT COUNT(*) FROM notifications WHERE user_id = $1 AND is_read = FALSE"@,
        st.values() == seq![SqlValueView::Id(user_id)],
{
    by_id("SELECT COUNT(*) FROM notifications WHERE user_id = $1 AND is_read = FALSE", user_id)
}

/// Marks every unread notification of a user as read.
pub fn mark_all_notifications_read(user_id: u128) -> (st: Statement)
    ensures
        st.sql@ == "UPDATE notifications SET is_read = TRUE WHERE user_id = $1 AND is_read = FALSE"@,
        st.values() == seq![SqlValueView::Id(user_id)],
{
    by_id("UPDATE notifications SET is_read = TRUE WHERE user_id = $1 AND is_read = FALSE", user_id)
}

/// Marks one notification of a user as read.
pub fn mark_notification_read(notification_id: u128, user_id: u128) -> (st: Statement)
    ensures
        st.sql@ == "UPDATE notifications SET is_read = TRUE WHERE id = $1 AND user_id = $2"@,
        st.values() == seq![SqlValueView::Id(notification_id), SqlValueView::Id(user_id)],
{
    two_ids("UPDATE notifications SET is_read = TRUE WHERE id = $1 AND user_id = $2", notification_id, user_id)
}

/// Bookmarks a novel for a user; bookmarking it again keeps the first
/// bookmark's time.
pub fn insert_bookmark(user_id: u128, novel_id: u128) -> (st: Statement)
    ensures
        st.sql@ == "INSERT INTO bookmarks (user_id, novel_id) VALUES ($1, $2) ON CONFLICT (user_id, novel_id) DO UPDATE SET created_at = bookmarks.created_at RETURNING *"@,
        st.values() == seq![SqlValueView::Id(user_id), SqlValueView::Id(novel_id)],
{
    two_ids(
        "INSERT INTO bookmarks (user_id, novel_id) VALUES ($1, $2) ON CONFLICT (user_id, novel_id) DO UPDATE SET created_at = bookmarks.created_at RETURNING *",
        user_id,
        novel_id,
    )
}

/// Removes a user's bookmark of a novel.
pub fn delete_bookmark(user_id: u128, novel_id: u128) -> (st: Statement)
    ensures
        st.sql@ == "DELETE FROM bookmarks WHERE user_id = $1 AND novel_id = $2"@,
        st.values() == seq![SqlValueView::Id(user_id), SqlValueView::Id(novel_id)],
{
    two_ids("DELETE FROM bookmarks WHERE user_id = $1 AND novel_id = $2", user_id, novel_id)
}

/// Records the last chapter a user read of a novel, replacing the earlier
/// record of that novel.
pub fn upsert_reading_history(user_id: u128, req: UpdateReadingHistoryRequest) -> (st: Statement)
    ensures
        st.sql@ == "INSERT INTO reading_history (user_id, novel_id, last_chapter_id, last_chapter_number) VALUES ($1, $2, $3, $4) ON CONFLICT (user_id, novel_id) DO UPDATE SET last_chapter_id = $3, last_chapter_number = $4, updated_at = NOW() RETURNING *"@,
        st.values() == seq![
            SqlValueView::Id(user_id),
            SqlValueView::Id(req.novel_id),
            SqlValueView::Id(req.chapter_id),
            SqlValueView::Int32(req.chapter_number),
        ],
{
    let mut binds: Vec<SqlValue> = Vec::new();
    binds.push(SqlValue::Id(user_id));
    binds.push(SqlValue::Id(req.novel_id));
    binds.push(SqlValue::Id(req.chapter_id));
    binds.push(SqlValue::Int32(req.chapter_number));
    let st = Statement {
        sql: "INSERT INTO reading_history (user_id, novel_id, last_chapter_id, last_chapter_number) VALUES ($1, $2, $3, $4) ON CONFLICT (user_id, novel_id) DO UPDATE SET last_chapter_id = $3, last_chapter_number = $4, updated_at = NOW() RETURNING *",
        binds,
    };
    assert(st.values() =~= seq![
        SqlValueView::Id(user_id),
        SqlValueView::Id(req.novel_id),
        SqlValueView::Id(req.chapter_id),
        SqlValueView::Int32(req.chapter_number),
    ]);
    st
}

} // verus!
