use novel_api::comments::ParentDepth;
use novel_api::error::AppError;
use novel_api::pagination::PageWindow;
use novel_api::statements::{
    count_unread_notifications, insert_comment_under, list_chapters, list_comments, list_replies, list_reviews,
    list_threads,
};
use novel_api::chapters::CreateChapterRequest;
use novel_api::comments::CreateCommentRequest;
use novel_api::forums::{CreateReplyRequest, CreateThreadRequest};
use novel_api::novels::{CreateNovelRequest, UpdateNovelRequest};
use novel_api::reviews::{CreateReviewRequest, UpdateReviewRequest};
use novel_api::statements::{
    delete_chapter, delete_comment, delete_novel, delete_review, insert_chapter, insert_comment, insert_novel,
    insert_reply, insert_review, insert_thread, update_novel, update_review, SqlValue,
};

fn text(s: &str) -> String {
    s.to_string()
}

#[test]
fn novel_insert_binds_slug_and_empty_lists() {
    let st = insert_novel(
        5,
        CreateNovelRequest { title: text("My Great Novel"), synopsis: None, cover_url: Some(text("https://x.io/c.png")), genres: None, tags: Some(vec![text("magic")]) },
    );
    assert_eq!(st.sql, "INSERT INTO novels (author_id, title, slug, synopsis, cover_url, genres, tags) VALUES ($1, $2, $3, $4, $5, $6, $7) RETURNING *");
    assert_eq!(st.binds.len(), 7);
    assert!(matches!(st.binds[0], SqlValue::Id(5)));
    assert!(matches!(&st.binds[1], SqlValue::Text(t) if t == "My Great Novel"));
    assert!(matches!(&st.binds[2], SqlValue::Text(t) if t == "my-great-novel"));
    assert!(matches!(&st.binds[3], SqlValue::OptText(None)));
    assert!(matches!(&st.binds[4], SqlValue::OptText(Some(u)) if u == "https://x.io/c.png"));
    assert!(matches!(&st.binds[5], SqlValue::TextList(l) if l.is_empty()));
    assert!(matches!(&st.binds[6], SqlValue::TextList(l) if l == &vec![text("magic")]));
}

#[test]
fn novel_update_keeps_slug_and_binds_in_order() {
    let st = update_novel(
        7,
        8,
        UpdateNovelRequest { title: Some(text("New")), synopsis: None, cover_url: None, status: Some(text("completed")), genres: None, tags: Some(vec![]) },
    );
    assert!(!st.sql.contains("slug"));
    assert!(st.sql.ends_with("WHERE id = $1 AND author_id = $2 RETURNING *"));
    assert_eq!(st.binds.len(), 8);
    assert!(matches!(st.binds[0], SqlValue::Id(7)));
    assert!(matches!(st.binds[1], SqlValue::Id(8)));
    assert!(matches!(&st.binds[2], SqlValue::OptText(Some(t)) if t == "New"));
    assert!(matches!(&st.binds[5], SqlValue::OptText(Some(t)) if t == "completed"));
    assert!(matches!(&st.binds[6], SqlValue::OptTextList(None)));
    assert!(matches!(&st.binds[7], SqlValue::OptTextList(Some(l)) if l.is_empty()));
}

#[test]
fn deletes_bind_row_and_owner() {
    let st = delete_novel(1, 2);
    assert_eq!(st.sql, "DELETE FROM novels WHERE id = $1 AND author_id = $2");
    assert!(matches!(st.binds[..], [SqlValue::Id(1), SqlValue::Id(2)]));
    let st = delete_chapter(3, 4);
    assert_eq!(st.sql, "DELETE FROM chapters WHERE id = $1 AND novel_id = $2");
    assert!(matches!(st.binds[..], [SqlValue::Id(3), SqlValue::Id(4)]));
    let st = delete_comment(5, 6);
    assert_eq!(st.sql, "DELETE FROM comments WHERE id = $1 AND user_id = $2");
    assert!(matches!(st.binds[..], [SqlValue::Id(5), SqlValue::Id(6)]));
    let st = delete_review(7, 8);
    assert_eq!(st.sql, "DELETE FROM reviews WHERE id = $1 AND user_id = $2");
    assert!(matches!(st.binds[..], [SqlValue::Id(7), SqlValue::Id(8)]));
}

#[test]
fn chapter_comment_thread_reply_inserts() {
    let st = insert_chapter(3, CreateChapterRequest { chapter_number: 12, title: None, link: text("https://c.io/12") });
    assert_eq!(st.sql, "INSERT INTO chapters (novel_id, chapter_number, title, link) VALUES ($1, $2, $3, $4) RETURNING *");
    assert!(matches!(&st.binds[..], [SqlValue::Id(3), SqlValue::Int32(12), SqlValue::OptText(None), SqlValue::Text(l)] if l == "https://c.io/12"));

    let st = insert_comment(4, CreateCommentRequest { entity_type: text("novel"), entity_id: 9, parent_id: Some(11), body: text("nice") });
    assert!(st.sql.contains("$2::content_type"));
    assert!(matches!(&st.binds[..], [SqlValue::Id(4), SqlValue::Text(t), SqlValue::Id(9), SqlValue::OptId(Some(11)), SqlValue::Int16(0), SqlValue::Text(b)] if t == "novel" && b == "nice"));

    let st = insert_thread(2, CreateThreadRequest { category_id: 1, title: text("Hello World"), body: text("first") });
    assert_eq!(st.sql, "INSERT INTO forum_threads (category_id, user_id, title, slug, body) VALUES ($1, $2, $3, $4, $5) RETURNING *");
    assert!(matches!(&st.binds[..], [SqlValue::Id(1), SqlValue::Id(2), SqlValue::Text(t), SqlValue::Text(s), SqlValue::Text(b)] if t == "Hello World" && s == "hello-world" && b == "first"));

    let st = insert_reply(6, 2, CreateReplyRequest { body: text("re") });
    assert_eq!(st.sql, "INSERT INTO forum_replies (thread_id, user_id, body) VALUES ($1, $2, $3) RETURNING *");
    assert!(matches!(&st.binds[..], [SqlValue::Id(6), SqlValue::Id(2), SqlValue::Text(b)] if b == "re"));
}

#[test]
fn review_insert_and_update() {
    let st = insert_review(1, 2, CreateReviewRequest { rating: 4, title: Some(text("Good")), body: text("Liked it") });
    assert_eq!(st.sql, "INSERT INTO reviews (user_id, novel_id, rating, title, body) VALUES ($1, $2, $3, $4, $5) RETURNING *");
    assert!(matches!(&st.binds[..], [SqlValue::Id(1), SqlValue::Id(2), SqlValue::Int16(4), SqlValue::OptText(Some(t)), SqlValue::Text(b)] if t == "Good" && b == "Liked it"));

    let st = update_review(9, 1, 2, UpdateReviewRequest { rating: Some(5), title: None, body: None });
    assert!(st.sql.ends_with("WHERE id = $1 AND user_id = $2 AND novel_id = $6 RETURNING *"));
    assert!(matches!(&st.binds[..], [SqlValue::Id(9), SqlValue::Id(1), SqlValue::OptInt16(Some(5)), SqlValue::OptText(None), SqlValue::OptText(None), SqlValue::Id(2)]));
}

#[test]
fn comment_insert_under_parent_stores_its_depth() {
    let req = || CreateCommentRequest { entity_type: text("chapter"), entity_id: 3, parent_id: Some(8), body: text("reply") };
    let st = insert_comment_under(1, req(), ParentDepth::Parent(2)).unwrap();
    assert!(matches!(st.binds[4], SqlValue::Int16(3)));
    let st = insert_comment_under(1, req(), ParentDepth::NoParent).unwrap();
    assert!(matches!(st.binds[4], SqlValue::Int16(0)));
    assert!(matches!(insert_comment_under(1, req(), ParentDepth::Parent(5)), Err(AppError::BadRequest(ref m)) if m == "Maximum comment depth reached"));
    assert!(matches!(insert_comment_under(1, req(), ParentDepth::ParentMissing), Err(AppError::NotFound(ref m)) if m == "Parent comment not found"));
}

#[test]
fn listing_statements_bind_key_then_window() {
    let w = PageWindow { page: 3, per_page: 20, offset: 40 };
    let st = list_threads(7, w);
    assert!(st.sql.contains("ORDER BY is_pinned DESC, last_reply_at DESC NULLS LAST, created_at DESC"));
    assert!(matches!(st.binds[..], [SqlValue::Id(7), SqlValue::Int64(20), SqlValue::Int64(40)]));
    let st = list_replies(8, w);
    assert!(matches!(st.binds[..], [SqlValue::Id(8), SqlValue::Int64(20), SqlValue::Int64(40)]));
    let st = list_reviews(9, w);
    assert!(st.sql.ends_with("ORDER BY created_at DESC LIMIT $2 OFFSET $3"));
    let st = list_comments(text("novel"), 4, w);
    assert!(matches!(&st.binds[..], [SqlValue::Text(t), SqlValue::Id(4), SqlValue::Int64(20), SqlValue::Int64(40)] if t == "novel"));
    let st = list_chapters(5);
    assert_eq!(st.sql, "SELECT * FROM chapters WHERE novel_id = $1 ORDER BY chapter_number ASC");
    let st = count_unread_notifications(6);
    assert!(matches!(st.binds[..], [SqlValue::Id(6)]));
}
