use novel_api::comments::{comment_depth, ParentDepth, MAX_COMMENT_DEPTH};
use novel_api::error::AppError;
use novel_api::responses::{insert_failure, require_affected, require_found, Duplicate, Missing};
use novel_api::search::SearchQuery;

#[test]
fn comment_depth_rules() {
    assert_eq!(comment_depth(ParentDepth::NoParent), Ok(0));
    assert_eq!(comment_depth(ParentDepth::Parent(0)), Ok(1));
    assert_eq!(comment_depth(ParentDepth::Parent(4)), Ok(5));
    assert_eq!(
        comment_depth(ParentDepth::Parent(5)),
        Err(AppError::BadRequest("Maximum comment depth reached".to_string()))
    );
    assert_eq!(
        comment_depth(ParentDepth::ParentMissing),
        Err(AppError::NotFound("Parent comment not found".to_string()))
    );
}

#[test]
fn reply_chains_stop_at_depth_five() {
    let mut depth = comment_depth(ParentDepth::NoParent).unwrap();
    let mut accepted = 1;
    while let Ok(d) = comment_depth(ParentDepth::Parent(depth)) {
        assert_eq!(d, depth + 1);
        depth = d;
        accepted += 1;
    }
    assert_eq!(depth, MAX_COMMENT_DEPTH);
    assert_eq!(accepted, 6);
}

#[test]
fn lookups_and_row_counts() {
    assert_eq!(require_found(Some(5u32), Missing::Novel), Ok(5));
    assert_eq!(require_found::<u32>(None, Missing::Report), Err(AppError::NotFound("Report not found".to_string())));
    assert_eq!(require_found::<u32>(None, Missing::User), Err(AppError::NotFound("User not found".to_string())));
    assert_eq!(require_affected(2, Missing::Bookmark), Ok(()));
    assert_eq!(require_affected(0, Missing::Bookmark), Err(AppError::NotFound("Bookmark not found".to_string())));
    assert_eq!(Missing::Thread.message(), "Thread not found");
    assert_eq!(Missing::NovelOrUnauthorized.message(), "Novel not found or unauthorized");
}

#[test]
fn insert_failures() {
    assert_eq!(
        insert_failure(true, Duplicate::UserIdentity),
        AppError::Conflict("Username or email already exists".to_string())
    );
    assert_eq!(
        insert_failure(true, Duplicate::ChapterNumber),
        AppError::Conflict("Chapter number already exists".to_string())
    );
    assert_eq!(insert_failure(false, Duplicate::Review), AppError::Database);
    assert_eq!(Duplicate::NovelSlug.message(), "Novel with this slug already exists");
}

#[test]
fn search_plan_defaults_and_refusal() {
    let empty = SearchQuery { q: String::new(), index: None, page: None, per_page: None };
    assert_eq!(empty.plan().unwrap_err(), AppError::BadRequest("Query parameter 'q' is required".to_string()));
    let q = SearchQuery { q: "dragon".to_string(), index: None, page: Some(3), per_page: Some(500) };
    let p = q.plan().unwrap();
    assert_eq!(p.index, "novels");
    assert_eq!(p.query, "dragon");
    assert_eq!((p.page, p.per_page, p.offset), (3, 100, 200));
    let q2 = SearchQuery { q: "x".to_string(), index: Some("threads".to_string()), page: Some(0), per_page: None };
    let p2 = q2.plan().unwrap();
    assert_eq!(p2.index, "threads");
    assert_eq!((p2.page, p2.per_page, p2.offset), (1, 20, 0));
}
