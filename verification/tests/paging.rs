use novel_api::admin::ReportListQuery;
use novel_api::bookmarks::PaginationQuery;
use novel_api::comments::CommentQuery;
use novel_api::forums::ThreadListQuery;
use novel_api::notifications::NotificationQuery;
use novel_api::novels::NovelListQuery;
use novel_api::pagination::{paginate, paginate_checked, ListBind, PageWindow, PaginatedResponse};
use novel_api::reviews::ReviewQuery;

#[test]
fn paginate_defaults_to_first_page() {
    let w = paginate(None, None, 20, 100);
    assert_eq!(w, PageWindow { page: 1, per_page: 20, offset: 0 });
}

#[test]
fn paginate_offset_is_page_minus_one_times_size() {
    let w = paginate(Some(3), Some(10), 20, 100);
    assert_eq!(w, PageWindow { page: 3, per_page: 10, offset: 20 });
}

#[test]
fn paginate_raises_page_to_one_and_caps_size() {
    let w = paginate(Some(-7), Some(1000), 20, 100);
    assert_eq!(w, PageWindow { page: 1, per_page: 100, offset: 0 });
    let w0 = paginate(Some(0), Some(5), 20, 100);
    assert_eq!(w0, PageWindow { page: 1, per_page: 5, offset: 0 });
}

#[test]
fn paginate_keeps_negative_page_size() {
    let w = paginate(Some(2), Some(-5), 20, 100);
    assert_eq!(w, PageWindow { page: 2, per_page: -5, offset: -5 });
}

#[test]
fn paginate_checked_reports_overflow() {
    assert_eq!(paginate_checked(Some(i64::MAX), Some(100), 20, 100), None);
    assert_eq!(
        paginate_checked(Some(4), None, 20, 100),
        Some(PageWindow { page: 4, per_page: 20, offset: 60 })
    );
}

#[test]
fn consecutive_pages_are_adjacent_and_disjoint() {
    for p in 1..20i64 {
        let a = paginate(Some(p), Some(7), 20, 100);
        let b = paginate(Some(p + 1), Some(7), 20, 100);
        assert_eq!(a.offset + a.per_page, b.offset);
    }
}

#[test]
fn endpoint_page_sizes() {
    let novels = NovelListQuery { page: None, per_page: Some(500), status: None, genre: None, sort: None };
    assert_eq!(novels.window().per_page, 100);
    let reviews = ReviewQuery { page: None, per_page: Some(500) };
    assert_eq!(reviews.window().per_page, 50);
    assert_eq!(ReviewQuery { page: None, per_page: None }.window().per_page, 20);
    let reports = ReportListQuery { status: None, page: Some(2), per_page: None };
    assert_eq!(reports.window(), PageWindow { page: 2, per_page: 20, offset: 20 });
    let threads = ThreadListQuery { page: Some(2), per_page: None };
    assert_eq!(threads.threads_window(), PageWindow { page: 2, per_page: 20, offset: 20 });
    assert_eq!(threads.replies_window(), PageWindow { page: 2, per_page: 50, offset: 50 });
    let comments = CommentQuery { entity_type: "novel".to_string(), entity_id: 1, page: None, per_page: Some(200) };
    assert_eq!(comments.window(), PageWindow { page: 1, per_page: 100, offset: 0 });
    assert_eq!(CommentQuery { entity_type: "novel".to_string(), entity_id: 1, page: None, per_page: None }.window().per_page, 50);
    let bookmarks = PaginationQuery { page: Some(3), per_page: Some(30) };
    assert_eq!(bookmarks.window(), PageWindow { page: 3, per_page: 30, offset: 60 });
    let notes = NotificationQuery { page: None, per_page: Some(80), unread_only: None };
    assert_eq!(notes.window().per_page, 50);
}

#[test]
fn paginated_response_carries_window() {
    let w = paginate(Some(2), Some(2), 20, 100);
    let r = PaginatedResponse::new(vec![ListBind::Int(1)], 9, w);
    assert_eq!(r.page, 2);
    assert_eq!(r.per_page, 2);
    assert_eq!(r.total, 9);
    assert_eq!(r.data.len(), 1);
}
