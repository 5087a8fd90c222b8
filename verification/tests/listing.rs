use novel_api::admin::ReportListQuery;
use novel_api::notifications::NotificationQuery;
use novel_api::novels::{count_sql, sort_clause, NovelListQuery};
use novel_api::pagination::ListBind;

fn query(status: Option<&str>, genre: Option<&str>, sort: Option<&str>) -> NovelListQuery {
    NovelListQuery {
        page: Some(2),
        per_page: Some(10),
        status: status.map(|s| s.to_string()),
        genre: genre.map(|s| s.to_string()),
        sort: sort.map(|s| s.to_string()),
    }
}

#[test]
fn sort_keys_choose_order() {
    assert_eq!(sort_clause(&Some("popular".to_string())), "view_count DESC");
    assert_eq!(sort_clause(&Some("rating".to_string())), "view_count DESC");
    assert_eq!(sort_clause(&Some("chapters".to_string())), "chapter_count DESC");
    assert_eq!(sort_clause(&Some("latest".to_string())), "created_at DESC");
    assert_eq!(sort_clause(&Some("whatever".to_string())), "created_at DESC");
    assert_eq!(sort_clause(&None), "created_at DESC");
}

#[test]
fn novel_listing_without_filters() {
    let p = query(None, None, None).plan();
    assert_eq!(
        p.sql,
        "SELECT * FROM novels WHERE is_visible = TRUE   ORDER BY created_at DESC LIMIT $1 OFFSET $2"
    );
    assert_eq!(p.binds, vec![ListBind::Int(10), ListBind::Int(10)]);
}

#[test]
fn novel_listing_with_status_and_genre() {
    let p = query(Some("ongoing"), Some("fantasy"), Some("popular")).plan();
    assert_eq!(
        p.sql,
        "SELECT * FROM novels WHERE is_visible = TRUE AND status = $3 AND $4 = ANY(genres) ORDER BY view_count DESC LIMIT $1 OFFSET $2"
    );
    assert_eq!(
        p.binds,
        vec![
            ListBind::Int(10),
            ListBind::Int(10),
            ListBind::Text("ongoing".to_string()),
            ListBind::Text("fantasy".to_string()),
        ]
    );
}

#[test]
fn novel_listing_genre_alone_takes_third_placeholder() {
    let p = query(None, Some("romance"), Some("chapters")).plan();
    assert_eq!(
        p.sql,
        "SELECT * FROM novels WHERE is_visible = TRUE  AND $3 = ANY(genres) ORDER BY chapter_count DESC LIMIT $1 OFFSET $2"
    );
    assert_eq!(p.binds[2], ListBind::Text("romance".to_string()));
    assert_eq!(p.binds.len(), 3);
}

#[test]
fn novel_listing_status_alone() {
    let p = query(Some("completed"), None, None).plan();
    assert_eq!(
        p.sql,
        "SELECT * FROM novels WHERE is_visible = TRUE AND status = $3  ORDER BY created_at DESC LIMIT $1 OFFSET $2"
    );
    assert_eq!(p.binds.len(), 3);
    assert_eq!(count_sql(), "SELECT COUNT(*) FROM novels WHERE is_visible = TRUE");
}

#[test]
fn report_listing_binds_status_first() {
    let q = ReportListQuery { status: Some("pending".to_string()), page: Some(3), per_page: Some(5) };
    let p = q.plan();
    assert_eq!(
        p.sql,
        "SELECT * FROM reports WHERE status = $1::report_status ORDER BY created_at DESC LIMIT $2 OFFSET $3"
    );
    assert_eq!(
        p.binds,
        vec![ListBind::Text("pending".to_string()), ListBind::Int(5), ListBind::Int(10)]
    );
    let all = ReportListQuery { status: None, page: None, per_page: None }.plan();
    assert_eq!(all.sql, "SELECT * FROM reports ORDER BY created_at DESC LIMIT $1 OFFSET $2");
    assert_eq!(all.binds, vec![ListBind::Int(20), ListBind::Int(0)]);
}

#[test]
fn notification_listing_filters_unread_when_asked() {
    let unread = NotificationQuery { page: None, per_page: None, unread_only: Some(true) };
    assert!(unread.unread_only());
    assert_eq!(
        unread.sql(),
        "SELECT * FROM notifications WHERE user_id = $1 AND is_read = FALSE ORDER BY created_at DESC LIMIT $2 OFFSET $3"
    );
    let all = NotificationQuery { page: None, per_page: None, unread_only: None };
    assert!(!all.unread_only());
    assert_eq!(
        all.sql(),
        "SELECT * FROM notifications WHERE user_id = $1 ORDER BY created_at DESC LIMIT $2 OFFSET $3"
    );
}
