use vstd::prelude::*;
use crate::pagination::{paginate_checked, ListBind, PageWindow, paginate, window_fits, spec_page, spec_per_page, spec_offset};

verus! {

/// Body of a request that reports content to the moderators.
#[derive(Debug, Clone)]
pub struct CreateReportRequest {
    pub entity_type: String,
    pub entity_id: u128,
    pub reason: String,
}

/// Body of a request that resolves a report.
#[derive(Debug, Clone)]
pub struct ResolveReportRequest {
    pub status: String,
    pub moderator_note: Option<String>,
}

/// Body of a request that shadowbans a user or lifts the shadowban.
#[derive(Debug, Clone, Copy)]
pub struct ShadowbanRequest {
    pub user_id: u128,
    pub shadowban: bool,
}

/// Body of a request that changes a user's status.
#[derive(Debug, Clone)]
pub struct UpdateUserStatusRequest {
    pub user_id: u128,
    pub status: String,
}

/// Query parameters of the report listing.
#[derive(Debug, Clone)]
pub struct ReportListQuery {
    pub status: Option<String>,
    pub page: Option<i64>,
    pub per_page: Option<i64>,
}

/// Site-wide counts shown to moderators.
#[derive(Debug, Clone, Copy, PartialEq, Eq)]
pub struct AdminStats {
    pub total_users: i64,
    pub total_novels: i64,
    pub total_reviews: i64,
    pub total_reports_pending: i64,
    pub total_forum_threads: i64,
}

/// The statement listing reports, newest first, and its bound values.
#[derive(Debug, Clone)]
pub struct ReportListPlan {
    pub window: PageWindow,
    pub sql: String,
    pub binds: Vec<ListBind>,
}

/// The report listing statement: filtered by status (`$1`) where a status
/// is given, with page size and offset bound after it.
pub open spec fn spec_report_list_sql(has_status: bool) -> Seq<char> {
    if has_status {
        "SELECT * FROM reports WHERE status = $1::report_status ORDER BY created_at DESC LIMIT $2 OFFSET $3"@
    } else {
        "SELECT * FROM reports ORDER BY created_at DESC LIMIT $1 OFFSET $2"@
    }
}

impl ReportListQuery {
    /// Whether the offset of the requested page fits an `i64`.
    pub fn fits(&self) -> (b: bool)
        ensures
            b == window_fits(self.page, self.per_page, 20, 50),
    {
        paginate_checked(self.page, self.per_page, 20, 50).is_some()
    }

    /// Page window of the report listing: 20 reports per page by default, at
    /// most 50.
    pub fn window(&self) -> (w: PageWindow)
        requires
            window_fits(self.page, self.per_page, 20, 50),
        ensures
            w.page == spec_page(self.page),
            w.per_page == spec_per_page(self.per_page, 20, 50),
            w.offset == spec_offset(self.page, self.per_page, 20, 50),
    {
        paginate(self.page, self.per_page, 20, 50)
    }

    /// Builds the report listing statement and its bound values: the status
    /// where given, then page size and offset.
    pub fn plan(&self) -> (p: ReportListPlan)
        requires
            window_fits(self.page, self.per_page, 20, 50),
        ensures
            p.window.page == spec_page(self.page),
            p.window.per_page == spec_per_page(self.per_page, 20, 50),
            p.window.offset == spec_offset(self.page, self.per_page, 20, 50),
            p.sql@ == spec_report_list_sql(self.status is Some),
            p.binds@ == (match self.status {
                Some(s) => seq![ListBind::Text(s)],
                None => Seq::<ListBind>::empty(),
            }) + seq![ListBind::Int(p.window.per_page), ListBind::Int(p.window.offset)],
    {
        let w = self.window();
        let mut binds: Vec<ListBind> = Vec::new();
        let sql = match &self.status {
            Some(s) => {
                binds.push(ListBind::Text(s.clone()));
                String::from_str("SELECT * FROM reports WHERE status = $1::report_status ORDER BY created_at DESC LIMIT $2 OFFSET $3")
            },
            None => String::from_str("SELECT * FROM reports ORDER BY created_at DESC LIMIT $1 OFFSET $2"),
        };
        binds.push(ListBind::Int(w.per_page));
        binds.push(ListBind::Int(w.offset));
        assert(binds@ =~= (match self.status {
            Some(s) => seq![ListBind::Text(s)],
            None => Seq::<ListBind>::empty(),
        }) + seq![ListBind::Int(w.per_page), ListBind::Int(w.offset)]);
        ReportListPlan { window: w, sql, binds }
    }
}

} // verus!
