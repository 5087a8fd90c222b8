use vstd::prelude::*;
use crate::pagination::{paginate_checked, PageWindow, paginate, window_fits, spec_page, spec_per_page, spec_offset};

verus! {

/// Query parameters of a user's notification listing.
#[derive(Debug, Clone, Copy)]
pub struct NotificationQuery {
    pub page: Option<i64>,
    pub per_page: Option<i64>,
    pub unread_only: Option<bool>,
}

/// How many notifications a user has not read.
#[derive(Debug, Clone, Copy, PartialEq, Eq)]
pub struct UnreadCount {
    pub count: i64,
}

/// The notification listing statement: the user's notifications (`$1`),
/// only the unread ones where asked, newest first, page size `$2` and
/// offset `$3`.
pub open spec fn spec_notification_list_sql(unread_only: bool) -> Seq<char> {
    if unread_only {
        "SELECT * FROM notifications WHERE user_id = $1 AND is_read = FALSE ORDER BY created_at DESC LIMIT $2 OFFSET $3"@
    } else {
        "SELECT * FROM notifications WHERE user_id = $1 ORDER BY created_at DESC LIMIT $2 OFFSET $3"@
    }
}

impl NotificationQuery {
    /// Whether the offset of the requested page fits an `i64`.
    pub fn fits(&self) -> (b: bool)
        ensures
            b == window_fits(self.page, self.per_page, 20, 50),
    {
        paginate_checked(self.page, self.per_page, 20, 50).is_some()
    }

    /// Page window of the listing: 20 notifications per page by default, at
    /// most 50.
    pub fn window(&self) -> (w: PageWindow)
        requires
            window_fits(self.page, self.per_page, 20, 50),
        ensures
            w.page == spec_page(self.page),
            w.per_page == spec_per_page(self.per_page, 20, 50),
            w.offset == spec_offset(self.page, self.per_page, 20, 50),
    {
        paginate(self.page, self.per_page, 20, 50)
    }

    /// Whether only unread notifications are listed; by default all are.
    pub fn unread_only(&self) -> (b: bool)
        ensures
            b == (self.unread_only == Some(true)),
    {
        match self.unread_only {
            Some(b) => b,
            None => false,
        }
    }

    /// The listing statement this query selects.
    pub fn sql(&self) -> (s: &'static str)
        ensures
            s@ == spec_notification_list_sql(self.unread_only == Some(true)),
    {
        if self.unread_only() {
            "SELECT * FROM notifications WHERE user_id = $1 AND is_read = FALSE ORDER BY created_at DESC LIMIT $2 OFFSET $3"
        } else {
            "SELECT * FROM notifications WHERE user_id = $1 ORDER BY created_at DESC LIMIT $2 OFFSET $3"
        }
    }
}

} // verus!
