//! Records exchanged by the social API (feeds, profiles, user search,
//! webhooks) and the paging rules of its queries.
use crate::text::owned;
use vstd::prelude::*;
use vstd::string::StringExecFns;

verus! {

/// Page size of a feed or search when the query gives none.
pub const DEFAULT_PAGE_LIMIT: i64 = 20;

/// A payment as shown in a feed.
#[derive(Clone, PartialEq, Eq, Debug)]
pub struct FeedItem {
    pub id: String,
    pub tx_hash: String,
    pub sender_username: String,
    pub sender_avatar: Option<String>,
    pub receiver_username: String,
    pub receiver_avatar: Option<String>,
    /// Amount in currency units, with two decimals.
    pub amount: String,
    pub currency: String,
    pub memo: String,
    pub likes_count: usize,
    pub comments_count: usize,
    /// Whether the requesting user liked the payment.
    pub has_liked: bool,
    /// RFC 3339 timestamp.
    pub created_at: String,
}

/// Paging parameters of a feed request.
#[derive(Clone, Copy, PartialEq, Eq, Structural, Debug)]
pub struct FeedQuery {
    pub limit: Option<i64>,
    pub offset: Option<i64>,
}

/// The (limit, offset) of a page: 20 and 0 unless given.
pub open spec fn page_of(limit: Option<i64>, offset: Option<i64>) -> (i64, i64) {
    (
        match limit {
            Some(l) => l,
            None => 20,
        },
        match offset {
            Some(o) => o,
            None => 0,
        },
    )
}

/// The limit of a page is the one given, `DEFAULT_PAGE_LIMIT` when none is,
/// and its offset is the one given, 0 when none is; each is decided by its
/// own parameter alone, whatever the other one is.
pub proof fn lemma_page_parameters_independent(
    limit: Option<i64>,
    offset: Option<i64>,
    other_limit: Option<i64>,
    other_offset: Option<i64>,
)
    ensures
        limit matches Some(l) ==> page_of(limit, offset).0 == l,
        limit is None ==> page_of(limit, offset).0 == DEFAULT_PAGE_LIMIT,
        offset matches Some(o) ==> page_of(limit, offset).1 == o,
        offset is None ==> page_of(limit, offset).1 == 0,
        page_of(limit, offset).0 == page_of(limit, other_offset).0,
        page_of(limit, offset).1 == page_of(other_limit, offset).1,
{
}

fn resolve_page(limit: Option<i64>, offset: Option<i64>) -> (r: (i64, i64))
    ensures
        r == page_of(limit, offset),
{
    let l = match limit {
        Some(l) => l,
        None => DEFAULT_PAGE_LIMIT,
    };
    let o = match offset {
        Some(o) => o,
        None => 0,
    };
    (l, o)
}

impl FeedQuery {
    /// The (limit, offset) of the requested page.
    pub fn page(&self) -> (r: (i64, i64))
        ensures
            r == page_of(self.limit, self.offset),
    {
        resolve_page(self.limit, self.offset)
    }
}

/// Changes to the caller's profile; absent fields are left as they are.
#[derive(Clone, PartialEq, Eq, Debug)]
pub struct UpdateProfileRequest {
    pub display_name: Option<String>,
    pub bio: Option<String>,
    pub avatar_url: Option<String>,
}

/// A user's public profile.
#[derive(Clone, PartialEq, Eq, Debug)]
pub struct ProfileResponse {
    pub address: String,
    pub username: String,
    pub display_name: Option<String>,
    pub bio: Option<String>,
    pub avatar_url: Option<String>,
}

/// A user search: users whose username or address starts with `q`.
#[derive(Clone, PartialEq, Eq, Debug)]
pub struct SearchQuery {
    pub q: String,
    pub limit: Option<i64>,
    pub offset: Option<i64>,
}

impl SearchQuery {
    /// The (limit, offset) of the requested page.
    pub fn page(&self) -> (r: (i64, i64))
        ensures
            r == page_of(self.limit, self.offset),
    {
        resolve_page(self.limit, self.offset)
    }

    /// The SQL `LIKE` pattern matching texts that start with `q`.
    pub fn like_pattern(&self) -> (r: String)
        ensures
            r@ == self.q@ + "%"@,
    {
        let mut pattern = owned(self.q.as_str());
        pattern.append("%");
        pattern
    }
}

/// One user found by a search.
#[derive(Clone, PartialEq, Eq, Debug)]
pub struct UserSearchItem {
    pub username: String,
    pub address: String,
    pub avatar_url: Option<String>,
}

/// A friend request to the user with the given address.
#[derive(Clone, PartialEq, Eq, Debug)]
pub struct FriendRequest {
    pub friend_address: String,
}

/// Delivery statistics of a merchant's webhooks.
#[derive(Clone, Copy, PartialEq, Eq, Structural, Debug)]
pub struct WebhookDashboardStats {
    pub total_endpoints: i64,
    pub active_endpoints: i64,
    pub total_deliveries: i64,
    pub successful_deliveries: i64,
    pub failed_deliveries: i64,
    pub pending_deliveries: i64,
}

} // verus!
