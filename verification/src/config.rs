//! Feed definitions and credentials: everything the monitor reads at
//! startup, mutates as cursors advance, and hands back for persistence at
//! shutdown. Serialization of this state is an external concern; here it
//! is plain values.

use vstd::prelude::*;

verus! {

/// Search parameters for one feed, together with its cursor.
///
/// `before` is the cursor: the identifier of the most recently seen item.
/// A search carrying it returns only items newer than that one.
pub struct Query {
    pub before: String,
    pub count: u8,
    pub limit: u8,
    pub q: String,
    pub restrict_sr: bool,
    pub sort: String,
    pub t: String,
}

impl Query {
    /// The defaults `Default::default` promises: an empty cursor, no free
    /// text, up to 25 results, restricted to the subreddit, newest first,
    /// over all time.
    pub open spec fn is_default(self) -> bool {
        &&& self.before@ == Seq::<char>::empty()
        &&& self.count == 0
        &&& self.limit == 25
        &&& self.q@ == Seq::<char>::empty()
        &&& self.restrict_sr == true
        &&& self.sort@ == "new"@
        &&& self.t@ == "all"@
    }
}

impl Default for Query {
    fn default() -> (q: Query)
        ensures
            q.is_default(),
    {
        Query {
            before: String::new(),
            count: 0,
            limit: 25,
            q: String::new(),
            restrict_sr: true,
            sort: String::from_str("new"),
            t: String::from_str("all"),
        }
    }
}

/// One configured feed: the subreddit it watches and the query it runs.
pub struct SubredditData {
    pub subreddit: String,
    pub search_query: Query,
}

/// The full shared state: every feed, the credentials for both external
/// services, and where the state is persisted at shutdown.
pub struct Config {
    pub subreddit_configs: Vec<SubredditData>,
    pub discord_bot_token: String,
    pub reddit_oauth_id: String,
    pub reddit_oauth_secret: String,
    pub path: String,
}

} // verus!
