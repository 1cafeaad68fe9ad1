//! The feed-fetching side of the monitor: the OAuth bearer token with its
//! expiry rule, the shapes of the search API's listing envelope, and the
//! all-or-nothing fetch cycle that turns per-feed responses into
//! discovered items and advanced cursors.

use vstd::pervasive::unreached;
use vstd::prelude::*;

use crate::config::Query;
use crate::config::SubredditData;

verus! {

/// A bearer token together with the moment it was issued and its
/// time-to-live. All times are whole seconds since the Unix epoch;
/// the caller supplies the current time when asking about expiry.
pub struct OAuthToken {
    pub token: String,
    pub issued_at: u64,
    pub expires_in: u64,
}

impl OAuthToken {
    /// The token string handed to the API as the bearer credential.
    pub open spec fn spec_token(self) -> Seq<char> {
        self.token@
    }

    /// Seconds elapsed since the token was issued, clamped at zero if the
    /// supplied clock reads earlier than the issue time.
    pub open spec fn spec_elapsed(self, now: u64) -> nat {
        if now >= self.issued_at {
            (now - self.issued_at) as nat
        } else {
            0
        }
    }

    /// A token is expired exactly when the time elapsed since issue has
    /// reached its time-to-live.
    pub open spec fn spec_expired(self, now: u64) -> bool {
        self.spec_elapsed(now) >= self.expires_in
    }

    /// The time-to-live the token was issued with, in seconds.
    pub open spec fn spec_ttl(self) -> u64 {
        self.expires_in
    }

    pub fn new(token: String, now: u64, expires_in: u64) -> (t: OAuthToken)
        ensures
            t.spec_token() == token@,
            t.issued_at == now,
            t.spec_ttl() == expires_in,
    {
        OAuthToken { token, issued_at: now, expires_in }
    }

    /// A placeholder for a credential that was never obtained: it is
    /// expired at every instant, so the first use forces an exchange.
    pub fn never_issued() -> (t: OAuthToken)
        ensures
            t.spec_token() == Seq::<char>::empty(),
            t.spec_ttl() == 0,
            forall|now: u64| t.spec_expired(now),
    {
        OAuthToken { token: String::new(), issued_at: 0, expires_in: 0 }
    }

    pub fn is_expired(&self, now: u64) -> (r: bool)
        ensures
            r == self.spec_expired(now),
    {
        let elapsed: u64 = if now >= self.issued_at {
            now - self.issued_at
        } else {
            0
        };
        elapsed >= self.expires_in
    }

    pub fn bearer(&self) -> (r: &String)
        ensures
            r@ == self.spec_token(),
    {
        &self.token
    }
}

/// A token whose time-to-live is zero — in particular one never issued —
/// is expired no matter what the clock reads.
pub proof fn lemma_zero_ttl_token_always_expired(t: OAuthToken, now: u64)
    requires
        t.spec_ttl() == 0,
    ensures
        t.spec_expired(now),
{
}

/// What a successful client-credentials exchange hands back: the bearer
/// token string and its time-to-live in seconds.
pub struct AuthResponse {
    pub access_token: String,
    pub expires_in: u64,
}

/// One item as the search API reports it, with its creation time floored
/// to whole seconds since the Unix epoch. The `name` is the opaque
/// identifier that becomes the next cursor.
pub struct Link {
    pub created_utc: u64,
    pub name: String,
    pub num_comments: u64,
    pub score: i64,
    pub selftext: String,
    pub subreddit_name_prefixed: String,
    pub title: String,
    pub url: String,
}

/// The API's envelope: a type tag beside the payload it wraps.
pub struct Thing<T> {
    pub data: T,
    pub kind: String,
}

/// An ordered collection of item envelopes, newest first.
pub struct Listing {
    pub children: Vec<Thing<Link>>,
    pub dist: u8,
}

/// A newly discovered item as handed to the notifier. `posted` is the
/// item's age at fetch time: whole seconds, clamped non-negative.
pub struct Post {
    pub title: String,
    pub link: String,
    pub score: i64,
    pub comments: u64,
    pub posted: u64,
}

/// The age of an item created at `created`, read at `now`: the difference
/// in whole seconds, clamped at zero if the creation time lies ahead of
/// the clock.
pub open spec fn spec_age(now: u64, created: u64) -> u64 {
    if created <= now {
        (now - created) as u64
    } else {
        0
    }
}

/// `p` is exactly the discovered item that `link`, read at `now`, yields.
pub open spec fn post_matches(p: Post, link: Link, now: u64) -> bool {
    &&& p.title@ == link.title@
    &&& p.link@ == link.url@
    &&& p.score == link.score
    &&& p.comments == link.num_comments
    &&& p.posted == spec_age(now, link.created_utc)
}

/// The identifier of the newest (first) item of a listing response.
pub open spec fn newest_id(resp: Thing<Listing>) -> Seq<char> {
    resp.data.children[0].data.name@
}

/// A cycle succeeds only when there is at least one feed and every feed's
/// request came back parsed with at least one item; anything less yields
/// an empty result and leaves every cursor alone.
pub open spec fn cycle_succeeds(responses: Seq<Option<Thing<Listing>>>) -> bool {
    &&& responses.len() > 0
    &&& forall|i: int|
        0 <= i < responses.len() ==> responses[i] is Some && responses[i]->0.data.children.len()
            > 0
}

/// After a successful cycle the feed's cursor is the newest item's
/// identifier from that feed's own response; every other field of the
/// feed's configuration is untouched.
pub open spec fn cursor_advanced(
    old_c: SubredditData,
    new_c: SubredditData,
    resp: Thing<Listing>,
) -> bool {
    &&& new_c.subreddit == old_c.subreddit
    &&& new_c.search_query.before@ == newest_id(resp)
    &&& new_c.search_query.count == old_c.search_query.count
    &&& new_c.search_query.limit == old_c.search_query.limit
    &&& new_c.search_query.q == old_c.search_query.q
    &&& new_c.search_query.restrict_sr == old_c.search_query.restrict_sr
    &&& new_c.search_query.sort == old_c.search_query.sort
    &&& new_c.search_query.t == old_c.search_query.t
}

/// One entry of the result mapping: the feed's name under the `r/`
/// namespace, and one discovered item per item of the response, in the
/// response's order.
pub open spec fn feed_result_matches(
    c: SubredditData,
    resp: Thing<Listing>,
    entry: (String, Vec<Post>),
    now: u64,
) -> bool {
    &&& entry.0@ == "r/"@ + c.subreddit@
    &&& entry.1@.len() == resp.data.children.len()
    &&& forall|j: int|
        0 <= j < entry.1@.len() ==> post_matches(entry.1@[j], resp.data.children[j].data, now)
}

/// The complete effect of one cycle: on success, one result entry and one
/// advanced cursor per feed, each from that feed's own response; on
/// anything less, an empty result and every feed exactly as it was.
pub open spec fn cycle_model(
    old_configs: Seq<SubredditData>,
    new_configs: Seq<SubredditData>,
    responses: Seq<Option<Thing<Listing>>>,
    r: Seq<(String, Vec<Post>)>,
    now: u64,
) -> bool {
    if cycle_succeeds(responses) {
        &&& r.len() == old_configs.len()
        &&& new_configs.len() == old_configs.len()
        &&& forall|i: int|
            0 <= i < r.len() ==> feed_result_matches(old_configs[i], responses[i]->0, r[i], now)
        &&& forall|i: int|
            0 <= i < r.len() ==> cursor_advanced(old_configs[i], new_configs[i], responses[i]->0)
    } else {
        r.len() == 0 && new_configs == old_configs
    }
}

/// One fetch-and-collect cycle over every configured feed, all-or-nothing:
/// `responses` holds, feed by feed, either that feed's parsed listing or
/// nothing for a failed or malformed request. If every feed (of at least
/// one) answered with at least one item, each feed's cursor advances to
/// its own newest identifier and the mapping carries every feed's items;
/// otherwise the mapping is empty and no cursor moves, so the next cycle
/// retries from the same position.
pub fn run_cycle(
    configs: &mut Vec<SubredditData>,
    responses: &Vec<Option<Thing<Listing>>>,
    now: u64,
) -> (r: Vec<(String, Vec<Post>)>)
    requires
        responses@.len() == old(configs)@.len(),
    ensures
        cycle_model(old(configs)@, final(configs)@, responses@, r@, now),
{
    let n: usize = configs.len();
    let mut all_ok: bool = n > 0;
    let mut i: usize = 0;
    while i < n
        invariant
            i <= n,
            n == responses@.len(),
            *configs == *old(configs),
            n == configs@.len(),
            all_ok == (n > 0 && forall|k: int|
                0 <= k < i ==> responses@[k] is Some && responses@[k]->0.data.children.len() > 0),
        decreases n - i,
    {
        let ok_here = match &responses[i] {
            Some(t) => t.data.children.len() > 0,
            None => false,
        };
        all_ok = all_ok && ok_here;
        i += 1;
    }
    if !all_ok {
        return Vec::new();
    }
    assert(cycle_succeeds(responses@));

    let mut out: Vec<(String, Vec<Post>)> = Vec::new();
    let mut newcfg: Vec<SubredditData> = Vec::new();
    for i in 0..n
        invariant
            n == responses@.len(),
            *configs == *old(configs),
            n == configs@.len(),
            cycle_succeeds(responses@),
            out@.len() == i,
            newcfg@.len() == i,
            forall|k: int|
                0 <= k < i ==> feed_result_matches(configs@[k], responses@[k]->0, out@[k], now),
            forall|k: int| 0 <= k < i ==> cursor_advanced(configs@[k], newcfg@[k], responses@[k]->0),
    {
        assert(responses@[i as int] is Some && responses@[i as int]->0.data.children.len() > 0);
        let thing: &Thing<Listing> = match &responses[i] {
            Some(t) => t,
            None => unreached(),
        };
        let children = &thing.data.children;
        let m: usize = children.len();
        let mut posts: Vec<Post> = Vec::new();
        for j in 0..m
            invariant
                m == children@.len(),
                posts@.len() == j,
                forall|k: int| 0 <= k < j ==> post_matches(posts@[k], children@[k].data, now),
        {
            let link = &children[j].data;
            let age: u64 = if link.created_utc <= now {
                now - link.created_utc
            } else {
                0
            };
            posts.push(
                Post {
                    title: link.title.clone(),
                    link: link.url.clone(),
                    score: link.score,
                    comments: link.num_comments,
                    posted: age,
                },
            );
        }
        let c = &configs[i];
        let label = String::from_str("r/").concat(c.subreddit.as_str());
        out.push((label, posts));
        newcfg.push(
            SubredditData {
                subreddit: c.subreddit.clone(),
                search_query: Query {
                    before: children[0].data.name.clone(),
                    count: c.search_query.count,
                    limit: c.search_query.limit,
                    q: c.search_query.q.clone(),
                    restrict_sr: c.search_query.restrict_sr,
                    sort: c.search_query.sort.clone(),
                    t: c.search_query.t.clone(),
                },
            },
        );
    }
    *configs = newcfg;
    out
}

/// The decimal character for one digit.
pub open spec fn spec_digit_char(d: nat) -> char {
    if d == 0 {
        '0'
    } else if d == 1 {
        '1'
    } else if d == 2 {
        '2'
    } else if d == 3 {
        '3'
    } else if d == 4 {
        '4'
    } else if d == 5 {
        '5'
    } else if d == 6 {
        '6'
    } else if d == 7 {
        '7'
    } else if d == 8 {
        '8'
    } else {
        '9'
    }
}

/// The decimal rendering of a number, most significant digit first and
/// without leading zeros (zero itself is "0").
pub open spec fn spec_dec(n: nat) -> Seq<char>
    decreases n,
{
    if n < 10 {
        seq![spec_digit_char(n)]
    } else {
        spec_dec(n / 10) + seq![spec_digit_char(n % 10)]
    }
}

fn digit_str(d: u8) -> (r: &'static str)
    requires
        d < 10,
    ensures
        r@ =~= seq![spec_digit_char(d as nat)],
{
    proof {
        reveal_strlit("0");
        reveal_strlit("1");
        reveal_strlit("2");
        reveal_strlit("3");
        reveal_strlit("4");
        reveal_strlit("5");
        reveal_strlit("6");
        reveal_strlit("7");
        reveal_strlit("8");
        reveal_strlit("9");
    }
    match d {
        0 => "0",
        1 => "1",
        2 => "2",
        3 => "3",
        4 => "4",
        5 => "5",
        6 => "6",
        7 => "7",
        8 => "8",
        _ => "9",
    }
}

/// Appends the decimal rendering of `n` to `s`.
fn push_dec_u8(s: &mut String, n: u8)
    ensures
        final(s)@ == old(s)@ + spec_dec(n as nat),
    decreases n,
{
    if n >= 10 {
        push_dec_u8(s, n / 10);
    }
    s.append(digit_str(n % 10));
    proof {
        if n < 10 {
            assert(old(s)@ + spec_dec(n as nat) =~= old(s)@ + seq![spec_digit_char(n as nat)]);
        } else {
            assert(old(s)@ + spec_dec(n as nat) =~= (old(s)@ + spec_dec(n as nat / 10)) + seq![
                spec_digit_char(n as nat % 10),
            ]);
        }
    }
}

/// The decimal rendering of a `u8`, as `to_string` would give it.
pub fn u8_to_dec_string(n: u8) -> (r: String)
    ensures
        r@ == spec_dec(n as nat),
{
    let mut s = String::new();
    push_dec_u8(&mut s, n);
    proof {
        assert(Seq::<char>::empty() + spec_dec(n as nat) =~= spec_dec(n as nat));
    }
    s
}

/// The lower-case rendering of a flag, as `to_string` would give it.
pub open spec fn spec_bool_str(b: bool) -> Seq<char> {
    if b {
        "true"@
    } else {
        "false"@
    }
}

pub fn bool_to_string(b: bool) -> (r: String)
    ensures
        r@ == spec_bool_str(b),
{
    if b {
        String::from_str("true")
    } else {
        String::from_str("false")
    }
}

/// The search endpoint for one feed.
pub open spec fn spec_search_url(sub: Seq<char>) -> Seq<char> {
    "https://oauth.reddit.com/r/"@ + sub + "/search"@
}

/// Everything one read-only search request carries: the endpoint, the
/// bearer credential, and the query pairs in a fixed order. The transport
/// that performs it lives outside this crate.
pub struct SearchRequest {
    pub url: String,
    pub bearer: String,
    pub params: Vec<(String, String)>,
}

/// `req` is exactly the request that feed `c` calls for under `token`.
pub open spec fn request_matches(req: SearchRequest, c: SubredditData, token: Seq<char>) -> bool {
    &&& req.url@ == spec_search_url(c.subreddit@)
    &&& req.bearer@ == token
    &&& req.params@.len() == 7
    &&& req.params@[0].0@ == "before"@ && req.params@[0].1@ == c.search_query.before@
    &&& req.params@[1].0@ == "count"@ && req.params@[1].1@ == spec_dec(
        c.search_query.count as nat,
    )
    &&& req.params@[2].0@ == "limit"@ && req.params@[2].1@ == spec_dec(
        c.search_query.limit as nat,
    )
    &&& req.params@[3].0@ == "q"@ && req.params@[3].1@ == c.search_query.q@
    &&& req.params@[4].0@ == "restrict_sr"@ && req.params@[4].1@ == spec_bool_str(
        c.search_query.restrict_sr,
    )
    &&& req.params@[5].0@ == "sort"@ && req.params@[5].1@ == c.search_query.sort@
    &&& req.params@[6].0@ == "t"@ && req.params@[6].1@ == c.search_query.t@
}

/// One request per configured feed, in configuration order — in
/// particular, none at all when no feed is configured.
pub fn build_search_requests(configs: &Vec<SubredditData>, token: &OAuthToken) -> (r: Vec<
    SearchRequest,
>)
    ensures
        r@.len() == configs@.len(),
        forall|i: int| 0 <= i < r@.len() ==> request_matches(r@[i], configs@[i], token.spec_token()),
{
    let n: usize = configs.len();
    let mut out: Vec<SearchRequest> = Vec::new();
    for i in 0..n
        invariant
            n == configs@.len(),
            out@.len() == i,
            forall|k: int|
                0 <= k < i ==> request_matches(out@[k], configs@[k], token.spec_token()),
    {
        let c = &configs[i];
        let url = String::from_str("https://oauth.reddit.com/r/").concat(
            c.subreddit.as_str(),
        ).concat("/search");
        let mut params: Vec<(String, String)> = Vec::new();
        params.push((String::from_str("before"), c.search_query.before.clone()));
        params.push((String::from_str("count"), u8_to_dec_string(c.search_query.count)));
        params.push((String::from_str("limit"), u8_to_dec_string(c.search_query.limit)));
        params.push((String::from_str("q"), c.search_query.q.clone()));
        params.push((String::from_str("restrict_sr"), bool_to_string(c.search_query.restrict_sr)));
        params.push((String::from_str("sort"), c.search_query.sort.clone()));
        params.push((String::from_str("t"), c.search_query.t.clone()));
        out.push(SearchRequest { url, bearer: token.bearer().clone(), params });
    }
    out
}

/// Relies on `chrono::Utc::now` and `DateTime::timestamp`: the current
/// wall-clock moment as whole seconds since the Unix epoch. The value
/// depends on the system clock, so nothing is stated of it beyond its
/// sign: `Utc::now` does not return at all on a clock that reads earlier
/// than the epoch.
#[verifier::external_body]
pub(crate) fn current_epoch_secs() -> (r: i64)
    ensures
        r >= 0,
{
    chrono::Utc::now().timestamp()
}

} // verus!
