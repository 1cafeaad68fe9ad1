//! The composition root: a single-shot lifecycle around the fetch cycle.
//!
//! A `Monitor` owns the shared configuration outright and moves through
//! three states — idle, running, stopped — exactly once. The callers
//! around it perform every outward action (the credential exchange, the
//! search requests, revocation, persistence) and hand the outcomes in as
//! plain values; the decisions about them are made, and proved, here.

use vstd::prelude::*;

use crate::config::Config;
use crate::reddit::build_search_requests;
use crate::reddit::current_epoch_secs;
use crate::reddit::cycle_model;
use crate::reddit::run_cycle;
use crate::reddit::AuthResponse;
use crate::reddit::Listing;
use crate::reddit::OAuthToken;
use crate::reddit::Post;
use crate::reddit::SearchRequest;
use crate::reddit::Thing;

verus! {

/// Where the monitor stands in its single-shot lifecycle.
#[derive(Clone, Copy, Debug, PartialEq, Eq, Structural)]
pub enum MonitorState {
    /// Constructed, not yet started.
    Idle,
    /// Ticking; the only state in which cycles run.
    Running,
    /// Terminal: reached once, by `stop`, and never left.
    Stopped,
}

/// The failures the lifecycle itself surfaces. Per-cycle trouble — a
/// failed fetch, a failed notification — never appears here: a cycle
/// absorbs it and the next tick retries.
#[derive(Clone, Copy, Debug, PartialEq, Eq, Structural)]
pub enum MonitorError {
    /// The credential exchange failed; fatal to `start`, contained
    /// within a tick otherwise.
    Auth,
    /// `stop` was called with no active schedule to stop.
    AlreadyStopped,
    /// The shared state came back unusable from the scheduling context;
    /// nothing is persisted once this is seen.
    StateCorrupted,
}

pub struct Monitor {
    pub config: Config,
    pub interval_secs: u64,
    pub state: MonitorState,
    pub token: OAuthToken,
    pub revoked: bool,
}

impl Monitor {
    /// Revocation marks the terminal state and nothing else: it has
    /// happened exactly when the monitor is stopped.
    pub open spec fn wf(self) -> bool {
        self.revoked <==> self.state is Stopped
    }

    pub fn new(config: Config, interval_secs: u64) -> (m: Monitor)
        ensures
            m.config == config,
            m.interval_secs == interval_secs,
            m.state is Idle,
            !m.revoked,
            m.token.spec_ttl() == 0,
            forall|now: u64| m.token.spec_expired(now),
            m.wf(),
    {
        Monitor {
            config,
            interval_secs,
            state: MonitorState::Idle,
            token: OAuthToken::never_issued(),
            revoked: false,
        }
    }

    /// Leaves idle for running, but only once the credentials have been
    /// validated: `auth` is the outcome of the eager client-credentials
    /// exchange. Without a grant, nothing changes and the start is
    /// aborted with an authentication error.
    pub fn start(&mut self, auth: Option<AuthResponse>, now: u64) -> (r: Result<
        (),
        MonitorError,
    >)
        requires
            old(self).state is Idle,
            old(self).wf(),
        ensures
            final(self).wf(),
            auth is None ==> r == Err::<(), MonitorError>(MonitorError::Auth) && *final(self)
                == *old(self),
            auth is Some ==> {
                &&& r == Ok::<(), MonitorError>(())
                &&& final(self).state is Running
                &&& final(self).token.spec_token() == auth->0.access_token@
                &&& final(self).token.issued_at == now
                &&& final(self).token.spec_ttl() == auth->0.expires_in
                &&& final(self).config == old(self).config
                &&& final(self).interval_secs == old(self).interval_secs
                &&& final(self).revoked == old(self).revoked
            },
    {
        match auth {
            None => Err(MonitorError::Auth),
            Some(grant) => {
                self.token = OAuthToken::new(grant.access_token, now, grant.expires_in);
                self.state = MonitorState::Running;
                Ok(())
            },
        }
    }

    /// The credential manager's promise: after this call the held token
    /// is valid, or the previous token is untouched and the cycle is told
    /// to fail. `fresh` is the outcome of an exchange performed for this
    /// call; it is consulted only when the held token has expired.
    pub fn ensure_valid(&mut self, fresh: Option<AuthResponse>, now: u64) -> (r: Result<
        (),
        MonitorError,
    >)
        requires
            old(self).state is Running,
            old(self).wf(),
        ensures
            final(self).wf(),
            final(self).state == old(self).state,
            final(self).config == old(self).config,
            final(self).interval_secs == old(self).interval_secs,
            final(self).revoked == old(self).revoked,
            !old(self).token.spec_expired(now) ==> r == Ok::<(), MonitorError>(()) && *final(self)
                == *old(self),
            old(self).token.spec_expired(now) && fresh is None ==> r == Err::<(), MonitorError>(
                MonitorError::Auth,
            ) && *final(self) == *old(self),
            old(self).token.spec_expired(now) && fresh is Some ==> {
                &&& r == Ok::<(), MonitorError>(())
                &&& final(self).token.spec_token() == fresh->0.access_token@
                &&& final(self).token.issued_at == now
                &&& final(self).token.spec_ttl() == fresh->0.expires_in
            },
    {
        if !self.token.is_expired(now) {
            return Ok(());
        }
        match fresh {
            None => Err(MonitorError::Auth),
            Some(grant) => {
                self.token = OAuthToken::new(grant.access_token, now, grant.expires_in);
                Ok(())
            },
        }
    }

    /// The requests one tick must issue: one per configured feed, each
    /// carrying that feed's cursor and parameters under the held bearer
    /// token — and none at all when no feed is configured.
    pub fn search_requests(&self) -> (r: Vec<SearchRequest>)
        ensures
            r@.len() == self.config.subreddit_configs@.len(),
            forall|i: int|
                0 <= i < r@.len() ==> crate::reddit::request_matches(
                    r@[i],
                    self.config.subreddit_configs@[i],
                    self.token.spec_token(),
                ),
    {
        build_search_requests(&self.config.subreddit_configs, &self.token)
    }

    /// One cycle at an explicit clock reading: exactly `run_cycle` over
    /// the owned feed configurations, with the rest of the monitor
    /// untouched.
    pub fn check_at(&mut self, responses: &Vec<Option<Thing<Listing>>>, now: u64) -> (r: Vec<
        (String, Vec<Post>),
    >)
        requires
            old(self).state is Running,
            old(self).wf(),
            responses@.len() == old(self).config.subreddit_configs@.len(),
        ensures
            final(self).wf(),
            final(self).state == old(self).state,
            final(self).interval_secs == old(self).interval_secs,
            final(self).token == old(self).token,
            final(self).revoked == old(self).revoked,
            final(self).config.discord_bot_token == old(self).config.discord_bot_token,
            final(self).config.reddit_oauth_id == old(self).config.reddit_oauth_id,
            final(self).config.reddit_oauth_secret == old(self).config.reddit_oauth_secret,
            final(self).config.path == old(self).config.path,
            cycle_model(
                old(self).config.subreddit_configs@,
                final(self).config.subreddit_configs@,
                responses@,
                r@,
                now,
            ),
    {
        run_cycle(&mut self.config.subreddit_configs, responses, now)
    }

    /// One cycle at the wall clock's current reading. The clock is read
    /// here, so the ages in the result depend on it; everything else the
    /// cycle does is exactly `check_at` at some clock reading.
    pub fn check(&mut self, responses: &Vec<Option<Thing<Listing>>>) -> (r: Vec<
        (String, Vec<Post>),
    >)
        requires
            old(self).state is Running,
            old(self).wf(),
            responses@.len() == old(self).config.subreddit_configs@.len(),
        ensures
            final(self).wf(),
            final(self).state == old(self).state,
            final(self).interval_secs == old(self).interval_secs,
            final(self).token == old(self).token,
            final(self).revoked == old(self).revoked,
            final(self).config.discord_bot_token == old(self).config.discord_bot_token,
            final(self).config.reddit_oauth_id == old(self).config.reddit_oauth_id,
            final(self).config.reddit_oauth_secret == old(self).config.reddit_oauth_secret,
            final(self).config.path == old(self).config.path,
            exists|now: u64|
                cycle_model(
                    old(self).config.subreddit_configs@,
                    final(self).config.subreddit_configs@,
                    responses@,
                    r@,
                    now,
                ),
    {
        let secs: i64 = current_epoch_secs();
        let now: u64 = secs as u64;
        let r = self.check_at(responses, now);
        proof {
            assert(cycle_model(
                old(self).config.subreddit_configs@,
                final(self).config.subreddit_configs@,
                responses@,
                r@,
                now,
            ));
        }
        r
    }

    /// The one way out of running, and the only place revocation is
    /// commanded. A monitor with no active schedule reports so; one whose
    /// scheduling context left the shared state unusable reports the
    /// corruption instead of persisting it. Either way, once stopped,
    /// stopped for good.
    pub fn stop(&mut self, store_ok: bool) -> (r: Result<(), MonitorError>)
        requires
            old(self).wf(),
        ensures
            final(self).wf(),
            !(old(self).state is Running) ==> r == Err::<(), MonitorError>(
                MonitorError::AlreadyStopped,
            ) && *final(self) == *old(self),
            old(self).state is Running ==> {
                &&& !old(self).revoked
                &&& final(self).state is Stopped
                &&& final(self).revoked
                &&& final(self).config == old(self).config
                &&& final(self).interval_secs == old(self).interval_secs
                &&& final(self).token == old(self).token
            },
            old(self).state is Running && store_ok ==> r == Ok::<(), MonitorError>(()),
            old(self).state is Running && !store_ok ==> r == Err::<(), MonitorError>(
                MonitorError::StateCorrupted,
            ),
    {
        match self.state {
            MonitorState::Running => {
                self.state = MonitorState::Stopped;
                self.revoked = true;
                if store_ok {
                    Ok(())
                } else {
                    Err(MonitorError::StateCorrupted)
                }
            },
            _ => Err(MonitorError::AlreadyStopped),
        }
    }
}

/// Law: while the monitor is running — in particular, during every tick —
/// revocation has not happened; with `stop` the only transition that sets
/// it and every other operation preserving it, revocation is commanded
/// exactly once per lifetime, by the first `stop` of a running monitor.
pub proof fn lemma_running_never_revoked(m: Monitor)
    requires
        m.wf(),
        m.state is Running,
    ensures
        !m.revoked,
{
}

} // verus!
