//! History sync progress and older-history requests.

use vstd::prelude::*;
use crate::clock::{self, Nanos, Timestamp, MAX_DELTA_SECONDS};
use crate::keyed::{filter_entries, keys_distinct, lemma_filter_entries, lookup, stored, StrMap};
use crate::rpc::Jid;
use crate::text::{decimal_string, decimal_text, string_from};

verus! {

/// Progress of one history sync.
#[derive(Debug, Clone, Copy)]
pub struct SyncState {
    pub current: u32,
    pub total: u32,
    pub started_at: Timestamp,
    pub last_update: Timestamp,
    pub completed: bool,
}

/// The larger of two counts.
pub open spec fn max_u32(a: u32, b: u32) -> u32 {
    if a >= b {
        a
    } else {
        b
    }
}

/// More than `threshold_seconds` passed from `last` to `now`.
pub open spec fn stale(last: int, threshold_seconds: int, now: int) -> bool {
    now - last > threshold_seconds * 1_000_000_000
}

/// A sync is in progress and has been stale at `now`.
pub open spec fn sync_stalled(s: Option<SyncState>, expiry: int, now: int) -> bool {
    match s {
        Some(st) => !st.completed && stale(st.last_update as int, expiry, now),
        None => false,
    }
}

impl SyncState {
    /// A sync that started at `now` with the given progress; the total is
    /// raised to the current count when it is smaller.
    pub fn new_at(current: u32, total: u32, now: Timestamp) -> (r: Self)
        ensures
            r.current == current,
            r.total == max_u32(total, current),
            r.started_at == now,
            r.last_update == now,
            !r.completed,
    {
        SyncState {
            current,
            total: if total >= current { total } else { current },
            started_at: now,
            last_update: now,
            completed: false,
        }
    }

    /// A sync that starts now.
    pub fn new(current: u32, total: u32) -> (r: Self)
        ensures
            r.current == current,
            r.total == max_u32(total, current),
            r.started_at == r.last_update,
            !r.completed,
    {
        Self::new_at(current, total, clock::now())
    }

    /// Records new progress at `now`.
    pub fn update_at(&mut self, current: u32, total: u32, now: Timestamp)
        ensures
            final(self).current == current,
            final(self).total == max_u32(total, current),
            final(self).last_update == now,
            final(self).started_at == old(self).started_at,
            final(self).completed == old(self).completed,
    {
        self.current = current;
        self.total = if total >= current { total } else { current };
        self.last_update = now;
    }

    /// Records new progress now.
    pub fn update(&mut self, current: u32, total: u32)
        ensures
            final(self).current == current,
            final(self).total == max_u32(total, current),
            final(self).started_at == old(self).started_at,
            final(self).completed == old(self).completed,
    {
        self.update_at(current, total, clock::now());
    }

    /// Marks the sync as complete at `now`: the count reaches the total.
    pub fn complete_at(&mut self, now: Timestamp)
        ensures
            final(self).current == old(self).total,
            final(self).total == old(self).total,
            final(self).completed,
            final(self).last_update == now,
            final(self).started_at == old(self).started_at,
    {
        self.current = self.total;
        self.completed = true;
        self.last_update = now;
    }

    /// Marks the sync as complete now.
    pub fn complete(&mut self)
        ensures
            final(self).current == old(self).total,
            final(self).total == old(self).total,
            final(self).completed,
            final(self).started_at == old(self).started_at,
    {
        self.complete_at(clock::now());
    }

    /// No update for more than `threshold_seconds` before `now`.
    pub fn is_stale_at(&self, threshold_seconds: i64, now: Timestamp) -> (r: bool)
        requires
            -MAX_DELTA_SECONDS <= threshold_seconds <= MAX_DELTA_SECONDS,
        ensures
            r == stale(self.last_update as int, threshold_seconds as int, now as int),
    {
        clock::elapsed_more_than(now, self.last_update, clock::seconds(threshold_seconds))
    }

    /// No update for more than `threshold_seconds`, as of now.
    pub fn is_stale(&self, threshold_seconds: i64) -> (r: bool)
        requires
            -MAX_DELTA_SECONDS <= threshold_seconds <= MAX_DELTA_SECONDS,
        ensures
            exists|now: Timestamp| r == #[trigger] stale(self.last_update as int, threshold_seconds as int, now as int),
    {
        let now = clock::now();
        self.is_stale_at(threshold_seconds, now)
    }

    /// Time from the start to `now`.
    pub fn elapsed_at(&self, now: Timestamp) -> (r: Nanos)
        requires
            i128::MIN <= now - self.started_at <= i128::MAX,
        ensures
            r == now - self.started_at,
    {
        now - self.started_at
    }
}

/// `s`, `m` and `h`, the unit letters of remaining-time labels.
pub open spec fn remaining_label(secs: i64) -> Seq<char> {
    if secs < 60 {
        decimal_text(secs as int) + seq!['s']
    } else if secs < 3600 {
        decimal_text(secs as int / 60) + seq!['m']
    } else {
        decimal_text(secs as int / 3600) + seq!['h', ' '] + decimal_text((secs as int % 3600) / 60)
            + seq!['m']
    }
}

/// A remaining time in whole seconds as a short label: `42s`, `5m` or `2h 3m`.
pub fn format_remaining(secs: i64) -> (r: String)
    ensures
        r@ == remaining_label(secs),
{
    if secs < 60 {
        let mut v = crate::text::chars_of(decimal_string(secs).as_str());
        v.push('s');
        string_from(v)
    } else if secs < 3600 {
        let mut v = crate::text::chars_of(decimal_string(secs / 60).as_str());
        v.push('m');
        string_from(v)
    } else {
        let mut v = crate::text::chars_of(decimal_string(secs / 3600).as_str());
        v.push('h');
        v.push(' ');
        let mut w = crate::text::chars_of(decimal_string((secs % 3600) / 60).as_str());
        v.append(&mut w);
        v.push('m');
        string_from(v)
    }
}

/// Manages sync operations and older-history requests.
#[derive(Debug)]
pub struct SyncManager {
    history_sync: Option<SyncState>,
    history_request_state: StrMap<(String, Timestamp)>,
    loading_older_messages: bool,
    older_loading_updated_at: Option<Timestamp>,
    sync_expiry_seconds: i64,
    loading_expiry_seconds: i64,
}

/// Seconds within which a request for the same history cursor is not repeated.
pub open spec fn request_dedup_nanos() -> int {
    3_000_000_000
}

/// Seconds for which history requests are remembered.
pub open spec fn request_memory_nanos() -> int {
    60_000_000_000
}

impl SyncManager {
    pub closed spec fn history_sync(&self) -> Option<SyncState> {
        self.history_sync
    }

    /// The last history request per chat: the oldest message id asked from, and when.
    pub closed spec fn requests(&self) -> Seq<(String, (String, Timestamp))> {
        self.history_request_state@
    }

    pub closed spec fn loading_older(&self) -> bool {
        self.loading_older_messages
    }

    pub closed spec fn loading_since(&self) -> Option<Timestamp> {
        self.older_loading_updated_at
    }

    pub closed spec fn sync_expiry(&self) -> i64 {
        self.sync_expiry_seconds
    }

    pub closed spec fn loading_expiry(&self) -> i64 {
        self.loading_expiry_seconds
    }

    /// Chat keys of the requests are distinct.
    pub closed spec fn wf(&self) -> bool {
        self.history_request_state.wf()
    }

    /// A manager with nothing in progress and the default expiries
    /// (eight seconds for syncs, six for loading older messages).
    pub fn new() -> (r: Self)
        ensures
            r.wf(),
            r.history_sync() is None,
            r.requests().len() == 0,
            !r.loading_older(),
            r.loading_since() is None,
            r.sync_expiry() == 8,
            r.loading_expiry() == 6,
    {
        Self::with_expiry(8, 6)
    }

    /// A manager with nothing in progress and the given expiries in seconds.
    pub fn with_expiry(sync_seconds: i64, loading_seconds: i64) -> (r: Self)
        ensures
            r.wf(),
            r.history_sync() is None,
            r.requests().len() == 0,
            !r.loading_older(),
            r.loading_since() is None,
            r.sync_expiry() == sync_seconds,
            r.loading_expiry() == loading_seconds,
    {
        SyncManager {
            history_sync: None,
            history_request_state: StrMap::new(),
            loading_older_messages: false,
            older_loading_updated_at: None,
            sync_expiry_seconds: sync_seconds,
            loading_expiry_seconds: loading_seconds,
        }
    }

    /// A history sync is in progress (started and not completed).
    pub fn is_syncing(&self) -> (r: bool)
        ensures
            r == (self.history_sync() matches Some(s) && !s.completed),
    {
        match &self.history_sync {
            Some(s) => !s.completed,
            None => false,
        }
    }

    /// The progress of the current sync.
    pub fn progress(&self) -> (r: Option<(u32, u32)>)
        ensures
            r == (match self.history_sync() {
                Some(s) => Some((s.current, s.total)),
                None => None,
            }),
    {
        match &self.history_sync {
            Some(s) => Some((s.current, s.total)),
            None => None,
        }
    }

    /// Starts or updates the sync at `now`.
    pub fn set_progress_at(&mut self, current: u32, total: u32, now: Timestamp)
        ensures
            final(self).history_sync() == Some(
                match old(self).history_sync() {
                    Some(s) => SyncState {
                        current,
                        total: max_u32(total, current),
                        started_at: s.started_at,
                        last_update: now,
                        completed: s.completed,
                    },
                    None => SyncState {
                        current,
                        total: max_u32(total, current),
                        started_at: now,
                        last_update: now,
                        completed: false,
                    },
                },
            ),
            final(self).requests() == old(self).requests(),
            final(self).loading_older() == old(self).loading_older(),
            final(self).loading_since() == old(self).loading_since(),
            final(self).sync_expiry() == old(self).sync_expiry(),
            final(self).loading_expiry() == old(self).loading_expiry(),
            final(self).wf() == old(self).wf(),
    {
        match self.history_sync {
            Some(mut state) => {
                state.update_at(current, total, now);
                self.history_sync = Some(state);
            },
            None => {
                self.history_sync = Some(SyncState::new_at(current, total, now));
            },
        }
    }

    /// Starts or updates the sync now.
    pub fn set_progress(&mut self, current: u32, total: u32)
        ensures
            final(self).history_sync() matches Some(s) && s.current == current && s.total == max_u32(
                total,
                current,
            ) && (old(self).history_sync() matches Some(o) ==> s.started_at == o.started_at && s.completed
                == o.completed) && (old(self).history_sync() is None ==> !s.completed),
            final(self).requests() == old(self).requests(),
            final(self).loading_older() == old(self).loading_older(),
            final(self).loading_since() == old(self).loading_since(),
            final(self).sync_expiry() == old(self).sync_expiry(),
            final(self).loading_expiry() == old(self).loading_expiry(),
            final(self).wf() == old(self).wf(),
    {
        let now = clock::now();
        self.set_progress_at(current, total, now);
    }

    /// Marks the current sync, if any, as complete at `now`.
    pub fn finish_sync_at(&mut self, now: Timestamp)
        ensures
            final(self).history_sync() == (match old(self).history_sync() {
                Some(s) => Some(
                    SyncState {
                        current: s.total,
                        total: s.total,
                        started_at: s.started_at,
                        last_update: now,
                        completed: true,
                    },
                ),
                None => None,
            }),
            final(self).requests() == old(self).requests(),
            final(self).loading_older() == old(self).loading_older(),
            final(self).loading_since() == old(self).loading_since(),
            final(self).sync_expiry() == old(self).sync_expiry(),
            final(self).loading_expiry() == old(self).loading_expiry(),
            final(self).wf() == old(self).wf(),
    {
        match self.history_sync {
            Some(mut state) => {
                state.complete_at(now);
                self.history_sync = Some(state);
            },
            None => {},
        }
    }

    /// Marks the current sync, if any, as complete now.
    pub fn finish_sync(&mut self)
        ensures
            old(self).history_sync() is None ==> final(self).history_sync() is None,
            old(self).history_sync() matches Some(o) ==> (final(self).history_sync() matches Some(s)
                && s.completed && s.current == o.total && s.total == o.total && s.started_at
                == o.started_at),
            final(self).requests() == old(self).requests(),
            final(self).loading_older() == old(self).loading_older(),
            final(self).loading_since() == old(self).loading_since(),
            final(self).sync_expiry() == old(self).sync_expiry(),
            final(self).loading_expiry() == old(self).loading_expiry(),
            final(self).wf() == old(self).wf(),
    {
        let now = clock::now();
        self.finish_sync_at(now);
    }

    /// A sync is in progress and has had no update for longer than the sync expiry, at `now`.
    pub fn is_sync_stalled_at(&self, now: Timestamp) -> (r: bool)
        requires
            -MAX_DELTA_SECONDS <= self.sync_expiry() <= MAX_DELTA_SECONDS,
        ensures
            r == sync_stalled(self.history_sync(), self.sync_expiry() as int, now as int),
    {
        match &self.history_sync {
            Some(s) => !s.completed && s.is_stale_at(self.sync_expiry_seconds, now),
            None => false,
        }
    }

    /// A sync is in progress and has stalled, as of now.
    pub fn is_sync_stalled(&self) -> (r: bool)
        requires
            -MAX_DELTA_SECONDS <= self.sync_expiry() <= MAX_DELTA_SECONDS,
        ensures
            exists|now: Timestamp|
                r == #[trigger] sync_stalled(self.history_sync(), self.sync_expiry() as int, now as int),
    {
        let now = clock::now();
        self.is_sync_stalled_at(now)
    }

    /// Forgets the current sync.
    pub fn clear_sync(&mut self)
        ensures
            final(self).history_sync() is None,
            final(self).requests() == old(self).requests(),
            final(self).loading_older() == old(self).loading_older(),
            final(self).loading_since() == old(self).loading_since(),
            final(self).sync_expiry() == old(self).sync_expiry(),
            final(self).loading_expiry() == old(self).loading_expiry(),
            final(self).wf() == old(self).wf(),
    {
        self.history_sync = None;
    }

    /// Whether older history may be requested for the chat from the given
    /// message at `now`: not when the same cursor was asked for less than
    /// three seconds before.
    pub open spec fn may_request(&self, chat: Seq<char>, oldest: Seq<char>, now: int) -> bool {
        match lookup(self.requests(), chat) {
            Some(v) => !(v.0@ == oldest && now - v.1 < request_dedup_nanos()),
            None => true,
        }
    }

    /// Whether older history may be requested at `now`.
    pub fn can_request_history_at(&self, chat_jid: &Jid, oldest_msg_id: &str, now: Timestamp) -> (r: bool)
        requires
            self.wf(),
        ensures
            r == self.may_request(chat_jid.0@, oldest_msg_id@, now as int),
    {
        match self.history_request_state.get(chat_jid.0.as_str()) {
            Some(entry) => {
                let is_same_cursor = crate::text::str_eq(entry.0.as_str(), oldest_msg_id);
                let is_recent = clock::elapsed_less_than(now, entry.1, 3_000_000_000);
                !(is_same_cursor && is_recent)
            },
            None => true,
        }
    }

    /// Whether older history may be requested now.
    pub fn can_request_history(&self, chat_jid: &Jid, oldest_msg_id: &str) -> (r: bool)
        requires
            self.wf(),
        ensures
            exists|now: Timestamp| r == #[trigger] self.may_request(chat_jid.0@, oldest_msg_id@, now as int),
    {
        let now = clock::now();
        self.can_request_history_at(chat_jid, oldest_msg_id, now)
    }

    /// Records a request for older history at `now`, and marks older
    /// messages as loading.
    pub fn record_history_request_at(&mut self, chat_jid: &Jid, oldest_msg_id: &str, now: Timestamp)
        requires
            old(self).wf(),
        ensures
            final(self).wf(),
            exists|id: String|
                id@ == oldest_msg_id@ && final(self).requests() == stored(
                    old(self).requests(),
                    chat_jid.0,
                    (id, now),
                ),
            final(self).loading_older(),
            final(self).loading_since() == Some(now),
            final(self).history_sync() == old(self).history_sync(),
            final(self).sync_expiry() == old(self).sync_expiry(),
            final(self).loading_expiry() == old(self).loading_expiry(),
    {
        let id = oldest_msg_id.to_string();
        let ghost gid = id;
        self.history_request_state.insert(chat_jid.0.clone(), (id, now));
        self.loading_older_messages = true;
        self.older_loading_updated_at = Some(now);
        assert(gid@ == oldest_msg_id@);
    }

    /// Records a request for older history now.
    pub fn record_history_request(&mut self, chat_jid: &Jid, oldest_msg_id: &str)
        requires
            old(self).wf(),
        ensures
            final(self).wf(),
            exists|id: String, now: Timestamp|
                id@ == oldest_msg_id@ && final(self).requests() == stored(
                    old(self).requests(),
                    chat_jid.0,
                    (id, now),
                ) && final(self).loading_since() == Some(now),
            final(self).loading_older(),
            final(self).history_sync() == old(self).history_sync(),
            final(self).sync_expiry() == old(self).sync_expiry(),
            final(self).loading_expiry() == old(self).loading_expiry(),
    {
        let now = clock::now();
        self.record_history_request_at(chat_jid, oldest_msg_id, now);
    }

    /// Whether older messages are being loaded.
    pub fn is_loading_older(&self) -> (r: bool)
        ensures
            r == self.loading_older(),
    {
        self.loading_older_messages
    }

    /// Loading older messages has had no progress for longer than the loading expiry, at `now`.
    pub fn is_loading_stalled_at(&self, now: Timestamp) -> (r: bool)
        requires
            (self.loading_older() && self.loading_since() is Some) ==> -MAX_DELTA_SECONDS
                <= self.loading_expiry() <= MAX_DELTA_SECONDS,
        ensures
            r == Self::loading_expired(
                self.loading_older(),
                self.loading_since(),
                self.loading_expiry(),
                now as int,
            ),
    {
        if !self.loading_older_messages {
            return false;
        }
        match self.older_loading_updated_at {
            Some(last) => clock::elapsed_more_than(now, last, clock::seconds(self.loading_expiry_seconds)),
            None => false,
        }
    }

    /// Loading older messages has stalled, as of now.
    pub fn is_loading_stalled(&self) -> (r: bool)
        requires
            (self.loading_older() && self.loading_since() is Some) ==> -MAX_DELTA_SECONDS
                <= self.loading_expiry() <= MAX_DELTA_SECONDS,
        ensures
            exists|now: Timestamp|
                r == #[trigger] Self::loading_expired(
                    self.loading_older(),
                    self.loading_since(),
                    self.loading_expiry(),
                    now as int,
                ),
    {
        let now = clock::now();
        self.is_loading_stalled_at(now)
    }

    /// Older messages are no longer loading.
    pub fn finish_loading(&mut self)
        ensures
            !final(self).loading_older(),
            final(self).loading_since() is None,
            final(self).history_sync() == old(self).history_sync(),
            final(self).requests() == old(self).requests(),
            final(self).sync_expiry() == old(self).sync_expiry(),
            final(self).loading_expiry() == old(self).loading_expiry(),
            final(self).wf() == old(self).wf(),
    {
        self.loading_older_messages = false;
        self.older_loading_updated_at = None;
    }

    /// The sync after a cleanup at `now`: dropped when complete or stale.
    pub open spec fn sync_after_cleanup(s: Option<SyncState>, expiry: i64, now: int) -> Option<SyncState> {
        match s {
            Some(st) => if st.completed || now - st.last_update > expiry * 1_000_000_000 {
                None
            } else {
                Some(st)
            },
            None => None,
        }
    }

    /// Whether loading older messages is dropped by a cleanup at `now`.
    pub open spec fn loading_expired(loading: bool, since: Option<Timestamp>, expiry: i64, now: int) -> bool {
        loading && match since {
            Some(t) => now - t > expiry * 1_000_000_000,
            None => false,
        }
    }

    /// The requests kept by a cleanup at `now`: those made less than a minute before.
    pub open spec fn recent_requests(s: Seq<(String, (String, Timestamp))>, now: int) -> Seq<
        (String, (String, Timestamp)),
    > {
        filter_entries(s, |v: (String, Timestamp)| now - v.1 < request_memory_nanos())
    }

    /// Drops a completed or stale sync, stops a stalled loading of older
    /// messages, and forgets requests older than a minute, at `now`.
    pub fn cleanup_at(&mut self, now: Timestamp)
        requires
            old(self).wf(),
            (old(self).history_sync() matches Some(s) && !s.completed) ==> -MAX_DELTA_SECONDS
                <= old(self).sync_expiry() <= MAX_DELTA_SECONDS,
            (old(self).loading_older() && old(self).loading_since() is Some) ==> -MAX_DELTA_SECONDS
                <= old(self).loading_expiry() <= MAX_DELTA_SECONDS,
        ensures
            final(self).wf(),
            final(self).history_sync() == Self::sync_after_cleanup(
                old(self).history_sync(),
                old(self).sync_expiry(),
                now as int,
            ),
            Self::loading_expired(
                old(self).loading_older(),
                old(self).loading_since(),
                old(self).loading_expiry(),
                now as int,
            ) ==> !final(self).loading_older() && final(self).loading_since() is None,
            !Self::loading_expired(
                old(self).loading_older(),
                old(self).loading_since(),
                old(self).loading_expiry(),
                now as int,
            ) ==> final(self).loading_older() == old(self).loading_older() && final(self).loading_since()
                == old(self).loading_since(),
            final(self).requests() == Self::recent_requests(old(self).requests(), now as int),
            final(self).sync_expiry() == old(self).sync_expiry(),
            final(self).loading_expiry() == old(self).loading_expiry(),
    {
        match self.history_sync {
            Some(state) => {
                if state.completed || state.is_stale_at(self.sync_expiry_seconds, now) {
                    self.history_sync = None;
                }
            },
            None => {},
        }
        if self.loading_older_messages {
            match self.older_loading_updated_at {
                Some(last) => {
                    if clock::elapsed_more_than(now, last, clock::seconds(self.loading_expiry_seconds)) {
                        self.loading_older_messages = false;
                        self.older_loading_updated_at = None;
                    }
                },
                None => {},
            }
        }
        let ghost e = self.history_request_state@;
        let mut out: Vec<(String, (String, Timestamp))> = Vec::new();
        let mut j: usize = 0;
        while j < self.history_request_state.len()
            invariant
                e == self.history_request_state@,
                keys_distinct(e),
                0 <= j <= e.len(),
                out@ == Self::recent_requests(e.take(j as int), now as int),
            decreases e.len() - j,
        {
            let entry = self.history_request_state.value_at(j);
            assert(e.take(j + 1).drop_last() =~= e.take(j as int));
            if clock::elapsed_less_than(now, entry.1, 60_000_000_000) {
                let kept = (entry.0.clone(), entry.1);
                out.push((self.history_request_state.key_at(j).clone(), kept));
            }
            j = j + 1;
        }
        assert(e.take(e.len() as int) =~= e);
        proof {
            lemma_filter_entries(e, |v: (String, Timestamp)| now - v.1 < request_memory_nanos());
        }
        self.history_request_state = StrMap::from_entries(out);
    }

    /// Cleans up as of now.
    pub fn cleanup(&mut self)
        requires
            old(self).wf(),
            (old(self).history_sync() matches Some(s) && !s.completed) ==> -MAX_DELTA_SECONDS
                <= old(self).sync_expiry() <= MAX_DELTA_SECONDS,
            (old(self).loading_older() && old(self).loading_since() is Some) ==> -MAX_DELTA_SECONDS
                <= old(self).loading_expiry() <= MAX_DELTA_SECONDS,
        ensures
            final(self).wf(),
            exists|now: Timestamp|
                #[trigger] Self::sync_after_cleanup(old(self).history_sync(), old(self).sync_expiry(), now as int)
                    == final(self).history_sync() && final(self).requests() == Self::recent_requests(
                    old(self).requests(),
                    now as int,
                ) && (Self::loading_expired(
                    old(self).loading_older(),
                    old(self).loading_since(),
                    old(self).loading_expiry(),
                    now as int,
                ) ==> !final(self).loading_older() && final(self).loading_since() is None) && (
                !Self::loading_expired(
                    old(self).loading_older(),
                    old(self).loading_since(),
                    old(self).loading_expiry(),
                    now as int,
                ) ==> final(self).loading_older() == old(self).loading_older()
                    && final(self).loading_since() == old(self).loading_since()),
            final(self).sync_expiry() == old(self).sync_expiry(),
            final(self).loading_expiry() == old(self).loading_expiry(),
    {
        let now = clock::now();
        self.cleanup_at(now);
    }

    /// The current sync, if any.
    pub fn sync_state(&self) -> (r: Option<&SyncState>)
        ensures
            r matches Some(s) ==> self.history_sync() == Some(*s),
            r is None <==> self.history_sync() is None,
    {
        self.history_sync.as_ref()
    }

    /// Sets the expiries, in seconds.
    pub fn set_expiry(&mut self, sync_seconds: i64, loading_seconds: i64)
        ensures
            final(self).sync_expiry() == sync_seconds,
            final(self).loading_expiry() == loading_seconds,
            final(self).history_sync() == old(self).history_sync(),
            final(self).requests() == old(self).requests(),
            final(self).loading_older() == old(self).loading_older(),
            final(self).loading_since() == old(self).loading_since(),
            final(self).wf() == old(self).wf(),
    {
        self.sync_expiry_seconds = sync_seconds;
        self.loading_expiry_seconds = loading_seconds;
    }

    /// Forgets all sync state; the expiries stay.
    pub fn reset(&mut self)
        ensures
            final(self).wf(),
            final(self).history_sync() is None,
            final(self).requests().len() == 0,
            !final(self).loading_older(),
            final(self).loading_since() is None,
            final(self).sync_expiry() == old(self).sync_expiry(),
            final(self).loading_expiry() == old(self).loading_expiry(),
    {
        self.history_sync = None;
        self.history_request_state.clear();
        self.loading_older_messages = false;
        self.older_loading_updated_at = None;
    }

    /// When older history was last requested for the chat.
    pub fn last_history_request(&self, chat_jid: &Jid) -> (r: Option<Timestamp>)
        requires
            self.wf(),
        ensures
            r == (match lookup(self.requests(), chat_jid.0@) {
                Some(v) => Some(v.1),
                None => None,
            }),
    {
        match self.history_request_state.get(chat_jid.0.as_str()) {
            Some(entry) => Some(entry.1),
            None => None,
        }
    }
}

/// Once a request for a cursor is recorded at `then`, the same cursor may
/// not be asked for again before three seconds have passed; it may be
/// afterwards, and another cursor of the chat may be asked for at any time.
pub proof fn lemma_request_dedup(
    before: SyncManager,
    after: SyncManager,
    chat: String,
    id: String,
    then: Timestamp,
    other: Seq<char>,
    now: int,
)
    requires
        before.wf(),
        after.requests() == stored(before.requests(), chat, (id, then)),
    ensures
        now < then + request_dedup_nanos() ==> !after.may_request(chat@, id@, now),
        now >= then + request_dedup_nanos() ==> after.may_request(chat@, id@, now),
        other != id@ ==> after.may_request(chat@, other, now),
{
    crate::keyed::lemma_stored_distinct(before.requests(), chat, (id, then));
}

} // verus!
