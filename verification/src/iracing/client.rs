//! The decisions of the iRacing client: accepting a freshly mapped header,
//! choosing the newest telemetry buffer on each poll, judging whether the
//! simulator is still there, and caching the parsed session info.
//!
//! Waiting, reading the shared memory and parsing YAML are done by the caller,
//! which hands in the header snapshot and the current time.

use std::sync::Arc;
use vstd::prelude::*;
use crate::iracing::header::{Header, MAX_BUFS, status_connected};
use crate::iracing::session_info::{SessionInfo, SessionInfoError};

verus! {

/// The layout version this client understands.
pub const IRSDK_VER: i32 = 2;

/// How long after the last delivered tick the simulator still counts as
/// connected, in nanoseconds (30 s).
pub const CLIENT_TIMEOUT_NANOS: i128 = 30_000_000_000;

/// The wait value that means "no timeout".
pub const INFINITE: u32 = 0xFFFF_FFFF;

/// How long to wait for the data-valid event while the header says the
/// simulator is not running yet, in nanoseconds (250 ms).
pub const CONNECT_WAIT_NANOS: u128 = 250_000_000;

/// How long to wait for the data-valid event when a poll found nothing new,
/// in nanoseconds (100 µs).
pub const DATA_WAIT_NANOS: u128 = 100_000;

/// The largest tick count among the first `n` buffers, or -1 when none is
/// larger than that.
pub open spec fn newest_tick(h: Header, n: int) -> i32
    decreases n,
{
    if n <= 0 {
        -1i32
    } else {
        let before: i32 = newest_tick(h, n - 1);
        if h.tick(n - 1) > before {
            h.tick(n - 1)
        } else {
            before
        }
    }
}

/// Among the first `n` buffers, `i` is the one to read after tick `last`: it is
/// newer than `last`, no newer buffer has a larger tick, and any later buffer
/// that is newer than `last` has a smaller tick (of equal ticks the last one
/// wins).
pub open spec fn is_latest_among(h: Header, last: i32, n: int, i: int) -> bool {
    &&& 0 <= i < n
    &&& h.tick(i) > last
    &&& forall|j: int| 0 <= j < n && h.tick(j) > last ==> #[trigger] h.tick(j) <= h.tick(i)
    &&& forall|j: int| i < j < n && h.tick(j) > last ==> #[trigger] h.tick(j) < h.tick(i)
}

/// `i` is the buffer to read after tick `last`, among all buffers in use.
pub open spec fn is_latest(h: Header, last: i32, i: int) -> bool {
    is_latest_among(h, last, h.num_buf as int, i)
}

/// `Duration::as_millis` of a wait given in nanoseconds, cut to the `u32` that
/// the wait call takes; no timeout waits forever.
pub open spec fn wait_millis(timeout_nanos: Option<u128>) -> u32 {
    match timeout_nanos {
        None => INFINITE,
        Some(n) => (n / 1_000_000) as u32,
    }
}

/// The millisecond argument of a wait on the data-valid event.
pub fn wait_timeout_millis(timeout_nanos: Option<u128>) -> (r: u32)
    ensures
        r == wait_millis(timeout_nanos),
{
    match timeout_nanos {
        None => INFINITE,
        Some(n) => (n / 1_000_000) as u32,
    }
}

/// What a fetch of the next telemetry state does after a poll that found no
/// new buffer.
#[derive(Debug, PartialEq, Eq)]
pub enum FetchAction {
    /// Wait on the data-valid event this many milliseconds, then poll again.
    WaitThenPoll { timeout_millis: u32 },
    /// Report that no new state is available.
    GiveUp,
}

/// After the empty poll number `polls_done` (counting from 1) of one fetch:
/// the first is followed by one short wait and a second poll, the second ends
/// the fetch.
pub fn after_empty_poll(polls_done: u32) -> (r: FetchAction)
    ensures
        polls_done <= 1 ==> r == (FetchAction::WaitThenPoll {
            timeout_millis: wait_millis(Some(DATA_WAIT_NANOS)),
        }),
        polls_done > 1 ==> r == FetchAction::GiveUp,
{
    if polls_done <= 1 {
        FetchAction::WaitThenPoll { timeout_millis: wait_timeout_millis(Some(DATA_WAIT_NANOS)) }
    } else {
        FetchAction::GiveUp
    }
}

/// `Arc::clone` from std: another handle to the same allocation, which holds
/// the same value.
#[verifier::external_body]
fn share<T>(a: &Arc<T>) -> (r: Arc<T>)
    ensures
        r == *a,
{
    Arc::clone(a)
}

/// The last parsed session-info document, with the `session_info_update`
/// counter it was parsed at.
pub struct SessionInfoCache {
    pub content: Option<(i32, Arc<SessionInfo>)>,
}

impl SessionInfoCache {
    /// What the cache has for update counter `id`.
    pub open spec fn lookup(self, id: i32) -> Option<Arc<SessionInfo>> {
        match self.content {
            Some((key, info)) => if key == id {
                Some(info)
            } else {
                None
            },
            None => None,
        }
    }

    /// The cached document when it was parsed at update counter `id`;
    /// `None` means the document has to be parsed anew.
    pub fn cached(&self, id: i32) -> (r: Option<Arc<SessionInfo>>)
        ensures
            r == self.lookup(id),
    {
        match &self.content {
            Some((key, info)) => if *key == id {
                Some(share(info))
            } else {
                None
            },
            None => None,
        }
    }

    /// Takes the outcome of parsing the document of update counter `id`: a
    /// parsed document replaces the cached one and is returned; an error is
    /// returned and leaves the cache as it was.
    pub fn store(&mut self, id: i32, parsed: Result<SessionInfo, SessionInfoError>) -> (r: Result<
        Arc<SessionInfo>,
        SessionInfoError,
    >)
        ensures
            match parsed {
                Ok(info) => r matches Ok(a) && *a == info && final(self).content == Some((id, a)),
                Err(e) => r == Err::<Arc<SessionInfo>, SessionInfoError>(e) && *final(self)
                    == *old(self),
            },
    {
        match parsed {
            Ok(info) => {
                let a = Arc::new(info);
                self.content = Some((id, share(&a)));
                Ok(a)
            },
            Err(e) => Err(e),
        }
    }
}

impl Default for SessionInfoCache {
    fn default() -> (r: Self)
        ensures
            r.content is None,
    {
        SessionInfoCache { content: None }
    }
}

/// Why a mapped header was refused.
#[derive(Debug, PartialEq, Eq)]
pub enum ConnectError {
    /// The header is of another layout version.
    VersionMismatch { expected: i32, received: i32 },
}

/// What to do with a header snapshot taken right after the shared memory
/// and the data-valid event were opened.
pub enum ConnectStep {
    /// The simulator is not running yet: wait on the data-valid event for
    /// this many milliseconds, then look at the header again.
    WaitForData { timeout_millis: u32 },
    /// The header cannot be read by this client.
    Rejected(ConnectError),
    /// The client is ready, in this state.
    Ready(ClientState),
}

/// What a poll found.
pub struct PollOutcome {
    /// The variable descriptors have to be read again.
    pub refresh_vars: bool,
    /// The telemetry buffer to read, if one holds data newer than the last
    /// delivered tick.
    pub latest: Option<usize>,
}

/// The state of the client between polls.
pub struct ClientState {
    /// The row length at which the variable descriptors were read; the client
    /// never updates it, so they are read again whenever the header's row
    /// length differs from its first value, -1.
    pub vars_at_buf_len: i32,
    /// The tick of the last delivered buffer; `i32::MAX` once the simulator
    /// has been seen stopped.
    pub last_tick_count: i32,
    /// When the last buffer was delivered, in nanoseconds since the epoch
    /// (negative before it).
    pub last_valid_time: Option<i128>,
    pub session_info_cache: SessionInfoCache,
}

impl ClientState {
    /// Whether the simulator counts as connected at time `now` (nanoseconds
    /// since the epoch) when the header's status is `status`.
    pub open spec fn connected_at(self, status: i32, now: i128) -> bool {
        &&& status_connected(status)
        &&& match self.last_valid_time {
            None => true,
            Some(t) => t <= now && now - t < CLIENT_TIMEOUT_NANOS,
        }
    }

    /// The state right after connecting to a running simulator whose header
    /// is `h`: the newest buffer present is one tick ahead of it.
    pub open spec fn connected_from(self, h: Header) -> bool {
        &&& self.vars_at_buf_len == -1
        &&& self.last_tick_count == newest_tick(h, h.num_buf as int) - 1
        &&& self.last_valid_time is None
        &&& self.session_info_cache.content is None
    }

    /// The client state for a running simulator's header; refused when the
    /// layout version is not `IRSDK_VER`.
    pub fn from_header(header: &Header) -> (r: Result<ClientState, ConnectError>)
        requires
            header.ver == IRSDK_VER ==> header.buffers_in_range(),
        ensures
            header.ver != IRSDK_VER ==> r == Err::<ClientState, ConnectError>(
                ConnectError::VersionMismatch { expected: IRSDK_VER, received: header.ver },
            ),
            header.ver == IRSDK_VER ==> (r matches Ok(s) && s.connected_from(*header)),
    {
        if header.ver != IRSDK_VER {
            return Err(ConnectError::VersionMismatch { expected: IRSDK_VER, received: header.ver });
        }
        let n: usize = header.num_buf as usize;
        let mut newest: i32 = -1;
        let mut idx: usize = 0;
        while idx < n
            invariant
                n == header.num_buf,
                n <= MAX_BUFS,
                idx <= n,
                newest == newest_tick(*header, idx as int),
            decreases n - idx,
        {
            let tick: i32 = header.var_buf[idx].tick_count;
            if tick > newest {
                newest = tick;
            }
            idx = idx + 1;
        }
        proof {
            lemma_newest_tick_bounds(*header, n as int);
        }
        Ok(ClientState {
            vars_at_buf_len: -1,
            last_tick_count: newest.wrapping_sub(1),
            last_valid_time: None,
            session_info_cache: SessionInfoCache { content: None },
        })
    }

    /// What to do with a header snapshot while connecting: wait while the
    /// simulator is not running, then accept or refuse the header.
    pub fn connect_step(header: &Header) -> (r: ConnectStep)
        requires
            status_connected(header.status) && header.ver == IRSDK_VER ==> header.buffers_in_range(),
        ensures
            !status_connected(header.status) ==> r == (ConnectStep::WaitForData {
                timeout_millis: wait_millis(Some(CONNECT_WAIT_NANOS)),
            }),
            status_connected(header.status) && header.ver != IRSDK_VER ==> r == ConnectStep::Rejected(
                ConnectError::VersionMismatch { expected: IRSDK_VER, received: header.ver },
            ),
            status_connected(header.status) && header.ver == IRSDK_VER ==> (r matches ConnectStep::Ready(
                s,
            ) && s.connected_from(*header)),
    {
        if !header.is_header_connected() {
            return ConnectStep::WaitForData {
                timeout_millis: wait_timeout_millis(Some(CONNECT_WAIT_NANOS)),
            };
        }
        match ClientState::from_header(header) {
            Ok(s) => ConnectStep::Ready(s),
            Err(e) => ConnectStep::Rejected(e),
        }
    }

    /// Whether the simulator counts as connected: the header says it runs,
    /// and either nothing was delivered yet or the last delivery is less than
    /// `CLIENT_TIMEOUT_NANOS` old (a clock that went back counts as stale).
    pub fn is_connected(&self, status: i32, now: i128) -> (r: bool)
        ensures
            r == self.connected_at(status, now),
            self.last_valid_time is None ==> r == (status & 1 != 0),
            r ==> status & 1 != 0,
    {
        if status & crate::iracing::header::STATUS_CONNECTED_FLAG == 0 {
            return false;
        }
        match self.last_valid_time {
            None => true,
            Some(t) => {
                if now < t {
                    false
                } else if t > i128::MAX - CLIENT_TIMEOUT_NANOS {
                    true
                } else {
                    now < t + CLIENT_TIMEOUT_NANOS
                }
            },
        }
    }

    /// One look at the header at time `now`. A stopped simulator sets the last
    /// tick to `i32::MAX`; otherwise the newest buffer with a tick beyond the
    /// last delivered one is chosen, and its tick and `now` are recorded.
    pub fn poll(&mut self, header: &Header, now: i128) -> (r: PollOutcome)
        requires
            status_connected(header.status) ==> header.buffers_in_range(),
        ensures
            poll_step(*old(self), *header, now, *final(self), r),
    {
        let refresh_vars = self.vars_at_buf_len != header.buf_len;
        if !header.is_header_connected() {
            self.last_tick_count = i32::MAX;
            return PollOutcome { refresh_vars, latest: None };
        }
        let last: i32 = self.last_tick_count;
        let n: usize = header.num_buf as usize;
        let mut best: Option<usize> = None;
        let mut idx: usize = 0;
        while idx < n
            invariant
                n == header.num_buf,
                n <= MAX_BUFS,
                idx <= n,
                match best {
                    Some(b) => is_latest_among(*header, last, idx as int, b as int),
                    None => forall|j: int| 0 <= j < idx ==> header.tick(j) <= last,
                },
            decreases n - idx,
        {
            let tick: i32 = header.var_buf[idx].tick_count;
            if tick > last {
                match best {
                    Some(b) => {
                        if tick >= header.var_buf[b].tick_count {
                            best = Some(idx);
                        }
                    },
                    None => {
                        best = Some(idx);
                    },
                }
            }
            idx = idx + 1;
        }
        if let Some(b) = best {
            self.last_tick_count = header.var_buf[b].tick_count;
            self.last_valid_time = Some(now);
        }
        PollOutcome { refresh_vars, latest: best }
    }
}

/// `newest_tick` is at least -1 and every tick of the first `n` buffers, and
/// is either -1 or the tick of one of them.
pub proof fn lemma_newest_tick_bounds(h: Header, n: int)
    ensures
        newest_tick(h, n) >= -1,
        forall|j: int| 0 <= j < n ==> #[trigger] h.tick(j) <= newest_tick(h, n),
        newest_tick(h, n) == -1 || exists|j: int| 0 <= j < n && #[trigger] h.tick(j) == newest_tick(h, n),
    decreases n,
{
    if n > 0 {
        lemma_newest_tick_bounds(h, n - 1);
    }
}

/// One poll of header `h` at time `now` takes the client from `before` to
/// `after` and finds `out`. The descriptors are to be read again when the row
/// length differs from the stored one, which the poll never changes, and the
/// cache is left alone. A stopped simulator sets the last tick to `i32::MAX`
/// and chooses nothing. Otherwise the buffer chosen is the one to read after
/// the last tick, and its tick and `now` are recorded; when no buffer is newer
/// than the last tick, nothing changes.
pub open spec fn poll_step(
    before: ClientState,
    h: Header,
    now: i128,
    after: ClientState,
    out: PollOutcome,
) -> bool {
    &&& out.refresh_vars == (before.vars_at_buf_len != h.buf_len)
    &&& after.vars_at_buf_len == before.vars_at_buf_len
    &&& after.session_info_cache == before.session_info_cache
    &&& !status_connected(h.status) ==> {
        &&& out.latest is None
        &&& after.last_tick_count == i32::MAX
        &&& after.last_valid_time == before.last_valid_time
    }
    &&& status_connected(h.status) ==> match out.latest {
        Some(i) => {
            &&& is_latest(h, before.last_tick_count, i as int)
            &&& after.last_tick_count == h.tick(i as int)
            &&& after.last_tick_count > before.last_tick_count
            &&& after.last_valid_time == Some(now)
        },
        None => {
            &&& forall|j: int| 0 <= j < h.num_buf ==> h.tick(j) <= before.last_tick_count
            &&& after.last_tick_count == before.last_tick_count
            &&& after.last_valid_time == before.last_valid_time
        },
    }
}

/// The tick of the buffer that a poll of `h` chose.
pub open spec fn delivered_tick(h: Header, out: PollOutcome) -> i32 {
    h.tick(out.latest.unwrap() as int)
}

/// `a` and `b` differ at most in their session-info cache.
pub open spec fn same_but_cache(a: ClientState, b: ClientState) -> bool {
    &&& a.vars_at_buf_len == b.vars_at_buf_len
    &&& a.last_tick_count == b.last_tick_count
    &&& a.last_valid_time == b.last_valid_time
}

/// A run of polls of the same client: poll `k` of `headers[k]` at `times[k]`
/// takes `states[k]` to `polled[k]` and finds `outs[k]`; until the next poll
/// only the session-info cache may change (documents are looked up and
/// stored), giving `states[k + 1]`.
pub open spec fn poll_run(
    states: Seq<ClientState>,
    polled: Seq<ClientState>,
    headers: Seq<Header>,
    times: Seq<i128>,
    outs: Seq<PollOutcome>,
) -> bool {
    &&& states.len() == headers.len() + 1
    &&& polled.len() == headers.len()
    &&& times.len() == headers.len()
    &&& outs.len() == headers.len()
    &&& forall|k: int|
        #![trigger headers[k]]
        0 <= k < headers.len() ==> {
            &&& poll_step(states[k], headers[k], times[k], polled[k], outs[k])
            &&& same_but_cache(polled[k], states[k + 1])
        }
}

/// No poll lowers the last tick: along a run of polls it never decreases.
pub proof fn lemma_last_tick_never_decreases(
    states: Seq<ClientState>,
    polled: Seq<ClientState>,
    headers: Seq<Header>,
    times: Seq<i128>,
    outs: Seq<PollOutcome>,
    i: int,
    j: int,
)
    requires
        poll_run(states, polled, headers, times, outs),
        0 <= i <= j < states.len(),
    ensures
        states[i].last_tick_count <= states[j].last_tick_count,
    decreases j - i,
{
    if i < j {
        lemma_last_tick_never_decreases(states, polled, headers, times, outs, i, j - 1);
        assert(poll_step(states[j - 1], headers[j - 1], times[j - 1], polled[j - 1], outs[j - 1]));
        assert(same_but_cache(polled[j - 1], states[j]));
    }
}

/// Delivered ticks strictly increase: along any run of polls of one client,
/// whatever the cache does between them, a buffer delivered by a later poll
/// has a larger tick than one delivered by an earlier poll, so no sample is
/// delivered twice.
pub proof fn lemma_delivered_ticks_increase(
    states: Seq<ClientState>,
    polled: Seq<ClientState>,
    headers: Seq<Header>,
    times: Seq<i128>,
    outs: Seq<PollOutcome>,
    i: int,
    j: int,
)
    requires
        poll_run(states, polled, headers, times, outs),
        0 <= i < j < headers.len(),
        outs[i].latest is Some,
        outs[j].latest is Some,
    ensures
        delivered_tick(headers[j], outs[j]) > delivered_tick(headers[i], outs[i]),
{
    assert(poll_step(states[i], headers[i], times[i], polled[i], outs[i]));
    assert(same_but_cache(polled[i], states[i + 1]));
    assert(poll_step(states[j], headers[j], times[j], polled[j], outs[j]));
    lemma_last_tick_never_decreases(states, polled, headers, times, outs, i + 1, j);
}

/// Among the first `n` buffers, some buffer is the one to read after tick
/// `last` as soon as one of them is newer than `last`.
pub proof fn lemma_latest_exists(h: Header, last: i32, n: int)
    requires
        exists|j: int| 0 <= j < n && #[trigger] h.tick(j) > last,
    ensures
        exists|i: int| #[trigger] is_latest_among(h, last, n, i),
    decreases n,
{
    if n <= 0 {
        assert(false);
    } else if exists|j: int| 0 <= j < n - 1 && #[trigger] h.tick(j) > last {
        lemma_latest_exists(h, last, n - 1);
        let b: int = choose|i: int| #[trigger] is_latest_among(h, last, n - 1, i);
        if h.tick(n - 1) > last && h.tick(n - 1) >= h.tick(b) {
            assert(is_latest_among(h, last, n, n - 1));
        } else {
            assert(is_latest_among(h, last, n, b));
        }
    } else {
        assert(h.tick(n - 1) > last);
        assert(is_latest_among(h, last, n, n - 1));
    }
}

/// The first poll after connecting reads the newest buffer: whatever buffer
/// it chooses holds the largest tick of all buffers in use, and it chooses one
/// whenever some buffer's tick is at least -1.
pub proof fn lemma_first_poll_reads_newest(h: Header, s: ClientState)
    requires
        s.connected_from(h),
        h.buffers_in_range(),
    ensures
        forall|i: int| #[trigger] is_latest(h, s.last_tick_count, i) ==> h.tick(i) == newest_tick(h, h.num_buf as int),
        (exists|j: int| 0 <= j < h.num_buf && #[trigger] h.tick(j) >= -1) ==> exists|i: int|
            #[trigger] is_latest(h, s.last_tick_count, i),
{
    lemma_newest_tick_bounds(h, h.num_buf as int);
    let newest: i32 = newest_tick(h, h.num_buf as int);
    if exists|j: int| 0 <= j < h.num_buf && #[trigger] h.tick(j) >= -1 {
        let j: int = choose|j: int| 0 <= j < h.num_buf && #[trigger] h.tick(j) >= -1;
        if newest != -1 {
            let k: int = choose|k: int| 0 <= k < h.num_buf && #[trigger] h.tick(k) == newest;
            assert(h.tick(k) > s.last_tick_count);
        } else {
            assert(h.tick(j) <= newest);
            assert(h.tick(j) > s.last_tick_count);
        }
        lemma_latest_exists(h, s.last_tick_count, h.num_buf as int);
        let i: int = choose|i: int| #[trigger] is_latest_among(h, s.last_tick_count, h.num_buf as int, i);
        assert(is_latest(h, s.last_tick_count, i));
    }
}

/// Once the simulator has been seen stopped (the last tick is `i32::MAX`), no
/// poll ever chooses a buffer again.
pub proof fn lemma_stopped_client_reads_nothing(h: Header, i: int)
    ensures
        !is_latest(h, i32::MAX, i),
{
}

/// Until a buffer has been delivered there is nothing to time out: a client
/// that has delivered nothing counts as connected at every time `now` exactly
/// when the status has its running bit (bit 0) set; in particular a client
/// just made by `from_header` is connected at any wall-clock time.
pub proof fn lemma_never_delivered_connected_by_status(s: ClientState, h: Header, status: i32, now: i128)
    requires
        s.last_valid_time is None,
    ensures
        s.connected_at(status, now) <==> status & 1 != 0,
        s.connected_from(h) && status & 1 != 0 ==> s.connected_at(status, now),
{
}

/// Right after a poll delivered a buffer at time `now`, the client counts as
/// connected at `now` as long as the header says the simulator runs.
pub proof fn lemma_connected_after_delivery(s: ClientState, status: i32, now: i128)
    requires
        s.last_valid_time == Some(now),
        status_connected(status),
    ensures
        s.connected_at(status, now),
{
}

/// A client whose last delivery is `CLIENT_TIMEOUT_NANOS` or more in the past
/// counts as disconnected, whatever the header says.
pub proof fn lemma_stale_client_disconnected(s: ClientState, status: i32, now: i128)
    requires
        s.last_valid_time matches Some(t) && now >= t + CLIENT_TIMEOUT_NANOS,
    ensures
        !s.connected_at(status, now),
{
}

/// After the document of update counter `id` was stored, the cache gives it
/// back for `id` and has nothing for any other counter.
pub proof fn lemma_cache_read_after_store(c: SessionInfoCache, id: i32, info: Arc<SessionInfo>, other: i32)
    requires
        c.content == Some((id, info)),
    ensures
        c.lookup(id) == Some(info),
        other != id ==> c.lookup(other) is None,
{
}

} // verus!
