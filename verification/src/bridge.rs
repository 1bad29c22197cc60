//! Bridge to the external tiling window manager: the reconnecting state
//! machine over its named channel, the newline framing of its notification
//! stream, and the translation of event tags to internal event names.

use vstd::prelude::*;
use vstd::string::StrSliceExecFns;
use vstd::string::StringExecFns;
use crate::constants::SUBSCRIBE_RETRY_MS;
use crate::text::str_eq;

verus! {

/// Connection lifecycle of the external window manager channel.
#[derive(Debug, Clone, Copy, PartialEq, Eq, Structural)]
pub enum ConnectionState {
    Disconnected,
    Connecting,
    Connected,
    Reconnecting,
}

/// What the host loop must do after a bridge step.
#[derive(Debug, Clone, Copy, PartialEq, Eq, Structural)]
pub enum BridgeAction {
    /// Issue the subscribe command to the external tool now.
    Subscribe,
    /// Wait the given milliseconds, then issue the subscribe command again.
    Backoff(u64),
    /// Announce the channel online and ask the external tool, best effort,
    /// to leave this application's windows unmanaged.
    AnnounceOnline,
    /// Announce the external tool offline.
    AnnounceOffline,
}

/// Ghost description of the bridge: its state and the running counts of
/// subscribe attempts and offline announcements.
pub struct BridgeModel {
    pub state: ConnectionState,
    pub subscribe_attempts: int,
    pub offline_events: int,
}

/// The persistent-connection client: destroyed and rebuilt around the same
/// counters whenever the channel fails. The backoff interval is fixed for
/// the bridge's lifetime but chosen at construction, so a test can shorten
/// it.
#[derive(Debug)]
pub struct ExternalWmBridge {
    pub state: ConnectionState,
    pub subscribe_attempts: u64,
    pub offline_events: u64,
    pub backoff_ms: u64,
}

pub open spec fn bridge_model(b: ExternalWmBridge) -> BridgeModel {
    BridgeModel {
        state: b.state,
        subscribe_attempts: b.subscribe_attempts as int,
        offline_events: b.offline_events as int,
    }
}

/// One subscribe attempt answered: the bridge counts it, and either comes
/// online or stays Connecting for the next backed-off retry.
pub open spec fn spec_subscribe_step(m: BridgeModel, ok: bool) -> BridgeModel {
    BridgeModel {
        state: if ok {
            ConnectionState::Connected
        } else {
            ConnectionState::Connecting
        },
        subscribe_attempts: m.subscribe_attempts + 1,
        offline_events: m.offline_events,
    }
}

/// The action a subscribe result triggers: backoff-and-retry on failure,
/// forever; the online announcement on success.
pub open spec fn spec_subscribe_action(ok: bool, backoff_ms: u64) -> BridgeAction {
    if ok {
        BridgeAction::AnnounceOnline
    } else {
        BridgeAction::Backoff(backoff_ms)
    }
}

impl ExternalWmBridge {
    /// A bridge that has never connected, retrying at the standard pace.
    pub fn new() -> (r: ExternalWmBridge)
        ensures
            r.state is Disconnected,
            r.subscribe_attempts == 0,
            r.offline_events == 0,
            r.backoff_ms == SUBSCRIBE_RETRY_MS,
    {
        ExternalWmBridge {
            state: ConnectionState::Disconnected,
            subscribe_attempts: 0,
            offline_events: 0,
            backoff_ms: SUBSCRIBE_RETRY_MS,
        }
    }

    /// A bridge with a chosen backoff interval.
    pub fn with_backoff(backoff_ms: u64) -> (r: ExternalWmBridge)
        ensures
            r.state is Disconnected,
            r.subscribe_attempts == 0,
            r.offline_events == 0,
            r.backoff_ms == backoff_ms,
    {
        ExternalWmBridge {
            state: ConnectionState::Disconnected,
            subscribe_attempts: 0,
            offline_events: 0,
            backoff_ms,
        }
    }

    /// Open the channel: leave Disconnected and issue the first subscribe.
    pub fn start(&mut self) -> (action: BridgeAction)
        requires
            old(self).state is Disconnected,
        ensures
            final(self).state is Connecting,
            final(self).subscribe_attempts == old(self).subscribe_attempts,
            final(self).offline_events == old(self).offline_events,
            final(self).backoff_ms == old(self).backoff_ms,
            action is Subscribe,
    {
        self.state = ConnectionState::Connecting;
        BridgeAction::Subscribe
    }

    /// Record the outcome of one subscribe command. Failure keeps the
    /// bridge Connecting and schedules a retry after the fixed backoff,
    /// indefinitely: the external tool may simply not be running yet.
    pub fn on_subscribe_result(&mut self, ok: bool) -> (action: BridgeAction)
        requires
            old(self).state is Connecting,
            old(self).subscribe_attempts < u64::MAX,
        ensures
            bridge_model(*final(self)) == spec_subscribe_step(bridge_model(*old(self)), ok),
            final(self).backoff_ms == old(self).backoff_ms,
            action == spec_subscribe_action(ok, old(self).backoff_ms),
    {
        self.subscribe_attempts = self.subscribe_attempts + 1;
        if ok {
            self.state = ConnectionState::Connected;
            BridgeAction::AnnounceOnline
        } else {
            BridgeAction::Backoff(self.backoff_ms)
        }
    }

    /// The channel read failed: the external tool went away. Announce it
    /// offline, exactly once for this transition out of Connected, and move
    /// to Reconnecting.
    pub fn on_read_failure(&mut self) -> (action: BridgeAction)
        requires
            old(self).state is Connected,
            old(self).offline_events < u64::MAX,
        ensures
            final(self).state is Reconnecting,
            final(self).subscribe_attempts == old(self).subscribe_attempts,
            final(self).offline_events == old(self).offline_events + 1,
            final(self).backoff_ms == old(self).backoff_ms,
            action is AnnounceOffline,
    {
        self.state = ConnectionState::Reconnecting;
        self.offline_events = self.offline_events + 1;
        BridgeAction::AnnounceOffline
    }

    /// Restart the Connecting sequence after a failure.
    pub fn reconnect(&mut self) -> (action: BridgeAction)
        requires
            old(self).state is Reconnecting,
        ensures
            final(self).state is Connecting,
            final(self).subscribe_attempts == old(self).subscribe_attempts,
            final(self).offline_events == old(self).offline_events,
            final(self).backoff_ms == old(self).backoff_ms,
            action is Subscribe,
    {
        self.state = ConnectionState::Connecting;
        BridgeAction::Subscribe
    }
}

/// The bridge after `n` consecutive failed subscribe attempts.
pub open spec fn spec_after_failures(m: BridgeModel, n: nat) -> BridgeModel
    decreases n,
{
    if n == 0 {
        m
    } else {
        spec_subscribe_step(spec_after_failures(m, (n - 1) as nat), false)
    }
}

/// Law: if the subscribe command fails `n` consecutive times, the bridge
/// has attempted exactly `n` more subscribe calls, each one answered with
/// the fixed backoff-and-retry action at the bridge's interval, it is still
/// Connecting, and it has announced the tool offline not once: failures
/// while not yet connected emit no offline event.
pub proof fn lemma_subscribe_retry_accounting(m: BridgeModel, n: nat, backoff_ms: u64)
    requires
        m.state is Connecting,
    ensures
        spec_after_failures(m, n).state is Connecting,
        spec_after_failures(m, n).subscribe_attempts == m.subscribe_attempts + n,
        spec_after_failures(m, n).offline_events == m.offline_events,
        spec_subscribe_action(false, backoff_ms) == BridgeAction::Backoff(backoff_ms),
    decreases n,
{
    if n > 0 {
        lemma_subscribe_retry_accounting(m, (n - 1) as nat, backoff_ms);
    }
}

/// Guard that lets the bridge be started at most once per process lifetime,
/// however many times the start command is invoked.
#[derive(Debug)]
pub struct ListenerInitGuard {
    pub started: bool,
}

impl ListenerInitGuard {
    pub fn new() -> (r: ListenerInitGuard)
        ensures
            !r.started,
    {
        ListenerInitGuard { started: false }
    }

    /// Claim the right to start the bridge: grants it on the first call and
    /// refuses every later one.
    pub fn try_start(&mut self) -> (granted: bool)
        ensures
            final(self).started,
            granted == !old(self).started,
    {
        let granted = !self.started;
        self.started = true;
        granted
    }
}

/// The notification records of one channel read: the buffer split at
/// newlines, empty segments dropped.
pub open spec fn spec_split_acc(
    s: Seq<char>,
    cur: Seq<char>,
    acc: Seq<Seq<char>>,
) -> Seq<Seq<char>>
    decreases s.len(),
{
    if s.len() == 0 {
        if cur.len() == 0 {
            acc
        } else {
            acc.push(cur)
        }
    } else if s[0] == '\n' {
        spec_split_acc(
            s.skip(1),
            Seq::empty(),
            if cur.len() == 0 {
                acc
            } else {
                acc.push(cur)
            },
        )
    } else {
        spec_split_acc(s.skip(1), cur.push(s[0]), acc)
    }
}

pub open spec fn spec_lines(s: Seq<char>) -> Seq<Seq<char>> {
    spec_split_acc(s, Seq::empty(), Seq::empty())
}

pub open spec fn str_views(v: Seq<String>) -> Seq<Seq<char>> {
    v.map_values(|x: String| x@)
}

/// Split one channel read into its newline-delimited records, dropping
/// empty segments.
#[verifier::loop_isolation(false)]
pub fn split_lines(s: &str) -> (out: Vec<String>)
    ensures
        str_views(out@) == spec_lines(s@),
{
    let n = s.unicode_len();
    let mut out: Vec<String> = Vec::new();
    let mut cur = String::new();
    let mut i: usize = 0;
    proof {
        assert(s@.skip(0) =~= s@);
        assert(str_views(out@) =~= Seq::<Seq<char>>::empty());
    }
    while i < n
        invariant
            i <= n,
            n == s@.len(),
            spec_split_acc(s@.skip(i as int), cur@, str_views(out@)) == spec_lines(s@),
        decreases n - i,
    {
        let c = s.get_char(i);
        proof {
            assert(s@.skip(i as int)[0] == s@[i as int]);
            assert(s@.skip(i as int).skip(1) =~= s@.skip(i + 1));
        }
        if c == '\n' {
            if cur.unicode_len() > 0 {
                proof {
                    assert(str_views(out@.push(cur)) =~= str_views(out@).push(cur@));
                }
                out.push(cur);
                cur = String::new();
            }
            proof {
                assert(cur@ =~= Seq::<char>::empty());
            }
        } else {
            let ghost cur_before = cur@;
            cur.append(s.substring_char(i, i + 1));
            proof {
                assert(s@.subrange(i as int, i + 1) =~= seq![s@[i as int]]);
                assert(cur@ =~= cur_before.push(s@[i as int]));
            }
        }
        i = i + 1;
    }
    proof {
        assert(s@.skip(n as int) =~= Seq::<char>::empty());
    }
    if cur.unicode_len() > 0 {
        proof {
            assert(str_views(out@.push(cur)) =~= str_views(out@).push(cur@));
        }
        out.push(cur);
    }
    out
}

/// Event types of the external tool that are too frequent or too low-value
/// to rebroadcast.
pub open spec fn spec_ignored_event(t: Seq<char>) -> bool {
    ||| t == "Cloak"@
    ||| t == "Uncloak"@
    ||| t == "AddSubscriber"@
    ||| t == "FocusChange"@
    ||| t == "State"@
}

fn is_ignored_event(t: &str) -> (r: bool)
    ensures
        r == spec_ignored_event(t@),
{
    str_eq(t, "Cloak") || str_eq(t, "Uncloak") || str_eq(t, "AddSubscriber") || str_eq(
        t,
        "FocusChange",
    ) || str_eq(t, "State")
}

/// What serde_json finds at the `event.type` key of one notification
/// record; a function of the characters alone.
pub uninterp spec fn json_event_type_of(line: Seq<char>) -> Option<Seq<char>>;

/// Relies on serde_json's `from_str` and `Value::get`: parses one
/// notification record and hands back the string under `event.type`, or
/// nothing where the line is not such a record.
#[verifier::external_body]
fn extract_event_type(line: &str) -> (r: Option<String>)
    ensures
        match json_event_type_of(line@) {
            Option::Some(t) => r is Some && r->0@ == t,
            Option::None => r is None,
        },
{
    let value: serde_json::Value = serde_json::from_str(line).ok()?;
    let t = value.get("event")?.get("type")?.as_str()?;
    Some(t.to_string())
}

/// What becomes of one notification record.
#[derive(Debug)]
pub enum NotificationDisposition {
    /// Not a well-formed notification record: dropped.
    Malformed,
    /// A filtered high-frequency event type: dropped.
    Ignored,
    /// Rebroadcast on the internal bus under this event name.
    Broadcast(String),
}

/// Ghost description of a disposition, the broadcast name by characters.
pub enum DispositionModel {
    Malformed,
    Ignored,
    Broadcast(Seq<char>),
}

pub open spec fn disposition_model(d: NotificationDisposition) -> DispositionModel {
    match d {
        NotificationDisposition::Malformed => DispositionModel::Malformed,
        NotificationDisposition::Ignored => DispositionModel::Ignored,
        NotificationDisposition::Broadcast(name) => DispositionModel::Broadcast(name@),
    }
}

/// The fate of one record: dropped when malformed or of a filtered type,
/// otherwise rebroadcast under the external tool's prefix plus the type tag.
pub open spec fn spec_disposition(line: Seq<char>) -> DispositionModel {
    match json_event_type_of(line) {
        Option::None => DispositionModel::Malformed,
        Option::Some(t) => if spec_ignored_event(t) {
            DispositionModel::Ignored
        } else {
            DispositionModel::Broadcast("Komorebi"@ + t)
        },
    }
}

/// Decide what to do with one notification record from the channel.
pub fn classify_notification(line: &str) -> (r: NotificationDisposition)
    ensures
        disposition_model(r) == spec_disposition(line@),
{
    match extract_event_type(line) {
        Option::None => NotificationDisposition::Malformed,
        Option::Some(t) => {
            if is_ignored_event(t.as_str()) {
                NotificationDisposition::Ignored
            } else {
                let name = String::from_str("Komorebi").concat(t.as_str());
                NotificationDisposition::Broadcast(name)
            }
        },
    }
}

} // verus!
