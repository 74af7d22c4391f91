//! The bootstrap loop as a state machine: from its state and the outcome of
//! the last action (a join check, a DHT lookup, a wait, a join attempt) to
//! its next state, the node record to publish if any, and the next action.
//! The caller performs the actions and feeds their outcomes back.

use vstd::prelude::*;

use crate::bootstrap::{publish_step, round_lookup, BootstrapState, BootstrapStateView};
use crate::config::{BootstrapConfig, BootstrapConfigView};
use crate::crypto::record::{Record, RecordView};
use crate::peers::{bootstrap_peers, distinct, listed, offered, record_views};
use crate::time::Duration;

verus! {

/// Where the loop stands: the outcome it waits for.
#[derive(Debug, Clone, Copy, PartialEq, Eq, Structural)]
pub enum Stage {
    /// A round is about to begin, unless bootstrap was cancelled.
    RoundStart,
    /// The join check at the start of a round.
    Checking,
    /// The lookup of the round's records.
    Fetching,
    /// The wait after a lookup that found no records.
    NoRecordsWait,
    /// The join check after records were found, before joining any peer.
    PreJoinCheck,
    /// A join attempt to the current candidate.
    Joining,
    /// The settle time after joining a candidate.
    Settling,
    /// The join check after the settle time.
    SettledCheck,
    /// The join check after the candidates were tried.
    ConfirmCheck,
    /// The wait for a join to be confirmed.
    Confirming,
    /// The last join check of a round.
    FinalCheck,
    /// The wait before the next round.
    PollWait,
    /// Bootstrap is over.
    Finished,
}

/// Which of the configured wait times a wait takes.
#[derive(Debug, Clone, Copy, PartialEq, Eq, Structural)]
pub enum WaitReason {
    /// No records were found: `no_peers_retry_interval`.
    NoRecords,
    /// A peer was joined: `per_peer_join_settle_time`.
    PeerSettle,
    /// The candidates were tried without joining: `join_confirmation_wait_time`.
    JoinConfirmation,
    /// The round did not join: `discovery_poll_interval`.
    DiscoveryPoll,
}

/// What the caller does next.
#[derive(Debug, Clone, Copy, PartialEq, Eq)]
pub enum Action {
    /// Check whether bootstrap was cancelled, and answer `RoundBegun`.
    BeginRound,
    /// Check whether the node has a neighbor, and answer `JoinStatus`.
    CheckJoined,
    /// Read the current minute at this offset, fetch the verified records of
    /// that minute and the one before, and answer `Records`.
    FetchRecords { minute_offset: i64 },
    /// Wait for the configured time, until the node joins, or until
    /// bootstrap is cancelled, and answer `WaitOver`.
    Wait(WaitReason),
    /// Ask the gossip layer to join this peer, and answer `JoinAttempted`.
    JoinPeer([u8; 32]),
    /// Bootstrap is over; it succeeded where `joined`.
    Finish { joined: bool },
}

/// A node record to publish, without waiting for the outcome.
#[derive(Debug, Clone, Copy, PartialEq, Eq, Structural)]
pub struct Publication {
    /// The minute the record is for.
    pub unix_minute: u64,
    /// Whether the records found for that minute may be handed to the
    /// publisher, which then need not fetch them again.
    pub use_cached_records: bool,
}

/// The outcome of a step: a record to publish first, if any, then the next
/// action.
#[derive(Debug, Clone, Copy, PartialEq, Eq)]
pub struct Step {
    pub publish: Option<Publication>,
    pub action: Action,
}

/// The outcome of an action, handed back to the loop.
#[derive(Debug)]
pub enum Event {
    /// The answer to `BeginRound`.
    RoundBegun { cancelled: bool },
    /// The answer to `CheckJoined`: whether the node has a neighbor, or
    /// `None` where the check failed.
    JoinStatus(Option<bool>),
    /// The answer to `FetchRecords`: the minute read, and the records found
    /// for it and the minute before (none where the lookup failed).
    Records { unix_minute: u64, records: Vec<Record> },
    /// The answer to `JoinPeer`: whether the join request was accepted.
    JoinAttempted { ok: bool },
    /// The answer to `Wait`: whether it ended because bootstrap was cancelled.
    WaitOver { cancelled: bool },
}

/// An event, with its records taken by their views.
pub enum EventView {
    RoundBegun { cancelled: bool },
    JoinStatus(Option<bool>),
    Records { unix_minute: u64, records: Seq<RecordView> },
    JoinAttempted { ok: bool },
    WaitOver { cancelled: bool },
}

impl View for Event {
    type V = EventView;

    open spec fn view(&self) -> EventView {
        match self {
            Event::RoundBegun { cancelled } => EventView::RoundBegun { cancelled: *cancelled },
            Event::JoinStatus(status) => EventView::JoinStatus(*status),
            Event::Records { unix_minute, records } => EventView::Records {
                unix_minute: *unix_minute,
                records: record_views(records@),
            },
            Event::JoinAttempted { ok } => EventView::JoinAttempted { ok: *ok },
            Event::WaitOver { cancelled } => EventView::WaitOver { cancelled: *cancelled },
        }
    }
}

/// The bootstrap loop.
pub struct Bootstrapper {
    round: BootstrapState,
    stage: Stage,
    unix_minute: u64,
    use_cached_records: bool,
    candidates: Vec<[u8; 32]>,
    next: usize,
    joined: bool,
    round_records: Ghost<Seq<RecordView>>,
}

/// The loop's state: the state kept between rounds, the stage, the minute
/// of the current round and whether its records may be cached, the peers
/// the round tries and the index of the current one, whether a join check
/// ever found the node joined, and the records the round found.
pub struct BootstrapperView {
    pub round: BootstrapStateView,
    pub stage: Stage,
    pub unix_minute: u64,
    pub use_cached_records: bool,
    pub candidates: Seq<[u8; 32]>,
    pub next: nat,
    pub joined: bool,
    pub round_records: Seq<RecordView>,
}

impl View for Bootstrapper {
    type V = BootstrapperView;

    closed spec fn view(&self) -> BootstrapperView {
        BootstrapperView {
            round: self.round@,
            stage: self.stage,
            unix_minute: self.unix_minute,
            use_cached_records: self.use_cached_records,
            candidates: self.candidates@,
            next: self.next as nat,
            joined: self.joined,
            round_records: self.round_records@,
        }
    }
}

/// The states the loop can be in: the current candidate exists while a peer
/// is joined, and the candidates are distinct peers that the round's
/// records offer.
pub open spec fn valid(s: BootstrapperView) -> bool {
    &&& s.next <= s.candidates.len()
    &&& (s.stage is Joining || s.stage is Settling || s.stage is SettledCheck) ==> s.next < s.candidates.len()
    &&& distinct(s.candidates)
    &&& forall|k: Seq<u8>| #[trigger] listed(s.candidates, k) ==> offered(s.round_records, k)
}

/// The action the loop waits on in state `s`.
pub open spec fn awaited(s: BootstrapperView) -> Action {
    match s.stage {
        Stage::RoundStart => Action::BeginRound,
        Stage::Fetching => Action::FetchRecords { minute_offset: round_lookup(s.round).minute_offset },
        Stage::NoRecordsWait => Action::Wait(WaitReason::NoRecords),
        Stage::Joining => Action::JoinPeer(s.candidates[s.next as int]),
        Stage::Settling => Action::Wait(WaitReason::PeerSettle),
        Stage::Confirming => Action::Wait(WaitReason::JoinConfirmation),
        Stage::PollWait => Action::Wait(WaitReason::DiscoveryPoll),
        Stage::Finished => Action::Finish { joined: s.joined },
        _ => Action::CheckJoined,
    }
}

/// Moves to `stage`, publishing nothing.
pub open spec fn enter(s: BootstrapperView, stage: Stage) -> (BootstrapperView, Step) {
    let moved = BootstrapperView { stage, ..s };
    (moved, Step { publish: None, action: awaited(moved) })
}

/// Ends bootstrap; `joined_now` where the last check found the node joined.
pub open spec fn finish(s: BootstrapperView, joined_now: bool) -> (BootstrapperView, Step) {
    enter(BootstrapperView { joined: s.joined || joined_now, ..s }, Stage::Finished)
}

/// Tries the candidate at index `i`, or, past the last one, checks whether
/// the node joined.
pub open spec fn try_candidate(s: BootstrapperView, i: nat) -> (BootstrapperView, Step) {
    let at = BootstrapperView { next: i, ..s };
    if i < s.candidates.len() {
        enter(at, Stage::Joining)
    } else {
        enter(at, Stage::ConfirmCheck)
    }
}

/// Publishes the node's record for the round's minute unless that minute
/// was published already, and moves to `stage`.
pub open spec fn publish_and_enter(s: BootstrapperView, stage: Stage) -> (BootstrapperView, Step) {
    let (round, publish) = publish_step(s.round, s.unix_minute);
    let (moved, step) = enter(BootstrapperView { round, ..s }, stage);
    let publication = Publication { unix_minute: s.unix_minute, use_cached_records: s.use_cached_records };
    (moved, Step { publish: if publish { Some(publication) } else { None }, ..step })
}

/// The step of the loop in state `s` on event `e`, where `found` are the
/// candidates taken from the records of a lookup. An event that the stage
/// does not wait for changes nothing, and the awaited action is repeated.
pub open spec fn next_state(s: BootstrapperView, e: EventView, found: Seq<[u8; 32]>) -> (BootstrapperView, Step) {
    let unchanged = (s, Step { publish: None, action: awaited(s) });
    match e {
        EventView::RoundBegun { cancelled } => if s.stage is RoundStart {
            if cancelled { finish(s, false) } else { enter(s, Stage::Checking) }
        } else {
            unchanged
        },
        EventView::JoinStatus(status) => match s.stage {
            Stage::Checking | Stage::PreJoinCheck | Stage::FinalCheck => match status {
                Some(true) => finish(s, true),
                None => finish(s, false),
                Some(false) => if s.stage is Checking {
                    enter(s, Stage::Fetching)
                } else if s.stage is PreJoinCheck {
                    try_candidate(s, 0)
                } else {
                    publish_and_enter(s, Stage::PollWait)
                },
            },
            Stage::SettledCheck => match status {
                Some(true) => enter(BootstrapperView { joined: true, ..s }, Stage::ConfirmCheck),
                None => enter(s, Stage::ConfirmCheck),
                Some(false) => try_candidate(s, s.next + 1),
            },
            Stage::ConfirmCheck => match status {
                Some(true) => enter(s, Stage::FinalCheck),
                None => finish(s, false),
                Some(false) => enter(s, Stage::Confirming),
            },
            _ => unchanged,
        },
        EventView::Records { unix_minute, records } => if s.stage is Fetching {
            let at = BootstrapperView {
                unix_minute,
                use_cached_records: round_lookup(s.round).use_cached_records,
                ..s
            };
            if records.len() == 0 {
                publish_and_enter(at, Stage::NoRecordsWait)
            } else {
                enter(BootstrapperView { candidates: found, next: 0, round_records: records, ..at }, Stage::PreJoinCheck)
            }
        } else {
            unchanged
        },
        EventView::JoinAttempted { ok } => if s.stage is Joining {
            if ok { enter(s, Stage::Settling) } else { try_candidate(s, s.next + 1) }
        } else {
            unchanged
        },
        EventView::WaitOver { cancelled } => match s.stage {
            Stage::NoRecordsWait | Stage::Settling | Stage::Confirming | Stage::PollWait => if cancelled {
                finish(s, false)
            } else if s.stage is Settling {
                enter(s, Stage::SettledCheck)
            } else if s.stage is Confirming {
                enter(s, Stage::FinalCheck)
            } else {
                enter(s, Stage::RoundStart)
            },
            _ => unchanged,
        },
    }
}

/// `found` are the candidates of the records `records`: each peer they
/// offer, once.
pub open spec fn candidates_of(records: Seq<RecordView>, found: Seq<[u8; 32]>) -> bool {
    &&& distinct(found)
    &&& forall|k: Seq<u8>| #[trigger] listed(found, k) <==> offered(records, k)
}

/// The state the loop starts in.
pub open spec fn initial_state(config: BootstrapConfigView, now_minute: u64) -> BootstrapperView {
    BootstrapperView {
        round: BootstrapStateView {
            last_published_unix_minute: if config.publish_record_on_startup && !config.check_older_records_first_on_startup {
                now_minute
            } else {
                0
            },
            check_older_records_first: config.check_older_records_first_on_startup,
        },
        stage: Stage::RoundStart,
        unix_minute: 0,
        use_cached_records: false,
        candidates: Seq::empty(),
        next: 0,
        joined: false,
        round_records: Seq::empty(),
    }
}

/// The first step: publish the node's record for the current minute where
/// the configuration asks for it on startup, then begin the first round.
pub open spec fn initial_step(config: BootstrapConfigView, now_minute: u64) -> Step {
    Step {
        publish: if config.publish_record_on_startup {
            Some(Publication { unix_minute: now_minute, use_cached_records: false })
        } else {
            None
        },
        action: Action::BeginRound,
    }
}

/// The configured time of a wait, in nanoseconds.
pub open spec fn wait_time(config: BootstrapConfigView, reason: WaitReason) -> nat {
    match reason {
        WaitReason::NoRecords => config.no_peers_retry_interval,
        WaitReason::PeerSettle => config.per_peer_join_settle_time,
        WaitReason::JoinConfirmation => config.join_confirmation_wait_time,
        WaitReason::DiscoveryPoll => config.discovery_poll_interval,
    }
}

/// How long a wait takes.
pub fn wait_duration(config: &BootstrapConfig, reason: WaitReason) -> (duration: Duration)
    ensures
        duration@ == wait_time(config@, reason),
{
    match reason {
        WaitReason::NoRecords => config.no_peers_retry_interval(),
        WaitReason::PeerSettle => config.per_peer_join_settle_time(),
        WaitReason::JoinConfirmation => config.join_confirmation_wait_time(),
        WaitReason::DiscoveryPoll => config.discovery_poll_interval(),
    }
}

/// Once bootstrap is over, every event leaves the loop as it is, and it
/// repeats that it is over.
pub proof fn law_finished_is_final(s: BootstrapperView, e: EventView, found: Seq<[u8; 32]>)
    requires
        s.stage is Finished,
    ensures
        next_state(s, e, found) == (s, Step { publish: None, action: Action::Finish { joined: s.joined } }),
{
}

/// The loop counts itself joined only after a join check reported the node
/// joined, and it finishes reporting exactly that.
pub proof fn law_joined_only_when_reported(s: BootstrapperView, e: EventView, found: Seq<[u8; 32]>)
    ensures
        next_state(s, e, found).0.joined ==> (s.joined || e == EventView::JoinStatus(Some(true))),
        s.joined ==> next_state(s, e, found).0.joined,
        next_state(s, e, found).1.action matches Action::Finish { joined } ==> joined == next_state(s, e, found).0.joined,
{
}

/// A join check that reports the node joined ends bootstrap successfully,
/// at the start of a round, before the round joins any peer, and at its end.
pub proof fn law_reported_join_finishes(s: BootstrapperView, found: Seq<[u8; 32]>)
    requires
        s.stage is Checking || s.stage is PreJoinCheck || s.stage is FinalCheck,
    ensures
        next_state(s, EventView::JoinStatus(Some(true)), found).0.stage is Finished,
        next_state(s, EventView::JoinStatus(Some(true)), found).1.action == (Action::Finish { joined: true }),
{
}

/// Cancellation, seen at the start of a round or during a wait, ends
/// bootstrap at once, reporting whether a join was seen before.
pub proof fn law_cancellation_finishes(s: BootstrapperView, e: EventView, found: Seq<[u8; 32]>)
    requires
        (s.stage is RoundStart && e == EventView::RoundBegun { cancelled: true })
            || (awaited(s) is Wait && e == EventView::WaitOver { cancelled: true }),
    ensures
        next_state(s, e, found).0.stage is Finished,
        next_state(s, e, found).1 == (Step { publish: None, action: Action::Finish { joined: s.joined } }),
{
}

/// Every step keeps the loop in a valid state, where the candidates of a
/// lookup are those its records offer.
pub proof fn law_step_keeps_valid(s: BootstrapperView, e: EventView, found: Seq<[u8; 32]>)
    requires
        valid(s),
        s.stage is Fetching ==> (e matches EventView::Records { records, .. } ==> (records.len() > 0 ==> candidates_of(records, found))),
    ensures
        valid(next_state(s, e, found).0),
{
    assert forall|k: Seq<u8>| #[trigger] listed(next_state(s, e, found).0.candidates, k)
        implies offered(next_state(s, e, found).0.round_records, k) by {
        if s.stage is Fetching && e is Records && e->records.len() > 0 {
            assert(candidates_of(e->records, found));
        }
    }
}

/// The loop only asks to join a peer that the round's records offer: the
/// current one of the round's distinct candidates.
pub proof fn law_joins_offered_peers(s: BootstrapperView, e: EventView, found: Seq<[u8; 32]>, peer: [u8; 32])
    requires
        valid(s),
        s.stage is Fetching ==> (e matches EventView::Records { records, .. } ==> (records.len() > 0 ==> candidates_of(records, found))),
        next_state(s, e, found).1.action == Action::JoinPeer(peer),
    ensures
        offered(next_state(s, e, found).0.round_records, peer@),
        peer == next_state(s, e, found).0.candidates[next_state(s, e, found).0.next as int],
{
    law_step_keeps_valid(s, e, found);
    let s2 = next_state(s, e, found).0;
    assert(s2.stage is Joining);
    assert(listed(s2.candidates, peer@)) by {
        assert(s2.candidates[s2.next as int]@ == peer@);
    }
}

/// The loop publishes its own record for a minute only where it did not
/// publish for that minute last, and remembers the minute it published.
pub proof fn law_step_publishes_once_per_minute(s: BootstrapperView, e: EventView, found: Seq<[u8; 32]>)
    ensures
        next_state(s, e, found).1.publish matches Some(p) ==> {
            &&& p.unix_minute != s.round.last_published_unix_minute
            &&& next_state(s, e, found).0.round.last_published_unix_minute == p.unix_minute
        },
        next_state(s, e, found).1.publish is None ==> next_state(s, e, found).0.round == s.round,
{
}

/// The event that moves on from the current candidate without a join: a
/// join check that finds the node not joined after the settle time, or a
/// refused join request.
pub open spec fn not_joined_event(s: BootstrapperView) -> EventView {
    if s.stage is SettledCheck {
        EventView::JoinStatus(Some(false))
    } else {
        EventView::JoinAttempted { ok: false }
    }
}

/// Within a round the loop tries every candidate in turn: after records are
/// found and the node is not joined, it asks to join the first candidate;
/// after a join request that was refused, or after the settle time with the
/// node still not joined, it asks to join the next one; only once no
/// candidate is left does it go on to the confirmation check.
pub proof fn law_candidates_tried_in_turn(s: BootstrapperView, found: Seq<[u8; 32]>)
    requires
        valid(s),
    ensures
        (s.stage is PreJoinCheck && s.candidates.len() > 0) ==> next_state(s, EventView::JoinStatus(Some(false)), found).1.action
            == Action::JoinPeer(s.candidates[0]),
        (s.stage is PreJoinCheck && s.candidates.len() == 0) ==> next_state(s, EventView::JoinStatus(Some(false)), found).1.action
            == Action::CheckJoined,
        ((s.stage is SettledCheck || s.stage is Joining) && s.next + 1 < s.candidates.len()) ==> next_state(
            s,
            not_joined_event(s),
            found,
        ).1 == (Step { publish: None, action: Action::JoinPeer(s.candidates[s.next + 1int]) }),
        ((s.stage is SettledCheck || s.stage is Joining) && s.next + 1 < s.candidates.len()) ==> next_state(
            s,
            not_joined_event(s),
            found,
        ).0.next == s.next + 1,
        ((s.stage is SettledCheck || s.stage is Joining) && s.next + 1 < s.candidates.len()) ==> next_state(
            s,
            not_joined_event(s),
            found,
        ).0.candidates == s.candidates,
        ((s.stage is SettledCheck || s.stage is Joining) && s.next + 1 == s.candidates.len()) ==> next_state(
            s,
            not_joined_event(s),
            found,
        ).1.action == Action::CheckJoined,
        ((s.stage is SettledCheck || s.stage is Joining) && s.next + 1 == s.candidates.len()) ==> (next_state(
            s,
            not_joined_event(s),
            found,
        ).0.stage is ConfirmCheck),
{
}

/// A join request that was accepted is followed by the settle time, and the
/// settle time by a join check; a check after it that finds the node joined
/// or fails ends the candidates of the round and goes to the confirmation
/// check, remembering a reported join.
pub proof fn law_join_then_settle(s: BootstrapperView, found: Seq<[u8; 32]>)
    requires
        valid(s),
    ensures
        s.stage is Joining ==> next_state(s, EventView::JoinAttempted { ok: true }, found).1.action == Action::Wait(
            WaitReason::PeerSettle,
        ),
        s.stage is Settling ==> next_state(s, EventView::WaitOver { cancelled: false }, found).1.action
            == Action::CheckJoined,
        s.stage is SettledCheck ==> next_state(s, EventView::JoinStatus(Some(true)), found).1.action
            == Action::CheckJoined,
        s.stage is SettledCheck ==> (next_state(s, EventView::JoinStatus(Some(true)), found).0.stage is ConfirmCheck),
        s.stage is SettledCheck ==> next_state(s, EventView::JoinStatus(Some(true)), found).0.joined,
        s.stage is SettledCheck ==> (next_state(s, EventView::JoinStatus(None), found).0.stage is ConfirmCheck),
{
}

/// The end of a round: with the node not joined after its candidates, the
/// loop waits for the join to be confirmed, checks once more, and, still
/// not joined, publishes its own record for the round's minute unless that
/// minute was published already, then waits before the next round.
pub proof fn law_round_end(s: BootstrapperView, found: Seq<[u8; 32]>)
    requires
        valid(s),
    ensures
        s.stage is ConfirmCheck ==> next_state(s, EventView::JoinStatus(Some(false)), found).1.action == Action::Wait(
            WaitReason::JoinConfirmation,
        ),
        s.stage is ConfirmCheck ==> next_state(s, EventView::JoinStatus(Some(true)), found).1.action
            == Action::CheckJoined,
        s.stage is Confirming ==> next_state(s, EventView::WaitOver { cancelled: false }, found).1.action
            == Action::CheckJoined,
        s.stage is FinalCheck ==> next_state(s, EventView::JoinStatus(Some(false)), found).1.action == Action::Wait(
            WaitReason::DiscoveryPoll,
        ),
        s.stage is FinalCheck ==> (next_state(s, EventView::JoinStatus(Some(false)), found).1.publish is Some
            <==> s.unix_minute != s.round.last_published_unix_minute),
        (s.stage is FinalCheck && s.unix_minute != s.round.last_published_unix_minute) ==> next_state(
            s,
            EventView::JoinStatus(Some(false)),
            found,
        ).1.publish == Some(Publication { unix_minute: s.unix_minute, use_cached_records: s.use_cached_records }),
        s.stage is PollWait ==> next_state(s, EventView::WaitOver { cancelled: false }, found).1.action
            == Action::BeginRound,
{
}

/// The minute offset of a round's lookup: one minute back on a first round
/// that checks older records first, the current minute otherwise.
pub open spec fn lookup_offset(s: BootstrapperView) -> i64 {
    if s.round.last_published_unix_minute == 0 && s.round.check_older_records_first {
        -1i64
    } else {
        0i64
    }
}

/// The start of a round: not cancelled, it checks whether the node joined;
/// not joined, it looks up the records of the current minute and the one
/// before (one minute earlier on a first round that checks older records
/// first); after a wait that found no records, the next round begins.
pub proof fn law_round_start(s: BootstrapperView, found: Seq<[u8; 32]>)
    requires
        valid(s),
    ensures
        s.stage is RoundStart ==> next_state(s, EventView::RoundBegun { cancelled: false }, found).1.action
            == Action::CheckJoined,
        s.stage is Checking ==> next_state(s, EventView::JoinStatus(Some(false)), found).1.action
            == (Action::FetchRecords { minute_offset: lookup_offset(s) }),
        s.stage is NoRecordsWait ==> next_state(s, EventView::WaitOver { cancelled: false }, found).1.action
            == Action::BeginRound,
{
}

/// The step of a lookup that found `records` for `unix_minute`.
pub open spec fn lookup_step(s: BootstrapperView, unix_minute: u64, records: Seq<RecordView>, found: Seq<[u8; 32]>) -> (
    BootstrapperView,
    Step,
) {
    next_state(s, EventView::Records { unix_minute, records }, found)
}

/// A lookup's outcome: records found become the round's candidates, in the
/// order given, and a join check comes first; no records found, the loop
/// publishes its own record for the minute unless that minute was
/// published already, and waits.
pub proof fn law_lookup_outcome(s: BootstrapperView, unix_minute: u64, records: Seq<RecordView>, found: Seq<[u8; 32]>)
    requires
        valid(s),
        s.stage is Fetching,
    ensures
        records.len() > 0 ==> lookup_step(s, unix_minute, records, found).1 == (Step {
            publish: None,
            action: Action::CheckJoined,
        }),
        records.len() > 0 ==> lookup_step(s, unix_minute, records, found).0.candidates == found,
        records.len() > 0 ==> lookup_step(s, unix_minute, records, found).0.next == 0,
        records.len() > 0 ==> lookup_step(s, unix_minute, records, found).0.round_records == records,
        records.len() == 0 ==> lookup_step(s, unix_minute, records, found).1.action == Action::Wait(
            WaitReason::NoRecords,
        ),
        records.len() == 0 ==> (lookup_step(s, unix_minute, records, found).1.publish is Some
            <==> unix_minute != s.round.last_published_unix_minute),
        (records.len() == 0 && unix_minute != s.round.last_published_unix_minute) ==> (lookup_step(
            s,
            unix_minute,
            records,
            found,
        ).1.publish matches Some(p) && p.unix_minute == unix_minute),
{
}

/// Step `i` of a run: event `i` moves state `i` to state `i + 1`.
pub open spec fn run_step(states: Seq<BootstrapperView>, events: Seq<EventView>, i: int) -> bool {
    next_state(states[i], events[i], states[i + 1].candidates).0 == states[i + 1]
}

/// `states` are the states of a run of the loop on `events`.
pub open spec fn is_run(states: Seq<BootstrapperView>, events: Seq<EventView>) -> bool {
    &&& states.len() == events.len() + 1
    &&& forall|i: int| 0 <= i < events.len() ==> #[trigger] run_step(states, events, i)
}

/// Bootstrap succeeds only after a join check reported the node joined: in
/// a run that starts without a join seen and ends with one, some event is
/// such a report.
pub proof fn law_success_needs_reported_join(states: Seq<BootstrapperView>, events: Seq<EventView>)
    requires
        is_run(states, events),
        !states[0].joined,
        states.last().joined,
    ensures
        exists|i: int| 0 <= i < events.len() && events[i] == EventView::JoinStatus(Some(true)),
    decreases events.len(),
{
    let n = events.len() as int;
    assert(run_step(states, events, n - 1));
    law_joined_only_when_reported(states[n - 1], events[n - 1], states[n].candidates);
    if events[n - 1] != EventView::JoinStatus(Some(true)) {
        let shorter = states.drop_last();
        let earlier = events.drop_last();
        assert forall|i: int| 0 <= i < earlier.len() implies #[trigger] run_step(shorter, earlier, i) by {
            assert(run_step(states, events, i));
        }
        law_success_needs_reported_join(shorter, earlier);
        let i = choose|i: int| 0 <= i < earlier.len() && earlier[i] == EventView::JoinStatus(Some(true));
        assert(events[i] == earlier[i]);
    }
}

impl Bootstrapper {
    /// A loop about to start, given the current minute, and its first step.
    pub fn start(config: &BootstrapConfig, now_minute: u64) -> (started: (Bootstrapper, Step))
        ensures
            started.0@ == initial_state(config@, now_minute),
            started.1 == initial_step(config@, now_minute),
            valid(started.0@),
    {
        let (round, publish) = BootstrapState::start(config, now_minute);
        let machine = Bootstrapper {
            round,
            stage: Stage::RoundStart,
            unix_minute: 0,
            use_cached_records: false,
            candidates: Vec::new(),
            next: 0,
            joined: false,
            round_records: Ghost(Seq::empty()),
        };
        let publication = if publish {
            Some(Publication { unix_minute: now_minute, use_cached_records: false })
        } else {
            None
        };
        proof {
            assert forall|k: Seq<u8>| #[trigger] listed(machine.candidates@, k) implies offered(Seq::empty(), k) by {}
        }
        (machine, Step { publish: publication, action: Action::BeginRound })
    }

    /// The action the loop waits on.
    fn awaited(&self) -> (action: Action)
        requires
            valid(self@),
        ensures
            action == awaited(self@),
    {
        match self.stage {
            Stage::RoundStart => Action::BeginRound,
            Stage::Fetching => Action::FetchRecords { minute_offset: self.round.lookup().minute_offset },
            Stage::NoRecordsWait => Action::Wait(WaitReason::NoRecords),
            Stage::Joining => Action::JoinPeer(self.candidates[self.next]),
            Stage::Settling => Action::Wait(WaitReason::PeerSettle),
            Stage::Confirming => Action::Wait(WaitReason::JoinConfirmation),
            Stage::PollWait => Action::Wait(WaitReason::DiscoveryPoll),
            Stage::Finished => Action::Finish { joined: self.joined },
            _ => Action::CheckJoined,
        }
    }

    fn enter(&mut self, stage: Stage) -> (step: Step)
        requires
            valid(BootstrapperView { stage, ..old(self)@ }),
        ensures
            (final(self)@, step) == enter(old(self)@, stage),
            valid(final(self)@),
    {
        self.stage = stage;
        Step { publish: None, action: self.awaited() }
    }

    fn finish(&mut self, joined_now: bool) -> (step: Step)
        requires
            valid(old(self)@),
        ensures
            (final(self)@, step) == finish(old(self)@, joined_now),
            valid(final(self)@),
    {
        self.joined = self.joined || joined_now;
        self.enter(Stage::Finished)
    }

    fn try_candidate(&mut self, i: usize) -> (step: Step)
        requires
            valid(old(self)@),
            i <= old(self)@.candidates.len(),
        ensures
            (final(self)@, step) == try_candidate(old(self)@, i as nat),
            valid(final(self)@),
    {
        self.next = i;
        if i < self.candidates.len() {
            self.enter(Stage::Joining)
        } else {
            self.enter(Stage::ConfirmCheck)
        }
    }

    fn publish_and_enter(&mut self, stage: Stage) -> (step: Step)
        requires
            valid(old(self)@),
            !(stage is Joining || stage is Settling || stage is SettledCheck),
        ensures
            (final(self)@, step) == publish_and_enter(old(self)@, stage),
            valid(final(self)@),
    {
        let minute = self.unix_minute;
        let publish = self.round.publish_for(minute);
        let step = self.enter(stage);
        let publication = Publication { unix_minute: minute, use_cached_records: self.use_cached_records };
        Step { publish: if publish { Some(publication) } else { None }, action: step.action }
    }

    /// One step of the loop: the outcome `event` of the last action moves
    /// it to its next state and gives the next action, with the record to
    /// publish first if any. After records are found, the peers to try are
    /// those the records offer, each once.
    pub fn step(&mut self, event: Event) -> (step: Step)
        requires
            valid(old(self)@),
        ensures
            (final(self)@, step) == next_state(old(self)@, event@, final(self)@.candidates),
            valid(final(self)@),
            old(self)@.stage is Fetching ==> (event@ matches EventView::Records { records, .. }
                ==> (records.len() > 0 ==> candidates_of(records, final(self)@.candidates))),
    {
        let ghost s = self@;
        match event {
            Event::RoundBegun { cancelled } => {
                if self.stage == Stage::RoundStart {
                    return if cancelled { self.finish(false) } else { self.enter(Stage::Checking) };
                }
            },
            Event::JoinStatus(status) => {
                match self.stage {
                    Stage::Checking | Stage::PreJoinCheck | Stage::FinalCheck => {
                        return match status {
                            Some(true) => self.finish(true),
                            None => self.finish(false),
                            Some(false) => if self.stage == Stage::Checking {
                                self.enter(Stage::Fetching)
                            } else if self.stage == Stage::PreJoinCheck {
                                self.try_candidate(0)
                            } else {
                                self.publish_and_enter(Stage::PollWait)
                            },
                        };
                    },
                    Stage::SettledCheck => {
                        return match status {
                            Some(true) => {
                                self.joined = true;
                                self.enter(Stage::ConfirmCheck)
                            },
                            None => self.enter(Stage::ConfirmCheck),
                            Some(false) => {
                                let count: usize = self.candidates.len();
                                assert(self.next < count);
                                let after: usize = self.next + 1;
                                self.try_candidate(after)
                            },
                        };
                    },
                    Stage::ConfirmCheck => {
                        return match status {
                            Some(true) => self.enter(Stage::FinalCheck),
                            None => self.finish(false),
                            Some(false) => self.enter(Stage::Confirming),
                        };
                    },
                    _ => {},
                }
            },
            Event::Records { unix_minute, records } => {
                if self.stage == Stage::Fetching {
                    let lookup = self.round.lookup();
                    self.unix_minute = unix_minute;
                    self.use_cached_records = lookup.use_cached_records;
                    if records.len() == 0 {
                        return self.publish_and_enter(Stage::NoRecordsWait);
                    }
                    let found = bootstrap_peers(&records);
                    self.candidates = found;
                    self.next = 0;
                    self.round_records = Ghost(record_views(records@));
                    return self.enter(Stage::PreJoinCheck);
                }
            },
            Event::JoinAttempted { ok } => {
                if self.stage == Stage::Joining {
                    if ok {
                        return self.enter(Stage::Settling);
                    }
                    let count: usize = self.candidates.len();
                    assert(self.next < count);
                    let after: usize = self.next + 1;
                    return self.try_candidate(after);
                }
            },
            Event::WaitOver { cancelled } => {
                match self.stage {
                    Stage::NoRecordsWait | Stage::Settling | Stage::Confirming | Stage::PollWait => {
                        return if cancelled {
                            self.finish(false)
                        } else if self.stage == Stage::Settling {
                            self.enter(Stage::SettledCheck)
                        } else if self.stage == Stage::Confirming {
                            self.enter(Stage::FinalCheck)
                        } else {
                            self.enter(Stage::RoundStart)
                        };
                    },
                    _ => {},
                }
            },
        }
        Step { publish: None, action: self.awaited() }
    }

    /// Whether bootstrap is over.
    pub fn is_finished(&self) -> (finished: bool)
        ensures
            finished == self@.stage is Finished,
    {
        self.stage == Stage::Finished
    }
}

} // verus!
