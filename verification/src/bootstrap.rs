//! Decisions of the bootstrap loop, which joins a node to its topic through
//! the records in the DHT, and of topic startup, which then starts the
//! background workers.

use vstd::prelude::*;

use crate::config::{
    BootstrapConfig, BubbleMergeConfig, Config, ConfigView, MessageOverlapMergeConfig, PublisherConfig,
};

verus! {

/// What a round of the bootstrap loop looks up.
#[derive(Debug, Clone, Copy, PartialEq, Eq, Structural)]
pub struct RoundLookup {
    /// The offset from the current minute of the newer of the two minutes
    /// whose records are fetched (the other is one minute before it).
    pub minute_offset: i64,
    /// Whether the records of the newer minute may be handed to the
    /// publisher of the node's own record.
    pub use_cached_records: bool,
}

/// The state the bootstrap loop keeps between rounds.
pub struct BootstrapState {
    last_published_unix_minute: u64,
    check_older_records_first: bool,
}

/// The bootstrap loop's state: the minute it last published its own record
/// for (0 before any), and whether it first checks older records.
pub struct BootstrapStateView {
    pub last_published_unix_minute: u64,
    pub check_older_records_first: bool,
}

impl View for BootstrapState {
    type V = BootstrapStateView;

    closed spec fn view(&self) -> BootstrapStateView {
        BootstrapStateView {
            last_published_unix_minute: self.last_published_unix_minute,
            check_older_records_first: self.check_older_records_first,
        }
    }
}

/// The lookup of a round in state `state`: the first round of a loop that
/// checks older records first looks one minute back, without the cache.
pub open spec fn round_lookup(state: BootstrapStateView) -> RoundLookup {
    if state.last_published_unix_minute == 0 && state.check_older_records_first {
        RoundLookup { minute_offset: -1i64, use_cached_records: false }
    } else {
        RoundLookup { minute_offset: 0i64, use_cached_records: true }
    }
}

/// The state after a round that considered publishing for `unix_minute`,
/// and whether it publishes: once per minute.
pub open spec fn publish_step(state: BootstrapStateView, unix_minute: u64) -> (BootstrapStateView, bool) {
    if unix_minute != state.last_published_unix_minute {
        (BootstrapStateView { last_published_unix_minute: unix_minute, ..state }, true)
    } else {
        (state, false)
    }
}

impl BootstrapState {
    /// The state a bootstrap loop starts in, given the current minute, and
    /// whether it publishes its own record for that minute before the first
    /// round. Publishing on startup marks the minute as published, unless
    /// older records are checked first.
    pub fn start(config: &BootstrapConfig, now_minute: u64) -> (started: (BootstrapState, bool))
        ensures
            started.1 == config@.publish_record_on_startup,
            started.0@.check_older_records_first == config@.check_older_records_first_on_startup,
            started.0@.last_published_unix_minute == if config@.publish_record_on_startup
                && !config@.check_older_records_first_on_startup {
                now_minute
            } else {
                0
            },
    {
        let check_older = config.check_older_records_first_on_startup();
        if config.publish_record_on_startup() {
            let last = if check_older {
                0
            } else {
                now_minute
            };
            (BootstrapState { last_published_unix_minute: last, check_older_records_first: check_older }, true)
        } else {
            (BootstrapState { last_published_unix_minute: 0, check_older_records_first: check_older }, false)
        }
    }

    /// What the next round looks up.
    pub fn lookup(&self) -> (lookup: RoundLookup)
        ensures
            lookup == round_lookup(self@),
    {
        if self.last_published_unix_minute == 0 && self.check_older_records_first {
            RoundLookup { minute_offset: -1, use_cached_records: false }
        } else {
            RoundLookup { minute_offset: 0, use_cached_records: true }
        }
    }

    /// Called in a round that found no records, or did not join through
    /// them: whether to publish the node's own record for `unix_minute`.
    pub fn publish_for(&mut self, unix_minute: u64) -> (publish: bool)
        ensures
            (final(self)@, publish) == publish_step(old(self)@, unix_minute),
    {
        if unix_minute != self.last_published_unix_minute {
            self.last_published_unix_minute = unix_minute;
            true
        } else {
            false
        }
    }

    /// The minute the loop last published its own record for (0 before any).
    pub fn last_published_unix_minute(&self) -> (minute: u64)
        ensures
            minute == self@.last_published_unix_minute,
    {
        self.last_published_unix_minute
    }
}

/// The publications of successive rounds for the minutes `minutes`, from
/// `state`.
pub open spec fn publications(state: BootstrapStateView, minutes: Seq<u64>) -> Seq<bool>
    decreases minutes.len(),
{
    if minutes.len() == 0 {
        Seq::empty()
    } else {
        let (next, publish) = publish_step(state, minutes[0]);
        seq![publish] + publications(next, minutes.drop_first())
    }
}

proof fn lemma_publications_len(state: BootstrapStateView, minutes: Seq<u64>)
    ensures
        publications(state, minutes).len() == minutes.len(),
    decreases minutes.len(),
{
    if minutes.len() > 0 {
        lemma_publications_len(publish_step(state, minutes[0]).0, minutes.drop_first());
    }
}

/// The bootstrap loop publishes its own record at most once for a minute in
/// a row: after a round considered `unix_minute`, the next round for the
/// same minute does not publish, and a round publishes exactly when its
/// minute differs from the last one published.
pub proof fn law_publish_once_per_minute(state: BootstrapStateView, unix_minute: u64)
    ensures
        publish_step(state, unix_minute).0.last_published_unix_minute == unix_minute,
        !publish_step(publish_step(state, unix_minute).0, unix_minute).1,
        publish_step(state, unix_minute).1 <==> unix_minute != state.last_published_unix_minute,
{
}

/// Over rounds whose minutes never decrease, each minute is published at
/// most once: two publishing rounds are for different minutes.
pub proof fn law_publications_distinct(state: BootstrapStateView, minutes: Seq<u64>, a: int, b: int)
    requires
        forall|i: int, j: int| 0 <= i <= j < minutes.len() ==> minutes[i] <= minutes[j],
        0 <= a < b < minutes.len(),
        publications(state, minutes)[a],
        publications(state, minutes)[b],
    ensures
        minutes[a] != minutes[b],
    decreases minutes.len(),
{
    let (next, publish) = publish_step(state, minutes[0]);
    let rest = minutes.drop_first();
    lemma_publications_len(next, rest);
    assert(publications(state, minutes) =~= seq![publish] + publications(next, rest));
    assert(publications(state, minutes)[b] == publications(next, rest)[b - 1]);
    if a > 0 {
        assert(publications(state, minutes)[a] == publications(next, rest)[a - 1]);
    }
    if a == 0 {
        lemma_published_minute_differs(next, rest, b - 1, minutes[0]);
    } else {
        law_publications_distinct(next, rest, a - 1, b - 1);
    }
}

/// In rounds after one that considered `minute`, with minutes that never
/// fall below it, a round that publishes is for a later minute.
proof fn lemma_published_minute_differs(state: BootstrapStateView, minutes: Seq<u64>, b: int, minute: u64)
    requires
        state.last_published_unix_minute == minute,
        forall|i: int, j: int| 0 <= i <= j < minutes.len() ==> minutes[i] <= minutes[j],
        forall|i: int| 0 <= i < minutes.len() ==> minute <= minutes[i],
        0 <= b < minutes.len(),
        publications(state, minutes)[b],
    ensures
        minutes[b] != minute,
    decreases minutes.len(),
{
    let (next, publish) = publish_step(state, minutes[0]);
    let rest = minutes.drop_first();
    lemma_publications_len(next, rest);
    assert(publications(state, minutes) =~= seq![publish] + publications(next, rest));
    if b > 0 {
        assert(publications(state, minutes)[b] == publications(next, rest)[b - 1]);
    }
    if b > 0 && minutes[0] == minute {
        assert(next.last_published_unix_minute == minute);
        lemma_published_minute_differs(next, rest, b - 1, minute);
    } else if b > 0 {
        assert(minutes[b] >= minutes[0]);
    }
}

/// Why a topic could not be started.
#[derive(Debug, Clone, Copy, PartialEq, Eq, Structural)]
pub enum TopicError {
    /// Bootstrap ended without joining, or was cancelled.
    BootstrapFailed,
    /// The topic was cancelled before its workers could start.
    Cancelled,
}

/// Why a background worker of a topic could not be started.
#[derive(Debug, Clone, Copy, PartialEq, Eq, Structural)]
pub enum WorkerError {
    /// The publisher failed to start.
    Publisher,
    /// The bubble merge failed to start.
    BubbleMerge,
    /// The message overlap merge failed to start.
    MessageOverlapMerge,
}

/// Whether topic creation goes on after starting the worker `worker`: a
/// worker that started is fine, and one that failed fails topic creation
/// only where its configuration says so.
pub fn worker_started(worker: WorkerError, started: bool, fail_topic_creation_on_failure: bool) -> (outcome: Result<(), WorkerError>)
    ensures
        outcome is Err <==> (!started && fail_topic_creation_on_failure),
        outcome matches Err(e) ==> e == worker,
{
    if !started && fail_topic_creation_on_failure {
        Err(worker)
    } else {
        Ok(())
    }
}

/// What a finished bootstrap reports: success only where the node joined.
pub fn bootstrap_outcome(joined: bool) -> (outcome: Result<(), TopicError>)
    ensures
        outcome is Ok <==> joined,
        outcome matches Err(e) ==> e == TopicError::BootstrapFailed,
{
    if joined {
        Ok(())
    } else {
        Err(TopicError::BootstrapFailed)
    }
}

/// The background workers a topic starts after bootstrap.
#[derive(Debug, Clone, Copy, PartialEq, Eq, Structural)]
pub struct WorkerPlan {
    pub publisher: bool,
    pub bubble_merge: bool,
    pub message_overlap_merge: bool,
}

/// The workers that `config` enables.
pub open spec fn enabled_workers(config: ConfigView) -> WorkerPlan {
    WorkerPlan {
        publisher: config.publisher_config is Enabled,
        bubble_merge: config.merge_config.bubble_merge is Enabled,
        message_overlap_merge: config.merge_config.message_overlap_merge is Enabled,
    }
}

/// Each worker is started exactly when its own configuration enables it,
/// whatever the other workers' configurations say: changing one part of the
/// configuration changes only that worker's place in the plan.
pub proof fn law_workers_follow_own_config(config: ConfigView, other: ConfigView)
    ensures
        enabled_workers(config).publisher <==> config.publisher_config is Enabled,
        enabled_workers(config).bubble_merge <==> config.merge_config.bubble_merge is Enabled,
        enabled_workers(config).message_overlap_merge <==> config.merge_config.message_overlap_merge is Enabled,
        config.publisher_config == other.publisher_config ==> enabled_workers(config).publisher
            == enabled_workers(other).publisher,
        config.merge_config.bubble_merge == other.merge_config.bubble_merge ==> enabled_workers(config).bubble_merge
            == enabled_workers(other).bubble_merge,
        config.merge_config.message_overlap_merge == other.merge_config.message_overlap_merge
            ==> enabled_workers(config).message_overlap_merge == enabled_workers(other).message_overlap_merge,
{
}

/// The workers to start: those the configuration enables, unless the topic
/// was cancelled first.
pub fn plan_workers(config: &Config, cancelled: bool) -> (plan: Result<WorkerPlan, TopicError>)
    ensures
        cancelled ==> plan == Err::<WorkerPlan, TopicError>(TopicError::Cancelled),
        !cancelled ==> plan == Ok::<WorkerPlan, TopicError>(enabled_workers(config@)),
        !cancelled ==> (plan matches Ok(p) && {
            &&& p.publisher == (config@.publisher_config is Enabled)
            &&& p.bubble_merge == (config@.merge_config.bubble_merge is Enabled)
            &&& p.message_overlap_merge == (config@.merge_config.message_overlap_merge is Enabled)
        }),
{
    if cancelled {
        return Err(TopicError::Cancelled);
    }
    let publisher = match config.publisher_config() {
        PublisherConfig::Enabled(_) => true,
        PublisherConfig::Disabled => false,
    };
    let bubble_merge = match config.merge_config().bubble_merge() {
        BubbleMergeConfig::Enabled(_) => true,
        BubbleMergeConfig::Disabled => false,
    };
    let message_overlap_merge = match config.merge_config().message_overlap_merge() {
        MessageOverlapMergeConfig::Enabled(_) => true,
        MessageOverlapMergeConfig::Disabled => false,
    };
    Ok(WorkerPlan { publisher, bubble_merge, message_overlap_merge })
}

} // verus!
