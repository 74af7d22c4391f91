//! Configuration of the tracker: timeouts, DHT retries, bootstrap, publishing
//! and merge strategies, each with a builder that starts from the defaults.

use vstd::prelude::*;

use crate::time::Duration;

verus! {

/// Timeout settings for gossip operations, in nanoseconds.
pub struct TimeoutConfigView {
    pub join_peer_timeout: nat,
    pub broadcast_timeout: nat,
    pub broadcast_neighbors_timeout: nat,
}

/// The default timeouts: 5 s each.
pub open spec fn default_timeout_config() -> TimeoutConfigView {
    TimeoutConfigView {
        join_peer_timeout: 5_000_000_000,
        broadcast_timeout: 5_000_000_000,
        broadcast_neighbors_timeout: 5_000_000_000,
    }
}

/// Timeout settings for gossip operations.
#[derive(Debug, Clone, Copy)]
pub struct TimeoutConfig {
    join_peer_timeout: Duration,
    broadcast_timeout: Duration,
    broadcast_neighbors_timeout: Duration,
}

impl View for TimeoutConfig {
    type V = TimeoutConfigView;

    closed spec fn view(&self) -> TimeoutConfigView {
        TimeoutConfigView {
            join_peer_timeout: self.join_peer_timeout@,
            broadcast_timeout: self.broadcast_timeout@,
            broadcast_neighbors_timeout: self.broadcast_neighbors_timeout@,
        }
    }
}

impl Default for TimeoutConfig {
    fn default() -> (config: Self)
        ensures
            config@ == default_timeout_config(),
    {
        TimeoutConfig {
            join_peer_timeout: Duration::from_secs(5),
            broadcast_timeout: Duration::from_secs(5),
            broadcast_neighbors_timeout: Duration::from_secs(5),
        }
    }
}

impl TimeoutConfig {
    /// A builder that starts from the defaults.
    pub fn builder() -> (builder: TimeoutConfigBuilder)
        ensures
            builder@ == default_timeout_config(),
    {
        TimeoutConfigBuilder { timeouts: TimeoutConfig::default() }
    }

    /// How long to wait when joining a peer. Default: 5 s.
    pub fn join_peer_timeout(&self) -> (timeout: Duration)
        ensures
            timeout@ == self@.join_peer_timeout,
    {
        self.join_peer_timeout
    }

    /// How long to wait when broadcasting messages. Default: 5 s.
    pub fn broadcast_timeout(&self) -> (timeout: Duration)
        ensures
            timeout@ == self@.broadcast_timeout,
    {
        self.broadcast_timeout
    }

    /// How long to wait when broadcasting to neighbors. Default: 5 s.
    pub fn broadcast_neighbors_timeout(&self) -> (timeout: Duration)
        ensures
            timeout@ == self@.broadcast_neighbors_timeout,
    {
        self.broadcast_neighbors_timeout
    }
}

/// Builder for `TimeoutConfig`.
#[derive(Debug)]
pub struct TimeoutConfigBuilder {
    timeouts: TimeoutConfig,
}

impl View for TimeoutConfigBuilder {
    type V = TimeoutConfigView;

    closed spec fn view(&self) -> TimeoutConfigView {
        self.timeouts@
    }
}

impl TimeoutConfigBuilder {
    /// How long to wait when joining a peer.
    pub fn join_peer_timeout(self, timeout: Duration) -> (builder: Self)
        ensures
            builder@ == (TimeoutConfigView { join_peer_timeout: timeout@, ..self@ }),
    {
        let mut builder = self;
        builder.timeouts.join_peer_timeout = timeout;
        builder
    }

    /// How long to wait when broadcasting messages.
    pub fn broadcast_timeout(self, timeout: Duration) -> (builder: Self)
        ensures
            builder@ == (TimeoutConfigView { broadcast_timeout: timeout@, ..self@ }),
    {
        let mut builder = self;
        builder.timeouts.broadcast_timeout = timeout;
        builder
    }

    /// How long to wait when broadcasting to neighbors.
    pub fn broadcast_neighbors_timeout(self, timeout: Duration) -> (builder: Self)
        ensures
            builder@ == (TimeoutConfigView { broadcast_neighbors_timeout: timeout@, ..self@ }),
    {
        let mut builder = self;
        builder.timeouts.broadcast_neighbors_timeout = timeout;
        builder
    }

    /// The `TimeoutConfig` built so far.
    pub fn build(self) -> (config: TimeoutConfig)
        ensures
            config@ == self@,
    {
        self.timeouts
    }
}

/// DHT operation settings, durations in nanoseconds.
pub struct DhtConfigView {
    pub retries: usize,
    pub base_retry_interval: nat,
    pub max_retry_jitter: nat,
    pub put_timeout: nat,
    pub get_timeout: nat,
}

/// The default DHT settings: 3 retries, 5 s base retry interval, 10 s jitter,
/// 10 s put and get timeouts.
pub open spec fn default_dht_config() -> DhtConfigView {
    DhtConfigView {
        retries: 3,
        base_retry_interval: 5_000_000_000,
        max_retry_jitter: 10_000_000_000,
        put_timeout: 10_000_000_000,
        get_timeout: 10_000_000_000,
    }
}

/// DHT operation settings including retry logic and timeouts.
#[derive(Debug, Clone, Copy)]
pub struct DhtConfig {
    retries: usize,
    base_retry_interval: Duration,
    max_retry_jitter: Duration,
    put_timeout: Duration,
    get_timeout: Duration,
}

impl View for DhtConfig {
    type V = DhtConfigView;

    closed spec fn view(&self) -> DhtConfigView {
        DhtConfigView {
            retries: self.retries,
            base_retry_interval: self.base_retry_interval@,
            max_retry_jitter: self.max_retry_jitter@,
            put_timeout: self.put_timeout@,
            get_timeout: self.get_timeout@,
        }
    }
}

impl Default for DhtConfig {
    fn default() -> (config: Self)
        ensures
            config@ == default_dht_config(),
    {
        DhtConfig {
            retries: 3,
            base_retry_interval: Duration::from_secs(5),
            max_retry_jitter: Duration::from_secs(10),
            put_timeout: Duration::from_secs(10),
            get_timeout: Duration::from_secs(10),
        }
    }
}

impl DhtConfig {
    /// A builder that starts from the defaults.
    pub fn builder() -> (builder: DhtConfigBuilder)
        ensures
            builder@ == default_dht_config(),
    {
        DhtConfigBuilder { config: DhtConfig::default() }
    }

    /// Number of retries after the first attempt; attempts = 1 + retries. Default: 3.
    pub fn retries(&self) -> (retries: usize)
        ensures
            retries == self@.retries,
    {
        self.retries
    }

    /// Base delay between retries. Default: 5 s.
    pub fn base_retry_interval(&self) -> (interval: Duration)
        ensures
            interval@ == self@.base_retry_interval,
    {
        self.base_retry_interval
    }

    /// Largest random jitter added to the retry interval. Default: 10 s.
    pub fn max_retry_jitter(&self) -> (jitter: Duration)
        ensures
            jitter@ == self@.max_retry_jitter,
    {
        self.max_retry_jitter
    }

    /// Timeout for DHT put operations. Default: 10 s.
    pub fn put_timeout(&self) -> (timeout: Duration)
        ensures
            timeout@ == self@.put_timeout,
    {
        self.put_timeout
    }

    /// Timeout for DHT get operations. Default: 10 s.
    pub fn get_timeout(&self) -> (timeout: Duration)
        ensures
            timeout@ == self@.get_timeout,
    {
        self.get_timeout
    }
}

/// Builder for `DhtConfig`.
#[derive(Debug, Clone, Copy)]
pub struct DhtConfigBuilder {
    config: DhtConfig,
}

impl View for DhtConfigBuilder {
    type V = DhtConfigView;

    closed spec fn view(&self) -> DhtConfigView {
        self.config@
    }
}

impl DhtConfigBuilder {
    /// Number of retries after the first attempt.
    pub fn retries(self, retries: usize) -> (builder: Self)
        ensures
            builder@ == (DhtConfigView { retries, ..self@ }),
    {
        let mut builder = self;
        builder.config.retries = retries;
        builder
    }

    /// Base delay between retries. A zero interval leaves the setting as it was.
    pub fn base_retry_interval(self, interval: Duration) -> (builder: Self)
        ensures
            builder@ == (if interval@ > 0 {
                DhtConfigView { base_retry_interval: interval@, ..self@ }
            } else {
                self@
            }),
    {
        let mut builder = self;
        if !interval.is_zero() {
            builder.config.base_retry_interval = interval;
        }
        builder
    }

    /// Largest random jitter added to the retry interval.
    pub fn max_retry_jitter(self, jitter: Duration) -> (builder: Self)
        ensures
            builder@ == (DhtConfigView { max_retry_jitter: jitter@, ..self@ }),
    {
        let mut builder = self;
        builder.config.max_retry_jitter = jitter;
        builder
    }

    /// Timeout for DHT put operations.
    pub fn put_timeout(self, timeout: Duration) -> (builder: Self)
        ensures
            builder@ == (DhtConfigView { put_timeout: timeout@, ..self@ }),
    {
        let mut builder = self;
        builder.config.put_timeout = timeout;
        builder
    }

    /// Timeout for DHT get operations.
    pub fn get_timeout(self, timeout: Duration) -> (builder: Self)
        ensures
            builder@ == (DhtConfigView { get_timeout: timeout@, ..self@ }),
    {
        let mut builder = self;
        builder.config.get_timeout = timeout;
        builder
    }

    /// The `DhtConfig` built so far.
    pub fn build(self) -> (config: DhtConfig)
        ensures
            config@ == self@,
    {
        self.config
    }
}

/// Bubble merge settings, durations in nanoseconds.
pub struct BubbleMergeSettings {
    pub base_interval: nat,
    pub max_jitter: nat,
    pub min_neighbors: usize,
    pub fail_topic_creation_on_merge_startup_failure: bool,
}

/// The default bubble merge settings: every 60 s plus up to 120 s of jitter,
/// below 4 neighbors, failing topic creation on startup failure.
pub open spec fn default_bubble_merge_settings() -> BubbleMergeSettings {
    BubbleMergeSettings {
        base_interval: 60_000_000_000,
        max_jitter: 120_000_000_000,
        min_neighbors: 4,
        fail_topic_creation_on_merge_startup_failure: true,
    }
}

/// Settings of an enabled bubble merge strategy.
#[derive(Debug, Clone, Copy)]
pub struct BubbleMergeConfigInner {
    base_interval: Duration,
    max_jitter: Duration,
    min_neighbors: usize,
    fail_topic_creation_on_merge_startup_failure: bool,
}

impl View for BubbleMergeConfigInner {
    type V = BubbleMergeSettings;

    closed spec fn view(&self) -> BubbleMergeSettings {
        BubbleMergeSettings {
            base_interval: self.base_interval@,
            max_jitter: self.max_jitter@,
            min_neighbors: self.min_neighbors,
            fail_topic_creation_on_merge_startup_failure: self.fail_topic_creation_on_merge_startup_failure,
        }
    }
}

impl Default for BubbleMergeConfigInner {
    fn default() -> (config: Self)
        ensures
            config@ == default_bubble_merge_settings(),
    {
        BubbleMergeConfigInner {
            base_interval: Duration::from_secs(60),
            max_jitter: Duration::from_secs(120),
            min_neighbors: 4,
            fail_topic_creation_on_merge_startup_failure: true,
        }
    }
}

impl BubbleMergeConfigInner {
    /// Base interval between bubble merge attempts. Default: 60 s.
    pub fn base_interval(&self) -> (interval: Duration)
        ensures
            interval@ == self@.base_interval,
    {
        self.base_interval
    }

    /// Largest random jitter added to the interval. Default: 120 s.
    pub fn max_jitter(&self) -> (jitter: Duration)
        ensures
            jitter@ == self@.max_jitter,
    {
        self.max_jitter
    }

    /// A merge is attempted while there are fewer neighbors than this. Default: 4.
    pub fn min_neighbors(&self) -> (min_neighbors: usize)
        ensures
            min_neighbors == self@.min_neighbors,
    {
        self.min_neighbors
    }

    /// Whether a failure to start the strategy fails topic creation. Default: true.
    pub fn fail_topic_creation_on_merge_startup_failure(&self) -> (fail: bool)
        ensures
            fail == self@.fail_topic_creation_on_merge_startup_failure,
    {
        self.fail_topic_creation_on_merge_startup_failure
    }
}

/// Bubble merge strategy: detects small isolated clusters and joins them
/// with peers advertised in the DHT.
#[derive(Debug, Clone, Copy)]
pub enum BubbleMergeConfig {
    Enabled(BubbleMergeConfigInner),
    Disabled,
}

impl Default for BubbleMergeConfig {
    fn default() -> (config: Self)
        ensures
            config matches BubbleMergeConfig::Enabled(inner) && inner@ == default_bubble_merge_settings(),
    {
        BubbleMergeConfig::Enabled(BubbleMergeConfigInner::default())
    }
}

impl BubbleMergeConfig {
    /// A builder that starts from the default settings.
    pub fn builder() -> (builder: BubbleMergeConfigBuilder)
        ensures
            builder@ == default_bubble_merge_settings(),
    {
        BubbleMergeConfigBuilder { config: BubbleMergeConfigInner::default() }
    }
}

/// Builder for an enabled `BubbleMergeConfig`.
#[derive(Debug, Clone, Copy)]
pub struct BubbleMergeConfigBuilder {
    config: BubbleMergeConfigInner,
}

impl View for BubbleMergeConfigBuilder {
    type V = BubbleMergeSettings;

    closed spec fn view(&self) -> BubbleMergeSettings {
        self.config@
    }
}

impl BubbleMergeConfigBuilder {
    /// Base interval between attempts. A zero interval leaves the setting as it was.
    pub fn base_interval(self, interval: Duration) -> (builder: Self)
        ensures
            builder@ == (if interval@ > 0 {
                BubbleMergeSettings { base_interval: interval@, ..self@ }
            } else {
                self@
            }),
    {
        let mut builder = self;
        if !interval.is_zero() {
            builder.config.base_interval = interval;
        }
        builder
    }

    /// Largest random jitter added to the interval.
    pub fn max_jitter(self, jitter: Duration) -> (builder: Self)
        ensures
            builder@ == (BubbleMergeSettings { max_jitter: jitter@, ..self@ }),
    {
        let mut builder = self;
        builder.config.max_jitter = jitter;
        builder
    }

    /// A merge is attempted while there are fewer neighbors than this.
    pub fn min_neighbors(self, min_neighbors: usize) -> (builder: Self)
        ensures
            builder@ == (BubbleMergeSettings { min_neighbors, ..self@ }),
    {
        let mut builder = self;
        builder.config.min_neighbors = min_neighbors;
        builder
    }

    /// Whether a failure to start the strategy fails topic creation.
    pub fn fail_topic_creation_on_merge_startup_failure(self, fail: bool) -> (builder: Self)
        ensures
            builder@ == (BubbleMergeSettings { fail_topic_creation_on_merge_startup_failure: fail, ..self@ }),
    {
        let mut builder = self;
        builder.config.fail_topic_creation_on_merge_startup_failure = fail;
        builder
    }

    /// The enabled strategy with the settings built so far.
    pub fn build(self) -> (config: BubbleMergeConfig)
        ensures
            config matches BubbleMergeConfig::Enabled(inner) && inner@ == self@,
    {
        BubbleMergeConfig::Enabled(self.config)
    }
}

/// Message overlap merge settings, durations in nanoseconds.
pub struct MessageOverlapMergeSettings {
    pub base_interval: nat,
    pub max_jitter: nat,
    pub fail_topic_creation_on_merge_startup_failure: bool,
}

/// The default message overlap merge settings: every 60 s plus up to 120 s
/// of jitter, failing topic creation on startup failure.
pub open spec fn default_message_overlap_merge_settings() -> MessageOverlapMergeSettings {
    MessageOverlapMergeSettings {
        base_interval: 60_000_000_000,
        max_jitter: 120_000_000_000,
        fail_topic_creation_on_merge_startup_failure: true,
    }
}

/// Settings of an enabled message overlap merge strategy.
#[derive(Debug, Clone, Copy)]
pub struct MessageOverlapMergeConfigInner {
    base_interval: Duration,
    max_jitter: Duration,
    fail_topic_creation_on_merge_startup_failure: bool,
}

impl View for MessageOverlapMergeConfigInner {
    type V = MessageOverlapMergeSettings;

    closed spec fn view(&self) -> MessageOverlapMergeSettings {
        MessageOverlapMergeSettings {
            base_interval: self.base_interval@,
            max_jitter: self.max_jitter@,
            fail_topic_creation_on_merge_startup_failure: self.fail_topic_creation_on_merge_startup_failure,
        }
    }
}

impl Default for MessageOverlapMergeConfigInner {
    fn default() -> (config: Self)
        ensures
            config@ == default_message_overlap_merge_settings(),
    {
        MessageOverlapMergeConfigInner {
            base_interval: Duration::from_secs(60),
            max_jitter: Duration::from_secs(120),
            fail_topic_creation_on_merge_startup_failure: true,
        }
    }
}

impl MessageOverlapMergeConfigInner {
    /// Base interval between message overlap checks. Default: 60 s.
    pub fn base_interval(&self) -> (interval: Duration)
        ensures
            interval@ == self@.base_interval,
    {
        self.base_interval
    }

    /// Largest random jitter added to the interval. Default: 120 s.
    pub fn max_jitter(&self) -> (jitter: Duration)
        ensures
            jitter@ == self@.max_jitter,
    {
        self.max_jitter
    }

    /// Whether a failure to start the strategy fails topic creation. Default: true.
    pub fn fail_topic_creation_on_merge_startup_failure(&self) -> (fail: bool)
        ensures
            fail == self@.fail_topic_creation_on_merge_startup_failure,
    {
        self.fail_topic_creation_on_merge_startup_failure
    }
}

/// Message overlap merge strategy: detects split clusters by comparing
/// message hashes advertised in the DHT with those seen locally.
#[derive(Debug, Clone, Copy)]
pub enum MessageOverlapMergeConfig {
    Enabled(MessageOverlapMergeConfigInner),
    Disabled,
}

impl Default for MessageOverlapMergeConfig {
    fn default() -> (config: Self)
        ensures
            config matches MessageOverlapMergeConfig::Enabled(inner) && inner@
                == default_message_overlap_merge_settings(),
    {
        MessageOverlapMergeConfig::Enabled(MessageOverlapMergeConfigInner::default())
    }
}

impl MessageOverlapMergeConfig {
    /// A builder that starts from the default settings.
    pub fn builder() -> (builder: MessageOverlapMergeConfigBuilder)
        ensures
            builder@ == default_message_overlap_merge_settings(),
    {
        MessageOverlapMergeConfigBuilder { config: MessageOverlapMergeConfigInner::default() }
    }
}

/// Builder for an enabled `MessageOverlapMergeConfig`.
#[derive(Debug, Clone, Copy)]
pub struct MessageOverlapMergeConfigBuilder {
    config: MessageOverlapMergeConfigInner,
}

impl View for MessageOverlapMergeConfigBuilder {
    type V = MessageOverlapMergeSettings;

    closed spec fn view(&self) -> MessageOverlapMergeSettings {
        self.config@
    }
}

impl MessageOverlapMergeConfigBuilder {
    /// Base interval between checks. A zero interval leaves the setting as it was.
    pub fn base_interval(self, interval: Duration) -> (builder: Self)
        ensures
            builder@ == (if interval@ > 0 {
                MessageOverlapMergeSettings { base_interval: interval@, ..self@ }
            } else {
                self@
            }),
    {
        let mut builder = self;
        if !interval.is_zero() {
            builder.config.base_interval = interval;
        }
        builder
    }

    /// Largest random jitter added to the interval.
    pub fn max_jitter(self, jitter: Duration) -> (builder: Self)
        ensures
            builder@ == (MessageOverlapMergeSettings { max_jitter: jitter@, ..self@ }),
    {
        let mut builder = self;
        builder.config.max_jitter = jitter;
        builder
    }

    /// Whether a failure to start the strategy fails topic creation.
    pub fn fail_topic_creation_on_merge_startup_failure(self, fail: bool) -> (builder: Self)
        ensures
            builder@ == (MessageOverlapMergeSettings { fail_topic_creation_on_merge_startup_failure: fail, ..self@ }),
    {
        let mut builder = self;
        builder.config.fail_topic_creation_on_merge_startup_failure = fail;
        builder
    }

    /// The enabled strategy with the settings built so far.
    pub fn build(self) -> (config: MessageOverlapMergeConfig)
        ensures
            config matches MessageOverlapMergeConfig::Enabled(inner) && inner@ == self@,
    {
        MessageOverlapMergeConfig::Enabled(self.config)
    }
}

/// Publisher settings, durations in nanoseconds.
pub struct PublisherSettings {
    pub initial_delay: nat,
    pub base_interval: nat,
    pub max_jitter: nat,
    pub fail_topic_creation_on_publishing_startup_failure: bool,
}

/// The default publisher settings: first after 10 s, then every 10 s plus up
/// to 50 s of jitter, failing topic creation on startup failure.
pub open spec fn default_publisher_settings() -> PublisherSettings {
    PublisherSettings {
        initial_delay: 10_000_000_000,
        base_interval: 10_000_000_000,
        max_jitter: 50_000_000_000,
        fail_topic_creation_on_publishing_startup_failure: true,
    }
}

/// Settings of an enabled publisher.
#[derive(Debug, Clone, Copy)]
pub struct PublisherConfigInner {
    initial_delay: Duration,
    base_interval: Duration,
    max_jitter: Duration,
    fail_topic_creation_on_publishing_startup_failure: bool,
}

impl View for PublisherConfigInner {
    type V = PublisherSettings;

    closed spec fn view(&self) -> PublisherSettings {
        PublisherSettings {
            initial_delay: self.initial_delay@,
            base_interval: self.base_interval@,
            max_jitter: self.max_jitter@,
            fail_topic_creation_on_publishing_startup_failure: self.fail_topic_creation_on_publishing_startup_failure,
        }
    }
}

impl Default for PublisherConfigInner {
    fn default() -> (config: Self)
        ensures
            config@ == default_publisher_settings(),
    {
        PublisherConfigInner {
            initial_delay: Duration::from_secs(10),
            base_interval: Duration::from_secs(10),
            max_jitter: Duration::from_secs(50),
            fail_topic_creation_on_publishing_startup_failure: true,
        }
    }
}

impl PublisherConfigInner {
    /// Delay before the first publication. Default: 10 s.
    pub fn initial_delay(&self) -> (delay: Duration)
        ensures
            delay@ == self@.initial_delay,
    {
        self.initial_delay
    }

    /// Base interval between publications. Default: 10 s.
    pub fn base_interval(&self) -> (interval: Duration)
        ensures
            interval@ == self@.base_interval,
    {
        self.base_interval
    }

    /// Largest random jitter added to the interval. Default: 50 s.
    pub fn max_jitter(&self) -> (jitter: Duration)
        ensures
            jitter@ == self@.max_jitter,
    {
        self.max_jitter
    }

    /// Whether a failure to start the publisher fails topic creation. Default: true.
    pub fn fail_topic_creation_on_publishing_startup_failure(&self) -> (fail: bool)
        ensures
            fail == self@.fail_topic_creation_on_publishing_startup_failure,
    {
        self.fail_topic_creation_on_publishing_startup_failure
    }
}

/// Publisher strategy: publishes bootstrap records to the DHT for peer discovery.
#[derive(Debug, Clone, Copy)]
pub enum PublisherConfig {
    Enabled(PublisherConfigInner),
    Disabled,
}

impl Default for PublisherConfig {
    fn default() -> (config: Self)
        ensures
            config matches PublisherConfig::Enabled(inner) && inner@ == default_publisher_settings(),
    {
        PublisherConfig::Enabled(PublisherConfigInner::default())
    }
}

impl PublisherConfig {
    /// A builder that starts from the default settings.
    pub fn builder() -> (builder: PublisherConfigBuilder)
        ensures
            builder@ == default_publisher_settings(),
    {
        PublisherConfigBuilder { config: PublisherConfigInner::default() }
    }
}

/// Builder for an enabled `PublisherConfig`.
#[derive(Debug, Clone, Copy)]
pub struct PublisherConfigBuilder {
    config: PublisherConfigInner,
}

impl View for PublisherConfigBuilder {
    type V = PublisherSettings;

    closed spec fn view(&self) -> PublisherSettings {
        self.config@
    }
}

impl PublisherConfigBuilder {
    /// Delay before the first publication.
    pub fn initial_delay(self, delay: Duration) -> (builder: Self)
        ensures
            builder@ == (PublisherSettings { initial_delay: delay@, ..self@ }),
    {
        let mut builder = self;
        builder.config.initial_delay = delay;
        builder
    }

    /// Base interval between publications. A zero interval leaves the setting as it was.
    pub fn base_interval(self, interval: Duration) -> (builder: Self)
        ensures
            builder@ == (if interval@ > 0 {
                PublisherSettings { base_interval: interval@, ..self@ }
            } else {
                self@
            }),
    {
        let mut builder = self;
        if !interval.is_zero() {
            builder.config.base_interval = interval;
        }
        builder
    }

    /// Largest random jitter added to the interval.
    pub fn max_jitter(self, jitter: Duration) -> (builder: Self)
        ensures
            builder@ == (PublisherSettings { max_jitter: jitter@, ..self@ }),
    {
        let mut builder = self;
        builder.config.max_jitter = jitter;
        builder
    }

    /// Whether a failure to start the publisher fails topic creation.
    pub fn fail_topic_creation_on_publishing_startup_failure(self, fail: bool) -> (builder: Self)
        ensures
            builder@ == (PublisherSettings { fail_topic_creation_on_publishing_startup_failure: fail, ..self@ }),
    {
        let mut builder = self;
        builder.config.fail_topic_creation_on_publishing_startup_failure = fail;
        builder
    }

    /// The enabled publisher with the settings built so far.
    pub fn build(self) -> (config: PublisherConfig)
        ensures
            config matches PublisherConfig::Enabled(inner) && inner@ == self@,
    {
        PublisherConfig::Enabled(self.config)
    }
}

/// Whether `config` is the enabled bubble merge with default settings.
pub open spec fn is_default_bubble_merge(config: BubbleMergeConfig) -> bool {
    config matches BubbleMergeConfig::Enabled(inner) && inner@ == default_bubble_merge_settings()
}

/// Whether `config` is the enabled message overlap merge with default settings.
pub open spec fn is_default_message_overlap_merge(config: MessageOverlapMergeConfig) -> bool {
    config matches MessageOverlapMergeConfig::Enabled(inner) && inner@ == default_message_overlap_merge_settings()
}

/// Whether `config` is the enabled publisher with default settings.
pub open spec fn is_default_publisher(config: PublisherConfig) -> bool {
    config matches PublisherConfig::Enabled(inner) && inner@ == default_publisher_settings()
}

/// The merge strategies.
pub struct MergeConfigView {
    pub bubble_merge: BubbleMergeConfig,
    pub message_overlap_merge: MessageOverlapMergeConfig,
}

/// Both merge strategies enabled with their default settings.
pub open spec fn is_default_merge_config(config: MergeConfigView) -> bool {
    is_default_bubble_merge(config.bubble_merge) && is_default_message_overlap_merge(config.message_overlap_merge)
}

/// Merge strategies, run periodically in the background to merge split clusters.
#[derive(Debug, Clone, Copy)]
pub struct MergeConfig {
    bubble_merge: BubbleMergeConfig,
    message_overlap_merge: MessageOverlapMergeConfig,
}

impl View for MergeConfig {
    type V = MergeConfigView;

    closed spec fn view(&self) -> MergeConfigView {
        MergeConfigView { bubble_merge: self.bubble_merge, message_overlap_merge: self.message_overlap_merge }
    }
}

impl Default for MergeConfig {
    fn default() -> (config: Self)
        ensures
            is_default_merge_config(config@),
    {
        MergeConfig {
            bubble_merge: BubbleMergeConfig::default(),
            message_overlap_merge: MessageOverlapMergeConfig::default(),
        }
    }
}

impl MergeConfig {
    /// A builder that starts from the defaults.
    pub fn builder() -> (builder: MergeConfigBuilder)
        ensures
            is_default_merge_config(builder@),
    {
        MergeConfigBuilder { config: MergeConfig::default() }
    }

    /// The bubble merge strategy. Default: enabled with default settings.
    pub fn bubble_merge(&self) -> (config: &BubbleMergeConfig)
        ensures
            *config == self@.bubble_merge,
    {
        &self.bubble_merge
    }

    /// The message overlap merge strategy. Default: enabled with default settings.
    pub fn message_overlap_merge(&self) -> (config: &MessageOverlapMergeConfig)
        ensures
            *config == self@.message_overlap_merge,
    {
        &self.message_overlap_merge
    }
}

/// Builder for `MergeConfig`.
#[derive(Debug, Clone, Copy)]
pub struct MergeConfigBuilder {
    config: MergeConfig,
}

impl View for MergeConfigBuilder {
    type V = MergeConfigView;

    closed spec fn view(&self) -> MergeConfigView {
        self.config@
    }
}

impl MergeConfigBuilder {
    /// The bubble merge strategy.
    pub fn bubble_merge(self, bubble_merge: BubbleMergeConfig) -> (builder: Self)
        ensures
            builder@ == (MergeConfigView { bubble_merge, ..self@ }),
    {
        let mut builder = self;
        builder.config.bubble_merge = bubble_merge;
        builder
    }

    /// The message overlap merge strategy.
    pub fn message_overlap_merge(self, message_overlap_merge: MessageOverlapMergeConfig) -> (builder: Self)
        ensures
            builder@ == (MergeConfigView { message_overlap_merge, ..self@ }),
    {
        let mut builder = self;
        builder.config.message_overlap_merge = message_overlap_merge;
        builder
    }

    /// The `MergeConfig` built so far.
    pub fn build(self) -> (config: MergeConfig)
        ensures
            config@ == self@,
    {
        self.config
    }
}

/// Bootstrap settings, durations in nanoseconds.
pub struct BootstrapConfigView {
    pub max_bootstrap_records: usize,
    pub no_peers_retry_interval: nat,
    pub per_peer_join_settle_time: nat,
    pub join_confirmation_wait_time: nat,
    pub discovery_poll_interval: nat,
    pub publish_record_on_startup: bool,
    pub check_older_records_first_on_startup: bool,
}

/// The default bootstrap settings: 5 records per minute slot, 1500 ms
/// retry interval without peers, 100 ms settle time per peer, 500 ms join
/// confirmation wait, 2000 ms discovery poll interval, a record published on
/// startup, the current minute checked first.
pub open spec fn default_bootstrap_config() -> BootstrapConfigView {
    BootstrapConfigView {
        max_bootstrap_records: 5,
        no_peers_retry_interval: 1_500_000_000,
        per_peer_join_settle_time: 100_000_000,
        join_confirmation_wait_time: 500_000_000,
        discovery_poll_interval: 2_000_000_000,
        publish_record_on_startup: true,
        check_older_records_first_on_startup: false,
    }
}

/// Bootstrap process settings for peer discovery.
#[derive(Debug, Clone, Copy)]
pub struct BootstrapConfig {
    max_bootstrap_records: usize,
    no_peers_retry_interval: Duration,
    per_peer_join_settle_time: Duration,
    join_confirmation_wait_time: Duration,
    discovery_poll_interval: Duration,
    publish_record_on_startup: bool,
    check_older_records_first_on_startup: bool,
}

impl View for BootstrapConfig {
    type V = BootstrapConfigView;

    closed spec fn view(&self) -> BootstrapConfigView {
        BootstrapConfigView {
            max_bootstrap_records: self.max_bootstrap_records,
            no_peers_retry_interval: self.no_peers_retry_interval@,
            per_peer_join_settle_time: self.per_peer_join_settle_time@,
            join_confirmation_wait_time: self.join_confirmation_wait_time@,
            discovery_poll_interval: self.discovery_poll_interval@,
            publish_record_on_startup: self.publish_record_on_startup,
            check_older_records_first_on_startup: self.check_older_records_first_on_startup,
        }
    }
}

impl Default for BootstrapConfig {
    fn default() -> (config: Self)
        ensures
            config@ == default_bootstrap_config(),
    {
        BootstrapConfig {
            max_bootstrap_records: 5,
            no_peers_retry_interval: Duration::from_millis(1500),
            per_peer_join_settle_time: Duration::from_millis(100),
            join_confirmation_wait_time: Duration::from_millis(500),
            discovery_poll_interval: Duration::from_millis(2000),
            publish_record_on_startup: true,
            check_older_records_first_on_startup: false,
        }
    }
}

impl BootstrapConfig {
    /// A builder that starts from the defaults.
    pub fn builder() -> (builder: BootstrapConfigBuilder)
        ensures
            builder@ == default_bootstrap_config(),
    {
        BootstrapConfigBuilder { config: BootstrapConfig::default() }
    }

    /// Most bootstrap records per topic per minute slot; zero means no
    /// publishing. Default: 5.
    pub fn max_bootstrap_records(&self) -> (max: usize)
        ensures
            max == self@.max_bootstrap_records,
    {
        self.max_bootstrap_records
    }

    /// How long to wait before retrying when no peers are found. Default: 1500 ms.
    pub fn no_peers_retry_interval(&self) -> (interval: Duration)
        ensures
            interval@ == self@.no_peers_retry_interval,
    {
        self.no_peers_retry_interval
    }

    /// How long to wait after joining a peer before joining another. Default: 100 ms.
    pub fn per_peer_join_settle_time(&self) -> (interval: Duration)
        ensures
            interval@ == self@.per_peer_join_settle_time,
    {
        self.per_peer_join_settle_time
    }

    /// How long to wait for a join before the final check. Default: 500 ms.
    pub fn join_confirmation_wait_time(&self) -> (interval: Duration)
        ensures
            interval@ == self@.join_confirmation_wait_time,
    {
        self.join_confirmation_wait_time
    }

    /// How long to wait between DHT discovery attempts. Default: 2000 ms.
    pub fn discovery_poll_interval(&self) -> (interval: Duration)
        ensures
            interval@ == self@.discovery_poll_interval,
    {
        self.discovery_poll_interval
    }

    /// Whether to publish a record unconditionally on startup. Default: true.
    pub fn publish_record_on_startup(&self) -> (publish: bool)
        ensures
            publish == self@.publish_record_on_startup,
    {
        self.publish_record_on_startup
    }

    /// Whether the first lookup checks the two minutes before the current
    /// one rather than the current one and the one before. Default: false.
    pub fn check_older_records_first_on_startup(&self) -> (check: bool)
        ensures
            check == self@.check_older_records_first_on_startup,
    {
        self.check_older_records_first_on_startup
    }
}

/// Builder for `BootstrapConfig`.
#[derive(Debug)]
pub struct BootstrapConfigBuilder {
    config: BootstrapConfig,
}

impl View for BootstrapConfigBuilder {
    type V = BootstrapConfigView;

    closed spec fn view(&self) -> BootstrapConfigView {
        self.config@
    }
}

impl BootstrapConfigBuilder {
    /// Most bootstrap records per topic per minute slot; zero means no publishing.
    pub fn max_bootstrap_records(self, max_records: usize) -> (builder: Self)
        ensures
            builder@ == (BootstrapConfigView { max_bootstrap_records: max_records, ..self@ }),
    {
        let mut builder = self;
        builder.config.max_bootstrap_records = max_records;
        builder
    }

    /// How long to wait before retrying when no peers are found.
    pub fn no_peers_retry_interval(self, interval: Duration) -> (builder: Self)
        ensures
            builder@ == (BootstrapConfigView { no_peers_retry_interval: interval@, ..self@ }),
    {
        let mut builder = self;
        builder.config.no_peers_retry_interval = interval;
        builder
    }

    /// How long to wait after joining a peer before joining another.
    pub fn per_peer_join_settle_time(self, interval: Duration) -> (builder: Self)
        ensures
            builder@ == (BootstrapConfigView { per_peer_join_settle_time: interval@, ..self@ }),
    {
        let mut builder = self;
        builder.config.per_peer_join_settle_time = interval;
        builder
    }

    /// How long to wait for a join before the final check.
    pub fn join_confirmation_wait_time(self, interval: Duration) -> (builder: Self)
        ensures
            builder@ == (BootstrapConfigView { join_confirmation_wait_time: interval@, ..self@ }),
    {
        let mut builder = self;
        builder.config.join_confirmation_wait_time = interval;
        builder
    }

    /// How long to wait between DHT discovery attempts.
    pub fn discovery_poll_interval(self, interval: Duration) -> (builder: Self)
        ensures
            builder@ == (BootstrapConfigView { discovery_poll_interval: interval@, ..self@ }),
    {
        let mut builder = self;
        builder.config.discovery_poll_interval = interval;
        builder
    }

    /// Whether to publish a record unconditionally on startup.
    pub fn publish_record_on_startup(self, publish: bool) -> (builder: Self)
        ensures
            builder@ == (BootstrapConfigView { publish_record_on_startup: publish, ..self@ }),
    {
        let mut builder = self;
        builder.config.publish_record_on_startup = publish;
        builder
    }

    /// Whether the first lookup checks the two minutes before the current one.
    pub fn check_older_records_first_on_startup(self, check: bool) -> (builder: Self)
        ensures
            builder@ == (BootstrapConfigView { check_older_records_first_on_startup: check, ..self@ }),
    {
        let mut builder = self;
        builder.config.check_older_records_first_on_startup = check;
        builder
    }

    /// The `BootstrapConfig` built so far.
    pub fn build(self) -> (config: BootstrapConfig)
        ensures
            config@ == self@,
    {
        self.config
    }
}

/// The top-level configuration.
pub struct ConfigView {
    pub bootstrap_config: BootstrapConfigView,
    pub publisher_config: PublisherConfig,
    pub dht_config: DhtConfigView,
    pub merge_config: MergeConfigView,
    pub max_join_peer_count: usize,
    pub timeouts: TimeoutConfigView,
}

/// The default configuration: every part at its defaults, at most 4 peers
/// joined at once.
pub open spec fn is_default_config(config: ConfigView) -> bool {
    &&& config.bootstrap_config == default_bootstrap_config()
    &&& is_default_publisher(config.publisher_config)
    &&& config.dht_config == default_dht_config()
    &&& is_default_merge_config(config.merge_config)
    &&& config.max_join_peer_count == 4
    &&& config.timeouts == default_timeout_config()
}

/// Top-level configuration combining all settings.
#[derive(Debug, Clone, Copy)]
pub struct Config {
    bootstrap_config: BootstrapConfig,
    publisher_config: PublisherConfig,
    dht_config: DhtConfig,
    merge_config: MergeConfig,
    max_join_peer_count: usize,
    timeouts: TimeoutConfig,
}

impl View for Config {
    type V = ConfigView;

    closed spec fn view(&self) -> ConfigView {
        ConfigView {
            bootstrap_config: self.bootstrap_config@,
            publisher_config: self.publisher_config,
            dht_config: self.dht_config@,
            merge_config: self.merge_config@,
            max_join_peer_count: self.max_join_peer_count,
            timeouts: self.timeouts@,
        }
    }
}

impl Default for Config {
    fn default() -> (config: Self)
        ensures
            is_default_config(config@),
    {
        Config {
            merge_config: MergeConfig::default(),
            bootstrap_config: BootstrapConfig::default(),
            publisher_config: PublisherConfig::default(),
            dht_config: DhtConfig::default(),
            max_join_peer_count: 4,
            timeouts: TimeoutConfig::default(),
        }
    }
}

impl Config {
    /// A configuration joins at least one peer at once.
    #[verifier::type_invariant]
    spec fn joins_some_peer(&self) -> bool {
        self.max_join_peer_count >= 1
    }

    /// A builder that starts from the defaults.
    pub fn builder() -> (builder: ConfigBuilder)
        ensures
            is_default_config(builder@),
    {
        ConfigBuilder { config: Config::default() }
    }

    /// The publisher strategy.
    pub fn publisher_config(&self) -> (config: &PublisherConfig)
        ensures
            *config == self@.publisher_config,
    {
        &self.publisher_config
    }

    /// The DHT settings.
    pub fn dht_config(&self) -> (config: &DhtConfig)
        ensures
            config@ == self@.dht_config,
    {
        &self.dht_config
    }

    /// The bootstrap settings.
    pub fn bootstrap_config(&self) -> (config: &BootstrapConfig)
        ensures
            config@ == self@.bootstrap_config,
    {
        &self.bootstrap_config
    }

    /// Most peers joined at once (at least 1). Default: 4.
    pub fn max_join_peer_count(&self) -> (count: usize)
        ensures
            count == self@.max_join_peer_count,
            count >= 1,
    {
        proof {
            use_type_invariant(self);
        }
        self.max_join_peer_count
    }

    /// The timeout settings.
    pub fn timeouts(&self) -> (config: &TimeoutConfig)
        ensures
            config@ == self@.timeouts,
    {
        &self.timeouts
    }

    /// The merge strategies.
    pub fn merge_config(&self) -> (config: &MergeConfig)
        ensures
            config@ == self@.merge_config,
    {
        &self.merge_config
    }
}

/// The configuration that `ConfigBuilder::build` makes of `config`: a
/// publisher is disabled where no bootstrap records may be published.
pub open spec fn finished_config(config: ConfigView) -> ConfigView {
    if config.bootstrap_config.max_bootstrap_records == 0 && config.publisher_config is Enabled {
        ConfigView { publisher_config: PublisherConfig::Disabled, ..config }
    } else {
        config
    }
}

/// Builder for `Config`.
#[derive(Debug)]
pub struct ConfigBuilder {
    config: Config,
}

impl View for ConfigBuilder {
    type V = ConfigView;

    closed spec fn view(&self) -> ConfigView {
        self.config@
    }
}

impl ConfigBuilder {
    /// The merge strategies.
    pub fn merge_config(self, merge_config: MergeConfig) -> (builder: Self)
        ensures
            builder@ == (ConfigView { merge_config: merge_config@, ..self@ }),
    {
        let mut builder = self;
        proof {
            use_type_invariant(&builder.config);
        }
        builder.config.merge_config = merge_config;
        builder
    }

    /// The publisher strategy.
    pub fn publisher_config(self, publisher_config: PublisherConfig) -> (builder: Self)
        ensures
            builder@ == (ConfigView { publisher_config, ..self@ }),
    {
        let mut builder = self;
        proof {
            use_type_invariant(&builder.config);
        }
        builder.config.publisher_config = publisher_config;
        builder
    }

    /// The DHT settings.
    pub fn dht_config(self, dht_config: DhtConfig) -> (builder: Self)
        ensures
            builder@ == (ConfigView { dht_config: dht_config@, ..self@ }),
    {
        let mut builder = self;
        proof {
            use_type_invariant(&builder.config);
        }
        builder.config.dht_config = dht_config;
        builder
    }

    /// The bootstrap settings.
    pub fn bootstrap_config(self, bootstrap_config: BootstrapConfig) -> (builder: Self)
        ensures
            builder@ == (ConfigView { bootstrap_config: bootstrap_config@, ..self@ }),
    {
        let mut builder = self;
        proof {
            use_type_invariant(&builder.config);
        }
        builder.config.bootstrap_config = bootstrap_config;
        builder
    }

    /// Most peers joined at once; at least 1.
    pub fn max_join_peer_count(self, max_peers: u32) -> (builder: Self)
        requires
            max_peers >= 1,
        ensures
            builder@ == (ConfigView { max_join_peer_count: max_peers as usize, ..self@ }),
    {
        let mut builder = self;
        builder.config.max_join_peer_count = max_peers as usize;
        builder
    }

    /// The timeout settings.
    pub fn timeouts(self, timeouts: TimeoutConfig) -> (builder: Self)
        ensures
            builder@ == (ConfigView { timeouts: timeouts@, ..self@ }),
    {
        let mut builder = self;
        proof {
            use_type_invariant(&builder.config);
        }
        builder.config.timeouts = timeouts;
        builder
    }

    /// The `Config` built so far. Where `max_bootstrap_records` is zero no
    /// record is ever published, so an enabled publisher is disabled.
    pub fn build(self) -> (config: Config)
        ensures
            config@ == finished_config(self@),
            config@.max_join_peer_count >= 1,
    {
        let mut config = self.config;
        proof {
            use_type_invariant(&config);
        }
        if config.bootstrap_config.max_bootstrap_records == 0 {
            if let PublisherConfig::Enabled(_) = config.publisher_config {
                config.publisher_config = PublisherConfig::Disabled;
            }
        }
        config
    }
}

/// A built configuration never enables a publisher that may publish no
/// record; building changes nothing else, and building twice changes
/// nothing more.
pub proof fn law_finished_config(config: ConfigView)
    ensures
        finished_config(config).bootstrap_config.max_bootstrap_records == 0 ==> finished_config(
            config,
        ).publisher_config is Disabled,
        finished_config(config).bootstrap_config == config.bootstrap_config,
        finished_config(config).dht_config == config.dht_config,
        finished_config(config).merge_config == config.merge_config,
        finished_config(config).max_join_peer_count == config.max_join_peer_count,
        finished_config(config).timeouts == config.timeouts,
        config.bootstrap_config.max_bootstrap_records > 0 ==> finished_config(config) == config,
        finished_config(finished_config(config)) == finished_config(config),
{
}

} // verus!
