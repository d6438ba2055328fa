//! Component integration state: the health board kept by the monitoring
//! loop, call metrics, integration events and the per-tier pipeline settings.
//!
//! Times are plain numbers handed in by the caller (seconds since the epoch
//! for timestamps, milliseconds for durations).

use vstd::prelude::*;
use crate::table::{tmap, unique_keys, table_find, table_set_at, table_push, lemma_tmap_index};
use crate::codecs::{sha256, sha256_digest};
use crate::text::{concat3, copy_string, copy_strings, i64_to_decimal, signed_decimal, str_eq};

verus! {

/// Privacy tier of a network or asset.
#[derive(PartialEq, Eq, Structural, Clone, Copy, Debug)]
pub enum PrivacyTier {
    Anonymous,
    PrivateP2P,
    Federated,
    Public,
}

/// Settings of the integration manager.
#[derive(Clone, Debug)]
pub struct IntegrationConfig {
    pub enable_health_checks: bool,
    pub health_check_interval_secs: u64,
    pub enable_event_streaming: bool,
    pub event_buffer_size: usize,
    pub enable_validation: bool,
    pub component_timeout_secs: u64,
}

impl Default for IntegrationConfig {
    fn default() -> (r: Self)
        ensures
            r.enable_health_checks,
            r.health_check_interval_secs == 30,
            r.enable_event_streaming,
            r.event_buffer_size == 1000,
            r.enable_validation,
            r.component_timeout_secs == 10,
    {
        IntegrationConfig {
            enable_health_checks: true,
            health_check_interval_secs: 30,
            enable_event_streaming: true,
            event_buffer_size: 1000,
            enable_validation: true,
            component_timeout_secs: 10,
        }
    }
}

/// Health of one component.
#[derive(Debug)]
pub enum ComponentStatus {
    Healthy,
    Degraded(String),
    Unhealthy(String),
    Uninitialized,
}

/// Model of a component status.
pub enum StatusModel {
    Healthy,
    Degraded(Seq<char>),
    Unhealthy(Seq<char>),
    Uninitialized,
}

impl View for ComponentStatus {
    type V = StatusModel;

    open spec fn view(&self) -> StatusModel {
        match self {
            ComponentStatus::Healthy => StatusModel::Healthy,
            ComponentStatus::Degraded(s) => StatusModel::Degraded(s@),
            ComponentStatus::Unhealthy(s) => StatusModel::Unhealthy(s@),
            ComponentStatus::Uninitialized => StatusModel::Uninitialized,
        }
    }
}

/// Whether two statuses are equal.
pub fn status_eq(a: &ComponentStatus, b: &ComponentStatus) -> (r: bool)
    ensures
        r == (a@ == b@),
{
    match a {
        ComponentStatus::Healthy => matches!(b, ComponentStatus::Healthy),
        ComponentStatus::Uninitialized => matches!(b, ComponentStatus::Uninitialized),
        ComponentStatus::Degraded(x) => match b {
            ComponentStatus::Degraded(y) => str_eq(x.as_str(), y.as_str()),
            _ => false,
        },
        ComponentStatus::Unhealthy(x) => match b {
            ComponentStatus::Unhealthy(y) => str_eq(x.as_str(), y.as_str()),
            _ => false,
        },
    }
}

impl PartialEq for ComponentStatus {
    fn eq(&self, other: &Self) -> (r: bool) {
        status_eq(self, other)
    }
}

impl vstd::std_specs::cmp::PartialEqSpecImpl for ComponentStatus {
    open spec fn obeys_eq_spec() -> bool {
        true
    }

    open spec fn eq_spec(&self, other: &Self) -> bool {
        self@ == other@
    }
}

impl ComponentStatus {
    /// A copy of this status.
    pub fn duplicate(&self) -> (r: ComponentStatus)
        ensures
            r@ == self@,
    {
        match self {
            ComponentStatus::Healthy => ComponentStatus::Healthy,
            ComponentStatus::Degraded(s) => ComponentStatus::Degraded(copy_string(s)),
            ComponentStatus::Unhealthy(s) => ComponentStatus::Unhealthy(copy_string(s)),
            ComponentStatus::Uninitialized => ComponentStatus::Uninitialized,
        }
    }
}

/// One health check of a component.
#[derive(Debug)]
pub struct HealthCheck {
    pub component: String,
    pub status: ComponentStatus,
    pub last_check_secs: u64,
    pub response_time_ms: u64,
    pub diagnostics: Vec<(String, String)>,
}

/// Text view of a list of string pairs.
pub open spec fn pairs_view(d: Seq<(String, String)>) -> Seq<(Seq<char>, Seq<char>)> {
    d.map_values(|p: (String, String)| (p.0@, p.1@))
}

/// `a` and `b` hold the same check.
pub open spec fn same_check(a: HealthCheck, b: HealthCheck) -> bool {
    &&& a.component@ == b.component@
    &&& a.status@ == b.status@
    &&& a.last_check_secs == b.last_check_secs
    &&& a.response_time_ms == b.response_time_ms
    &&& pairs_view(a.diagnostics@) == pairs_view(b.diagnostics@)
}

fn copy_pairs(d: &Vec<(String, String)>) -> (r: Vec<(String, String)>)
    ensures
        pairs_view(r@) == pairs_view(d@),
{
    let mut out: Vec<(String, String)> = Vec::new();
    let mut i: usize = 0;
    while i < d.len()
        invariant
            i <= d@.len(),
            out@.len() == i,
            forall|k: int| 0 <= k < i ==> (#[trigger] out@[k]).0@ == d@[k].0@ && out@[k].1@ == d@[k].1@,
        decreases d@.len() - i,
    {
        out.push((copy_string(&d[i].0), copy_string(&d[i].1)));
        i = i + 1;
    }
    assert(pairs_view(out@) =~= pairs_view(d@));
    out
}

impl HealthCheck {
    /// A copy of this check.
    pub fn duplicate(&self) -> (r: HealthCheck)
        ensures
            same_check(r, *self),
    {
        HealthCheck {
            component: copy_string(&self.component),
            status: self.status.duplicate(),
            last_check_secs: self.last_check_secs,
            response_time_ms: self.response_time_ms,
            diagnostics: copy_pairs(&self.diagnostics),
        }
    }
}

/// Counters over cross-component calls.
#[derive(Debug)]
pub struct IntegrationMetrics {
    pub total_calls: u64,
    pub successful_calls: u64,
    pub failed_calls: u64,
    pub avg_latency_ms: u64,
    pub call_distribution: Vec<(String, u64)>,
}

/// Calls recorded for `component` so far.
pub open spec fn calls_of(dist: Seq<(String, u64)>, component: Seq<char>) -> u64 {
    if tmap(dist).contains_key(component) {
        tmap(dist)[component]
    } else {
        0
    }
}

/// Running average after adding `sample` as the `(count + 1)`-th sample.
pub open spec fn next_average(avg: u64, count: u64, sample: u64) -> int {
    if count == 0 {
        sample as int
    } else {
        (avg * count + sample) / (count + 1)
    }
}

impl Default for IntegrationMetrics {
    fn default() -> (r: Self)
        ensures
            r.total_calls == 0,
            r.successful_calls == 0,
            r.failed_calls == 0,
            r.avg_latency_ms == 0,
            r.call_distribution@.len() == 0,
    {
        IntegrationMetrics {
            total_calls: 0,
            successful_calls: 0,
            failed_calls: 0,
            avg_latency_ms: 0,
            call_distribution: Vec::new(),
        }
    }
}

impl IntegrationMetrics {
    /// Record one successful call of `component` that took `duration_ms`:
    /// both call counters grow by one, the average latency becomes the
    /// running average, and the component's call count grows by one.
    pub fn record_call(&mut self, component: &str, duration_ms: u64)
        requires
            old(self).total_calls < u64::MAX,
            old(self).successful_calls < u64::MAX,
            old(self).avg_latency_ms * old(self).total_calls + duration_ms <= u64::MAX,
            unique_keys(old(self).call_distribution@),
            calls_of(old(self).call_distribution@, component@) < u64::MAX,
        ensures
            final(self).total_calls == old(self).total_calls + 1,
            final(self).successful_calls == old(self).successful_calls + 1,
            final(self).failed_calls == old(self).failed_calls,
            final(self).avg_latency_ms == next_average(
                old(self).avg_latency_ms,
                old(self).total_calls,
                duration_ms,
            ),
            unique_keys(final(self).call_distribution@),
            tmap(final(self).call_distribution@) == tmap(old(self).call_distribution@).insert(
                component@,
                (calls_of(old(self).call_distribution@, component@) + 1) as u64,
            ),
    {
        let prev = self.total_calls;
        self.total_calls = prev + 1;
        self.successful_calls = self.successful_calls + 1;
        if prev == 0 {
            self.avg_latency_ms = duration_ms;
        } else {
            self.avg_latency_ms = (self.avg_latency_ms * prev + duration_ms) / (prev + 1);
        }
        match table_find(&self.call_distribution, component) {
            Some(i) => {
                proof {
                    lemma_tmap_index(self.call_distribution@, i as int);
                }
                let n = self.call_distribution[i].1;
                table_set_at(&mut self.call_distribution, i, n + 1);
            },
            None => {
                table_push(&mut self.call_distribution, component, 1);
            },
        }
    }

    /// A copy of these metrics.
    pub fn duplicate(&self) -> (r: IntegrationMetrics)
        ensures
            r.total_calls == self.total_calls,
            r.successful_calls == self.successful_calls,
            r.failed_calls == self.failed_calls,
            r.avg_latency_ms == self.avg_latency_ms,
            r.call_distribution@.len() == self.call_distribution@.len(),
            forall|i: int|
                0 <= i < self.call_distribution@.len() ==> (#[trigger] r.call_distribution@[i]).0@
                    == self.call_distribution@[i].0@ && r.call_distribution@[i].1
                    == self.call_distribution@[i].1,
    {
        let mut dist: Vec<(String, u64)> = Vec::new();
        let mut i: usize = 0;
        while i < self.call_distribution.len()
            invariant
                i <= self.call_distribution@.len(),
                dist@.len() == i,
                forall|k: int|
                    0 <= k < i ==> (#[trigger] dist@[k]).0@ == self.call_distribution@[k].0@
                        && dist@[k].1 == self.call_distribution@[k].1,
            decreases self.call_distribution@.len() - i,
        {
            dist.push((copy_string(&self.call_distribution[i].0), self.call_distribution[i].1));
            i = i + 1;
        }
        IntegrationMetrics {
            total_calls: self.total_calls,
            successful_calls: self.successful_calls,
            failed_calls: self.failed_calls,
            avg_latency_ms: self.avg_latency_ms,
            call_distribution: dist,
        }
    }
}

/// Events the integration layer emits.
#[derive(Debug)]
pub enum IntegrationEvent {
    ProcessingStarted { asset_id: String, privacy_tier: PrivacyTier, timestamp_secs: u64 },
    ProcessingCompleted { asset_id: String, duration_ms: u64, shards_created: usize },
    CrossNetworkValidation { asset_id: String, networks: Vec<String>, result: bool },
    DeduplicationPerformed { asset_id: String, saved_bytes: usize, is_duplicate: bool },
    HealthChanged { component: String, old_status: ComponentStatus, new_status: ComponentStatus },
    PrivacyTransition { asset_id: String, from_tier: PrivacyTier, to_tier: PrivacyTier },
}

/// Health report of all components.
#[derive(Debug)]
pub struct IntegrationHealth {
    pub overall_status: ComponentStatus,
    pub components: Vec<HealthCheck>,
    pub metrics: IntegrationMetrics,
    pub timestamp_secs: u64,
}

/// The statuses of a list of checks.
pub open spec fn statuses(cs: Seq<HealthCheck>) -> Seq<StatusModel> {
    cs.map_values(|c: HealthCheck| c.status@)
}

/// Overall status of a set of component statuses: healthy when every one is
/// healthy (so also when there are none), unhealthy when any is unhealthy,
/// degraded otherwise.
pub open spec fn overall_status_spec(ss: Seq<StatusModel>) -> StatusModel {
    if forall|i: int| 0 <= i < ss.len() ==> (#[trigger] ss[i]) is Healthy {
        StatusModel::Healthy
    } else if exists|i: int| 0 <= i < ss.len() && (#[trigger] ss[i]) is Unhealthy {
        StatusModel::Unhealthy("One or more components unhealthy"@)
    } else {
        StatusModel::Degraded("Some components degraded"@)
    }
}

/// Overall status of `checks`.
pub fn overall_status(checks: &Vec<HealthCheck>) -> (r: ComponentStatus)
    ensures
        r@ == overall_status_spec(statuses(checks@)),
{
    let ghost ss = statuses(checks@);
    let mut all_healthy = true;
    let mut any_unhealthy = false;
    let mut i: usize = 0;
    while i < checks.len()
        invariant
            i <= checks@.len(),
            ss == statuses(checks@),
            ss.len() == checks@.len(),
            all_healthy == (forall|k: int| 0 <= k < i ==> (#[trigger] ss[k]) is Healthy),
            any_unhealthy == (exists|k: int| 0 <= k < i && (#[trigger] ss[k]) is Unhealthy),
        decreases checks@.len() - i,
    {
        assert(ss[i as int] == checks@[i as int].status@);
        match &checks[i].status {
            ComponentStatus::Healthy => {},
            ComponentStatus::Unhealthy(_) => {
                all_healthy = false;
                any_unhealthy = true;
            },
            _ => {
                all_healthy = false;
            },
        }
        i = i + 1;
    }
    if all_healthy {
        ComponentStatus::Healthy
    } else if any_unhealthy {
        proof {
            reveal_strlit("One or more components unhealthy");
        }
        ComponentStatus::Unhealthy(String::from_str("One or more components unhealthy"))
    } else {
        proof {
            reveal_strlit("Some components degraded");
        }
        ComponentStatus::Degraded(String::from_str("Some components degraded"))
    }
}

/// Whether a component may take part: it has a check that is healthy or
/// degraded.
pub open spec fn component_usable(board: Seq<(String, HealthCheck)>, name: Seq<char>) -> bool {
    tmap(board).contains_key(name) && (tmap(board)[name].status is Healthy || tmap(
        board,
    )[name].status is Degraded)
}

/// Board map after applying `checks` in order.
pub open spec fn board_after(
    board: Map<Seq<char>, HealthCheck>,
    checks: Seq<HealthCheck>,
) -> Map<Seq<char>, HealthCheck>
    decreases checks.len(),
{
    if checks.len() == 0 {
        board
    } else {
        board_after(board, checks.drop_last()).insert(checks.last().component@, checks.last())
    }
}

/// Health changes reported while applying `checks` in order.
pub open spec fn changes_after(
    board: Map<Seq<char>, HealthCheck>,
    checks: Seq<HealthCheck>,
) -> Seq<(Seq<char>, StatusModel, StatusModel)>
    decreases checks.len(),
{
    if checks.len() == 0 {
        Seq::empty()
    } else {
        let before = board_after(board, checks.drop_last());
        let prev = changes_after(board, checks.drop_last());
        let c = checks.last();
        if before.contains_key(c.component@) && before[c.component@].status@ != c.status@ {
            prev.push((c.component@, before[c.component@].status@, c.status@))
        } else {
            prev
        }
    }
}

/// Model of a health-change event.
pub open spec fn change_view(e: IntegrationEvent) -> (Seq<char>, StatusModel, StatusModel) {
    match e {
        IntegrationEvent::HealthChanged { component, old_status, new_status } => (
            component@,
            old_status@,
            new_status@,
        ),
        _ => (Seq::empty(), StatusModel::Uninitialized, StatusModel::Uninitialized),
    }
}

/// The five component checks of one monitoring round, stamped `now_secs`.
pub fn perform_health_checks(now_secs: u64) -> (r: Vec<HealthCheck>)
    ensures
        r@.len() == 5,
        r@[0].component@ == "stoq_transport"@ && r@[0].response_time_ms == 5,
        r@[1].component@ == "privacy_manager"@ && r@[1].response_time_ms == 3,
        r@[2].component@ == "network_coordinator"@ && r@[2].response_time_ms == 4,
        r@[3].component@ == "asset_pipeline"@ && r@[3].response_time_ms == 6,
        r@[4].component@ == "content_storage"@ && r@[4].response_time_ms == 7,
        forall|i: int|
            0 <= i < 5 ==> (#[trigger] r@[i]).status is Healthy && r@[i].last_check_secs == now_secs
                && r@[i].diagnostics@.len() == 0,
{
    let mut out: Vec<HealthCheck> = Vec::new();
    out.push(healthy_check("stoq_transport", now_secs, 5));
    out.push(healthy_check("privacy_manager", now_secs, 3));
    out.push(healthy_check("network_coordinator", now_secs, 4));
    out.push(healthy_check("asset_pipeline", now_secs, 6));
    out.push(healthy_check("content_storage", now_secs, 7));
    out
}

fn healthy_check(name: &str, now_secs: u64, response_time_ms: u64) -> (r: HealthCheck)
    ensures
        r.component@ == name@,
        r.status is Healthy,
        r.last_check_secs == now_secs,
        r.response_time_ms == response_time_ms,
        r.diagnostics@.len() == 0,
{
    HealthCheck {
        component: String::from_str(name),
        status: ComponentStatus::Healthy,
        last_check_secs: now_secs,
        response_time_ms,
        diagnostics: Vec::new(),
    }
}

/// Pipeline settings chosen for a privacy tier.
#[derive(PartialEq, Eq, Structural, Clone, Copy, Debug)]
pub struct PipelineSettings {
    pub quantum_resistant: bool,
    pub key_iterations: u32,
    pub nonce_size: usize,
    pub data_shards: usize,
    pub parity_shards: usize,
    pub target_shard_size: usize,
    pub compression_level: u32,
}

/// The settings each tier gets: more redundancy and stronger encryption
/// for wider audiences, faster processing for narrower ones.
pub open spec fn pipeline_settings_spec(tier: PrivacyTier) -> PipelineSettings {
    match tier {
        PrivacyTier::Public => PipelineSettings {
            quantum_resistant: true,
            key_iterations: 100_000,
            nonce_size: 12,
            data_shards: 10,
            parity_shards: 4,
            target_shard_size: 1048576,
            compression_level: 6,
        },
        PrivacyTier::Federated => PipelineSettings {
            quantum_resistant: true,
            key_iterations: 100_000,
            nonce_size: 12,
            data_shards: 8,
            parity_shards: 3,
            target_shard_size: 1048576,
            compression_level: 4,
        },
        PrivacyTier::PrivateP2P => PipelineSettings {
            quantum_resistant: false,
            key_iterations: 50_000,
            nonce_size: 12,
            data_shards: 6,
            parity_shards: 2,
            target_shard_size: 2097152,
            compression_level: 3,
        },
        PrivacyTier::Anonymous => PipelineSettings {
            quantum_resistant: false,
            key_iterations: 25_000,
            nonce_size: 12,
            data_shards: 4,
            parity_shards: 2,
            target_shard_size: 4194304,
            compression_level: 2,
        },
    }
}

/// Pipeline settings for `tier`.
pub fn pipeline_settings_for(tier: PrivacyTier) -> (r: PipelineSettings)
    ensures
        r == pipeline_settings_spec(tier),
{
    match tier {
        PrivacyTier::Public => PipelineSettings {
            quantum_resistant: true,
            key_iterations: 100_000,
            nonce_size: 12,
            data_shards: 10,
            parity_shards: 4,
            target_shard_size: 1024 * 1024,
            compression_level: 6,
        },
        PrivacyTier::Federated => PipelineSettings {
            quantum_resistant: true,
            key_iterations: 100_000,
            nonce_size: 12,
            data_shards: 8,
            parity_shards: 3,
            target_shard_size: 1024 * 1024,
            compression_level: 4,
        },
        PrivacyTier::PrivateP2P => PipelineSettings {
            quantum_resistant: false,
            key_iterations: 50_000,
            nonce_size: 12,
            data_shards: 6,
            parity_shards: 2,
            target_shard_size: 2 * 1024 * 1024,
            compression_level: 3,
        },
        PrivacyTier::Anonymous => PipelineSettings {
            quantum_resistant: false,
            key_iterations: 25_000,
            nonce_size: 12,
            data_shards: 4,
            parity_shards: 2,
            target_shard_size: 4 * 1024 * 1024,
            compression_level: 2,
        },
    }
}

/// The integration manager: settings, the health board, call metrics and
/// the queue of events not yet consumed.
pub struct ComponentIntegration {
    config: IntegrationConfig,
    health_status: Vec<(String, HealthCheck)>,
    metrics: IntegrationMetrics,
    events: Vec<IntegrationEvent>,
}

impl ComponentIntegration {
    /// Settings.
    pub closed spec fn config_spec(&self) -> IntegrationConfig {
        self.config
    }

    /// The health board: each component's latest check.
    pub closed spec fn board(&self) -> Map<Seq<char>, HealthCheck> {
        tmap(self.health_status@)
    }

    /// The board entries, in the order components were first seen.
    pub closed spec fn board_entries(&self) -> Seq<(String, HealthCheck)> {
        self.health_status@
    }

    /// Events queued so far.
    pub closed spec fn queued(&self) -> Seq<IntegrationEvent> {
        self.events@
    }

    /// Call metrics.
    pub closed spec fn metrics_spec(&self) -> IntegrationMetrics {
        self.metrics
    }

    /// Internal consistency: board keys are distinct and each entry is keyed
    /// by its check's component, and the call distribution has distinct keys.
    pub closed spec fn well_formed(&self) -> bool {
        &&& unique_keys(self.health_status@)
        &&& forall|i: int|
            0 <= i < self.health_status@.len() ==> (#[trigger] self.health_status@[i]).0@
                == self.health_status@[i].1.component@
        &&& unique_keys(self.metrics.call_distribution@)
    }

    /// A manager with an empty board, zeroed metrics and no events.
    pub fn new(config: IntegrationConfig) -> (r: ComponentIntegration)
        ensures
            r.well_formed(),
            r.config_spec() == config,
            r.board() == Map::<Seq<char>, HealthCheck>::empty(),
            r.queued().len() == 0,
            r.metrics_spec().total_calls == 0,
            r.metrics_spec().avg_latency_ms == 0,
    {
        let r = ComponentIntegration {
            config,
            health_status: Vec::new(),
            metrics: IntegrationMetrics::default(),
            events: Vec::new(),
        };
        assert(r.health_status@ =~= Seq::<(String, HealthCheck)>::empty());
        r
    }

    /// Queue an event when event streaming is on; drop it otherwise.
    pub fn send_event(&mut self, event: IntegrationEvent)
        ensures
            final(self).queued() == if old(self).config_spec().enable_event_streaming {
                old(self).queued().push(event)
            } else {
                old(self).queued()
            },
            final(self).board() == old(self).board(),
            final(self).config_spec() == old(self).config_spec(),
            final(self).metrics_spec() == old(self).metrics_spec(),
            old(self).well_formed() ==> final(self).well_formed(),
    {
        if self.config.enable_event_streaming {
            self.events.push(event);
        }
    }

    /// Apply one round of checks to the board: each check replaces its
    /// component's entry; a status change of a known component is queued
    /// as a `HealthChanged` event when event streaming is on.
    pub fn apply_health_checks(&mut self, checks: Vec<HealthCheck>)
        requires
            old(self).well_formed(),
        ensures
            final(self).well_formed(),
            final(self).board() == board_after(old(self).board(), checks@),
            final(self).config_spec() == old(self).config_spec(),
            final(self).metrics_spec() == old(self).metrics_spec(),
            old(self).config_spec().enable_event_streaming ==> {
                &&& final(self).queued().len() == old(self).queued().len() + changes_after(
                    old(self).board(),
                    checks@,
                ).len()
                &&& forall|i: int|
                    0 <= i < old(self).queued().len() ==> final(self).queued()[i] == old(
                        self,
                    ).queued()[i]
                &&& forall|i: int|
                    0 <= i < changes_after(old(self).board(), checks@).len() ==> {
                        let e = #[trigger] final(self).queued()[old(self).queued().len() + i];
                        e is HealthChanged && change_view(e) == changes_after(
                            old(self).board(),
                            checks@,
                        )[i]
                    }
            },
            !old(self).config_spec().enable_event_streaming ==> final(self).queued() == old(
                self,
            ).queued(),
    {
        let ghost board0 = tmap(self.health_status@);
        let ghost events0 = self.events@;
        let ghost all = checks@;
        let n = checks.len();
        let mut rest = checks;
        let mut k: usize = 0;
        assert(all.len() == n);
        while rest.len() > 0
            invariant
                0 <= k <= all.len(),
                all.len() <= usize::MAX,
                rest@ == all.skip(k as int),
                self.well_formed(),
                tmap(self.health_status@) == board_after(board0, all.take(k as int)),
                self.config == old(self).config,
                self.metrics == old(self).metrics,
                self.config.enable_event_streaming ==> {
                    &&& self.events@.len() == events0.len() + changes_after(
                        board0,
                        all.take(k as int),
                    ).len()
                    &&& forall|i: int| 0 <= i < events0.len() ==> self.events@[i] == events0[i]
                    &&& forall|i: int|
                        0 <= i < changes_after(board0, all.take(k as int)).len() ==> {
                            let e = #[trigger] self.events@[events0.len() + i];
                            e is HealthChanged && change_view(e) == changes_after(
                                board0,
                                all.take(k as int),
                            )[i]
                        }
                },
                !self.config.enable_event_streaming ==> self.events@ == events0,
                events0 == old(self).events@,
                board0 == tmap(old(self).health_status@),
            decreases rest@.len(),
        {
            let check = rest.remove(0);
            let ghost prefix = all.take(k as int);
            let ghost next = all.take(k + 1);
            assert(next.drop_last() =~= prefix);
            assert(all[k as int] == check);
            assert(next.last() == check);
            let ghost before = tmap(self.health_status@);
            match table_find(&self.health_status, check.component.as_str()) {
                Some(i) => {
                    proof {
                        lemma_tmap_index(self.health_status@, i as int);
                    }
                    if !status_eq(&self.health_status[i].1.status, &check.status) {
                        if self.config.enable_event_streaming {
                            let ev = IntegrationEvent::HealthChanged {
                                component: copy_string(&check.component),
                                old_status: self.health_status[i].1.status.duplicate(),
                                new_status: check.status.duplicate(),
                            };
                            self.events.push(ev);
                        }
                    }
                    let ghost key = self.health_status@[i as int].0@;
                    table_set_at(&mut self.health_status, i, check);
                    assert forall|j: int| 0 <= j < self.health_status@.len() implies (
                    #[trigger] self.health_status@[j]).0@ == self.health_status@[j].1.component@ by {
                        if j != i {
                        }
                    }
                },
                None => {
                    let name = copy_string(&check.component);
                    table_push(&mut self.health_status, name.as_str(), check);
                },
            }
            k = k + 1;
            assert(rest@ =~= all.skip(k as int));
        }
        assert(all.take(all.len() as int) =~= all);
    }

    /// Whether every named component has a healthy or degraded check (always
    /// `true` when validation is disabled).
    pub fn validate_integration(&self, components: &Vec<String>) -> (r: bool)
        requires
            self.well_formed(),
        ensures
            r == (!self.config_spec().enable_validation || forall|i: int|
                0 <= i < components@.len() ==> component_usable(
                    self.board_entries(),
                    #[trigger] components@[i]@,
                )),
    {
        if !self.config.enable_validation {
            return true;
        }
        let mut i: usize = 0;
        while i < components.len()
            invariant
                i <= components@.len(),
                self.well_formed(),
                self.config.enable_validation,
                forall|j: int|
                    0 <= j < i ==> component_usable(self.health_status@, #[trigger] components@[j]@),
            decreases components@.len() - i,
        {
            match table_find(&self.health_status, components[i].as_str()) {
                Some(idx) => {
                    proof {
                        lemma_tmap_index(self.health_status@, idx as int);
                    }
                    match &self.health_status[idx].1.status {
                        ComponentStatus::Unhealthy(_) => {
                            assert(!component_usable(self.health_status@, components@[i as int]@));
                            return false;
                        },
                        ComponentStatus::Uninitialized => {
                            assert(!component_usable(self.health_status@, components@[i as int]@));
                            return false;
                        },
                        _ => {},
                    }
                },
                None => {
                    assert(!component_usable(self.health_status@, components@[i as int]@));
                    return false;
                },
            }
            i = i + 1;
        }
        true
    }

    /// Record one successful cross-component call (see
    /// `IntegrationMetrics::record_call`).
    pub fn record_call(&mut self, component: &str, duration_ms: u64)
        requires
            old(self).well_formed(),
            old(self).metrics_spec().total_calls < u64::MAX,
            old(self).metrics_spec().successful_calls < u64::MAX,
            old(self).metrics_spec().avg_latency_ms * old(self).metrics_spec().total_calls
                + duration_ms <= u64::MAX,
            calls_of(old(self).metrics_spec().call_distribution@, component@) < u64::MAX,
        ensures
            final(self).well_formed(),
            final(self).board() == old(self).board(),
            final(self).queued() == old(self).queued(),
            final(self).metrics_spec().total_calls == old(self).metrics_spec().total_calls + 1,
            final(self).metrics_spec().successful_calls == old(self).metrics_spec().successful_calls
                + 1,
            final(self).metrics_spec().avg_latency_ms == next_average(
                old(self).metrics_spec().avg_latency_ms,
                old(self).metrics_spec().total_calls,
                duration_ms,
            ),
            tmap(final(self).metrics_spec().call_distribution@) == tmap(
                old(self).metrics_spec().call_distribution@,
            ).insert(
                component@,
                (calls_of(old(self).metrics_spec().call_distribution@, component@) + 1) as u64,
            ),
    {
        self.metrics.record_call(component, duration_ms);
    }

    /// Health report: the board's checks in order, their overall status,
    /// a copy of the metrics, stamped `now_secs`.
    pub fn get_health(&self, now_secs: u64) -> (r: IntegrationHealth)
        ensures
            r.components@.len() == self.board_entries().len(),
            forall|i: int|
                0 <= i < r.components@.len() ==> same_check(
                    #[trigger] r.components@[i],
                    self.board_entries()[i].1,
                ),
            r.overall_status@ == overall_status_spec(statuses(r.components@)),
            r.metrics.total_calls == self.metrics_spec().total_calls,
            r.metrics.avg_latency_ms == self.metrics_spec().avg_latency_ms,
            r.timestamp_secs == now_secs,
    {
        let mut components: Vec<HealthCheck> = Vec::new();
        let mut i: usize = 0;
        while i < self.health_status.len()
            invariant
                i <= self.health_status@.len(),
                components@.len() == i,
                forall|k: int|
                    0 <= k < i ==> same_check(#[trigger] components@[k], self.health_status@[k].1),
            decreases self.health_status@.len() - i,
        {
            components.push(self.health_status[i].1.duplicate());
            i = i + 1;
        }
        let overall = overall_status(&components);
        IntegrationHealth {
            overall_status: overall,
            components,
            metrics: self.metrics.duplicate(),
            timestamp_secs: now_secs,
        }
    }
}

/// The event that reports an asset's addresses on several networks.
pub open spec fn is_cross_network_event(e: IntegrationEvent, asset_id: Seq<char>, networks: Seq<Seq<char>>) -> bool {
    e matches IntegrationEvent::CrossNetworkValidation { asset_id: a, networks: ns, result }
        && a@ == asset_id && ns@.map_values(|s: String| s@) == networks && result
}

impl ComponentIntegration {
    /// Hand over the queued events, oldest first, leaving none queued.
    pub fn drain_events(&mut self) -> (r: Vec<IntegrationEvent>)
        requires
            old(self).well_formed(),
        ensures
            r@ == old(self).queued(),
            final(self).queued() == Seq::<IntegrationEvent>::empty(),
            final(self).board() == old(self).board(),
            final(self).config_spec() == old(self).config_spec(),
            final(self).metrics_spec() == old(self).metrics_spec(),
            final(self).well_formed(),
    {
        let mut taken: Vec<IntegrationEvent> = Vec::new();
        std::mem::swap(&mut taken, &mut self.events);
        taken
    }

    /// Give an asset its content address on each network: the SHA-256 hash
    /// of its id, one per network in order; report it as a cross-network
    /// event (when events are streamed) and record the call as
    /// `storage_network`.
    pub fn integrate_storage_network(
        &mut self,
        asset_id: &str,
        networks: &Vec<String>,
        duration_ms: u64,
    ) -> (r: Vec<Vec<u8>>)
        requires
            old(self).well_formed(),
            old(self).metrics_spec().total_calls < u64::MAX,
            old(self).metrics_spec().successful_calls < u64::MAX,
            old(self).metrics_spec().avg_latency_ms * old(self).metrics_spec().total_calls
                + duration_ms <= u64::MAX,
            calls_of(old(self).metrics_spec().call_distribution@, "storage_network"@) < u64::MAX,
        ensures
            final(self).well_formed(),
            r@.len() == networks@.len(),
            forall|i: int|
                0 <= i < r@.len() ==> (#[trigger] r@[i])@ == sha256_digest(
                    vstd::utf8::encode_utf8(asset_id@),
                ),
            final(self).board() == old(self).board(),
            old(self).config_spec().enable_event_streaming ==> (final(self).queued().len()
                == old(self).queued().len() + 1 && final(self).queued().take(
                old(self).queued().len() as int,
            ) == old(self).queued() && is_cross_network_event(
                final(self).queued().last(),
                asset_id@,
                networks@.map_values(|s: String| s@),
            )),
            !old(self).config_spec().enable_event_streaming ==> final(self).queued() == old(
                self,
            ).queued(),
            final(self).metrics_spec().total_calls == old(self).metrics_spec().total_calls + 1,
            tmap(final(self).metrics_spec().call_distribution@) == tmap(
                old(self).metrics_spec().call_distribution@,
            ).insert(
                "storage_network"@,
                (calls_of(old(self).metrics_spec().call_distribution@, "storage_network"@) + 1) as u64,
            ),
    {
        let mut addresses: Vec<Vec<u8>> = Vec::new();
        let mut i: usize = 0;
        while i < networks.len()
            invariant
                i <= networks@.len(),
                addresses@.len() == i,
                forall|k: int|
                    0 <= k < i ==> (#[trigger] addresses@[k])@ == sha256_digest(
                        vstd::utf8::encode_utf8(asset_id@),
                    ),
            decreases networks@.len() - i,
        {
            addresses.push(sha256(asset_id.as_bytes()));
            i = i + 1;
        }
        let names = copy_strings(networks);
        assert(names@.map_values(|s: String| s@) =~= networks@.map_values(|s: String| s@));
        let ghost before = self.queued();
        let event = IntegrationEvent::CrossNetworkValidation {
            asset_id: String::from_str(asset_id),
            networks: names,
            result: true,
        };
        assert(is_cross_network_event(event, asset_id@, networks@.map_values(|s: String| s@)));
        self.send_event(event);
        proof {
            if old(self).config_spec().enable_event_streaming {
                assert(self.queued().take(before.len() as int) =~= before);
            }
            reveal_strlit("storage_network");
        }
        self.record_call("storage_network", duration_ms);
        addresses
    }
}

/// How a STOQ connection toward a matrix position is set up.
#[derive(Debug)]
pub struct StoqRoutePlan {
    /// The coordinates the route passes, in order.
    pub path: Vec<(i64, i64, i64)>,
    pub tier: PrivacyTier,
    pub port: u16,
    /// The destination as a `matrix://` name.
    pub server_name: String,
}

/// The `matrix://` name of a coordinate: `matrix://[x:y:z]`.
pub open spec fn matrix_name(c: (i64, i64, i64)) -> Seq<char> {
    "matrix://["@ + signed_decimal(c.0 as int) + ":"@ + signed_decimal(c.1 as int) + ":"@
        + signed_decimal(c.2 as int) + "]"@
}

/// The route of a STOQ connection between two matrix positions: straight
/// from source to destination, at the connection's own privacy tier, on
/// the transport port, named after the destination.
pub fn stoq_route_plan(source: (i64, i64, i64), destination: (i64, i64, i64), tier: PrivacyTier) -> (r:
    StoqRoutePlan)
    ensures
        r.path@ == seq![source, destination],
        r.tier == tier,
        r.port == 9292,
        r.server_name@ == matrix_name(destination),
{
    proof {
        reveal_strlit("matrix://[");
        reveal_strlit(":");
        reveal_strlit("]");
    }
    let mut path: Vec<(i64, i64, i64)> = Vec::new();
    path.push(source);
    path.push(destination);
    assert(path@ =~= seq![source, destination]);
    let x = i64_to_decimal(destination.0);
    let y = i64_to_decimal(destination.1);
    let z = i64_to_decimal(destination.2);
    let a = concat3("matrix://[", x.as_str(), ":");
    let b = concat3(a.as_str(), y.as_str(), ":");
    let c = concat3(b.as_str(), z.as_str(), "]");
    StoqRoutePlan { path, tier, port: 9292, server_name: c }
}

} // verus!
