//! The provider-usage seed: one synthetic Codex snapshot, read from the file that
//! `CODEXBAR_SEED_USAGE_JSON` names, that fills the provider cache at launch.
//!
//! A seed states less than a snapshot. What it leaves out is filled in here, except where that takes
//! arithmetic on the measured numbers: these are of a type `N` that the harness only moves, and
//! such results come from functions that the caller hands in.
use crate::{clock, text};
use vstd::prelude::*;

verus! {

/// The environment variable that names the file with the seed.
pub const SEED_USAGE_ENV_VAR: &'static str = "CODEXBAR_SEED_USAGE_JSON";

/// A rate window as a seed states it.
#[derive(Debug)]
pub struct SeedRateWindow<N> {
    pub used_percent: N,
    pub remaining_percent: Option<N>,
    pub window_minutes: Option<u32>,
    pub resets_at: Option<String>,
    pub reset_description: Option<String>,
    pub is_exhausted: bool,
    pub is_informational: bool,
    pub reserve_percent: Option<N>,
    pub reserve_description: Option<String>,
    pub reserve_will_last_to_reset: bool,
    pub reserve_eta_seconds: Option<N>,
}

/// A further rate window, with the name under which it is shown.
#[derive(Debug)]
pub struct SeedNamedRateWindow<N> {
    pub id: String,
    pub title: String,
    pub window: SeedRateWindow<N>,
}

/// The cost of a period as a seed states it.
#[derive(Debug)]
pub struct SeedCost<N> {
    pub used: N,
    pub limit: Option<N>,
    pub remaining: Option<N>,
    pub currency_code: String,
    pub period: String,
    pub resets_at: Option<String>,
    pub formatted_used: Option<String>,
    pub formatted_limit: Option<String>,
    pub balance: Option<N>,
    pub formatted_balance: Option<String>,
}

/// The pace of usage as a seed states it.
#[derive(Debug)]
pub struct SeedPace<N> {
    pub stage: String,
    pub delta_percent: N,
    pub will_last_to_reset: bool,
    pub eta_seconds: Option<N>,
    pub expected_used_percent: N,
    pub actual_used_percent: N,
}

/// The seed.
#[derive(Debug)]
pub struct SeedProviderUsageSnapshot<N> {
    pub provider_id: String,
    pub display_name: String,
    pub primary: SeedRateWindow<N>,
    pub primary_label: Option<String>,
    pub secondary: Option<SeedRateWindow<N>>,
    pub secondary_label: Option<String>,
    pub model_specific: Option<SeedRateWindow<N>>,
    pub tertiary: Option<SeedRateWindow<N>>,
    pub tertiary_label: Option<String>,
    pub extra_rate_windows: Vec<SeedNamedRateWindow<N>>,
    pub cost: Option<SeedCost<N>>,
    pub plan_name: Option<String>,
    pub account_email: Option<String>,
    pub source_label: String,
    /// An RFC 3339 time; launch time where the seed states none, so that the card renders as fresh.
    pub updated_at: Option<String>,
    pub error: Option<String>,
    pub pace: Option<SeedPace<N>>,
    pub account_organization: Option<String>,
    pub tray_status_label: Option<String>,
}

/// A rate window of a snapshot.
#[derive(Debug)]
pub struct RateWindowSnapshot<N> {
    pub used_percent: N,
    pub remaining_percent: N,
    pub window_minutes: Option<u32>,
    pub resets_at: Option<String>,
    pub reset_description: Option<String>,
    pub is_exhausted: bool,
    pub is_informational: bool,
    pub reserve_percent: Option<N>,
    pub reserve_description: Option<String>,
    pub reserve_will_last_to_reset: bool,
    pub reserve_eta_seconds: Option<N>,
}

/// A further rate window of a snapshot.
#[derive(Debug)]
pub struct NamedRateWindowSnapshot<N> {
    pub id: String,
    pub title: String,
    pub window: RateWindowSnapshot<N>,
}

/// The cost of a period in a snapshot.
#[derive(Debug)]
pub struct CostSnapshotBridge<N> {
    pub used: N,
    pub limit: Option<N>,
    pub remaining: Option<N>,
    pub currency_code: String,
    pub period: String,
    pub resets_at: Option<String>,
    pub formatted_used: String,
    pub formatted_limit: Option<String>,
    pub balance: Option<N>,
    pub formatted_balance: Option<String>,
}

/// The pace of usage in a snapshot.
#[derive(Debug)]
pub struct PaceSnapshot<N> {
    pub stage: &'static str,
    pub delta_percent: N,
    pub will_last_to_reset: bool,
    pub eta_seconds: Option<N>,
    pub expected_used_percent: N,
    pub actual_used_percent: N,
}

/// A snapshot of the usage of one provider. `W` and `S` are what the shell has for the two kinds of
/// detail that only a live provider reports.
#[derive(Debug)]
pub struct ProviderUsageSnapshot<N, W, S> {
    pub provider_id: String,
    pub display_name: String,
    pub primary: RateWindowSnapshot<N>,
    pub primary_label: Option<String>,
    pub secondary: Option<RateWindowSnapshot<N>>,
    pub secondary_label: Option<String>,
    pub model_specific: Option<RateWindowSnapshot<N>>,
    pub tertiary: Option<RateWindowSnapshot<N>>,
    pub tertiary_label: Option<String>,
    pub extra_rate_windows: Vec<NamedRateWindowSnapshot<N>>,
    pub cost: Option<CostSnapshotBridge<N>>,
    pub plan_name: Option<String>,
    pub account_email: Option<String>,
    pub source_label: String,
    pub updated_at: String,
    pub error: Option<String>,
    pub pace: Option<PaceSnapshot<N>>,
    pub account_organization: Option<String>,
    pub tray_status_label: Option<String>,
    pub fetch_duration_ms: Option<u64>,
    pub wayfinder_usage: Option<W>,
    pub session_equivalent_forecast: Option<S>,
}

/// The display name of a seed that states none.
pub fn default_seed_display_name() -> (s: String)
    ensures
        s@ == "Codex"@,
{
    "Codex".to_owned()
}

/// The source label of a seed that states none.
pub fn default_seed_source_label() -> (s: String)
    ensures
        s@ == "seed"@,
{
    "seed".to_owned()
}

/// The currency of a cost that states none.
pub fn default_seed_currency() -> (s: String)
    ensures
        s@ == "USD"@,
{
    "USD".to_owned()
}

/// The period of a cost that states none.
pub fn default_seed_period() -> (s: String)
    ensures
        s@ == "month"@,
{
    "month".to_owned()
}

/// Whether `s` names a pace stage.
pub open spec fn is_pace_stage(s: Seq<char>) -> bool {
    ||| s == "on_track"@
    ||| s == "slightly_ahead"@
    ||| s == "ahead"@
    ||| s == "far_ahead"@
    ||| s == "slightly_behind"@
    ||| s == "behind"@
    ||| s == "far_behind"@
}

/// The pace stage that `raw` names; `None` where it names none.
pub fn pace_stage_from_seed(raw: &str) -> (stage: Option<&'static str>)
    ensures
        text::str_view(stage) == if is_pace_stage(raw@) {
            Some(raw@)
        } else {
            None
        },
{
    if text::same(raw, "on_track") {
        Some("on_track")
    } else if text::same(raw, "slightly_ahead") {
        Some("slightly_ahead")
    } else if text::same(raw, "ahead") {
        Some("ahead")
    } else if text::same(raw, "far_ahead") {
        Some("far_ahead")
    } else if text::same(raw, "slightly_behind") {
        Some("slightly_behind")
    } else if text::same(raw, "behind") {
        Some("behind")
    } else if text::same(raw, "far_behind") {
        Some("far_behind")
    } else {
        None
    }
}

/// `window` carries what `seed` states. Where the seed states no remaining percentage, it is what
/// `complement` gives for the used one.
pub open spec fn window_bridged<N, C: Fn(&N) -> N>(
    seed: SeedRateWindow<N>,
    complement: C,
    window: RateWindowSnapshot<N>,
) -> bool {
    &&& window.used_percent == seed.used_percent
    &&& match seed.remaining_percent {
        Some(remaining) => window.remaining_percent == remaining,
        None => call_ensures(complement, (&seed.used_percent,), window.remaining_percent),
    }
    &&& window.window_minutes == seed.window_minutes
    &&& window.resets_at == seed.resets_at
    &&& window.reset_description == seed.reset_description
    &&& window.is_exhausted == seed.is_exhausted
    &&& window.is_informational == seed.is_informational
    &&& window.reserve_percent == seed.reserve_percent
    &&& window.reserve_description == seed.reserve_description
    &&& window.reserve_will_last_to_reset == seed.reserve_will_last_to_reset
    &&& window.reserve_eta_seconds == seed.reserve_eta_seconds
}

/// `complement` can be called for this window, if it has to be.
pub open spec fn window_bridgeable<N, C: Fn(&N) -> N>(
    seed: SeedRateWindow<N>,
    complement: C,
) -> bool {
    seed.remaining_percent is None ==> call_requires(complement, (&seed.used_percent,))
}

impl<N> SeedRateWindow<N> {
    /// The rate window of a snapshot that this one stands for. `complement` gives the percentage
    /// that remains of a whole when the given one is used.
    pub fn into_bridge<C: Fn(&N) -> N>(self, complement: &C) -> (window: RateWindowSnapshot<N>)
        requires
            window_bridgeable(self, *complement),
        ensures
            window_bridged(self, *complement, window),
    {
        let remaining_percent = match self.remaining_percent {
            Some(remaining) => remaining,
            None => complement(&self.used_percent),
        };
        RateWindowSnapshot {
            used_percent: self.used_percent,
            remaining_percent,
            window_minutes: self.window_minutes,
            resets_at: self.resets_at,
            reset_description: self.reset_description,
            is_exhausted: self.is_exhausted,
            is_informational: self.is_informational,
            reserve_percent: self.reserve_percent,
            reserve_description: self.reserve_description,
            reserve_will_last_to_reset: self.reserve_will_last_to_reset,
            reserve_eta_seconds: self.reserve_eta_seconds,
        }
    }
}

/// The optional window carries what the optional seed states, and is there where that is.
pub open spec fn optional_window_bridged<N, C: Fn(&N) -> N>(
    seed: Option<SeedRateWindow<N>>,
    complement: C,
    window: Option<RateWindowSnapshot<N>>,
) -> bool {
    match (seed, window) {
        (Some(seed), Some(window)) => window_bridged(seed, complement, window),
        (None, None) => true,
        _ => false,
    }
}

/// `complement` can be called for this window, if there is one and it has to be.
pub open spec fn optional_window_bridgeable<N, C: Fn(&N) -> N>(
    seed: Option<SeedRateWindow<N>>,
    complement: C,
) -> bool {
    seed matches Some(seed) ==> window_bridgeable(seed, complement)
}

/// The optional rate window that an optional seed stands for.
fn bridge_optional_window<N, C: Fn(&N) -> N>(
    seed: Option<SeedRateWindow<N>>,
    complement: &C,
) -> (window: Option<RateWindowSnapshot<N>>)
    requires
        optional_window_bridgeable(seed, *complement),
    ensures
        optional_window_bridged(seed, *complement, window),
{
    match seed {
        Some(seed) => Some(seed.into_bridge(complement)),
        None => None,
    }
}

/// The named window carries what the seed states, under the same name.
pub open spec fn named_window_bridged<N, C: Fn(&N) -> N>(
    seed: SeedNamedRateWindow<N>,
    complement: C,
    named: NamedRateWindowSnapshot<N>,
) -> bool {
    &&& named.id == seed.id
    &&& named.title == seed.title
    &&& window_bridged(seed.window, complement, named.window)
}

/// The named windows carry what the seeds state, one for one and in the same order.
pub open spec fn named_windows_bridged<N, C: Fn(&N) -> N>(
    seeds: Seq<SeedNamedRateWindow<N>>,
    complement: C,
    named: Seq<NamedRateWindowSnapshot<N>>,
) -> bool {
    &&& named.len() == seeds.len()
    &&& forall|i: int|
        0 <= i < seeds.len() ==> #[trigger] named_window_bridged(seeds[i], complement, named[i])
}

/// `complement` can be called for each of these windows for which it has to be.
pub open spec fn named_windows_bridgeable<N, C: Fn(&N) -> N>(
    seeds: Seq<SeedNamedRateWindow<N>>,
    complement: C,
) -> bool {
    forall|i: int|
        0 <= i < seeds.len() ==> #[trigger] window_bridgeable(seeds[i].window, complement)
}

/// The named rate windows that the seeds stand for.
fn bridge_named_windows<N, C: Fn(&N) -> N>(
    seeds: Vec<SeedNamedRateWindow<N>>,
    complement: &C,
) -> (named: Vec<NamedRateWindowSnapshot<N>>)
    requires
        named_windows_bridgeable(seeds@, *complement),
    ensures
        named_windows_bridged(seeds@, *complement, named@),
{
    let ghost all = seeds@;
    let mut named: Vec<NamedRateWindowSnapshot<N>> = Vec::new();
    for seed in it: seeds.into_iter()
        invariant
            it.seq() == all,
            named_windows_bridgeable(all, *complement),
            named.len() == it.index(),
            forall|i: int|
                0 <= i < named.len() ==> #[trigger] named_window_bridged(
                    all[i],
                    *complement,
                    named[i],
                ),
    {
        assert(window_bridgeable(all[it.index()].window, *complement));
        let next = NamedRateWindowSnapshot {
            id: seed.id,
            title: seed.title,
            window: seed.window.into_bridge(complement),
        };
        named.push(next);
    }
    named
}

/// `cost` carries what `seed` states. Where the seed states no text for the used amount, the text is
/// a dollar sign and what `two_decimals` gives for it.
pub open spec fn cost_bridged<N, D: Fn(&N) -> String>(
    seed: SeedCost<N>,
    two_decimals: D,
    cost: CostSnapshotBridge<N>,
) -> bool {
    &&& cost.used == seed.used
    &&& cost.limit == seed.limit
    &&& cost.remaining == seed.remaining
    &&& cost.currency_code == seed.currency_code
    &&& cost.period == seed.period
    &&& cost.resets_at == seed.resets_at
    &&& match seed.formatted_used {
        Some(formatted) => cost.formatted_used == formatted,
        None => exists|amount: String| #[trigger]
            call_ensures(two_decimals, (&seed.used,), amount) && cost.formatted_used@ == "$"@
                + amount@,
    }
    &&& cost.formatted_limit == seed.formatted_limit
    &&& cost.balance == seed.balance
    &&& cost.formatted_balance == seed.formatted_balance
}

/// `two_decimals` can be called for this cost, if it has to be.
pub open spec fn cost_bridgeable<N, D: Fn(&N) -> String>(
    seed: SeedCost<N>,
    two_decimals: D,
) -> bool {
    seed.formatted_used is None ==> call_requires(two_decimals, (&seed.used,))
}

impl<N> SeedCost<N> {
    /// The cost of a snapshot that this one stands for. `two_decimals` writes an amount with two
    /// decimals.
    pub fn into_bridge<D: Fn(&N) -> String>(self, two_decimals: &D) -> (cost: CostSnapshotBridge<N>)
        requires
            cost_bridgeable(self, *two_decimals),
        ensures
            cost_bridged(self, *two_decimals, cost),
    {
        let formatted_used = match self.formatted_used {
            Some(formatted) => formatted,
            None => {
                let amount = two_decimals(&self.used);
                "$".to_owned().concat(amount.as_str())
            },
        };
        CostSnapshotBridge {
            used: self.used,
            limit: self.limit,
            remaining: self.remaining,
            currency_code: self.currency_code,
            period: self.period,
            resets_at: self.resets_at,
            formatted_used,
            formatted_limit: self.formatted_limit,
            balance: self.balance,
            formatted_balance: self.formatted_balance,
        }
    }
}

/// The optional cost carries what the optional seed states, and is there where that is.
pub open spec fn optional_cost_bridged<N, D: Fn(&N) -> String>(
    seed: Option<SeedCost<N>>,
    two_decimals: D,
    cost: Option<CostSnapshotBridge<N>>,
) -> bool {
    match (seed, cost) {
        (Some(seed), Some(cost)) => cost_bridged(seed, two_decimals, cost),
        (None, None) => true,
        _ => false,
    }
}

/// The pace carries what the seed states, and is there where the seed states one with a known stage.
pub open spec fn pace_bridged<N>(
    seed: Option<SeedPace<N>>,
    pace: Option<PaceSnapshot<N>>,
) -> bool {
    match (seed, pace) {
        (Some(seed), Some(pace)) => {
            &&& is_pace_stage(seed.stage@)
            &&& pace.stage@ == seed.stage@
            &&& pace.delta_percent == seed.delta_percent
            &&& pace.will_last_to_reset == seed.will_last_to_reset
            &&& pace.eta_seconds == seed.eta_seconds
            &&& pace.expected_used_percent == seed.expected_used_percent
            &&& pace.actual_used_percent == seed.actual_used_percent
        },
        (Some(seed), None) => !is_pace_stage(seed.stage@),
        (None, None) => true,
        (None, Some(_)) => false,
    }
}

impl<N> SeedPace<N> {
    /// The pace of a snapshot that this one stands for; none where its stage is unknown.
    pub fn into_bridge(self) -> (pace: Option<PaceSnapshot<N>>)
        ensures
            pace_bridged(Some(self), pace),
    {
        match pace_stage_from_seed(self.stage.as_str()) {
            Some(stage) => Some(
                PaceSnapshot {
                    stage,
                    delta_percent: self.delta_percent,
                    will_last_to_reset: self.will_last_to_reset,
                    eta_seconds: self.eta_seconds,
                    expected_used_percent: self.expected_used_percent,
                    actual_used_percent: self.actual_used_percent,
                },
            ),
            None => None,
        }
    }
}

/// `snapshot` carries what `seed` states. It was last updated when the seed says, or at
/// `launch_time` where the seed does not say, and has nothing of what only a live provider reports.
pub open spec fn snapshot_bridged<N, W, S, C: Fn(&N) -> N, D: Fn(&N) -> String>(
    seed: SeedProviderUsageSnapshot<N>,
    launch_time: Seq<char>,
    complement: C,
    two_decimals: D,
    snapshot: ProviderUsageSnapshot<N, W, S>,
) -> bool {
    &&& snapshot.provider_id == seed.provider_id
    &&& snapshot.display_name == seed.display_name
    &&& window_bridged(seed.primary, complement, snapshot.primary)
    &&& snapshot.primary_label == seed.primary_label
    &&& optional_window_bridged(seed.secondary, complement, snapshot.secondary)
    &&& snapshot.secondary_label == seed.secondary_label
    &&& optional_window_bridged(seed.model_specific, complement, snapshot.model_specific)
    &&& optional_window_bridged(seed.tertiary, complement, snapshot.tertiary)
    &&& snapshot.tertiary_label == seed.tertiary_label
    &&& named_windows_bridged(
        seed.extra_rate_windows@,
        complement,
        snapshot.extra_rate_windows@,
    )
    &&& optional_cost_bridged(seed.cost, two_decimals, snapshot.cost)
    &&& snapshot.plan_name == seed.plan_name
    &&& snapshot.account_email == seed.account_email
    &&& snapshot.source_label == seed.source_label
    &&& match seed.updated_at {
        Some(updated_at) => snapshot.updated_at == updated_at,
        None => snapshot.updated_at@ == launch_time,
    }
    &&& snapshot.error == seed.error
    &&& pace_bridged(seed.pace, snapshot.pace)
    &&& snapshot.account_organization == seed.account_organization
    &&& snapshot.tray_status_label == seed.tray_status_label
    &&& snapshot.fetch_duration_ms is None
    &&& snapshot.wayfinder_usage is None
    &&& snapshot.session_equivalent_forecast is None
}

/// `complement` and `two_decimals` can be called wherever this seed needs them.
pub open spec fn seed_bridgeable<N, C: Fn(&N) -> N, D: Fn(&N) -> String>(
    seed: SeedProviderUsageSnapshot<N>,
    complement: C,
    two_decimals: D,
) -> bool {
    &&& window_bridgeable(seed.primary, complement)
    &&& optional_window_bridgeable(seed.secondary, complement)
    &&& optional_window_bridgeable(seed.model_specific, complement)
    &&& optional_window_bridgeable(seed.tertiary, complement)
    &&& named_windows_bridgeable(seed.extra_rate_windows@, complement)
    &&& seed.cost matches Some(cost) ==> cost_bridgeable(cost, two_decimals)
}

impl<N> SeedProviderUsageSnapshot<N> {
    /// The snapshot that the seed stands for when it is planted at `launch_time`.
    pub fn into_bridge_at<W, S, C: Fn(&N) -> N, D: Fn(&N) -> String>(
        self,
        launch_time: String,
        complement: &C,
        two_decimals: &D,
    ) -> (snapshot: ProviderUsageSnapshot<N, W, S>)
        requires
            seed_bridgeable(self, *complement, *two_decimals),
        ensures
            snapshot_bridged(self, launch_time@, *complement, *two_decimals, snapshot),
    {
        let cost = match self.cost {
            Some(cost) => Some(cost.into_bridge(two_decimals)),
            None => None,
        };
        let pace = match self.pace {
            Some(pace) => pace.into_bridge(),
            None => None,
        };
        let updated_at = match self.updated_at {
            Some(updated_at) => updated_at,
            None => launch_time,
        };
        ProviderUsageSnapshot {
            provider_id: self.provider_id,
            display_name: self.display_name,
            primary: self.primary.into_bridge(complement),
            primary_label: self.primary_label,
            secondary: bridge_optional_window(self.secondary, complement),
            secondary_label: self.secondary_label,
            model_specific: bridge_optional_window(self.model_specific, complement),
            tertiary: bridge_optional_window(self.tertiary, complement),
            tertiary_label: self.tertiary_label,
            extra_rate_windows: bridge_named_windows(self.extra_rate_windows, complement),
            cost,
            plan_name: self.plan_name,
            account_email: self.account_email,
            source_label: self.source_label,
            updated_at,
            error: self.error,
            pace,
            account_organization: self.account_organization,
            tray_status_label: self.tray_status_label,
            fetch_duration_ms: None,
            wayfinder_usage: None,
            session_equivalent_forecast: None,
        }
    }

    /// The snapshot that the seed stands for when it is planted now. The clock is read only where
    /// the seed does not say when it was updated.
    pub fn into_bridge<W, S, C: Fn(&N) -> N, D: Fn(&N) -> String>(
        self,
        complement: &C,
        two_decimals: &D,
    ) -> (snapshot: ProviderUsageSnapshot<N, W, S>)
        requires
            seed_bridgeable(self, *complement, *two_decimals),
        ensures
            snapshot_bridged(self, snapshot.updated_at@, *complement, *two_decimals, snapshot),
            self.updated_at is None ==> clock::is_utc_rfc3339(snapshot.updated_at@),
    {
        let launch_time = match &self.updated_at {
            Some(updated_at) => updated_at.clone(),
            None => clock::utc_now_rfc3339(),
        };
        self.into_bridge_at(launch_time, complement, two_decimals)
    }
}

/// The seed file, as far as it could be read.
#[derive(Debug)]
pub enum SeedFile<N> {
    /// The variable is unset.
    Unset,
    /// The file that it names cannot be read.
    Unreadable,
    /// The file holds no seed.
    Malformed,
    /// The file holds this seed.
    Parsed(SeedProviderUsageSnapshot<N>),
}

impl<N> SeedFile<N> {
    /// Whether the file holds a seed for the Codex provider.
    pub open spec fn is_codex_seed(self) -> bool {
        self matches SeedFile::Parsed(seed) && seed.provider_id@ == "codex"@
    }
}

/// The seed to plant: that of the file, where it is for the Codex provider.
pub fn codex_seed<N>(file: SeedFile<N>) -> (seed: Option<SeedProviderUsageSnapshot<N>>)
    ensures
        seed is Some == file.is_codex_seed(),
        seed matches Some(seed) ==> file == SeedFile::Parsed(seed),
{
    match file {
        SeedFile::Parsed(seed) => if text::same(seed.provider_id.as_str(), "codex") {
            Some(seed)
        } else {
            None
        },
        _ => None,
    }
}

/// The snapshot to seed the provider cache with, planted now: none where the variable is unset, the
/// file is unreadable or malformed, or the seed is not for the Codex provider.
pub fn seed_usage_snapshot_from_env<N, W, S, C: Fn(&N) -> N, D: Fn(&N) -> String>(
    file: SeedFile<N>,
    complement: &C,
    two_decimals: &D,
) -> (snapshot: Option<ProviderUsageSnapshot<N, W, S>>)
    requires
        file.is_codex_seed() ==> seed_bridgeable(file->Parsed_0, *complement, *two_decimals),
    ensures
        snapshot is Some == file.is_codex_seed(),
        snapshot matches Some(snapshot) ==> {
            &&& snapshot_bridged(
                file->Parsed_0,
                snapshot.updated_at@,
                *complement,
                *two_decimals,
                snapshot,
            )
            &&& file->Parsed_0.updated_at is None ==> clock::is_utc_rfc3339(snapshot.updated_at@)
            &&& snapshot.provider_id@ == "codex"@
        },
{
    match codex_seed(file) {
        Some(seed) => Some(seed.into_bridge(complement, two_decimals)),
        None => None,
    }
}

/// A seed determines the rate windows of its snapshot: where `complement` gives one result for each
/// percentage, one window is all that a seed can stand for.
pub proof fn law_window_is_determined<N, C: Fn(&N) -> N>(
    seed: SeedRateWindow<N>,
    complement: C,
    one: RateWindowSnapshot<N>,
    other: RateWindowSnapshot<N>,
)
    requires
        forall|used: &N, a: N, b: N|
            call_ensures(complement, (used,), a) && call_ensures(complement, (used,), b) ==> a == b,
        window_bridged(seed, complement, one),
        window_bridged(seed, complement, other),
    ensures
        one == other,
{
}

/// A window that states what remains is carried over whatever `complement` does.
pub proof fn law_stated_remainder_is_kept<N, C: Fn(&N) -> N, E: Fn(&N) -> N>(
    seed: SeedRateWindow<N>,
    complement: C,
    other: E,
    window: RateWindowSnapshot<N>,
)
    requires
        seed.remaining_percent is Some,
    ensures
        window_bridgeable(seed, complement),
        window_bridged(seed, complement, window) <==> window_bridged(seed, other, window),
{
}

/// A seed that says when it was updated stands for the same snapshots whenever it is planted; one
/// that does not say stands for snapshots updated when it was planted.
pub proof fn law_launch_time_is_a_default<N, W, S, C: Fn(&N) -> N, D: Fn(&N) -> String>(
    seed: SeedProviderUsageSnapshot<N>,
    launch_time: Seq<char>,
    other_time: Seq<char>,
    complement: C,
    two_decimals: D,
    snapshot: ProviderUsageSnapshot<N, W, S>,
)
    requires
        snapshot_bridged(seed, launch_time, complement, two_decimals, snapshot),
    ensures
        seed.updated_at is Some ==> snapshot_bridged(
            seed,
            other_time,
            complement,
            two_decimals,
            snapshot,
        ),
        seed.updated_at is None ==> snapshot.updated_at@ == launch_time,
{
}

} // verus!
