//! What holds of every snapshot that a seed is turned into, field by field.
use crate::seed::{
    codex_seed, default_seed_currency, default_seed_display_name, default_seed_period,
    default_seed_source_label, pace_stage_from_seed, seed_usage_snapshot_from_env,
    CostSnapshotBridge, PaceSnapshot, ProviderUsageSnapshot, RateWindowSnapshot, SeedCost, SeedFile,
    SeedPace, SeedProviderUsageSnapshot, SeedRateWindow,
};
use vstd::prelude::*;

verus! {

/// Whether `snapshot` is a result of planting `seed`: at `launch_time`, now, or from a file.
pub open spec fn is_planted<N, W, S, C: Fn(&N) -> N, D: Fn(&N) -> String>(
    seed: SeedProviderUsageSnapshot<N>,
    launch_time: String,
    complement: &C,
    two_decimals: &D,
    snapshot: ProviderUsageSnapshot<N, W, S>,
) -> bool {
    ||| call_ensures(
        SeedProviderUsageSnapshot::<N>::into_bridge_at::<W, S, C, D>,
        (seed, launch_time, complement, two_decimals),
        snapshot,
    )
    ||| call_ensures(
        SeedProviderUsageSnapshot::<N>::into_bridge::<W, S, C, D>,
        (seed, complement, two_decimals),
        snapshot,
    )
    ||| call_ensures(
        seed_usage_snapshot_from_env::<N, W, S, C, D>,
        (SeedFile::Parsed(seed), complement, two_decimals),
        Some(snapshot),
    )
}

/// Every rate window carries what its seed states: the numbers, the texts and each flag as the seed
/// has them, and as what remains the stated percentage or, without one, the complement of the used
/// one.
pub proof fn law_window_states_what_its_seed_states<N, C: Fn(&N) -> N>(
    seed: SeedRateWindow<N>,
    complement: &C,
    window: RateWindowSnapshot<N>,
)
    requires
        call_ensures(SeedRateWindow::<N>::into_bridge::<C>, (seed, complement), window),
    ensures
        window.is_exhausted <==> seed.is_exhausted,
        window.is_informational <==> seed.is_informational,
        window.reserve_will_last_to_reset <==> seed.reserve_will_last_to_reset,
        window.used_percent == seed.used_percent,
        seed.remaining_percent matches Some(remaining) ==> window.remaining_percent == remaining,
        seed.remaining_percent is None ==> call_ensures(
            *complement,
            (&seed.used_percent,),
            window.remaining_percent,
        ),
        window.window_minutes == seed.window_minutes,
        window.resets_at == seed.resets_at,
        window.reset_description == seed.reset_description,
        window.reserve_percent == seed.reserve_percent,
        window.reserve_description == seed.reserve_description,
        window.reserve_eta_seconds == seed.reserve_eta_seconds,
{
}

/// Two seeds that give the same rate window state the same: no field of a seed but a missing
/// remainder is lost.
pub proof fn law_windows_tell_their_seeds_apart<N, C: Fn(&N) -> N>(
    one: SeedRateWindow<N>,
    other: SeedRateWindow<N>,
    complement: &C,
    window: RateWindowSnapshot<N>,
)
    requires
        call_ensures(SeedRateWindow::<N>::into_bridge::<C>, (one, complement), window),
        call_ensures(SeedRateWindow::<N>::into_bridge::<C>, (other, complement), window),
        one.remaining_percent is Some == other.remaining_percent is Some,
    ensures
        one == other,
{
}

/// The same holds of every rate window of a snapshot, the further ones among them. `seed_window` and
/// `window` are the two windows that stand in one place.
pub proof fn law_windows_of_a_snapshot_state_what_their_seeds_state<
    N,
    W,
    S,
    C: Fn(&N) -> N,
    D: Fn(&N) -> String,
>(
    seed: SeedProviderUsageSnapshot<N>,
    launch_time: String,
    complement: &C,
    two_decimals: &D,
    snapshot: ProviderUsageSnapshot<N, W, S>,
    i: int,
    seed_window: SeedRateWindow<N>,
    window: RateWindowSnapshot<N>,
)
    requires
        is_planted(seed, launch_time, complement, two_decimals, snapshot),
        ({
            ||| seed_window == seed.primary && window == snapshot.primary
            ||| seed.secondary == Some(seed_window) && snapshot.secondary == Some(window)
            ||| seed.model_specific == Some(seed_window) && snapshot.model_specific == Some(window)
            ||| seed.tertiary == Some(seed_window) && snapshot.tertiary == Some(window)
            ||| 0 <= i < seed.extra_rate_windows@.len() && seed_window
                == seed.extra_rate_windows@[i].window && window
                == snapshot.extra_rate_windows@[i].window
        }),
    ensures
        window.is_exhausted <==> seed_window.is_exhausted,
        window.is_informational <==> seed_window.is_informational,
        window.reserve_will_last_to_reset <==> seed_window.reserve_will_last_to_reset,
        window.used_percent == seed_window.used_percent,
        seed_window.remaining_percent matches Some(remaining) ==> window.remaining_percent
            == remaining,
        seed_window.remaining_percent is None ==> call_ensures(
            *complement,
            (&seed_window.used_percent,),
            window.remaining_percent,
        ),
        window.window_minutes == seed_window.window_minutes,
        window.resets_at == seed_window.resets_at,
        window.reset_description == seed_window.reset_description,
        window.reserve_percent == seed_window.reserve_percent,
        window.reserve_description == seed_window.reserve_description,
        window.reserve_eta_seconds == seed_window.reserve_eta_seconds,
{
    if 0 <= i < seed.extra_rate_windows@.len() {
        assert(crate::seed::named_window_bridged(
            seed.extra_rate_windows@[i],
            *complement,
            snapshot.extra_rate_windows@[i],
        ));
    }
}

/// A snapshot has the rate windows that its seed has: each of the optional ones where the seed has
/// it, and the further ones one for one, in order and under their names.
pub proof fn law_snapshot_has_the_windows_of_its_seed<
    N,
    W,
    S,
    C: Fn(&N) -> N,
    D: Fn(&N) -> String,
>(
    seed: SeedProviderUsageSnapshot<N>,
    launch_time: String,
    complement: &C,
    two_decimals: &D,
    snapshot: ProviderUsageSnapshot<N, W, S>,
    i: int,
)
    requires
        is_planted(seed, launch_time, complement, two_decimals, snapshot),
    ensures
        snapshot.secondary is Some <==> seed.secondary is Some,
        snapshot.model_specific is Some <==> seed.model_specific is Some,
        snapshot.tertiary is Some <==> seed.tertiary is Some,
        snapshot.extra_rate_windows@.len() == seed.extra_rate_windows@.len(),
        0 <= i < seed.extra_rate_windows@.len() ==> {
            &&& snapshot.extra_rate_windows@[i].id == seed.extra_rate_windows@[i].id
            &&& snapshot.extra_rate_windows@[i].title == seed.extra_rate_windows@[i].title
        },
{
    if 0 <= i < seed.extra_rate_windows@.len() {
        assert(crate::seed::named_window_bridged(
            seed.extra_rate_windows@[i],
            *complement,
            snapshot.extra_rate_windows@[i],
        ));
    }
}

/// Every cost carries what its seed states, the currency among it, and its used amount is written as
/// the seed writes it or, where the seed does not, as a dollar sign and the amount with two decimals.
pub proof fn law_cost_states_what_its_seed_states<N, D: Fn(&N) -> String>(
    seed: SeedCost<N>,
    two_decimals: &D,
    cost: CostSnapshotBridge<N>,
)
    requires
        call_ensures(SeedCost::<N>::into_bridge::<D>, (seed, two_decimals), cost),
    ensures
        cost.currency_code == seed.currency_code,
        cost.period == seed.period,
        cost.used == seed.used,
        cost.limit == seed.limit,
        cost.remaining == seed.remaining,
        cost.resets_at == seed.resets_at,
        cost.formatted_limit == seed.formatted_limit,
        cost.balance == seed.balance,
        cost.formatted_balance == seed.formatted_balance,
        seed.formatted_used matches Some(written) ==> cost.formatted_used == written,
        seed.formatted_used is None ==> exists|amount: String| #[trigger]
            call_ensures(*two_decimals, (&seed.used,), amount) && cost.formatted_used@ =~= seq!['$']
                + amount@,
{
    reveal_strlit("$");
    assert("$"@ =~= seq!['$']);
}

/// Two seeds of a cost that differ in what they state, such as in the currency, give costs that
/// differ: no field of a seed but a missing text is lost.
pub proof fn law_costs_tell_their_seeds_apart<N, D: Fn(&N) -> String>(
    one: SeedCost<N>,
    other: SeedCost<N>,
    two_decimals: &D,
    cost: CostSnapshotBridge<N>,
)
    requires
        call_ensures(SeedCost::<N>::into_bridge::<D>, (one, two_decimals), cost),
        call_ensures(SeedCost::<N>::into_bridge::<D>, (other, two_decimals), cost),
        one.formatted_used is Some == other.formatted_used is Some,
    ensures
        one == other,
{
}

/// A snapshot has a cost where its seed has one, and the cost carries what the seed of it states.
pub proof fn law_cost_of_a_snapshot_states_what_its_seed_states<
    N,
    W,
    S,
    C: Fn(&N) -> N,
    D: Fn(&N) -> String,
>(
    seed: SeedProviderUsageSnapshot<N>,
    launch_time: String,
    complement: &C,
    two_decimals: &D,
    snapshot: ProviderUsageSnapshot<N, W, S>,
)
    requires
        is_planted(seed, launch_time, complement, two_decimals, snapshot),
    ensures
        snapshot.cost is Some <==> seed.cost is Some,
        snapshot.cost matches Some(cost) ==> {
            let stated = seed.cost->0;
            &&& cost.currency_code == stated.currency_code
            &&& cost.period == stated.period
            &&& cost.used == stated.used
            &&& cost.limit == stated.limit
            &&& cost.remaining == stated.remaining
            &&& cost.resets_at == stated.resets_at
            &&& cost.formatted_limit == stated.formatted_limit
            &&& cost.balance == stated.balance
            &&& cost.formatted_balance == stated.formatted_balance
            &&& stated.formatted_used matches Some(written) ==> cost.formatted_used == written
            &&& stated.formatted_used is None ==> exists|amount: String| #[trigger]
                call_ensures(*two_decimals, (&stated.used,), amount) && cost.formatted_used@
                    =~= seq!['$'] + amount@
        },
{
    reveal_strlit("$");
    assert("$"@ =~= seq!['$']);
}

/// Whether `s` is one of the seven pace stages.
pub open spec fn is_stage(s: Seq<char>) -> bool {
    s == "on_track"@ || s == "slightly_ahead"@ || s == "ahead"@ || s == "far_ahead"@ || s
        == "slightly_behind"@ || s == "behind"@ || s == "far_behind"@
}

/// Each of the seven pace stages is read as itself, and no other text is read as a stage.
pub proof fn law_each_stage_is_read_as_itself(raw: &str, stage: Option<&'static str>)
    requires
        call_ensures(pace_stage_from_seed, (raw,), stage),
    ensures
        call_requires(pace_stage_from_seed, (raw,)),
        stage is Some <==> is_stage(raw@),
        stage matches Some(stage) ==> stage@ == raw@,
{
}

/// Every pace with a known stage is kept, and carries what its seed states; any other is dropped.
pub proof fn law_pace_states_what_its_seed_states<N>(
    seed: SeedPace<N>,
    pace: Option<PaceSnapshot<N>>,
)
    requires
        call_ensures(SeedPace::<N>::into_bridge, (seed,), pace),
    ensures
        call_requires(SeedPace::<N>::into_bridge, (seed,)),
        pace is Some <==> is_stage(seed.stage@),
        pace matches Some(pace) ==> {
            &&& pace.stage@ == seed.stage@
            &&& pace.delta_percent == seed.delta_percent
            &&& (pace.will_last_to_reset <==> seed.will_last_to_reset)
            &&& pace.eta_seconds == seed.eta_seconds
            &&& pace.expected_used_percent == seed.expected_used_percent
            &&& pace.actual_used_percent == seed.actual_used_percent
        },
{
}

/// A snapshot has a pace where its seed has one with a known stage, and the pace carries what the
/// seed of it states.
pub proof fn law_pace_of_a_snapshot_states_what_its_seed_states<
    N,
    W,
    S,
    C: Fn(&N) -> N,
    D: Fn(&N) -> String,
>(
    seed: SeedProviderUsageSnapshot<N>,
    launch_time: String,
    complement: &C,
    two_decimals: &D,
    snapshot: ProviderUsageSnapshot<N, W, S>,
)
    requires
        is_planted(seed, launch_time, complement, two_decimals, snapshot),
    ensures
        snapshot.pace is Some <==> (seed.pace matches Some(stated) && is_stage(stated.stage@)),
        snapshot.pace matches Some(pace) ==> {
            let stated = seed.pace->0;
            &&& pace.stage@ == stated.stage@
            &&& pace.delta_percent == stated.delta_percent
            &&& (pace.will_last_to_reset <==> stated.will_last_to_reset)
            &&& pace.eta_seconds == stated.eta_seconds
            &&& pace.expected_used_percent == stated.expected_used_percent
            &&& pace.actual_used_percent == stated.actual_used_percent
        },
{
}

/// Every text of a snapshot is that of its seed, and a snapshot from a seed has nothing of what only
/// a live provider reports.
pub proof fn law_snapshot_states_what_its_seed_states<
    N,
    W,
    S,
    C: Fn(&N) -> N,
    D: Fn(&N) -> String,
>(
    seed: SeedProviderUsageSnapshot<N>,
    launch_time: String,
    complement: &C,
    two_decimals: &D,
    snapshot: ProviderUsageSnapshot<N, W, S>,
)
    requires
        is_planted(seed, launch_time, complement, two_decimals, snapshot),
    ensures
        snapshot.provider_id == seed.provider_id,
        snapshot.display_name == seed.display_name,
        snapshot.primary_label == seed.primary_label,
        snapshot.secondary_label == seed.secondary_label,
        snapshot.tertiary_label == seed.tertiary_label,
        snapshot.plan_name == seed.plan_name,
        snapshot.account_email == seed.account_email,
        snapshot.source_label == seed.source_label,
        snapshot.error == seed.error,
        snapshot.account_organization == seed.account_organization,
        snapshot.tray_status_label == seed.tray_status_label,
        seed.updated_at matches Some(updated_at) ==> snapshot.updated_at == updated_at,
        snapshot.fetch_duration_ms is None,
        snapshot.wayfinder_usage is None,
        snapshot.session_equivalent_forecast is None,
{
}

/// A seed that does not say when it was updated is updated when it is planted: at the given time, or
/// at a time in UTC that the clock gives.
pub proof fn law_update_time_defaults_to_planting<N, W, S, C: Fn(&N) -> N, D: Fn(&N) -> String>(
    seed: SeedProviderUsageSnapshot<N>,
    launch_time: String,
    complement: &C,
    two_decimals: &D,
    at: ProviderUsageSnapshot<N, W, S>,
    now: ProviderUsageSnapshot<N, W, S>,
    from_file: ProviderUsageSnapshot<N, W, S>,
)
    requires
        call_ensures(
            SeedProviderUsageSnapshot::<N>::into_bridge_at::<W, S, C, D>,
            (seed, launch_time, complement, two_decimals),
            at,
        ),
        call_ensures(
            SeedProviderUsageSnapshot::<N>::into_bridge::<W, S, C, D>,
            (seed, complement, two_decimals),
            now,
        ),
        call_ensures(
            seed_usage_snapshot_from_env::<N, W, S, C, D>,
            (SeedFile::Parsed(seed), complement, two_decimals),
            Some(from_file),
        ),
        seed.updated_at is None,
    ensures
        at.updated_at@ == launch_time@,
        ends_in_utc(now.updated_at@),
        ends_in_utc(from_file.updated_at@),
{
    lemma_clock_text(now.updated_at@);
    lemma_clock_text(from_file.updated_at@);
}

/// Whether `s` has a date and a time of day, and the offset of UTC at its end.
pub open spec fn ends_in_utc(s: Seq<char>) -> bool {
    &&& s.len() >= 25
    &&& s.contains('T')
    &&& s.skip(s.len() - 6) == seq!['+', '0', '0', ':', '0', '0']
}

/// The text of the clock is that of a time in UTC.
proof fn lemma_clock_text(s: Seq<char>)
    requires
        crate::clock::is_utc_rfc3339(s),
    ensures
        ends_in_utc(s),
{
    reveal_strlit("+00:00");
    let y = choose|y: int| crate::clock::is_utc_rfc3339_with_year(s, y);
    assert(s[y + 6] == 'T');
    assert("+00:00"@ =~= seq!['+', '0', '0', ':', '0', '0']);
}

/// A seed is planted where the file holds one and it is for the Codex provider, and nowhere else;
/// what is planted is the seed of the file.
pub proof fn law_only_codex_seeds_are_planted<N, W, S, C: Fn(&N) -> N, D: Fn(&N) -> String>(
    file: SeedFile<N>,
    complement: &C,
    two_decimals: &D,
    chosen: Option<SeedProviderUsageSnapshot<N>>,
    snapshot: Option<ProviderUsageSnapshot<N, W, S>>,
)
    requires
        call_ensures(codex_seed::<N>, (file,), chosen),
        call_ensures(
            seed_usage_snapshot_from_env::<N, W, S, C, D>,
            (file, complement, two_decimals),
            snapshot,
        ),
    ensures
        call_requires(codex_seed::<N>, (file,)),
        file is Unset || file is Unreadable || file is Malformed ==> chosen is None && snapshot
            is None,
        file matches SeedFile::Parsed(seed) ==> {
            &&& chosen is Some <==> seed.provider_id@ == "codex"@
            &&& snapshot is Some <==> seed.provider_id@ == "codex"@
            &&& chosen matches Some(chosen) ==> chosen == seed
        },
{
}

/// A seed can be planted with functions that can be called on every number.
pub proof fn law_every_seed_can_be_planted<N, W, S, C: Fn(&N) -> N, D: Fn(&N) -> String>(
    seed: SeedProviderUsageSnapshot<N>,
    file: SeedFile<N>,
    launch_time: String,
    complement: &C,
    two_decimals: &D,
    window: SeedRateWindow<N>,
    cost: SeedCost<N>,
)
    requires
        forall|n: &N| #[trigger] call_requires(*complement, (n,)),
        forall|n: &N| #[trigger] call_requires(*two_decimals, (n,)),
    ensures
        call_requires(SeedRateWindow::<N>::into_bridge::<C>, (window, complement)),
        call_requires(SeedCost::<N>::into_bridge::<D>, (cost, two_decimals)),
        call_requires(
            SeedProviderUsageSnapshot::<N>::into_bridge_at::<W, S, C, D>,
            (seed, launch_time, complement, two_decimals),
        ),
        call_requires(
            SeedProviderUsageSnapshot::<N>::into_bridge::<W, S, C, D>,
            (seed, complement, two_decimals),
        ),
        call_requires(
            seed_usage_snapshot_from_env::<N, W, S, C, D>,
            (file, complement, two_decimals),
        ),
{
}

/// What a seed leaves out is filled in with the name of the provider, `seed`, US dollars and a month.
pub proof fn law_left_out_texts_have_their_defaults(
    display_name: String,
    source_label: String,
    currency: String,
    period: String,
)
    requires
        call_ensures(default_seed_display_name, (), display_name),
        call_ensures(default_seed_source_label, (), source_label),
        call_ensures(default_seed_currency, (), currency),
        call_ensures(default_seed_period, (), period),
    ensures
        display_name@ == seq!['C', 'o', 'd', 'e', 'x'],
        source_label@ == seq!['s', 'e', 'e', 'd'],
        currency@ == seq!['U', 'S', 'D'],
        period@ == seq!['m', 'o', 'n', 't', 'h'],
{
    reveal_strlit("Codex");
    reveal_strlit("seed");
    reveal_strlit("USD");
    reveal_strlit("month");
}

} // verus!
