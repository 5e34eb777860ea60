use proof_harness::seed::{
    codex_seed, default_seed_currency, default_seed_display_name, default_seed_period,
    default_seed_source_label, SeedCost, SeedNamedRateWindow, SeedPace, SeedRateWindow,
};
use proof_harness::{
    pace_stage_from_seed, seed_usage_snapshot_from_env, ProviderUsageSnapshot, SeedFile,
    SeedProviderUsageSnapshot, SEED_USAGE_ENV_VAR,
};

type Snapshot = ProviderUsageSnapshot<f64, (), ()>;

fn complement(used: &f64) -> f64 {
    100.0 - used.clamp(0.0, 100.0)
}

fn two_decimals(amount: &f64) -> String {
    format!("{:.2}", amount)
}

fn window(used_percent: f64) -> SeedRateWindow<f64> {
    SeedRateWindow {
        used_percent,
        remaining_percent: None,
        window_minutes: None,
        resets_at: None,
        reset_description: None,
        is_exhausted: false,
        is_informational: false,
        reserve_percent: None,
        reserve_description: None,
        reserve_will_last_to_reset: false,
        reserve_eta_seconds: None,
    }
}

fn named(id: &str, window: SeedRateWindow<f64>) -> SeedNamedRateWindow<f64> {
    SeedNamedRateWindow {
        id: id.into(),
        title: id.to_uppercase(),
        window,
    }
}

fn cost(used: f64) -> SeedCost<f64> {
    SeedCost {
        used,
        limit: Some(50.0),
        remaining: None,
        currency_code: default_seed_currency(),
        period: default_seed_period(),
        resets_at: None,
        formatted_used: None,
        formatted_limit: Some("$50.00".into()),
        balance: Some(3.0),
        formatted_balance: None,
    }
}

fn pace(stage: &str) -> SeedPace<f64> {
    SeedPace {
        stage: stage.into(),
        delta_percent: 1.5,
        will_last_to_reset: true,
        eta_seconds: Some(60.0),
        expected_used_percent: 10.0,
        actual_used_percent: 11.5,
    }
}

fn seed() -> SeedProviderUsageSnapshot<f64> {
    SeedProviderUsageSnapshot {
        provider_id: "codex".into(),
        display_name: default_seed_display_name(),
        primary: SeedRateWindow {
            window_minutes: Some(300),
            resets_at: Some("2099-01-02T03:04:05Z".into()),
            reset_description: Some("seeded 5h".into()),
            ..window(61.0)
        },
        primary_label: Some("Session".into()),
        secondary: Some(SeedRateWindow {
            window_minutes: Some(10080),
            ..window(74.0)
        }),
        secondary_label: Some("Weekly".into()),
        model_specific: None,
        tertiary: None,
        tertiary_label: None,
        extra_rate_windows: vec![SeedNamedRateWindow {
            id: "reset-credits".into(),
            title: "Reset Credits".into(),
            window: SeedRateWindow {
                resets_at: Some("2099-01-09T00:00:00Z".into()),
                reset_description: Some("2 reset credits available".into()),
                is_informational: true,
                ..window(0.0)
            },
        }],
        cost: None,
        plan_name: None,
        account_email: None,
        source_label: default_seed_source_label(),
        updated_at: None,
        error: None,
        pace: None,
        account_organization: None,
        tray_status_label: None,
    }
}

fn bridge(seed: SeedProviderUsageSnapshot<f64>) -> Snapshot {
    seed.into_bridge_at("launch".into(), &complement, &two_decimals)
}

#[test]
fn state_carries_codex_snapshot_from_seed() {
    let seeded: Option<Snapshot> =
        seed_usage_snapshot_from_env(SeedFile::Parsed(seed()), &complement, &two_decimals);
    let cache = vec![seeded.expect("seed parses into a snapshot")];
    assert_eq!(cache.len(), 1);
    let snapshot = &cache[0];
    assert_eq!(snapshot.provider_id, "codex");
    assert_eq!(snapshot.primary.used_percent, 61.0);
    assert_eq!(
        snapshot.primary.resets_at.as_deref(),
        Some("2099-01-02T03:04:05Z")
    );
    assert_eq!(snapshot.primary.remaining_percent, 39.0);
    assert_eq!(snapshot.primary_label.as_deref(), Some("Session"));
    assert_eq!(
        snapshot.secondary.as_ref().map(|s| s.used_percent),
        Some(74.0)
    );
    assert_eq!(snapshot.extra_rate_windows.len(), 1);
    assert_eq!(snapshot.extra_rate_windows[0].id, "reset-credits");
    assert!(snapshot.extra_rate_windows[0].window.is_informational);
}

#[test]
fn only_a_codex_seed_is_planted() {
    let plant = |file| -> Option<Snapshot> {
        seed_usage_snapshot_from_env(file, &complement, &two_decimals)
    };
    assert!(plant(SeedFile::Unset).is_none());
    assert!(plant(SeedFile::Unreadable).is_none());
    assert!(plant(SeedFile::Malformed).is_none());
    for provider_id in ["cursor", "Codex", "codex ", ""] {
        let other = SeedProviderUsageSnapshot {
            provider_id: provider_id.into(),
            ..seed()
        };
        assert!(plant(SeedFile::Parsed(other)).is_none());
    }
    assert!(plant(SeedFile::Parsed(seed())).is_some());
    assert_eq!(codex_seed(SeedFile::Parsed(seed())).unwrap().provider_id, "codex");
}

#[test]
fn update_time_defaults_to_the_clock() {
    let before = chrono::Utc::now();
    let snapshot: Snapshot = seed().into_bridge(&complement, &two_decimals);
    let after = chrono::Utc::now();
    assert!(snapshot.updated_at.ends_with("+00:00"));
    assert_eq!(&snapshot.updated_at[10..11], "T");
    let updated_at = chrono::DateTime::parse_from_rfc3339(&snapshot.updated_at).unwrap();
    assert!(before <= updated_at && updated_at <= after);
}

#[test]
fn stated_update_time_is_kept() {
    let stated = || SeedProviderUsageSnapshot {
        updated_at: Some("2099-01-01T00:00:00Z".into()),
        ..seed()
    };
    assert_eq!(bridge(stated()).updated_at, "2099-01-01T00:00:00Z");
    let snapshot: Snapshot = stated().into_bridge(&complement, &two_decimals);
    assert_eq!(snapshot.updated_at, "2099-01-01T00:00:00Z");
    assert_eq!(bridge(seed()).updated_at, "launch");
}

#[test]
fn stated_remainder_is_kept() {
    let stated = SeedRateWindow {
        remaining_percent: Some(5.0),
        ..window(61.0)
    };
    assert_eq!(stated.into_bridge(&complement).remaining_percent, 5.0);
    assert_eq!(window(61.0).into_bridge(&complement).remaining_percent, 39.0);
    assert_eq!(window(130.0).into_bridge(&complement).remaining_percent, 0.0);
    assert_eq!(window(-4.0).into_bridge(&complement).remaining_percent, 100.0);
}

#[test]
fn every_window_field_is_carried_over() {
    let full = SeedRateWindow {
        used_percent: 1.0,
        remaining_percent: Some(2.0),
        window_minutes: Some(3),
        resets_at: Some("a".into()),
        reset_description: Some("b".into()),
        is_exhausted: true,
        is_informational: true,
        reserve_percent: Some(4.0),
        reserve_description: Some("c".into()),
        reserve_will_last_to_reset: true,
        reserve_eta_seconds: Some(5.0),
    }
    .into_bridge(&complement);
    assert_eq!(full.used_percent, 1.0);
    assert_eq!(full.remaining_percent, 2.0);
    assert_eq!(full.window_minutes, Some(3));
    assert_eq!(full.resets_at.as_deref(), Some("a"));
    assert_eq!(full.reset_description.as_deref(), Some("b"));
    assert!(full.is_exhausted && full.is_informational && full.reserve_will_last_to_reset);
    assert_eq!(full.reserve_percent, Some(4.0));
    assert_eq!(full.reserve_description.as_deref(), Some("c"));
    assert_eq!(full.reserve_eta_seconds, Some(5.0));
}

#[test]
fn every_snapshot_field_is_carried_over() {
    let snapshot = bridge(SeedProviderUsageSnapshot {
        display_name: "name".into(),
        model_specific: Some(window(10.0)),
        tertiary: Some(window(20.0)),
        tertiary_label: Some("third".into()),
        plan_name: Some("plan".into()),
        account_email: Some("mail".into()),
        source_label: "source".into(),
        error: Some("error".into()),
        account_organization: Some("org".into()),
        tray_status_label: Some("tray".into()),
        ..seed()
    });
    assert_eq!(snapshot.display_name, "name");
    assert_eq!(snapshot.secondary_label.as_deref(), Some("Weekly"));
    assert_eq!(snapshot.secondary.unwrap().remaining_percent, 26.0);
    assert_eq!(snapshot.model_specific.unwrap().remaining_percent, 90.0);
    assert_eq!(snapshot.tertiary.unwrap().remaining_percent, 80.0);
    assert_eq!(snapshot.tertiary_label.as_deref(), Some("third"));
    assert_eq!(snapshot.plan_name.as_deref(), Some("plan"));
    assert_eq!(snapshot.account_email.as_deref(), Some("mail"));
    assert_eq!(snapshot.source_label, "source");
    assert_eq!(snapshot.error.as_deref(), Some("error"));
    assert_eq!(snapshot.account_organization.as_deref(), Some("org"));
    assert_eq!(snapshot.tray_status_label.as_deref(), Some("tray"));
    assert!(snapshot.cost.is_none() && snapshot.pace.is_none());
    assert!(snapshot.fetch_duration_ms.is_none());
    assert!(snapshot.wayfinder_usage.is_none());
    assert!(snapshot.session_equivalent_forecast.is_none());
}

#[test]
fn extra_windows_keep_their_order() {
    let snapshot = bridge(SeedProviderUsageSnapshot {
        extra_rate_windows: vec![
            named("b", window(1.0)),
            named("a", window(2.0)),
            named("b", window(3.0)),
        ],
        ..seed()
    });
    let seen: Vec<(&str, &str, f64)> = snapshot
        .extra_rate_windows
        .iter()
        .map(|w| (w.id.as_str(), w.title.as_str(), w.window.remaining_percent))
        .collect();
    assert_eq!(seen, vec![("b", "B", 99.0), ("a", "A", 98.0), ("b", "B", 97.0)]);
}

#[test]
fn used_amount_is_written_in_dollars() {
    let written = cost(12.345).into_bridge(&two_decimals);
    assert_eq!(written.formatted_used, format!("${:.2}", 12.345));
    assert_eq!(written.formatted_used.len(), 6);
    assert_eq!(written.used, 12.345);
    assert_eq!(written.limit, Some(50.0));
    assert_eq!(written.remaining, None);
    assert_eq!(written.currency_code, "USD");
    assert_eq!(written.period, "month");
    assert_eq!(written.formatted_limit.as_deref(), Some("$50.00"));
    assert_eq!(written.balance, Some(3.0));
    assert_eq!(written.formatted_balance, None);
    assert_eq!(cost(-1.5).into_bridge(&two_decimals).formatted_used, "$-1.50");
    let stated = SeedCost {
        formatted_used: Some("12 euro".into()),
        ..cost(12.0)
    };
    assert_eq!(stated.into_bridge(&two_decimals).formatted_used, "12 euro");
    let snapshot = bridge(SeedProviderUsageSnapshot {
        cost: Some(cost(7.0)),
        ..seed()
    });
    assert_eq!(snapshot.cost.unwrap().formatted_used, "$7.00");
}

#[test]
fn pace_needs_a_known_stage() {
    for stage in [
        "on_track",
        "slightly_ahead",
        "ahead",
        "far_ahead",
        "slightly_behind",
        "behind",
        "far_behind",
    ] {
        assert_eq!(pace_stage_from_seed(stage), Some(stage));
        let snapshot = bridge(SeedProviderUsageSnapshot {
            pace: Some(pace(stage)),
            ..seed()
        });
        let pace = snapshot.pace.unwrap();
        assert_eq!(pace.stage, stage);
        assert_eq!(pace.delta_percent, 1.5);
        assert!(pace.will_last_to_reset);
        assert_eq!(pace.eta_seconds, Some(60.0));
        assert_eq!(pace.expected_used_percent, 10.0);
        assert_eq!(pace.actual_used_percent, 11.5);
    }
    for stage in ["", "onTrack", "ahead ", "AHEAD"] {
        assert_eq!(pace_stage_from_seed(stage), None);
        let snapshot = bridge(SeedProviderUsageSnapshot {
            pace: Some(pace(stage)),
            ..seed()
        });
        assert!(snapshot.pace.is_none());
    }
}

#[test]
fn defaults_have_their_values() {
    assert_eq!(default_seed_display_name(), "Codex");
    assert_eq!(default_seed_source_label(), "seed");
    assert_eq!(default_seed_currency(), "USD");
    assert_eq!(default_seed_period(), "month");
    assert_eq!(SEED_USAGE_ENV_VAR, "CODEXBAR_SEED_USAGE_JSON");
}

#[test]
fn a_seed_determines_its_windows() {
    let one = format!("{:?}", window(61.0).into_bridge(&complement));
    let other = format!("{:?}", window(61.0).into_bridge(&complement));
    assert_eq!(one, other);
}
