use proof_harness::config::{split_value, ProofModeRejection};
use proof_harness::{
    activate, is_proof_mode, proof_payload_is_supported, Catalog, ProofConfig, SurfaceMode,
    SurfaceTarget, PROOF_MODE_ENV_VAR,
};

fn catalog() -> Catalog {
    let ids = |ids: &[&str]| ids.iter().map(|id| id.to_string()).collect();
    Catalog {
        settings_tabs: ids(&["general", "menuBar", "usageSpend", "about"]),
        provider_ids: ids(&["codex", "cursor"]),
    }
}

fn from_env(value: Option<&str>) -> Option<ProofConfig> {
    ProofConfig::from_env(value, &catalog())
}

fn rejection(value: &str) -> ProofModeRejection {
    ProofConfig::parse(value, &catalog()).unwrap_err()
}

#[test]
fn parse_simple_surface() {
    let cfg = from_env(Some("trayPanel")).unwrap();
    assert_eq!(cfg.target_surface, "trayPanel");
    assert!(cfg.settings_tab.is_none());
    assert_eq!(cfg.surface_mode(), SurfaceMode::TrayPanel);
}

#[test]
fn parse_settings_with_tab() {
    let cfg = from_env(Some("settings:menuBar")).unwrap();
    assert_eq!(cfg.target_surface, "settings");
    assert_eq!(cfg.settings_tab.as_deref(), Some("menuBar"));
    assert_eq!(cfg.surface_mode(), SurfaceMode::Settings);
    assert_eq!(
        cfg.surface_target(),
        SurfaceTarget::Settings {
            tab: "menuBar".into()
        }
    );
}

#[test]
fn parse_settings_about_proof_target() {
    let cfg = from_env(Some("settings:about")).unwrap();
    assert_eq!(cfg.target_surface, "settings");
    assert_eq!(cfg.settings_tab.as_deref(), Some("about"));
}

#[test]
fn parse_provider_popout_proof_target() {
    let cfg = from_env(Some("popOut:provider:codex")).unwrap();
    assert_eq!(cfg.target_surface, "popOut");
    assert_eq!(cfg.target_payload.as_deref(), Some("provider:codex"));
    assert_eq!(
        cfg.surface_target(),
        SurfaceTarget::Provider {
            provider_id: "codex".into()
        }
    );
}

#[test]
fn empty_env_returns_none() {
    assert!(from_env(Some("")).is_none());
}

#[test]
fn unset_env_returns_none() {
    assert!(from_env(None).is_none());
}

#[test]
fn invalid_surface_returns_none() {
    assert!(from_env(Some("bogus")).is_none());
}

#[test]
fn invalid_settings_tab_returns_none() {
    assert!(from_env(Some("settings:security")).is_none());
}

#[test]
fn invalid_provider_target_returns_none() {
    assert!(from_env(Some("popOut:provider:not-a-provider")).is_none());
}

#[test]
fn pop_out_surface() {
    let cfg = from_env(Some("popOut")).unwrap();
    assert_eq!(cfg.surface_mode(), SurfaceMode::PopOut);
    assert_eq!(cfg.surface_target(), SurfaceTarget::Dashboard);
}

#[test]
fn each_rejection_has_its_input() {
    assert_eq!(rejection(""), ProofModeRejection::Blank);
    assert_eq!(rejection(" \t\u{3000}"), ProofModeRejection::Blank);
    assert_eq!(rejection("bogus"), ProofModeRejection::UnknownSurface);
    assert_eq!(rejection("TrayPanel"), ProofModeRejection::UnknownSurface);
    assert_eq!(rejection(":menuBar"), ProofModeRejection::UnknownSurface);
    assert_eq!(rejection("settings :menuBar"), ProofModeRejection::UnknownSurface);
    assert_eq!(rejection("settings:"), ProofModeRejection::UnsupportedTarget);
    assert_eq!(rejection("settings: menuBar"), ProofModeRejection::UnsupportedTarget);
    assert_eq!(rejection("popOut:settings:about"), ProofModeRejection::UnsupportedTarget);
    assert_eq!(rejection("popOut:summary"), ProofModeRejection::UnsupportedTarget);
    assert_eq!(rejection("popOut:nowhere"), ProofModeRejection::UnsupportedTarget);
}

#[test]
fn surrounding_white_space_is_ignored() {
    let cfg = from_env(Some("\u{a0} settings:about \n")).unwrap();
    assert_eq!(cfg.target_surface, "settings");
    assert_eq!(cfg.settings_tab.as_deref(), Some("about"));
    assert_eq!(cfg.target_payload.as_deref(), Some("about"));
}

#[test]
fn bare_settings_open_on_the_general_tab() {
    let cfg = from_env(Some("settings")).unwrap();
    assert!(cfg.settings_tab.is_none());
    assert_eq!(
        cfg.surface_target(),
        SurfaceTarget::Settings {
            tab: "general".into()
        }
    );
}

#[test]
fn pop_out_takes_the_dashboard() {
    let cfg = from_env(Some("popOut:dashboard")).unwrap();
    assert_eq!(cfg.surface_target(), SurfaceTarget::Dashboard);
    assert!(cfg.settings_tab.is_none());
}

#[test]
fn panel_takes_no_payload() {
    assert_eq!(rejection("trayPanel:codex"), ProofModeRejection::UnsupportedTarget);
    assert_eq!(rejection("hidden:"), ProofModeRejection::UnsupportedTarget);
    assert_eq!(from_env(Some("hidden")).unwrap().surface_target(), SurfaceTarget::Summary);
}

#[test]
fn only_the_first_colon_splits() {
    assert_eq!(split_value("a:b:c"), ("a", Some("b:c")));
    assert_eq!(split_value("a"), ("a", None));
    assert_eq!(split_value(":"), ("", Some("")));
    assert_eq!(split_value("é:ü"), ("é", Some("ü")));
}

#[test]
fn payload_support_follows_the_catalog() {
    let c = catalog();
    assert!(proof_payload_is_supported(SurfaceMode::PopOut, Some("provider:cursor"), &c));
    assert!(!proof_payload_is_supported(SurfaceMode::PopOut, Some("provider:"), &c));
    assert!(proof_payload_is_supported(SurfaceMode::Settings, Some("usageSpend"), &c));
    assert!(!proof_payload_is_supported(SurfaceMode::Settings, Some("codex"), &c));
    for mode in [
        SurfaceMode::Hidden,
        SurfaceMode::TrayPanel,
        SurfaceMode::PopOut,
        SurfaceMode::Settings,
    ] {
        assert!(proof_payload_is_supported(mode, None, &c));
    }
}

#[test]
fn unknown_surface_id_falls_back_to_the_tray_panel() {
    let cfg = ProofConfig {
        target_surface: "elsewhere".into(),
        settings_tab: Some("about".into()),
        target_payload: Some("about".into()),
    };
    assert_eq!(cfg.surface_mode(), SurfaceMode::TrayPanel);
    assert_eq!(cfg.surface_target(), SurfaceTarget::Summary);
}

#[test]
fn pop_out_ignores_a_target_of_another_mode() {
    for payload in ["summary", "settings:about", "nowhere"] {
        let cfg = ProofConfig {
            target_surface: "popOut".into(),
            settings_tab: None,
            target_payload: Some(payload.into()),
        };
        assert_eq!(cfg.surface_target(), SurfaceTarget::Dashboard);
    }
}

#[test]
fn mode_ids_round_trip() {
    for (mode, id) in [
        (SurfaceMode::Hidden, "hidden"),
        (SurfaceMode::TrayPanel, "trayPanel"),
        (SurfaceMode::PopOut, "popOut"),
        (SurfaceMode::Settings, "settings"),
    ] {
        assert_eq!(mode.as_str(), id);
        assert_eq!(SurfaceMode::parse(id), Some(mode));
    }
    assert_eq!(SurfaceMode::parse("settings "), None);
}

#[test]
fn visible_surfaces_show_targets_of_their_mode() {
    for value in ["trayPanel", "popOut", "popOut:provider:cursor", "settings:usageSpend"] {
        let cfg = from_env(Some(value)).unwrap();
        assert_eq!(cfg.surface_target().mode(), cfg.surface_mode());
    }
}

#[test]
fn activation_positions_the_panel_only() {
    assert!(activate(None).is_none());
    let panel = activate(from_env(Some("trayPanel")).as_ref()).unwrap();
    assert_eq!(panel.mode, SurfaceMode::TrayPanel);
    assert_eq!(panel.target, SurfaceTarget::Summary);
    assert!(panel.at_proof_position);
    assert!(activate(from_env(Some("hidden")).as_ref()).unwrap().at_proof_position);
    assert!(!activate(from_env(Some("popOut")).as_ref()).unwrap().at_proof_position);
    let settings = activate(from_env(Some("settings:about")).as_ref()).unwrap();
    assert!(!settings.at_proof_position);
    assert_eq!(settings.target, SurfaceTarget::Settings { tab: "about".into() });
}

#[test]
fn proof_mode_needs_a_state_with_a_configuration() {
    assert!(!is_proof_mode(None));
    assert!(!is_proof_mode(Some(&None)));
    assert!(is_proof_mode(Some(&from_env(Some("popOut")))));
}

#[test]
fn a_cloned_configuration_reads_the_same() {
    let cfg = from_env(Some("popOut:provider:codex")).unwrap();
    let copy = cfg.clone();
    assert_eq!(copy.target_surface, cfg.target_surface);
    assert_eq!(copy.settings_tab, cfg.settings_tab);
    assert_eq!(copy.target_payload, cfg.target_payload);
}

#[test]
fn proof_mode_variable_has_its_name() {
    assert_eq!(PROOF_MODE_ENV_VAR, "CODEXBAR_PROOF_MODE");
}

#[test]
fn accepted_configurations_read_back() {
    for value in ["trayPanel", " popOut:provider:codex\t", "settings:usageSpend", "popOut:dashboard"] {
        let cfg = from_env(Some(value)).unwrap();
        let text = match &cfg.target_payload {
            Some(payload) => format!("{}:{}", cfg.target_surface, payload),
            None => cfg.target_surface.clone(),
        };
        assert_eq!(text, value.trim());
        let again = from_env(Some(&text)).unwrap();
        assert_eq!(again.target_surface, cfg.target_surface);
        assert_eq!(again.settings_tab, cfg.settings_tab);
        assert_eq!(again.target_payload, cfg.target_payload);
    }
}
