//! Proof mode: the configuration read from `CODEXBAR_PROOF_MODE` and the surface that it selects.
//!
//! A value names a surface and, after a colon, an optional payload:
//!
//!   - `trayPanel` shows the tray panel
//!   - `popOut` shows the pop-out dashboard
//!   - `popOut:provider:codex` shows a provider pop-out
//!   - `settings` shows settings on the General tab
//!   - `settings:menuBar` shows settings on the Menu Bar tab
use crate::surface::{Catalog, SurfaceMode, SurfaceTarget, SurfaceTargetView};
use crate::text;
use vstd::prelude::*;

verus! {

/// The environment variable that turns proof mode on.
pub const PROOF_MODE_ENV_VAR: &'static str = "CODEXBAR_PROOF_MODE";

/// Why a value of the variable gives no configuration.
#[derive(Clone, Copy, Debug, PartialEq, Eq, Structural)]
pub enum ProofModeRejection {
    /// The value is empty or white space.
    Blank,
    /// What stands before the first colon is no surface id.
    UnknownSurface,
    /// The surface does not take the payload.
    UnsupportedTarget,
}

/// A proof configuration over character sequences.
pub struct ProofConfigView {
    pub target_surface: Seq<char>,
    pub settings_tab: Option<Seq<char>>,
    pub target_payload: Option<Seq<char>>,
}

impl ProofConfigView {
    /// The mode that the surface id names, or the tray panel where it names none.
    pub open spec fn mode(self) -> SurfaceMode {
        match SurfaceMode::of_id(self.target_surface) {
            Some(mode) => mode,
            None => SurfaceMode::TrayPanel,
        }
    }

    /// The pop-out target that the payload names.
    pub open spec fn pop_out_target(self) -> Option<SurfaceTargetView> {
        match self.target_payload {
            Some(payload) => match SurfaceTargetView::named(payload) {
                Some(target) => if target.mode() == SurfaceMode::PopOut {
                    Some(target)
                } else {
                    None
                },
                None => None,
            },
            None => None,
        }
    }

    /// The target to show: the summary in the panel, the named target or the dashboard in a
    /// pop-out, the chosen tab or the General tab in settings.
    pub open spec fn target(self) -> SurfaceTargetView {
        match self.mode() {
            SurfaceMode::Hidden | SurfaceMode::TrayPanel => SurfaceTargetView::Summary,
            SurfaceMode::PopOut => match self.pop_out_target() {
                Some(target) => target,
                None => SurfaceTargetView::Dashboard,
            },
            SurfaceMode::Settings => SurfaceTargetView::Settings {
                tab: match self.settings_tab {
                    Some(tab) => tab,
                    None => "general"@,
                },
            },
        }
    }
}

/// Whether a surface takes a payload: the panel takes none; settings take the id of a tab; a
/// pop-out takes the dashboard or a provider of the catalog. No surface needs one.
pub open spec fn payload_supported(
    mode: SurfaceMode,
    payload: Option<Seq<char>>,
    catalog: Catalog,
) -> bool {
    match payload {
        None => true,
        Some(payload) => match mode {
            SurfaceMode::Hidden | SurfaceMode::TrayPanel => false,
            SurfaceMode::Settings => catalog.has_tab(payload),
            SurfaceMode::PopOut => match SurfaceTargetView::named(payload) {
                Some(SurfaceTargetView::Dashboard) => true,
                Some(SurfaceTargetView::Provider { provider_id }) => catalog.has_provider(
                    provider_id,
                ),
                _ => false,
            },
        },
    }
}

/// The surface id and the payload of a value: what stands before and after its first colon.
pub open spec fn surface_and_payload(value: Seq<char>) -> (Seq<char>, Option<Seq<char>>) {
    match text::split_at_first(value, ':') {
        Some((surface, payload)) => (surface, Some(payload)),
        None => (value, None),
    }
}

/// The configuration with this surface id and payload. The payload of settings is their tab.
pub open spec fn config_with(surface: Seq<char>, payload: Option<Seq<char>>) -> ProofConfigView {
    ProofConfigView {
        target_surface: surface,
        settings_tab: if surface == SurfaceMode::Settings.id() {
            payload
        } else {
            None
        },
        target_payload: payload,
    }
}

/// The configuration that a value of the variable stands for, or why it stands for none. White
/// space around the value is ignored.
pub open spec fn config_of(raw: Seq<char>, catalog: Catalog) -> Result<
    ProofConfigView,
    ProofModeRejection,
> {
    let value = text::trimmed(raw);
    let (surface, payload) = surface_and_payload(value);
    if value.len() == 0 {
        Err(ProofModeRejection::Blank)
    } else {
        match SurfaceMode::of_id(surface) {
            None => Err(ProofModeRejection::UnknownSurface),
            Some(mode) => if payload_supported(mode, payload, catalog) {
                Ok(config_with(surface, payload))
            } else {
                Err(ProofModeRejection::UnsupportedTarget)
            },
        }
    }
}

/// Proof configuration: what the shell shows on startup.
#[derive(Debug)]
pub struct ProofConfig {
    /// The camelCase id of the surface to show.
    pub target_surface: String,
    /// The id of the settings tab to show, where the surface is settings and one was named.
    pub settings_tab: Option<String>,
    /// The payload of the value, such as `provider:codex` for a provider pop-out.
    pub target_payload: Option<String>,
}

impl View for ProofConfig {
    type V = ProofConfigView;

    open spec fn view(&self) -> ProofConfigView {
        ProofConfigView {
            target_surface: self.target_surface@,
            settings_tab: text::string_view(self.settings_tab),
            target_payload: text::string_view(self.target_payload),
        }
    }
}

/// A copy of an optional string slice.
fn owned(s: Option<&str>) -> (r: Option<String>)
    ensures
        text::string_view(r) == text::str_view(s),
{
    match s {
        Some(s) => Some(s.to_owned()),
        None => None,
    }
}

/// A copy of an optional string.
fn copied(s: &Option<String>) -> (r: Option<String>)
    ensures
        r == *s,
{
    match s {
        Some(s) => Some(s.clone()),
        None => None,
    }
}

impl Clone for ProofConfig {
    fn clone(&self) -> (config: Self)
        ensures
            config == *self,
    {
        ProofConfig {
            target_surface: self.target_surface.clone(),
            settings_tab: copied(&self.settings_tab),
            target_payload: copied(&self.target_payload),
        }
    }
}

/// The surface id and the payload of a value: what stands before and after its first colon.
pub fn split_value<'a>(value: &'a str) -> (r: (&'a str, Option<&'a str>))
    ensures
        (r.0@, text::str_view(r.1)) == surface_and_payload(value@),
{
    match text::split_once(value, ':') {
        Some((surface, payload)) => (surface, Some(payload)),
        None => (value, None),
    }
}

/// Whether a surface takes this payload.
pub fn proof_payload_is_supported(
    surface_mode: SurfaceMode,
    payload: Option<&str>,
    catalog: &Catalog,
) -> (supported: bool)
    ensures
        supported == payload_supported(surface_mode, text::str_view(payload), *catalog),
{
    match (surface_mode, payload) {
        (SurfaceMode::Hidden, None) => true,
        (SurfaceMode::TrayPanel, None) => true,
        (SurfaceMode::Hidden, Some(_)) => false,
        (SurfaceMode::TrayPanel, Some(_)) => false,
        (SurfaceMode::Settings, None) => true,
        (SurfaceMode::Settings, Some(tab)) => catalog.is_supported_settings_tab(tab),
        (SurfaceMode::PopOut, None) => true,
        (SurfaceMode::PopOut, Some(raw_target)) => {
            match SurfaceTarget::parse(raw_target) {
                Some(SurfaceTarget::Dashboard) => true,
                Some(SurfaceTarget::Provider { provider_id }) => catalog.is_supported_provider_id(
                    provider_id.as_str(),
                ),
                _ => false,
            }
        },
    }
}

/// The view behind an optional configuration.
pub open spec fn config_view(config: Option<ProofConfig>) -> Option<ProofConfigView> {
    match config {
        Some(config) => Some(config@),
        None => None,
    }
}

impl ProofConfig {
    /// The configuration that a value of the variable stands for, or why it stands for none.
    pub fn parse(raw: &str, catalog: &Catalog) -> (r: Result<ProofConfig, ProofModeRejection>)
        ensures
            match r {
                Ok(config) => config_of(raw@, *catalog) == Ok::<_, ProofModeRejection>(config@),
                Err(rejection) => config_of(raw@, *catalog) == Err::<ProofConfigView, _>(rejection),
            },
    {
        let value = text::trim(raw);
        if value.is_empty() {
            return Err(ProofModeRejection::Blank);
        }
        let (surface, payload) = split_value(value);
        let surface_mode = match SurfaceMode::parse(surface) {
            Some(surface_mode) => surface_mode,
            None => return Err(ProofModeRejection::UnknownSurface),
        };
        if !proof_payload_is_supported(surface_mode, payload, catalog) {
            return Err(ProofModeRejection::UnsupportedTarget);
        }
        let settings_tab = if text::same(surface, SurfaceMode::Settings.as_str()) {
            owned(payload)
        } else {
            None
        };
        Ok(
            ProofConfig {
                target_surface: surface.to_owned(),
                settings_tab,
                target_payload: owned(payload),
            },
        )
    }

    /// The configuration that the environment asks for. `value` is what the variable holds;
    /// `None` where it is unset.
    pub fn from_env(value: Option<&str>, catalog: &Catalog) -> (config: Option<ProofConfig>)
        ensures
            config_view(config) == match value {
                Some(raw) => match config_of(raw@, *catalog) {
                    Ok(config) => Some(config),
                    Err(_) => None,
                },
                None => None,
            },
    {
        match value {
            Some(raw) => match ProofConfig::parse(raw, catalog) {
                Ok(config) => Some(config),
                Err(_) => None,
            },
            None => None,
        }
    }

    /// The mode of the surface to show.
    pub fn surface_mode(&self) -> (mode: SurfaceMode)
        ensures
            mode == self@.mode(),
    {
        match SurfaceMode::parse(self.target_surface.as_str()) {
            Some(mode) => mode,
            None => SurfaceMode::TrayPanel,
        }
    }

    /// The target to show on the surface.
    pub fn surface_target(&self) -> (target: SurfaceTarget)
        ensures
            target@ == self@.target(),
    {
        match self.surface_mode() {
            SurfaceMode::Hidden => SurfaceTarget::Summary,
            SurfaceMode::TrayPanel => SurfaceTarget::Summary,
            SurfaceMode::PopOut => {
                let named = match &self.target_payload {
                    Some(payload) => SurfaceTarget::parse(payload.as_str()),
                    None => None,
                };
                match named {
                    Some(target) => if target.mode() == SurfaceMode::PopOut {
                        target
                    } else {
                        SurfaceTarget::Dashboard
                    },
                    None => SurfaceTarget::Dashboard,
                }
            },
            SurfaceMode::Settings => SurfaceTarget::Settings {
                tab: match &self.settings_tab {
                    Some(tab) => tab.clone(),
                    None => "general".to_owned(),
                },
            },
        }
    }
}

/// The transition that proof mode makes on startup.
#[derive(Debug, PartialEq, Eq)]
pub struct Activation {
    /// The mode to switch to.
    pub mode: SurfaceMode,
    /// The target to show there.
    pub target: SurfaceTarget,
    /// Whether the window goes to the proof position. Detached surfaces are larger than the tray
    /// panel, and their own positioning centers and clamps them.
    pub at_proof_position: bool,
}

/// The transition that an active configuration asks for; none where proof mode is off.
pub fn activate(config: Option<&ProofConfig>) -> (activation: Option<Activation>)
    ensures
        activation is Some == config is Some,
        activation matches Some(activation) ==> {
            &&& activation.mode == config->0@.mode()
            &&& activation.target@ == config->0@.target()
            &&& activation.at_proof_position <==> (activation.mode == SurfaceMode::Hidden
                || activation.mode == SurfaceMode::TrayPanel)
        },
{
    match config {
        Some(config) => {
            let mode = config.surface_mode();
            let at_proof_position = match mode {
                SurfaceMode::Settings => false,
                SurfaceMode::PopOut => false,
                _ => true,
            };
            Some(Activation { mode, target: config.surface_target(), at_proof_position })
        },
        None => None,
    }
}

/// Whether proof mode is on. `state` is the configuration that the shared state carries; `None`
/// where there is no shared state yet.
pub fn is_proof_mode(state: Option<&Option<ProofConfig>>) -> (active: bool)
    ensures
        active == (state matches Some(config) && config is Some),
{
    match state {
        Some(config) => config.is_some(),
        None => false,
    }
}

} // verus!
