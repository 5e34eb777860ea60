//! What holds of proof configurations as a whole, and, in the modules below, of every result that
//! the functions of the crate give, stated over what they are given and what they give back.
use crate::config::{ProofConfigView, ProofModeRejection};
use crate::surface::{Catalog, SurfaceMode, SurfaceTargetView};
use crate::{config, surface, text};
use vstd::prelude::*;

pub mod configuring;
pub mod placing;
pub mod reading;
pub mod seeding;

verus! {

/// White space around a value makes no difference to what it stands for.
pub proof fn law_surrounding_white_space_is_ignored(
    before: Seq<char>,
    raw: Seq<char>,
    after: Seq<char>,
    catalog: Catalog,
)
    requires
        text::is_blank(before),
        text::is_blank(after),
    ensures
        config::config_of(before + raw + after, catalog) == config::config_of(raw, catalog),
{
    text::lemma_trimmed_padded(before, raw, after);
}

/// A blank value, the empty one among them, stands for no configuration.
pub proof fn law_blank_value_is_rejected(raw: Seq<char>, catalog: Catalog)
    requires
        text::is_blank(raw),
    ensures
        config::config_of(raw, catalog) == Err::<ProofConfigView, _>(ProofModeRejection::Blank),
{
    text::lemma_trimmed_blank(raw);
}

/// The characters of the mode ids: none is a colon, and neither end is white space.
pub proof fn lemma_mode_id(mode: SurfaceMode)
    ensures
        mode.id().len() > 0,
        !mode.id().contains(':'),
        !text::is_white_space(mode.id()[0]),
        !text::is_white_space(mode.id().last()),
{
    reveal_strlit("hidden");
    reveal_strlit("trayPanel");
    reveal_strlit("popOut");
    reveal_strlit("settings");
}

/// The id of a mode alone is a value for that mode, whatever the catalog.
pub proof fn law_bare_surface_is_accepted(mode: SurfaceMode, catalog: Catalog)
    ensures
        config::config_of(mode.id(), catalog) == Ok::<_, ProofModeRejection>(
            config::config_with(mode.id(), None),
        ),
        config::config_with(mode.id(), None).mode() == mode,
        config::config_with(mode.id(), None).target() == match mode {
            SurfaceMode::Hidden | SurfaceMode::TrayPanel => SurfaceTargetView::Summary,
            SurfaceMode::PopOut => SurfaceTargetView::Dashboard,
            SurfaceMode::Settings => SurfaceTargetView::Settings { tab: "general"@ },
        },
{
    lemma_mode_id(mode);
    surface::law_mode_ids_round_trip(mode, mode.id());
}

/// The id of a mode, a colon and a payload are a value for that mode exactly where the mode takes
/// the payload. The payload may hold colons of its own.
pub proof fn law_surface_with_payload(mode: SurfaceMode, payload: Seq<char>, catalog: Catalog)
    requires
        payload.len() > 0 ==> !text::is_white_space(payload.last()),
    ensures
        config::config_of(mode.id() + seq![':'] + payload, catalog) == if config::payload_supported(
            mode,
            Some(payload),
            catalog,
        ) {
            Ok(config::config_with(mode.id(), Some(payload)))
        } else {
            Err(ProofModeRejection::UnsupportedTarget)
        },
        config::config_with(mode.id(), Some(payload)).mode() == mode,
{
    let value = mode.id() + seq![':'] + payload;
    lemma_mode_id(mode);
    surface::law_mode_ids_round_trip(mode, mode.id());
    assert(value[0] == mode.id()[0]);
    if payload.len() > 0 {
        assert(value.last() == payload.last());
    } else {
        assert(value.last() == ':');
    }
    assert(text::trimmed(value) == value);
    text::lemma_split_at_first(mode.id(), ':', payload);
}

/// Settings open on every tab of the catalog that a value names, and on no other.
pub proof fn law_settings_open_on_the_named_tab(tab: Seq<char>, catalog: Catalog)
    requires
        tab.len() > 0 ==> !text::is_white_space(tab.last()),
    ensures
        ({
            let config = config::config_of("settings"@ + seq![':'] + tab, catalog);
            if catalog.has_tab(tab) {
                &&& config is Ok
                &&& config->Ok_0.mode() == SurfaceMode::Settings
                &&& config->Ok_0.settings_tab == Some(tab)
                &&& config->Ok_0.target() == SurfaceTargetView::Settings { tab }
            } else {
                config == Err::<ProofConfigView, _>(ProofModeRejection::UnsupportedTarget)
            }
        }),
{
    law_surface_with_payload(SurfaceMode::Settings, tab, catalog);
}

/// A pop-out opens on every provider of the catalog that a value names, and on no other.
pub proof fn law_pop_out_opens_on_the_named_provider(provider_id: Seq<char>, catalog: Catalog)
    requires
        provider_id.len() > 0 ==> !text::is_white_space(provider_id.last()),
    ensures
        ({
            let payload = "provider:"@ + provider_id;
            let config = config::config_of("popOut"@ + seq![':'] + payload, catalog);
            if catalog.has_provider(provider_id) {
                &&& config is Ok
                &&& config->Ok_0.mode() == SurfaceMode::PopOut
                &&& config->Ok_0.target_payload == Some(payload)
                &&& config->Ok_0.target() == SurfaceTargetView::Provider { provider_id }
            } else {
                config == Err::<ProofConfigView, _>(ProofModeRejection::UnsupportedTarget)
            }
        }),
{
    let payload = "provider:"@ + provider_id;
    reveal_strlit("provider:");
    if provider_id.len() > 0 {
        assert(payload.last() == provider_id.last());
    } else {
        assert(payload.last() == ':');
    }
    surface::law_provider_target_is_named(provider_id);
    law_surface_with_payload(SurfaceMode::PopOut, payload, catalog);
    surface::law_mode_ids_round_trip(SurfaceMode::Settings, SurfaceMode::PopOut.id());
}

/// The tray panel takes no payload, and neither does the hidden window.
pub proof fn law_panel_takes_no_payload(mode: SurfaceMode, payload: Seq<char>, catalog: Catalog)
    requires
        mode == SurfaceMode::Hidden || mode == SurfaceMode::TrayPanel,
        payload.len() > 0 ==> !text::is_white_space(payload.last()),
    ensures
        config::config_of(mode.id() + seq![':'] + payload, catalog) == Err::<ProofConfigView, _>(
            ProofModeRejection::UnsupportedTarget,
        ),
{
    law_surface_with_payload(mode, payload, catalog);
}

/// Every accepted configuration is routed as it reads: its surface id is that of its mode, so the
/// fallback to the tray panel is never taken; a visible surface shows a target of its own mode; a
/// provider that is shown is one of the catalog, and a tab that is shown is one of the catalog or
/// the General tab; and the tab is the payload of settings and absent elsewhere.
pub proof fn law_accepted_configuration_is_routable(raw: Seq<char>, catalog: Catalog)
    requires
        config::config_of(raw, catalog) is Ok,
    ensures
        ({
            let config = config::config_of(raw, catalog)->Ok_0;
            &&& config.target_surface == config.mode().id()
            &&& config.mode() != SurfaceMode::Hidden ==> config.target().mode() == config.mode()
            &&& config.target() matches SurfaceTargetView::Provider { provider_id }
                ==> catalog.has_provider(provider_id)
            &&& config.target() matches SurfaceTargetView::Settings { tab } ==> catalog.has_tab(tab)
                || tab == "general"@
            &&& config.settings_tab == if config.mode() == SurfaceMode::Settings {
                config.target_payload
            } else {
                None
            }
        }),
{
    let (id, _) = config::surface_and_payload(text::trimmed(raw));
    let mode = SurfaceMode::of_id(id)->0;
    surface::law_mode_ids_round_trip(mode, id);
    surface::law_mode_ids_round_trip(SurfaceMode::Settings, id);
}

/// A value whose text before the first colon is the id of no mode stands for no configuration.
pub proof fn law_unknown_surface_is_rejected(raw: Seq<char>, catalog: Catalog)
    requires
        !text::is_blank(raw),
        forall|mode: SurfaceMode|
            config::surface_and_payload(text::trimmed(raw)).0 != #[trigger] mode.id(),
    ensures
        config::config_of(raw, catalog) == Err::<ProofConfigView, _>(
            ProofModeRejection::UnknownSurface,
        ),
{
    text::lemma_trimmed_not_blank(raw);
}

/// An accepted configuration reads back as its value: the surface id, and a colon and the payload
/// where there is one, are the value without the white space around it, and that text stands for
/// the same configuration.
pub proof fn law_accepted_configuration_reads_back(raw: Seq<char>, catalog: Catalog)
    requires
        config::config_of(raw, catalog) is Ok,
    ensures
        ({
            let config = config::config_of(raw, catalog)->Ok_0;
            let value = match config.target_payload {
                Some(payload) => config.target_surface + seq![':'] + payload,
                None => config.target_surface,
            };
            &&& value == text::trimmed(raw)
            &&& config::config_of(value, catalog) == Ok::<_, ProofModeRejection>(config)
        }),
{
    text::lemma_split_rejoins(text::trimmed(raw), ':');
    text::lemma_trimmed_idempotent(raw);
}

} // verus!
