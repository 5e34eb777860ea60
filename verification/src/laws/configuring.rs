//! What holds of every configuration that is read, of the surface that it selects, and of the
//! transition that it asks for.
use crate::config::{
    activate, is_proof_mode, proof_payload_is_supported, split_value, Activation, ProofConfig,
    ProofModeRejection,
};
use crate::surface::{Catalog, SurfaceMode, SurfaceTarget};
use crate::{config, laws, surface, text};
use vstd::prelude::*;

verus! {

/// Whether `raw` is `value` with nothing but white space around it.
pub open spec fn is_padded(raw: Seq<char>, before: Seq<char>, value: Seq<char>, after: Seq<
    char,
>) -> bool {
    &&& raw == before + value + after
    &&& forall|i: int| 0 <= i < before.len() ==> text::is_white_space(#[trigger] before[i])
    &&& forall|i: int| 0 <= i < after.len() ==> text::is_white_space(#[trigger] after[i])
}

/// Every settings tab of the catalog can be selected, at whatever index it stands: its id behind
/// `settings:` is accepted, and settings open on that tab.
pub proof fn law_every_listed_tab_is_accepted(
    catalog: &Catalog,
    i: int,
    raw: &str,
    before: Seq<char>,
    after: Seq<char>,
    out: Option<ProofConfig>,
)
    requires
        0 <= i < catalog.settings_tabs@.len(),
        catalog.settings_tabs@[i]@.len() > 0 ==> !text::is_white_space(
            catalog.settings_tabs@[i]@.last(),
        ),
        is_padded(raw@, before, "settings:"@ + catalog.settings_tabs@[i]@, after),
        call_ensures(ProofConfig::from_env, (Some(raw), catalog), out),
    ensures
        out matches Some(config) && {
            &&& config.target_surface@ == "settings"@
            &&& config.settings_tab matches Some(tab) && tab@ == catalog.settings_tabs@[i]@
            &&& config.target_payload matches Some(payload) && payload@
                == catalog.settings_tabs@[i]@
        },
{
    let tab = catalog.settings_tabs@[i]@;
    reveal_strlit("settings:");
    reveal_strlit("settings");
    assert("settings:"@ =~= "settings"@ + seq![':']);
    assert(catalog.has_tab(tab));
    laws::law_surrounding_white_space_is_ignored(before, "settings:"@ + tab, after, *catalog);
    laws::law_surface_with_payload(SurfaceMode::Settings, tab, *catalog);
}

/// Every provider of the catalog can be selected, at whatever index it stands: its id behind
/// `popOut:provider:` is accepted, and the payload names it.
pub proof fn law_every_listed_provider_is_accepted(
    catalog: &Catalog,
    i: int,
    raw: &str,
    before: Seq<char>,
    after: Seq<char>,
    out: Option<ProofConfig>,
)
    requires
        0 <= i < catalog.provider_ids@.len(),
        catalog.provider_ids@[i]@.len() > 0 ==> !text::is_white_space(
            catalog.provider_ids@[i]@.last(),
        ),
        is_padded(raw@, before, "popOut:provider:"@ + catalog.provider_ids@[i]@, after),
        call_ensures(ProofConfig::from_env, (Some(raw), catalog), out),
    ensures
        out matches Some(config) && {
            &&& config.target_surface@ == "popOut"@
            &&& config.settings_tab is None
            &&& config.target_payload matches Some(payload) && payload@ == "provider:"@
                + catalog.provider_ids@[i]@
        },
{
    let id = catalog.provider_ids@[i]@;
    reveal_strlit("popOut:provider:");
    reveal_strlit("popOut");
    reveal_strlit("provider:");
    assert("popOut:provider:"@ =~= "popOut"@ + seq![':'] + "provider:"@);
    assert("popOut:provider:"@ + id =~= "popOut"@ + seq![':'] + ("provider:"@ + id));
    assert(catalog.has_provider(id));
    laws::law_surrounding_white_space_is_ignored(
        before,
        "popOut:provider:"@ + id,
        after,
        *catalog,
    );
    laws::law_pop_out_opens_on_the_named_provider(id, *catalog);
    surface::law_provider_target_is_named(id);
    lemma_provider_payload_end(id);
    laws::law_surface_with_payload(SurfaceMode::PopOut, "provider:"@ + id, *catalog);
    surface::law_mode_ids_round_trip(SurfaceMode::Settings, SurfaceMode::PopOut.id());
    surface::law_mode_ids_round_trip(SurfaceMode::PopOut, SurfaceMode::PopOut.id());
}

/// A provider payload ends as its id does.
proof fn lemma_provider_payload_end(id: Seq<char>)
    requires
        id.len() > 0 ==> !text::is_white_space(id.last()),
    ensures
        ("provider:"@ + id).len() > 0,
        !text::is_white_space(("provider:"@ + id).last()),
{
    reveal_strlit("provider:");
    if id.len() == 0 {
        assert("provider:"@ + id =~= "provider:"@);
        assert("provider:"@.last() == ':');
    } else {
        assert(("provider:"@ + id).last() == id.last());
    }
}

/// The dashboard can be selected for a pop-out, whatever the catalog holds.
pub proof fn law_dashboard_is_accepted(
    catalog: &Catalog,
    raw: &str,
    before: Seq<char>,
    after: Seq<char>,
    out: Option<ProofConfig>,
)
    requires
        is_padded(raw@, before, "popOut:dashboard"@, after),
        call_ensures(ProofConfig::from_env, (Some(raw), catalog), out),
    ensures
        out matches Some(config) && {
            &&& config.target_surface@ == "popOut"@
            &&& config.settings_tab is None
            &&& config.target_payload matches Some(payload) && payload@ == "dashboard"@
        },
{
    reveal_strlit("popOut:dashboard");
    reveal_strlit("popOut");
    reveal_strlit("dashboard");
    reveal_strlit("summary");
    assert("popOut:dashboard"@ =~= "popOut"@ + seq![':'] + "dashboard"@);
    assert("dashboard"@.len() == 9 && "summary"@.len() == 7);
    assert("dashboard"@.last() == 'd');
    laws::law_surrounding_white_space_is_ignored(before, "popOut:dashboard"@, after, *catalog);
    laws::law_surface_with_payload(SurfaceMode::PopOut, "dashboard"@, *catalog);
    surface::law_mode_ids_round_trip(SurfaceMode::Settings, SurfaceMode::PopOut.id());
    surface::law_mode_ids_round_trip(SurfaceMode::PopOut, SurfaceMode::PopOut.id());
}

/// Each of the four surfaces can be selected by its id alone, whatever the catalog holds.
pub proof fn law_every_surface_is_accepted(
    catalog: &Catalog,
    id: Seq<char>,
    raw: &str,
    before: Seq<char>,
    after: Seq<char>,
    out: Option<ProofConfig>,
)
    requires
        id == "hidden"@ || id == "trayPanel"@ || id == "popOut"@ || id == "settings"@,
        is_padded(raw@, before, id, after),
        call_ensures(ProofConfig::from_env, (Some(raw), catalog), out),
    ensures
        out matches Some(config) && {
            &&& config.target_surface@ == id
            &&& config.settings_tab is None
            &&& config.target_payload is None
        },
{
    let mode = if id == "hidden"@ {
        SurfaceMode::Hidden
    } else if id == "trayPanel"@ {
        SurfaceMode::TrayPanel
    } else if id == "popOut"@ {
        SurfaceMode::PopOut
    } else {
        SurfaceMode::Settings
    };
    laws::law_surrounding_white_space_is_ignored(before, id, after, *catalog);
    laws::law_bare_surface_is_accepted(mode, *catalog);
}

/// Nothing else is accepted, and what is accepted is kept as it reads. The variable is set; its value
/// without the white space around it is the surface id, and a colon and the payload where there is
/// one; the id is one of the four; and a payload is a listed tab of settings, or the dashboard or a
/// listed provider in a pop-out. The settings tab is the payload of settings.
pub proof fn law_accepted_value_is_kept_as_it_reads(
    value: Option<&str>,
    catalog: &Catalog,
    config: ProofConfig,
)
    requires
        call_ensures(ProofConfig::from_env, (value, catalog), Some(config)),
    ensures
        value matches Some(raw) && exists|from: int, to: int|
            {
                &&& 0 <= from <= to <= raw@.len()
                &&& #[trigger] raw@.subrange(from, to) == config.target_surface@ + (
                match config.target_payload {
                    Some(payload) => seq![':'] + payload@,
                    None => Seq::empty(),
                })
                &&& forall|i: int|
                    0 <= i < raw@.len() && !(from <= i < to) ==> text::is_white_space(
                        #[trigger] raw@[i],
                    )
            },
        config.target_payload matches Some(payload) ==> payload@.len() > 0
            ==> !text::is_white_space(payload@.last()),
        config.target_surface@ == "hidden"@ || config.target_surface@ == "trayPanel"@
            || config.target_surface@ == "popOut"@ || config.target_surface@ == "settings"@,
        config.target_payload matches Some(payload) ==> {
            ||| config.target_surface@ == "settings"@ && exists|i: int|
                0 <= i < catalog.settings_tabs@.len() && payload@ == (
                #[trigger] catalog.settings_tabs@[i])@
            ||| config.target_surface@ == "popOut"@ && payload@ == "dashboard"@
            ||| config.target_surface@ == "popOut"@ && exists|i: int|
                0 <= i < catalog.provider_ids@.len() && payload@ == "provider:"@ + (
                #[trigger] catalog.provider_ids@[i])@
        },
        match config.settings_tab {
            Some(tab) => config.target_surface@ == "settings"@ && (config.target_payload matches Some(
                payload,
            ) && tab@ == payload@),
            None => config.target_surface@ == "settings"@ ==> config.target_payload is None,
        },
{
    let raw = value->0;
    let trimmed = text::trimmed(raw@);
    let surface = config.target_surface@;
    text::lemma_trimmed_stretch(raw@);
    text::lemma_split_rejoins(trimmed, ':');
    if let Some(payload) = config.target_payload {
        assert(surface + seq![':'] + payload@ =~= surface + (seq![':'] + payload@));
        if payload@.len() > 0 {
            assert((surface + seq![':'] + payload@).last() == payload@.last());
        }
        if surface == "popOut"@ {
            surface::law_mode_ids_round_trip(SurfaceMode::PopOut, surface);
            if payload@ != "dashboard"@ {
                let id = text::after_prefix(payload@, "provider:"@)->0;
                assert("provider:"@ + id =~= payload@);
                let i = choose|i: int|
                    0 <= i < catalog.provider_ids@.len() && (#[trigger] catalog.provider_ids@[i])@
                        == id;
                assert(payload@ == "provider:"@ + catalog.provider_ids@[i]@);
            }
        }
    } else {
        assert(surface + Seq::<char>::empty() =~= surface);
    }
    let mode = SurfaceMode::of_id(surface)->0;
    surface::law_mode_ids_round_trip(mode, surface);
    surface::law_mode_ids_round_trip(SurfaceMode::Settings, surface);
}

/// Proof mode is off where the variable is unset; any value of it and any catalog can be read.
pub proof fn law_unset_variable_gives_none(
    value: Option<&str>,
    catalog: &Catalog,
    out: Option<ProofConfig>,
)
    requires
        call_ensures(ProofConfig::from_env, (value, catalog), out),
    ensures
        call_requires(ProofConfig::from_env, (value, catalog)),
        value is None ==> out is None,
{
}

/// A value is read the same with and without the reason for its rejection.
pub proof fn law_rejected_values_give_none(
    raw: &str,
    catalog: &Catalog,
    parsed: Result<ProofConfig, ProofModeRejection>,
    out: Option<ProofConfig>,
)
    requires
        call_ensures(ProofConfig::parse, (raw, catalog), parsed),
        call_ensures(ProofConfig::from_env, (Some(raw), catalog), out),
    ensures
        call_requires(ProofConfig::parse, (raw, catalog)),
        parsed is Ok <==> out is Some,
        parsed matches Ok(config) ==> {
            &&& config.target_surface@ == out->0.target_surface@
            &&& config.settings_tab is Some == out->0.settings_tab is Some
            &&& config.settings_tab is Some ==> config.settings_tab->0@ == out->0.settings_tab->0@
            &&& config.target_payload is Some == out->0.target_payload is Some
            &&& config.target_payload is Some ==> config.target_payload->0@
                == out->0.target_payload->0@
        },
{
    if let Ok(config) = parsed {
        let other = out->0;
        assert(config@ == other@);
        assert(config@.settings_tab == other@.settings_tab);
        assert(config@.target_payload == other@.target_payload);
    }
}

/// A value is rejected as blank where all of it is white space.
pub proof fn law_blank_values_are_white_space(
    raw: &str,
    catalog: &Catalog,
    parsed: Result<ProofConfig, ProofModeRejection>,
)
    requires
        call_ensures(ProofConfig::parse, (raw, catalog), parsed),
    ensures
        parsed == Err::<ProofConfig, _>(ProofModeRejection::Blank) <==> forall|i: int|
            0 <= i < raw@.len() ==> text::is_white_space(#[trigger] raw@[i]),
{
    if text::is_blank(raw@) {
        laws::law_blank_value_is_rejected(raw@, *catalog);
    } else {
        text::lemma_trimmed_not_blank(raw@);
    }
}

/// Whether `value` begins with the surface id `id`: it is the id, or the id and a colon lead it.
pub open spec fn leads(id: Seq<char>, value: Seq<char>) -> bool {
    value == id || (id + seq![':']).is_prefix_of(value)
}

/// A value whose first part is not one of the four surface ids is rejected for that, and no other
/// value is. `value` is the value without the white space around it.
pub proof fn law_unknown_surfaces_lead_rejected_values(
    raw: &str,
    before: Seq<char>,
    value: Seq<char>,
    after: Seq<char>,
    catalog: &Catalog,
    parsed: Result<ProofConfig, ProofModeRejection>,
)
    requires
        is_padded(raw@, before, value, after),
        value.len() > 0,
        !text::is_white_space(value[0]),
        !text::is_white_space(value.last()),
        call_ensures(ProofConfig::parse, (raw, catalog), parsed),
    ensures
        parsed == Err::<ProofConfig, _>(ProofModeRejection::UnknownSurface) <==> !(leads(
            "hidden"@,
            value,
        ) || leads("trayPanel"@, value) || leads("popOut"@, value) || leads("settings"@, value)),
{
    laws::law_surrounding_white_space_is_ignored(before, value, after, *catalog);
    text::lemma_trimmed_padded(before, value, after);
    assert(text::trimmed(value) == value);
    lemma_leads(SurfaceMode::Hidden, value);
    lemma_leads(SurfaceMode::TrayPanel, value);
    lemma_leads(SurfaceMode::PopOut, value);
    lemma_leads(SurfaceMode::Settings, value);
}

/// The id of a mode leads a value where it is the part before the first colon.
proof fn lemma_leads(mode: SurfaceMode, value: Seq<char>)
    ensures
        leads(mode.id(), value) <==> config::surface_and_payload(value).0 == mode.id(),
{
    let id = mode.id();
    laws::lemma_mode_id(mode);
    text::lemma_first_index(value, ':');
    text::lemma_split_rejoins(value, ':');
    if (id + seq![':']).is_prefix_of(value) {
        let rest = value.skip(id.len() + 1int);
        assert(value =~= id + seq![':'] + rest);
        text::lemma_split_at_first(id, ':', rest);
    }
    if config::surface_and_payload(value).0 == id && value.contains(':') {
        assert((id + seq![':']).is_prefix_of(value));
    }
}

/// A surface takes no payload; settings also take each listed tab, and a pop-out also takes the
/// dashboard and each listed provider; nothing else is taken.
pub proof fn law_payloads_are_taken_as_listed(
    mode: SurfaceMode,
    payload: Option<&str>,
    catalog: &Catalog,
    supported: bool,
)
    requires
        call_ensures(proof_payload_is_supported, (mode, payload, catalog), supported),
    ensures
        call_requires(proof_payload_is_supported, (mode, payload, catalog)),
        payload is None ==> supported,
        payload matches Some(p) ==> (supported <==> {
            ||| mode == SurfaceMode::Settings && exists|i: int|
                0 <= i < catalog.settings_tabs@.len() && (#[trigger] catalog.settings_tabs@[i])@
                    == p@
            ||| mode == SurfaceMode::PopOut && p@ == "dashboard"@
            ||| mode == SurfaceMode::PopOut && exists|i: int|
                0 <= i < catalog.provider_ids@.len() && p@ == "provider:"@ + (
                #[trigger] catalog.provider_ids@[i])@
        }),
{
    if let Some(p) = payload {
        reveal_strlit("summary");
        reveal_strlit("dashboard");
        assert("summary"@.len() == 7 && "dashboard"@.len() == 9);
        if mode == SurfaceMode::PopOut {
            if supported && p@ != "dashboard"@ {
                let id = text::after_prefix(p@, "provider:"@)->0;
                assert("provider:"@ + id =~= p@);
                let i = choose|i: int|
                    0 <= i < catalog.provider_ids@.len() && (#[trigger] catalog.provider_ids@[i])@
                        == id;
                assert(p@ == "provider:"@ + catalog.provider_ids@[i]@);
            }
            if exists|i: int|
                0 <= i < catalog.provider_ids@.len() && p@ == "provider:"@ + (
                #[trigger] catalog.provider_ids@[i])@ {
                let i = choose|i: int|
                    0 <= i < catalog.provider_ids@.len() && p@ == "provider:"@ + (
                    #[trigger] catalog.provider_ids@[i])@;
                surface::law_provider_target_is_named(catalog.provider_ids@[i]@);
            }
        }
    }
}

/// The two parts of a value are the value: the surface, which holds no colon, and behind a colon the
/// payload, where there is a colon at all.
pub proof fn law_value_is_split_at_its_first_colon(
    value: &str,
    surface: &str,
    payload: Option<&str>,
)
    requires
        call_ensures(split_value, (value,), (surface, payload)),
    ensures
        call_requires(split_value, (value,)),
        !surface@.contains(':'),
        match payload {
            Some(payload) => value@ == surface@ + seq![':'] + payload@,
            None => value@ == surface@,
        },
{
    text::lemma_first_index(value@, ':');
    text::lemma_split_rejoins(value@, ':');
    assert(text::str_view(payload) == config::surface_and_payload(value@).1);
    assert forall|i: int| 0 <= i < surface@.len() implies surface@[i] != ':' by {
        assert(surface@[i] == value@[i]);
    }
}

/// The mode of a configuration is the one that its surface id names, and the tray panel where it
/// names none.
pub proof fn law_mode_follows_the_surface_id(config: &ProofConfig, mode: SurfaceMode)
    requires
        call_ensures(ProofConfig::surface_mode, (config,), mode),
    ensures
        call_requires(ProofConfig::surface_mode, (config,)),
        mode == SurfaceMode::Hidden <==> config.target_surface@ == "hidden"@,
        mode == SurfaceMode::PopOut <==> config.target_surface@ == "popOut"@,
        mode == SurfaceMode::Settings <==> config.target_surface@ == "settings"@,
{
    surface::law_mode_ids_round_trip(SurfaceMode::Hidden, config.target_surface@);
    surface::law_mode_ids_round_trip(SurfaceMode::PopOut, config.target_surface@);
    surface::law_mode_ids_round_trip(SurfaceMode::Settings, config.target_surface@);
}

/// The target of a configuration: settings show the tab of the configuration, or the General tab; a
/// pop-out shows the provider that the payload names, or the dashboard; all else shows the summary.
pub proof fn law_target_follows_the_configuration(
    config: &ProofConfig,
    target: SurfaceTarget,
    id: Seq<char>,
)
    requires
        call_ensures(ProofConfig::surface_target, (config,), target),
    ensures
        call_requires(ProofConfig::surface_target, (config,)),
        config.target_surface@ == "settings"@ ==> (target matches SurfaceTarget::Settings { tab }
            && tab@ == match config.settings_tab {
            Some(chosen) => chosen@,
            None => "general"@,
        }),
        config.target_surface@ == "popOut"@ ==> (target is Dashboard || target is Provider),
        config.target_surface@ == "popOut"@ ==> ((config.target_payload matches Some(payload)
            && payload@ == "provider:"@ + id) <==> (target matches SurfaceTarget::Provider {
            provider_id,
        } && provider_id@ == id)),
        config.target_surface@ != "settings"@ && config.target_surface@ != "popOut"@
            ==> target is Summary,
{
    surface::law_mode_ids_round_trip(SurfaceMode::PopOut, config.target_surface@);
    surface::law_mode_ids_round_trip(SurfaceMode::Settings, config.target_surface@);
    if let Some(payload) = config.target_payload {
        if payload@ == "provider:"@ + id {
            surface::law_provider_target_is_named(id);
        }
        if let Some(rest) = text::after_prefix(payload@, "provider:"@) {
            assert("provider:"@ + rest =~= payload@);
        }
    }
}

/// What a value names is what is shown: settings on the tab, a pop-out on the provider.
pub proof fn law_named_tab_or_provider_is_shown(
    config: ProofConfig,
    value: &str,
    catalog: &Catalog,
    target: SurfaceTarget,
    id: Seq<char>,
)
    requires
        call_ensures(ProofConfig::from_env, (Some(value), catalog), Some(config)),
        call_ensures(ProofConfig::surface_target, (&config,), target),
    ensures
        value@ == "settings:"@ + id && id.len() > 0 && !text::is_white_space(id.last()) ==> (
        target matches SurfaceTarget::Settings { tab } && tab@ == id),
        value@ == "popOut:provider:"@ + id && id.len() > 0 && !text::is_white_space(id.last()) ==> (
        target matches SurfaceTarget::Provider { provider_id } && provider_id@ == id),
{
    law_target_follows_the_configuration(&config, target, id);
    if id.len() > 0 && !text::is_white_space(id.last()) {
        if value@ == "settings:"@ + id {
            reveal_strlit("settings:");
            reveal_strlit("settings");
            assert("settings:"@ =~= "settings"@ + seq![':']);
            laws::law_surface_with_payload(SurfaceMode::Settings, id, *catalog);
            assert(config@.target_surface == "settings"@);
            assert(config@.settings_tab == Some(id));
        }
        if value@ == "popOut:provider:"@ + id {
            reveal_strlit("popOut:provider:");
            reveal_strlit("popOut");
            reveal_strlit("provider:");
            assert("popOut:provider:"@ + id =~= "popOut"@ + seq![':'] + ("provider:"@ + id));
            lemma_provider_payload_end(id);
            laws::law_surface_with_payload(SurfaceMode::PopOut, "provider:"@ + id, *catalog);
            assert(config@.target_surface == "popOut"@);
            assert(config@.target_payload == Some("provider:"@ + id));
        }
    }
}

/// A copy of a configuration reads as the configuration does.
pub proof fn law_copied_configuration_reads_the_same(config: &ProofConfig, copy: ProofConfig)
    requires
        call_ensures(ProofConfig::clone, (config,), copy),
    ensures
        copy.target_surface@ == config.target_surface@,
        copy.settings_tab is Some == config.settings_tab is Some,
        copy.settings_tab is Some ==> copy.settings_tab->0@ == config.settings_tab->0@,
        copy.target_payload is Some == config.target_payload is Some,
        copy.target_payload is Some ==> copy.target_payload->0@ == config.target_payload->0@,
{
}

/// With proof mode on, the transition goes to the mode and the target of the configuration, and only
/// the tray panel and the hidden window are put at the proof position. With proof mode off there is
/// none.
pub proof fn law_transition_follows_the_configuration(
    config: Option<&ProofConfig>,
    activation: Option<Activation>,
    mode: SurfaceMode,
    id: Seq<char>,
)
    requires
        call_ensures(activate, (config,), activation),
        config is Some ==> call_ensures(ProofConfig::surface_mode, (config->0,), mode),
    ensures
        call_requires(activate, (config,)),
        config is None <==> activation is None,
        activation matches Some(activation) ==> {
            &&& activation.mode == mode
            &&& activation.at_proof_position <==> mode == SurfaceMode::Hidden || mode
                == SurfaceMode::TrayPanel
            &&& mode == SurfaceMode::Settings ==> (activation.target matches SurfaceTarget::Settings {
                tab,
            } && tab@ == match config->0.settings_tab {
                Some(chosen) => chosen@,
                None => "general"@,
            })
            &&& mode == SurfaceMode::PopOut ==> (activation.target is Dashboard
                || activation.target is Provider)
            &&& mode == SurfaceMode::PopOut ==> ((config->0.target_payload matches Some(payload)
                && payload@ == "provider:"@ + id) <==> (
            activation.target matches SurfaceTarget::Provider { provider_id } && provider_id@
                == id))
            &&& activation.at_proof_position ==> activation.target is Summary
        },
{
    if let Some(config) = config {
        if let Some(payload) = config.target_payload {
            if payload@ == "provider:"@ + id {
                surface::law_provider_target_is_named(id);
            }
            if let Some(rest) = text::after_prefix(payload@, "provider:"@) {
                assert("provider:"@ + rest =~= payload@);
            }
        }
    }
}

/// Proof mode is on where there is a shared state and it carries a configuration.
pub proof fn law_proof_mode_is_on_with_a_configuration(
    state: Option<&Option<ProofConfig>>,
    active: bool,
)
    requires
        call_ensures(is_proof_mode, (state,), active),
    ensures
        call_requires(is_proof_mode, (state,)),
        active <==> state is Some && *state->0 is Some,
{
}

} // verus!
