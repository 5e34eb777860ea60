//! What holds of every text that is trimmed, split or read as an id, and of every id that is looked
//! up.
use crate::surface::{Catalog, SurfaceMode, SurfaceTarget};
use crate::{surface, text};
use vstd::prelude::*;

verus! {

/// The characters that count as white space here are those that are told to be.
pub proof fn law_white_space_is_told_apart(c: char, b: bool)
    requires
        call_ensures(text::white_space, (c,), b),
    ensures
        call_requires(text::white_space, (c,)),
        b <==> text::is_white_space(c),
{
}

/// Trimming keeps one stretch of the text. All that it leaves out is white space, and the stretch
/// neither begins nor ends with any.
pub proof fn law_trim_leaves_out_white_space_alone(s: &str, t: &str)
    requires
        call_ensures(text::trim, (s,), t),
    ensures
        call_requires(text::trim, (s,)),
        exists|from: int, to: int|
            {
                &&& 0 <= from <= to <= s@.len()
                &&& t@ == #[trigger] s@.subrange(from, to)
                &&& forall|i: int|
                    0 <= i < s@.len() && !(from <= i < to) ==> text::is_white_space(
                        #[trigger] s@[i],
                    )
            },
        t@.len() > 0 ==> !text::is_white_space(t@[0]) && !text::is_white_space(t@.last()),
{
    text::lemma_trimmed_stretch(s@);
}

/// Splitting at a separator that the text holds gives back the text around it, and the head holds no
/// separator. Where the text holds none, there is nothing to split.
pub proof fn law_split_is_at_the_first_separator(s: &str, sep: char, r: Option<(&str, &str)>)
    requires
        call_ensures(text::split_once, (s, sep), r),
    ensures
        call_requires(text::split_once, (s, sep)),
        r matches Some((head, tail)) ==> s@ == head@ + seq![sep] + tail@ && !head@.contains(sep),
        r is None ==> !s@.contains(sep),
{
    text::lemma_first_index(s@, sep);
    text::lemma_split_rejoins(s@, sep);
    if let Some((head, tail)) = r {
        assert forall|i: int| 0 <= i < head@.len() implies head@[i] != sep by {
            assert(head@[i] == s@[i]);
        }
    }
}

/// What is left behind a prefix is the rest of the text; where there is nothing left to give, no rest
/// makes the prefix the text.
pub proof fn law_prefix_and_rest_are_the_text(
    s: &str,
    prefix: &str,
    r: Option<&str>,
    any_rest: Seq<char>,
)
    requires
        call_ensures(text::strip_prefix, (s, prefix), r),
    ensures
        call_requires(text::strip_prefix, (s, prefix)),
        r matches Some(rest) ==> s@ == prefix@ + rest@,
        r is None ==> s@ != prefix@ + any_rest,
{
    if let Some(rest) = r {
        assert(prefix@ + rest@ =~= s@);
    } else if s@ == prefix@ + any_rest {
        assert(prefix@.is_prefix_of(s@));
    }
}

/// Strings are the same where their characters are.
pub proof fn law_same_strings_have_the_same_characters(a: &str, b: &str, r: bool)
    requires
        call_ensures(text::same, (a, b), r),
    ensures
        call_requires(text::same, (a, b)),
        r <==> a@ == b@,
{
}

/// The four surface ids, and no other text, are read as modes, each as its own.
pub proof fn law_each_mode_is_read_from_its_id(s: &str, mode: Option<SurfaceMode>)
    requires
        call_ensures(SurfaceMode::parse, (s,), mode),
    ensures
        call_requires(SurfaceMode::parse, (s,)),
        mode == Some(SurfaceMode::Hidden) <==> s@ == "hidden"@,
        mode == Some(SurfaceMode::TrayPanel) <==> s@ == "trayPanel"@,
        mode == Some(SurfaceMode::PopOut) <==> s@ == "popOut"@,
        mode == Some(SurfaceMode::Settings) <==> s@ == "settings"@,
{
    surface::law_mode_ids_round_trip(SurfaceMode::Hidden, s@);
    surface::law_mode_ids_round_trip(SurfaceMode::TrayPanel, s@);
    surface::law_mode_ids_round_trip(SurfaceMode::PopOut, s@);
    surface::law_mode_ids_round_trip(SurfaceMode::Settings, s@);
}

/// The id of a mode is read as that mode again.
pub proof fn law_mode_id_is_read_as_the_mode(
    mode: SurfaceMode,
    id: &'static str,
    read: Option<SurfaceMode>,
)
    requires
        call_ensures(SurfaceMode::as_str, (mode,), id),
        call_ensures(SurfaceMode::parse, (id,), read),
    ensures
        call_requires(SurfaceMode::as_str, (mode,)),
        read == Some(mode),
{
    surface::law_mode_ids_round_trip(mode, id@);
}

/// A target is read from its text and from no other: a provider or a tab is what follows the word
/// and the colon, whatever that is.
pub proof fn law_each_target_is_read_from_its_text(
    raw: &str,
    target: Option<SurfaceTarget>,
    rest: Seq<char>,
)
    requires
        call_ensures(SurfaceTarget::parse, (raw,), target),
    ensures
        call_requires(SurfaceTarget::parse, (raw,)),
        target == Some(SurfaceTarget::Summary) <==> raw@ == "summary"@,
        target == Some(SurfaceTarget::Dashboard) <==> raw@ == "dashboard"@,
        raw@ == "provider:"@ + rest <==> (target matches Some(
            SurfaceTarget::Provider { provider_id },
        ) && provider_id@ == rest),
        raw@ == "settings:"@ + rest <==> (target matches Some(SurfaceTarget::Settings { tab })
            && tab@ == rest),
{
    reveal_strlit("summary");
    reveal_strlit("dashboard");
    reveal_strlit("provider:");
    reveal_strlit("settings:");
    let s = raw@;
    let p = "provider:"@;
    let t = "settings:"@;
    assert("summary"@.len() == 7 && "dashboard"@.len() == 9 && p.len() == 9 && t.len() == 9);
    assert("summary"@[0] == 's' && "dashboard"@[0] == 'd' && p[0] == 'p' && t[0] == 's');
    assert((p + rest)[0] == 'p' && (t + rest)[0] == 's');
    assert((t + rest).len() >= 9);
    assert(p.is_prefix_of(s) ==> s =~= p + s.skip(9));
    assert(t.is_prefix_of(s) ==> s =~= t + s.skip(9));
    assert(p.is_prefix_of(p + rest) && t.is_prefix_of(t + rest));
    assert((p + rest).skip(9) =~= rest);
    assert((t + rest).skip(9) =~= rest);
}

/// The summary is shown in the tray panel, the dashboard and providers in a pop-out, tabs in
/// settings.
pub proof fn law_each_target_is_shown_in_its_mode(target: &SurfaceTarget, mode: SurfaceMode)
    requires
        call_ensures(SurfaceTarget::mode, (target,), mode),
    ensures
        call_requires(SurfaceTarget::mode, (target,)),
        mode != SurfaceMode::Hidden,
        mode == SurfaceMode::TrayPanel <==> *target is Summary,
        mode == SurfaceMode::PopOut <==> *target is Dashboard || *target is Provider,
        mode == SurfaceMode::Settings <==> *target is Settings,
{
}

/// Each settings tab that the catalog lists is supported, at whatever index, and no other.
pub proof fn law_listed_tabs_are_supported(catalog: &Catalog, tab: &str, supported: bool)
    requires
        call_ensures(Catalog::is_supported_settings_tab, (catalog, tab), supported),
    ensures
        call_requires(Catalog::is_supported_settings_tab, (catalog, tab)),
        forall|i: int|
            0 <= i < catalog.settings_tabs@.len() && (#[trigger] catalog.settings_tabs@[i])@ == tab@
                ==> supported,
        supported ==> exists|i: int|
            0 <= i < catalog.settings_tabs@.len() && (#[trigger] catalog.settings_tabs@[i])@ == tab@,
{
}

/// Each provider that the catalog lists is supported, at whatever index, and no other.
pub proof fn law_listed_providers_are_supported(catalog: &Catalog, id: &str, supported: bool)
    requires
        call_ensures(Catalog::is_supported_provider_id, (catalog, id), supported),
    ensures
        call_requires(Catalog::is_supported_provider_id, (catalog, id)),
        forall|i: int|
            0 <= i < catalog.provider_ids@.len() && (#[trigger] catalog.provider_ids@[i])@ == id@
                ==> supported,
        supported ==> exists|i: int|
            0 <= i < catalog.provider_ids@.len() && (#[trigger] catalog.provider_ids@[i])@ == id@,
{
}

} // verus!
