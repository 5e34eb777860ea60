//! Surfaces of the shell: the window modes, the targets shown in them, and the ids of both.
use crate::text;
use vstd::prelude::*;

verus! {

/// A window mode of the shell.
#[derive(Clone, Copy, Debug, PartialEq, Eq, Structural)]
pub enum SurfaceMode {
    Hidden,
    TrayPanel,
    PopOut,
    Settings,
}

impl SurfaceMode {
    /// The camelCase id of the mode.
    pub open spec fn id(self) -> Seq<char> {
        match self {
            SurfaceMode::Hidden => "hidden"@,
            SurfaceMode::TrayPanel => "trayPanel"@,
            SurfaceMode::PopOut => "popOut"@,
            SurfaceMode::Settings => "settings"@,
        }
    }

    /// The mode whose id is `s`.
    pub open spec fn of_id(s: Seq<char>) -> Option<SurfaceMode> {
        if s == SurfaceMode::Hidden.id() {
            Some(SurfaceMode::Hidden)
        } else if s == SurfaceMode::TrayPanel.id() {
            Some(SurfaceMode::TrayPanel)
        } else if s == SurfaceMode::PopOut.id() {
            Some(SurfaceMode::PopOut)
        } else if s == SurfaceMode::Settings.id() {
            Some(SurfaceMode::Settings)
        } else {
            None
        }
    }

    /// The id of the mode.
    pub fn as_str(self) -> (s: &'static str)
        ensures
            s@ == self.id(),
    {
        match self {
            SurfaceMode::Hidden => "hidden",
            SurfaceMode::TrayPanel => "trayPanel",
            SurfaceMode::PopOut => "popOut",
            SurfaceMode::Settings => "settings",
        }
    }

    /// The mode with the given id; `None` where no mode has it.
    pub fn parse(s: &str) -> (mode: Option<SurfaceMode>)
        ensures
            mode == SurfaceMode::of_id(s@),
    {
        if text::same(s, "hidden") {
            Some(SurfaceMode::Hidden)
        } else if text::same(s, "trayPanel") {
            Some(SurfaceMode::TrayPanel)
        } else if text::same(s, "popOut") {
            Some(SurfaceMode::PopOut)
        } else if text::same(s, "settings") {
            Some(SurfaceMode::Settings)
        } else {
            None
        }
    }
}

/// What a surface shows, as a value over character sequences.
pub enum SurfaceTargetView {
    Summary,
    Dashboard,
    Provider { provider_id: Seq<char> },
    Settings { tab: Seq<char> },
}

impl SurfaceTargetView {
    /// The mode in which the target is shown.
    pub open spec fn mode(self) -> SurfaceMode {
        match self {
            SurfaceTargetView::Summary => SurfaceMode::TrayPanel,
            SurfaceTargetView::Dashboard => SurfaceMode::PopOut,
            SurfaceTargetView::Provider { .. } => SurfaceMode::PopOut,
            SurfaceTargetView::Settings { .. } => SurfaceMode::Settings,
        }
    }

    /// The target that `s` names: `summary`, `dashboard`, `provider:<id>` or `settings:<tab>`.
    pub open spec fn named(s: Seq<char>) -> Option<SurfaceTargetView> {
        if s == "summary"@ {
            Some(SurfaceTargetView::Summary)
        } else if s == "dashboard"@ {
            Some(SurfaceTargetView::Dashboard)
        } else if text::after_prefix(s, "provider:"@) is Some {
            Some(
                SurfaceTargetView::Provider {
                    provider_id: text::after_prefix(s, "provider:"@)->0,
                },
            )
        } else if text::after_prefix(s, "settings:"@) is Some {
            Some(SurfaceTargetView::Settings { tab: text::after_prefix(s, "settings:"@)->0 })
        } else {
            None
        }
    }
}

/// What a surface shows.
#[derive(Debug, PartialEq, Eq)]
pub enum SurfaceTarget {
    Summary,
    Dashboard,
    Provider { provider_id: String },
    Settings { tab: String },
}

impl View for SurfaceTarget {
    type V = SurfaceTargetView;

    open spec fn view(&self) -> SurfaceTargetView {
        match *self {
            SurfaceTarget::Summary => SurfaceTargetView::Summary,
            SurfaceTarget::Dashboard => SurfaceTargetView::Dashboard,
            SurfaceTarget::Provider { provider_id } => SurfaceTargetView::Provider {
                provider_id: provider_id@,
            },
            SurfaceTarget::Settings { tab } => SurfaceTargetView::Settings { tab: tab@ },
        }
    }
}

/// The view behind an optional target.
pub open spec fn target_view(target: Option<SurfaceTarget>) -> Option<SurfaceTargetView> {
    match target {
        Some(target) => Some(target@),
        None => None,
    }
}

impl SurfaceTarget {
    /// The mode in which the target is shown.
    pub fn mode(&self) -> (mode: SurfaceMode)
        ensures
            mode == self@.mode(),
    {
        match self {
            SurfaceTarget::Summary => SurfaceMode::TrayPanel,
            SurfaceTarget::Dashboard => SurfaceMode::PopOut,
            SurfaceTarget::Provider { .. } => SurfaceMode::PopOut,
            SurfaceTarget::Settings { .. } => SurfaceMode::Settings,
        }
    }

    /// The target that `raw` names; `None` where it names none.
    pub fn parse(raw: &str) -> (target: Option<SurfaceTarget>)
        ensures
            target_view(target) == SurfaceTargetView::named(raw@),
    {
        if text::same(raw, "summary") {
            return Some(SurfaceTarget::Summary);
        }
        if text::same(raw, "dashboard") {
            return Some(SurfaceTarget::Dashboard);
        }
        if let Some(provider_id) = text::strip_prefix(raw, "provider:") {
            return Some(SurfaceTarget::Provider { provider_id: provider_id.to_owned() });
        }
        match text::strip_prefix(raw, "settings:") {
            Some(tab) => Some(SurfaceTarget::Settings { tab: tab.to_owned() }),
            None => None,
        }
    }
}

/// The settings tabs and the providers that the shell offers, by id.
#[derive(Debug)]
pub struct Catalog {
    pub settings_tabs: Vec<String>,
    pub provider_ids: Vec<String>,
}

/// Whether one of `ids` reads `id`.
pub open spec fn lists(ids: Seq<String>, id: Seq<char>) -> bool {
    exists|i: int| 0 <= i < ids.len() && (#[trigger] ids[i])@ == id
}

/// Whether one of `ids` reads `id`.
fn find_id(ids: &Vec<String>, id: &str) -> (found: bool)
    ensures
        found == lists(ids@, id@),
{
    let mut i: usize = 0;
    while i < ids.len()
        invariant
            i <= ids.len(),
            forall|j: int| 0 <= j < i ==> (#[trigger] ids[j])@ != id@,
        decreases ids.len() - i,
    {
        if text::same(ids[i].as_str(), id) {
            return true;
        }
        i += 1;
    }
    false
}

impl Catalog {
    /// Whether the shell has a settings tab with this id.
    pub open spec fn has_tab(self, tab: Seq<char>) -> bool {
        lists(self.settings_tabs@, tab)
    }

    /// Whether the shell has a provider with this id.
    pub open spec fn has_provider(self, provider_id: Seq<char>) -> bool {
        lists(self.provider_ids@, provider_id)
    }

    /// Whether the shell has a settings tab with this id.
    pub fn is_supported_settings_tab(&self, tab: &str) -> (supported: bool)
        ensures
            supported == self.has_tab(tab@),
    {
        find_id(&self.settings_tabs, tab)
    }

    /// Whether the shell has a provider with this id.
    pub fn is_supported_provider_id(&self, provider_id: &str) -> (supported: bool)
        ensures
            supported == self.has_provider(provider_id@),
    {
        find_id(&self.provider_ids, provider_id)
    }
}

/// Ids and modes determine each other: reading back the id of a mode gives the mode, and a text
/// that is read as a mode is the id of that mode.
pub proof fn law_mode_ids_round_trip(mode: SurfaceMode, s: Seq<char>)
    ensures
        SurfaceMode::of_id(mode.id()) == Some(mode),
        SurfaceMode::of_id(s) == Some(mode) <==> s == mode.id(),
{
    reveal_strlit("hidden");
    reveal_strlit("trayPanel");
    reveal_strlit("popOut");
    reveal_strlit("settings");
    assert("hidden"@.len() == 6 && "popOut"@.len() == 6);
    assert("trayPanel"@.len() == 9 && "settings"@.len() == 8);
    assert("hidden"@[0] != "popOut"@[0]);
}

/// A text that starts with `provider:` names the provider that follows, whatever its id is.
pub proof fn law_provider_target_is_named(provider_id: Seq<char>)
    ensures
        SurfaceTargetView::named("provider:"@ + provider_id) == Some(
            SurfaceTargetView::Provider { provider_id },
        ),
{
    let s = "provider:"@ + provider_id;
    reveal_strlit("provider:");
    reveal_strlit("summary");
    reveal_strlit("dashboard");
    assert(s[0] == 'p');
    assert("summary"@[0] == 's');
    assert("dashboard"@[0] == 'd');
    assert("provider:"@.is_prefix_of(s));
    assert(s.skip("provider:"@.len() as int) =~= provider_id);
}

} // verus!
