//! The startup routine's decisions: look the main window up by its label
//! and choose decoration settings for the running platform.
//!
//! The host windowing system owns the windows; it hands this module plain
//! values (the labels it knows, the platform family) and applies the
//! returned settings itself.

use vstd::prelude::*;

verus! {

/// The operating-system families the startup routine distinguishes.
/// Only the macOS family gets native decorations; every other platform
/// is treated alike.
#[derive(Clone, Copy, Debug, PartialEq, Eq, Structural)]
pub enum Platform {
    MacOs,
    Windows,
    Linux,
}

/// How a window's title bar is rendered, mirroring the styles the host
/// windowing system offers. In the overlay style the window content
/// extends under the title bar.
#[derive(Clone, Copy, Debug, PartialEq, Eq, Structural)]
pub enum TitleBarStyle {
    Visible,
    Transparent,
    Overlay,
}

/// The decoration settings the startup routine applies to the main
/// window. `title_bar_style` is `None` where the routine leaves the
/// style untouched.
#[derive(Clone, Copy, Debug, PartialEq, Eq)]
pub struct WindowConfig {
    pub decorations: bool,
    pub title_bar_style: Option<TitleBarStyle>,
}

/// The label under which the host windowing system registers the main
/// window.
pub open spec fn main_label() -> Seq<char> {
    "main"@
}

/// The settings chosen for a platform: on the macOS family, native
/// decorations with the overlay title-bar style; on every other
/// platform, no decorations and the title-bar style left untouched.
pub open spec fn decoration_settings(platform: Platform) -> WindowConfig {
    match platform {
        Platform::MacOs => WindowConfig {
            decorations: true,
            title_bar_style: Some(TitleBarStyle::Overlay),
        },
        _ => WindowConfig { decorations: false, title_bar_style: None },
    }
}

/// Whether some window among `labels` carries the main-window label.
pub open spec fn has_main_window(labels: Seq<String>) -> bool {
    exists|i: int| 0 <= i < labels.len() && labels[i]@ == main_label()
}

/// The main window's label, as the lookup uses it.
pub fn main_window_label() -> (label: String)
    ensures
        label@ == main_label(),
{
    "main".to_owned()
}

/// Decides the decoration settings for `platform`.
pub fn window_config(platform: Platform) -> (config: WindowConfig)
    ensures
        config == decoration_settings(platform),
        platform is MacOs ==> config.decorations && config.title_bar_style == Some(
            TitleBarStyle::Overlay,
        ),
        !(platform is MacOs) ==> !config.decorations && config.title_bar_style is None,
{
    match platform {
        Platform::MacOs => WindowConfig {
            decorations: true,
            title_bar_style: Some(TitleBarStyle::Overlay),
        },
        _ => WindowConfig { decorations: false, title_bar_style: None },
    }
}

/// Looks `label` up among the window labels the host knows, as the
/// host's find-window-by-label operation does, and returns the index of
/// the first window that carries it.
pub fn find_window(labels: &Vec<String>, label: &String) -> (found: Option<usize>)
    ensures
        found matches Some(i) ==> {
            &&& i < labels@.len()
            &&& labels@[i as int]@ == label@
            &&& forall|j: int| 0 <= j < i ==> labels@[j]@ != label@
        },
        found is None ==> forall|j: int| 0 <= j < labels@.len() ==> labels@[j]@ != label@,
{
    let mut i: usize = 0;
    while i < labels.len()
        invariant
            i <= labels@.len(),
            forall|j: int| 0 <= j < i ==> labels@[j]@ != label@,
        decreases labels@.len() - i,
    {
        if labels[i] == *label {
            return Some(i);
        }
        i = i + 1;
    }
    None
}

/// The whole startup decision: given the labels of the windows the host
/// knows and the running platform, returns the settings to apply to the
/// main window. Where no main window exists there is nothing to do and
/// no error: the result is `None`.
pub fn startup_plan(window_labels: &Vec<String>, platform: Platform) -> (plan: Option<
    WindowConfig,
>)
    ensures
        plan is Some <==> has_main_window(window_labels@),
        plan matches Some(config) ==> config == decoration_settings(platform),
{
    let label = main_window_label();
    match find_window(window_labels, &label) {
        Some(_) => Some(window_config(platform)),
        None => None,
    }
}

/// On the macOS platform family, the settings chosen at startup enable
/// native decorations and select the overlay title-bar style.
pub proof fn lemma_mac_family_overlay()
    ensures
        decoration_settings(Platform::MacOs).decorations,
        decoration_settings(Platform::MacOs).title_bar_style == Some(TitleBarStyle::Overlay),
{
}

/// On every platform outside the macOS family, the settings chosen at
/// startup disable decorations and leave the title-bar style untouched.
pub proof fn lemma_other_platforms_undecorated(platform: Platform)
    requires
        !(platform is MacOs),
    ensures
        !decoration_settings(platform).decorations,
        decoration_settings(platform).title_bar_style is None,
{
}

} // verus!
