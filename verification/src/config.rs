//! Configuration of a window, and what changes when it is reloaded.

use vstd::prelude::*;

use crate::setup::Platform;

verus! {

/// Theme of a window's decorations.
#[derive(Clone, Copy, Debug, PartialEq, Eq, Structural)]
pub enum Theme {
    Light,
    Dark,
}

/// Which option keys of macOS act as alt.
#[derive(Clone, Copy, Debug, PartialEq, Eq, Structural)]
pub enum OptionAsAlt {
    OnlyLeft,
    OnlyRight,
    Both,
    Neither,
}

/// The settings on which a window's decisions depend.
pub struct UiConfig {
    /// Title of a window that was given no other.
    pub title: String,
    /// Programs may change the title.
    pub dynamic_title: bool,
    pub dynamic_padding: bool,
    pub resize_increments: bool,
    /// Theme of the decorations; without one the system chooses.
    pub theme: Option<Theme>,
    pub option_as_alt: OptionAsAlt,
    pub blur: bool,
    /// The window's opacity leaves nothing of what is behind it visible.
    pub opaque: bool,
    /// Characters that label hints.
    pub hint_alphabet: String,
    pub cursor_blinking: bool,
    /// Record what terminals receive.
    pub ref_test: bool,
}

/// What a [`UiConfig`] stands for in contracts.
pub struct ConfigModel {
    pub title: Seq<char>,
    pub dynamic_title: bool,
    pub dynamic_padding: bool,
    pub resize_increments: bool,
    pub theme: Option<Theme>,
    pub option_as_alt: OptionAsAlt,
    pub blur: bool,
    pub opaque: bool,
    pub hint_alphabet: Seq<char>,
    pub cursor_blinking: bool,
    pub ref_test: bool,
}

impl View for UiConfig {
    type V = ConfigModel;

    open spec fn view(&self) -> ConfigModel {
        ConfigModel {
            title: self.title@,
            dynamic_title: self.dynamic_title,
            dynamic_padding: self.dynamic_padding,
            resize_increments: self.resize_increments,
            theme: self.theme,
            option_as_alt: self.option_as_alt,
            blur: self.blur,
            opaque: self.opaque,
            hint_alphabet: self.hint_alphabet@,
            cursor_blinking: self.cursor_blinking,
            ref_test: self.ref_test,
        }
    }
}

/// What was asked for when a window or a tab was opened.
pub struct WindowOptions<D> {
    /// Title that replaces the configured one.
    pub title: Option<String>,
    pub working_directory: Option<D>,
    /// Group of windows in which a new window becomes a tab.
    pub window_tabbing_id: Option<String>,
}

impl<D> Default for WindowOptions<D> {
    fn default() -> (options: WindowOptions<D>)
        ensures
            options.title is None,
            options.working_directory is None,
            options.window_tabbing_id is None,
    {
        WindowOptions { title: None, working_directory: None, window_tabbing_id: None }
    }
}

/// How two configurations differ in what is measured in fractions.
#[derive(Clone, Copy, Debug, PartialEq, Eq, Structural)]
pub struct ConfigDelta {
    /// The cursors differ in thickness.
    pub cursor_thickness_changed: bool,
    pub font_changed: bool,
    /// The font still has the size that the previous configuration gave it.
    pub font_size_as_configured: bool,
    pub padding_changed: bool,
}

/// How the display's font follows a new configuration.
#[derive(Clone, Copy, Debug, PartialEq, Eq, Structural)]
pub enum FontUpdate {
    /// The font stays as it is.
    Unchanged,
    /// The configured font is loaded at the size that is in use.
    KeepSize,
    /// The configured font is loaded at the configured size.
    ConfiguredSize,
}

/// What a window of macOS has to do for a new configuration.
#[derive(Clone, Copy, Debug, PartialEq, Eq, Structural)]
pub struct MacOsUpdate {
    /// A window that can be seen through has no shadow.
    pub has_shadow: bool,
    pub option_as_alt: OptionAsAlt,
}

/// What terminals and display have to do for a new configuration.
///
/// What is no option here is set on every load, changed or not.
pub struct ConfigUpdate {
    /// The places of the tabs whose terminals take over the new options.
    pub terminals: Vec<usize>,
    /// Load the cursor again.
    pub cursor_dirty: bool,
    pub font: FontUpdate,
    /// Lay the display out again.
    pub layout_dirty: bool,
    /// Theme to give to the window, which may switch it by itself.
    pub theme: Option<Theme>,
    /// Title to give to the window.
    pub title: Option<String>,
    /// What is set on macOS alone, on every load too.
    pub mac_os: Option<MacOsUpdate>,
    pub transparent: bool,
    pub blur: bool,
    pub hint_alphabet: String,
}

/// What a [`ConfigUpdate`] stands for in contracts.
#[verifier::ext_equal]
pub struct ConfigUpdateModel {
    pub terminals: Seq<int>,
    pub cursor_dirty: bool,
    pub font: FontUpdate,
    pub layout_dirty: bool,
    pub theme: Option<Theme>,
    pub title: Option<Seq<char>>,
    pub mac_os: Option<MacOsUpdate>,
    pub transparent: bool,
    pub blur: bool,
    pub hint_alphabet: Seq<char>,
}

impl View for ConfigUpdate {
    type V = ConfigUpdateModel;

    open spec fn view(&self) -> ConfigUpdateModel {
        ConfigUpdateModel {
            terminals: Seq::new(self.terminals@.len(), |i: int| self.terminals@[i] as int),
            cursor_dirty: self.cursor_dirty,
            font: self.font,
            layout_dirty: self.layout_dirty,
            theme: self.theme,
            title: match self.title {
                Some(title) => Some(title@),
                None => None,
            },
            mac_os: self.mac_os,
            transparent: self.transparent,
            blur: self.blur,
            hint_alphabet: self.hint_alphabet@,
        }
    }
}

/// The window gets the configured title on a reload.
///
/// A title that was asked for when the tab was opened stays. Without dynamic
/// titles the configured title always applies; with them, only where no program
/// has changed the title since the previous configuration was loaded.
pub open spec fn title_follows_config(
    preserve_title: bool,
    dynamic_title: bool,
    current_title: Seq<char>,
    old_title: Seq<char>,
) -> bool {
    !preserve_title && (!dynamic_title || current_title == old_title)
}

/// Every place of `count` tabs, once.
pub open spec fn all_places(count: nat) -> Seq<int> {
    Seq::new(count, |i: int| i)
}

/// What terminals and display have to do when `new` replaces `old` in a window
/// of `tab_count` tabs.
///
/// Every terminal, shown or not, takes over the new options. The theme, the
/// opacity, the blur, the hints and the settings of macOS are set again even
/// where they are the same.
pub open spec fn config_update(
    old: ConfigModel,
    new: ConfigModel,
    delta: ConfigDelta,
    platform: Platform,
    tab_count: nat,
    preserve_title: bool,
    current_title: Seq<char>,
) -> ConfigUpdateModel {
    ConfigUpdateModel {
        terminals: all_places(tab_count),
        cursor_dirty: delta.cursor_thickness_changed,
        font: if !delta.font_changed {
            FontUpdate::Unchanged
        } else if delta.font_size_as_configured {
            FontUpdate::ConfiguredSize
        } else {
            FontUpdate::KeepSize
        },
        layout_dirty: delta.padding_changed || old.dynamic_padding != new.dynamic_padding
            || old.resize_increments != new.resize_increments,
        theme: new.theme,
        title: if title_follows_config(
            preserve_title,
            new.dynamic_title,
            current_title,
            old.title,
        ) {
            Some(new.title)
        } else {
            None
        },
        mac_os: if platform == Platform::MacOs {
            Some(MacOsUpdate { has_shadow: new.opaque, option_as_alt: new.option_as_alt })
        } else {
            None
        },
        transparent: !new.opaque,
        blur: new.blur,
        hint_alphabet: new.hint_alphabet,
    }
}

/// The title of a window that showed `current_title` once an update with
/// `title` was performed.
pub open spec fn title_after(title: Option<Seq<char>>, current_title: Seq<char>) -> Seq<char> {
    match title {
        Some(title) => title,
        None => current_title,
    }
}

/// Decides what terminals and display have to do when `new` replaces `old`.
pub(crate) fn compare_configs(
    old: &UiConfig,
    new: &UiConfig,
    delta: &ConfigDelta,
    platform: Platform,
    tab_count: usize,
    preserve_title: bool,
    current_title: &String,
) -> (update: ConfigUpdate)
    ensures
        update@ == config_update(
            old@,
            new@,
            *delta,
            platform,
            tab_count as nat,
            preserve_title,
            current_title@,
        ),
{
    let mut terminals: Vec<usize> = Vec::new();
    for place in 0..tab_count
        invariant
            terminals@.len() == place,
            forall|i: int| 0 <= i < place ==> #[trigger] terminals@[i] == i,
    {
        terminals.push(place);
    }

    let font = if delta.font_changed {
        // A size that was changed at runtime is kept.
        if delta.font_size_as_configured {
            FontUpdate::ConfiguredSize
        } else {
            FontUpdate::KeepSize
        }
    } else {
        FontUpdate::Unchanged
    };

    let layout_dirty = delta.padding_changed || old.dynamic_padding != new.dynamic_padding
        || old.resize_increments != new.resize_increments;

    let title = if !preserve_title && (!new.dynamic_title || *current_title == old.title) {
        Some(new.title.clone())
    } else {
        None
    };

    let mac_os = if platform == Platform::MacOs {
        Some(MacOsUpdate { has_shadow: new.opaque, option_as_alt: new.option_as_alt })
    } else {
        None
    };

    let update = ConfigUpdate {
        terminals,
        cursor_dirty: delta.cursor_thickness_changed,
        font,
        layout_dirty,
        theme: new.theme,
        title,
        mac_os,
        transparent: !new.opaque,
        blur: new.blur,
        hint_alphabet: new.hint_alphabet.clone(),
    };
    assert(update@.terminals =~= all_places(tab_count as nat));
    update
}

} // verus!
