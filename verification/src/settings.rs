//! User preferences and their mapping to history policies.

use vstd::prelude::*;

use crate::history::HistoryPolicies;

verus! {

/// Identifier of the settings in the desktop configuration store.
pub const APP_ID: &'static str = "com.system76.CosmicPaste";

/// Version of the settings layout.
pub const SETTINGS_VERSION: u64 = 1;

/// Global shortcut accelerators (empty string disables a binding).
#[derive(Clone, Debug, Default, PartialEq, Eq)]
pub struct ShortcutSettings {
    pub show_history: String,
    pub launch_ui: String,
    pub pop: String,
    pub sync_clipboard_to_primary: String,
    pub sync_primary_to_clipboard: String,
    pub mark_password: String,
    pub select_previous: String,
    pub select_next: String,
    pub quick_select_0: String,
    pub quick_select_1: String,
    pub quick_select_2: String,
    pub quick_select_3: String,
    pub quick_select_4: String,
    pub quick_select_5: String,
    pub quick_select_6: String,
    pub quick_select_7: String,
    pub quick_select_8: String,
    pub quick_select_9: String,
}

impl ShortcutSettings {
    /// Whether every quick-select binding is empty (disabled).
    pub open spec fn quick_selects_disabled(&self) -> bool {
        &&& self.quick_select_0@.len() == 0
        &&& self.quick_select_1@.len() == 0
        &&& self.quick_select_2@.len() == 0
        &&& self.quick_select_3@.len() == 0
        &&& self.quick_select_4@.len() == 0
        &&& self.quick_select_5@.len() == 0
        &&& self.quick_select_6@.len() == 0
        &&& self.quick_select_7@.len() == 0
        &&& self.quick_select_8@.len() == 0
        &&& self.quick_select_9@.len() == 0
    }

    pub fn default_bindings() -> (s: Self)
        ensures
            s.show_history@ == "<Ctrl>F11"@,
            s.launch_ui@ == "<Ctrl><Alt>G"@,
            s.pop@ == "<Ctrl><Alt>V"@,
            s.sync_clipboard_to_primary@ == "<Ctrl><Alt>O"@,
            s.sync_primary_to_clipboard@ == "<Ctrl><Alt>P"@,
            s.mark_password@ == "<Ctrl><Alt>S"@,
            s.select_previous@ == "<Ctrl>F9"@,
            s.select_next@ == "<Ctrl>F10"@,
            s.quick_selects_disabled(),
    {
        Self {
            show_history: "<Ctrl>F11".to_owned(),
            launch_ui: "<Ctrl><Alt>G".to_owned(),
            pop: "<Ctrl><Alt>V".to_owned(),
            sync_clipboard_to_primary: "<Ctrl><Alt>O".to_owned(),
            sync_primary_to_clipboard: "<Ctrl><Alt>P".to_owned(),
            mark_password: "<Ctrl><Alt>S".to_owned(),
            select_previous: "<Ctrl>F9".to_owned(),
            select_next: "<Ctrl>F10".to_owned(),
            quick_select_0: String::new(),
            quick_select_1: String::new(),
            quick_select_2: String::new(),
            quick_select_3: String::new(),
            quick_select_4: String::new(),
            quick_select_5: String::new(),
            quick_select_6: String::new(),
            quick_select_7: String::new(),
            quick_select_8: String::new(),
            quick_select_9: String::new(),
        }
    }
}

/// Persistent cosmic-paste preferences.
#[derive(Clone, Debug, PartialEq, Eq)]
pub struct Settings {
    pub element_size: u16,
    pub growing_lines: bool,
    pub history_name: String,
    pub images_support: bool,
    pub images_preview: bool,
    pub images_preview_size: u16,
    pub close_on_select: bool,
    pub open_centered: bool,
    pub max_displayed_history_size: u8,
    pub max_history_size: u16,
    pub max_memory_usage_mb: u16,
    pub max_text_item_size: u32,
    pub min_text_item_size: u16,
    pub primary_to_history: bool,
    pub rich_text_support: bool,
    pub save_history: bool,
    pub track_changes: bool,
    pub trim_items: bool,
    pub synchronize_clipboards: bool,
    pub empty_history_confirmation: bool,
    pub navigation_wrap: bool,
    pub track_applet_state: bool,
    pub screensaver_restore_clipboard: bool,
    pub excluded_targets: Vec<String>,
    pub shortcuts: ShortcutSettings,
}

/// Whether `s` holds the default preferences.
pub open spec fn is_default_settings(s: Settings) -> bool {
    &&& s.element_size == 72
    &&& !s.growing_lines
    &&& s.history_name@ == "history"@
    &&& !s.images_support
    &&& s.images_preview
    &&& s.images_preview_size == 50
    &&& s.close_on_select
    &&& !s.open_centered
    &&& s.max_displayed_history_size == 100
    &&& s.max_history_size == 100
    &&& s.max_memory_usage_mb == 30
    &&& s.max_text_item_size == 1_048_575
    &&& s.min_text_item_size == 1
    &&& !s.primary_to_history
    &&& s.rich_text_support
    &&& s.save_history
    &&& s.track_changes
    &&& !s.trim_items
    &&& !s.synchronize_clipboards
    &&& s.empty_history_confirmation
    &&& !s.navigation_wrap
    &&& !s.track_applet_state
    &&& !s.screensaver_restore_clipboard
    &&& s.excluded_targets@.len() == 0
    &&& s.shortcuts.show_history@ == "<Ctrl>F11"@
    &&& s.shortcuts.select_previous@ == "<Ctrl>F9"@
    &&& s.shortcuts.select_next@ == "<Ctrl>F10"@
    &&& s.shortcuts.quick_selects_disabled()
}

impl Default for Settings {
    fn default() -> (s: Self)
        ensures
            is_default_settings(s),
    {
        Self {
            element_size: 72,
            growing_lines: false,
            history_name: "history".to_owned(),
            images_support: false,
            images_preview: true,
            images_preview_size: 50,
            close_on_select: true,
            open_centered: false,
            max_displayed_history_size: 100,
            max_history_size: 100,
            max_memory_usage_mb: 30,
            max_text_item_size: 1_048_575,
            min_text_item_size: 1,
            primary_to_history: false,
            rich_text_support: true,
            save_history: true,
            track_changes: true,
            trim_items: false,
            synchronize_clipboards: false,
            empty_history_confirmation: true,
            navigation_wrap: false,
            track_applet_state: false,
            screensaver_restore_clipboard: false,
            excluded_targets: Vec::new(),
            shortcuts: ShortcutSettings::default_bindings(),
        }
    }
}

impl Settings {
    /// The preferences after reading the configuration: the defaults when the
    /// configuration store was unavailable (`None`), the stored values, or the fallback
    /// the reader produced for entries it could not parse.
    pub fn load(entry: Option<Result<Settings, Settings>>) -> (s: Self)
        ensures
            entry is None ==> is_default_settings(s),
            entry matches Some(Ok(stored)) ==> s == stored,
            entry matches Some(Err(fallback)) ==> s == fallback,
    {
        match entry {
            None => Settings::default(),
            Some(Ok(stored)) => stored,
            Some(Err(fallback)) => fallback,
        }
    }

    pub fn history_policies(&self) -> (p: HistoryPolicies)
        ensures
            p.max_history_size == self.max_history_size,
            p.max_memory_usage_bytes == self.max_memory_usage_mb as u64 * 1024 * 1024,
            p.max_text_item_size == self.max_text_item_size,
            p.min_text_item_size == self.min_text_item_size,
            p.growing_lines == self.growing_lines,
            p.trim_items == self.trim_items,
            p.element_display_size == self.element_size,
    {
        HistoryPolicies {
            max_history_size: self.max_history_size as usize,
            max_memory_usage_bytes: (self.max_memory_usage_mb as u64) * 1024 * 1024,
            max_text_item_size: self.max_text_item_size as usize,
            min_text_item_size: self.min_text_item_size as usize,
            growing_lines: self.growing_lines,
            trim_items: self.trim_items,
            element_display_size: self.element_size as usize,
        }
    }
}

} // verus!
