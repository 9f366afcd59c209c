//! The dockable tabs of the console and the small per-tab states that
//! belong to the engine rather than to the window system.

use vstd::prelude::*;

verus! {

/// The tabs the console offers.
#[derive(Debug, Clone, Copy, PartialEq, Eq)]
pub enum Tabs {
    Chat,
    Stats,
    Actions,
    Logs,
    Database,
    Settings,
    Docs,
}

impl Tabs {
    /// The label under which the tab is presented.
    pub fn title(&self) -> (r: String)
        ensures
            r@ == match self {
                Tabs::Chat => "Chat"@,
                Tabs::Stats => "Stats"@,
                Tabs::Actions => "Actions"@,
                Tabs::Logs => "Logs"@,
                Tabs::Database => "Database"@,
                Tabs::Settings => "Settings"@,
                Tabs::Docs => "Docs"@,
            },
    {
        match self {
            Tabs::Chat => String::from_str("Chat"),
            Tabs::Stats => String::from_str("Stats"),
            Tabs::Actions => String::from_str("Actions"),
            Tabs::Logs => String::from_str("Logs"),
            Tabs::Database => String::from_str("Database"),
            Tabs::Settings => String::from_str("Settings"),
            Tabs::Docs => String::from_str("Docs"),
        }
    }

    /// No tab of the console can be closed.
    pub fn is_closeable(&self) -> (r: bool)
        ensures
            r == false,
    {
        false
    }
}

/// The state of the documentation tab. The rendered document itself lives
/// with the window system; the engine holds nothing for it.
#[derive(Debug, Clone, PartialEq, Eq, Default)]
pub struct DocsState {}

/// The state of the settings tab: the channel name the operator typed and
/// the error of the last rejected connect request, if any.
#[derive(Debug, Clone, PartialEq, Eq)]
pub struct SettingsState {
    pub channel_name: String,
    pub channel_name_error: Option<String>,
}

#[verifier::ext_equal]
pub struct SettingsV {
    pub channel_name: Seq<char>,
    pub channel_name_error: Option<Seq<char>>,
}

impl View for SettingsState {
    type V = SettingsV;

    open spec fn view(&self) -> SettingsV {
        SettingsV {
            channel_name: self.channel_name@,
            channel_name_error: crate::events::opt_view(self.channel_name_error),
        }
    }
}

impl Default for SettingsState {
    fn default() -> (s: SettingsState)
        ensures
            s@ == (SettingsV { channel_name: Seq::<char>::empty(), channel_name_error: None }),
    {
        SettingsState { channel_name: String::new(), channel_name_error: None }
    }
}

} // verus!
