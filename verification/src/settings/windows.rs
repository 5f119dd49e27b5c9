//! The settings of Windows: none so far.

use crate::common::platform::Platform;
use crate::settings::{SettingCommand, SettingCommandView, SystemSettings, command_views};
use vstd::prelude::*;

verus! {

/// Windows-specific system settings.
pub struct WindowsSettings;

impl SystemSettings for WindowsSettings {
    open spec fn platform_spec(&self) -> Platform {
        Platform::Windows
    }

    open spec fn label(&self) -> Seq<char> {
        "Windows Settings"@
    }

    open spec fn commands_spec(&self) -> Seq<SettingCommandView> {
        Seq::empty()
    }

    fn platform(&self) -> (p: Platform) {
        Platform::Windows
    }

    fn commands(&self) -> (steps: Vec<SettingCommand>) {
        let steps: Vec<SettingCommand> = Vec::new();
        assert(command_views(steps@) =~= Seq::<SettingCommandView>::empty());
        steps
    }

    fn name(&self) -> (name: &'static str) {
        "Windows Settings"
    }
}

} // verus!
