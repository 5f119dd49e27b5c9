//! The settings of Linux: none so far.

use crate::common::platform::Platform;
use crate::settings::{SettingCommand, SettingCommandView, SystemSettings, command_views};
use vstd::prelude::*;

verus! {

/// Linux-specific system settings.
pub struct LinuxSettings;

impl SystemSettings for LinuxSettings {
    open spec fn platform_spec(&self) -> Platform {
        Platform::Linux
    }

    open spec fn label(&self) -> Seq<char> {
        "Linux Settings"@
    }

    open spec fn commands_spec(&self) -> Seq<SettingCommandView> {
        Seq::empty()
    }

    fn platform(&self) -> (p: Platform) {
        Platform::Linux
    }

    fn commands(&self) -> (steps: Vec<SettingCommand>) {
        let steps: Vec<SettingCommand> = Vec::new();
        assert(command_views(steps@) =~= Seq::<SettingCommandView>::empty());
        steps
    }

    fn name(&self) -> (name: &'static str) {
        "Linux Settings"
    }
}

} // verus!
