//! The settings of macOS: scrolling direction and tap to click, written with
//! the preferences command and then activated.

use crate::common::exchange::{command_of, CommandView};
use crate::common::platform::Platform;
use crate::settings::{SettingCommand, SettingCommandView, SystemSettings, command_views};
use vstd::prelude::*;
use vstd::string::StringExecFns;

verus! {

/// macOS-specific system settings.
pub struct MacOSSettings;

/// How a boolean is written for the preferences command.
pub open spec fn bool_text(value: bool) -> Seq<char> {
    if value {
        "true"@
    } else {
        "false"@
    }
}

/// The command that writes the global preference `key`.
pub open spec fn global_setting(key: Seq<char>, value: bool) -> SettingCommandView {
    SettingCommandView {
        command: CommandView {
            program: "defaults"@,
            args: seq!["write"@, "-g"@, key, "-bool"@, bool_text(value)],
        },
        failure: "Failed to set mouse "@ + key,
    }
}

/// The command that writes the preference `key` of `domain`.
pub open spec fn local_setting(domain: Seq<char>, key: Seq<char>, value: bool) -> SettingCommandView {
    SettingCommandView {
        command: CommandView {
            program: "defaults"@,
            args: seq!["write"@, domain, key, "-bool"@, bool_text(value)],
        },
        failure: "Failed to set "@ + domain + " "@ + key,
    }
}

/// The command that makes the written preferences take effect.
pub open spec fn activation() -> SettingCommandView {
    SettingCommandView {
        command: CommandView {
            program: "/System/Library/PrivateFrameworks/SystemAdministration.framework/Resources/activateSettings"@,
            args: seq!["-u"@],
        },
        failure: "Failed to activate settings"@,
    }
}

/// The commands that apply the macOS settings: natural scrolling off, tap
/// to click on, then activation.
pub open spec fn macos_commands() -> Seq<SettingCommandView> {
    seq![
        global_setting("com.apple.swipescrolldirection"@, false),
        local_setting("com.apple.AppleMultitouchTrackpad"@, "Clicking"@, true),
        activation(),
    ]
}

/// How a boolean is written for the preferences command.
fn bool_str(value: bool) -> (s: &'static str)
    ensures
        s@ == bool_text(value),
{
    if value {
        "true"
    } else {
        "false"
    }
}

impl MacOSSettings {
    /// The command that makes the written preferences take effect.
    pub fn activate_settings(&self) -> (step: SettingCommand)
        ensures
            step@ == activation(),
    {
        let mut args: Vec<String> = Vec::new();
        args.push("-u".to_owned());
        let command = command_of(
            "/System/Library/PrivateFrameworks/SystemAdministration.framework/Resources/activateSettings",
            args,
        );
        assert(command@.args =~= seq!["-u"@]);
        SettingCommand { command, failure: "Failed to activate settings".to_owned() }
    }

    /// The command that turns tap to click on.
    pub fn enable_trackpad_tap_to_click(&self) -> (step: SettingCommand)
        ensures
            step@ == local_setting("com.apple.AppleMultitouchTrackpad"@, "Clicking"@, true),
    {
        self.set_local_setting_value("com.apple.AppleMultitouchTrackpad", "Clicking", true)
    }

    /// The command that writes the preference `key` of `domain`.
    pub fn set_local_setting_value(&self, domain: &str, key: &str, value: bool) -> (step:
        SettingCommand)
        ensures
            step@ == local_setting(domain@, key@, value),
    {
        let mut args: Vec<String> = Vec::new();
        args.push("write".to_owned());
        args.push(domain.to_owned());
        args.push(key.to_owned());
        args.push("-bool".to_owned());
        args.push(bool_str(value).to_owned());
        let command = command_of("defaults", args);
        assert(command@.args =~= seq!["write"@, domain@, key@, "-bool"@, bool_text(value)]);
        SettingCommand {
            command,
            failure: "Failed to set ".to_owned().concat(domain).concat(" ").concat(key),
        }
    }

    /// The command that writes the global preference `key`.
    pub fn set_global_setting_value(&self, key: &str, value: bool) -> (step: SettingCommand)
        ensures
            step@ == global_setting(key@, value),
    {
        let mut args: Vec<String> = Vec::new();
        args.push("write".to_owned());
        args.push("-g".to_owned());
        args.push(key.to_owned());
        args.push("-bool".to_owned());
        args.push(bool_str(value).to_owned());
        let command = command_of("defaults", args);
        assert(command@.args =~= seq!["write"@, "-g"@, key@, "-bool"@, bool_text(value)]);
        SettingCommand { command, failure: "Failed to set mouse ".to_owned().concat(key) }
    }
}

impl SystemSettings for MacOSSettings {
    open spec fn platform_spec(&self) -> Platform {
        Platform::MacOS
    }

    open spec fn label(&self) -> Seq<char> {
        "macOS Settings"@
    }

    open spec fn commands_spec(&self) -> Seq<SettingCommandView> {
        macos_commands()
    }

    fn platform(&self) -> (p: Platform) {
        Platform::MacOS
    }

    fn commands(&self) -> (steps: Vec<SettingCommand>) {
        let mut steps: Vec<SettingCommand> = Vec::new();
        steps.push(self.set_global_setting_value("com.apple.swipescrolldirection", false));
        steps.push(self.enable_trackpad_tap_to_click());
        steps.push(self.activate_settings());
        assert(command_views(steps@) =~= macos_commands());
        steps
    }

    fn name(&self) -> (name: &'static str) {
        "macOS Settings"
    }
}

} // verus!
