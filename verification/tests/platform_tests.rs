use mac_setup::common::error::SetupError;
use mac_setup::common::exchange::{command_of, Reply, Request};
use mac_setup::common::platform::Platform;
use mac_setup::detectors::app_detector::AppDetector;
use mac_setup::detectors::detector::Detector;
use mac_setup::detectors::helix::helix_detector;
use mac_setup::detectors::mac_app::MacAppDetector;
use mac_setup::detectors::oh_my_zsh::OhMyZshDetector;
use mac_setup::detectors::vscode::vscode_detector;
use mac_setup::detectors::wezterm::wezterm_detector;
use mac_setup::detectors::which::WhichDetector;
use mac_setup::detectors::yazi::yazi_detector;

fn run(program: &str, args: &[&str]) -> Request {
    Request::Run(command_of(program, args.iter().map(|a| a.to_string()).collect()))
}

#[test]
fn platforms_are_detected_by_name() {
    assert_eq!(Platform::detect("macos"), Platform::MacOS);
    assert_eq!(Platform::detect("linux"), Platform::Linux);
    assert_eq!(Platform::detect("windows"), Platform::Windows);
    assert_eq!(Platform::detect("freebsd"), Platform::Linux);
    assert_eq!(Platform::detect(""), Platform::Linux);
    assert_eq!(Platform::detect("MacOS"), Platform::Linux);
}

#[test]
fn platforms_have_names() {
    assert_eq!(Platform::MacOS.as_str(), "macOS");
    assert_eq!(Platform::Linux.as_str(), "Linux");
    assert_eq!(Platform::Windows.as_str(), "Windows");
}

#[test]
fn only_macos_asks_for_the_serial_number() {
    assert_eq!(Platform::MacOS.serial_number_query(), Some(run("ioreg", &["-l"])));
    assert_eq!(Platform::Linux.serial_number_query(), None);
    assert_eq!(Platform::Windows.serial_number_query(), None);
}

#[test]
fn the_serial_number_is_found_in_the_listing() {
    let listing = "    | {\n      \"IOPlatformUUID\" = \"AAAA\"\n      \"IOPlatformSerialNumber\"\" = \"C02XK1ABCD\"\n    }\n";
    assert_eq!(Platform::MacOS.get_serial_number(listing), Some("C02XK1ABCD".to_string()));
    assert_eq!(
        Platform::MacOS.get_serial_number("\"IOPlatformSerialNumber\"\"=\"X1\" \"IOPlatformSerialNumber\"\"=\"X2\""),
        Some("X1".to_string())
    );
}

#[test]
fn a_listing_without_a_serial_number_gives_none() {
    assert_eq!(Platform::MacOS.get_serial_number(""), None);
    assert_eq!(Platform::MacOS.get_serial_number("\"IOPlatformSerialNumber\"\" = \"\""), None);
    assert_eq!(Platform::MacOS.get_serial_number("IOPlatformSerialNumber = C02"), None);
}

#[test]
fn other_platforms_have_no_serial_number() {
    let listing = "\"IOPlatformSerialNumber\"\" = \"C02XK1ABCD\"";
    assert_eq!(Platform::Linux.get_serial_number(listing), None);
    assert_eq!(Platform::Windows.get_serial_number(listing), None);
}

#[test]
fn a_which_detector_looks_the_binary_up() {
    let d = WhichDetector::new("hx", "Helix");
    assert_eq!(d.bin, "hx");
    assert_eq!(d.name(), "Helix");
    assert_eq!(d.probe(), run("which", &["hx"]));
    assert!(d.is_installed(&Reply::Succeeded("/usr/bin/hx\n".to_string())));
    assert!(d.is_installed(&Reply::Succeeded(String::new())));
    assert!(!d.is_installed(&Reply::Failed { exit_code: Some(1), stderr: String::new() }));
    assert!(!d.is_installed(&Reply::IoFailure("no which".to_string())));
    assert!(!d.is_installed(&Reply::Exists(true)));
}

#[test]
fn a_bundle_detector_looks_in_the_applications_folder() {
    let d = MacAppDetector::new("WezTerm", "WezTerm terminal");
    assert_eq!(d.name(), "WezTerm terminal");
    assert_eq!(d.probe(), Request::PathExists("/Applications/WezTerm.app".to_string()));
    assert!(d.is_installed(&Reply::Exists(true)));
    assert!(!d.is_installed(&Reply::Exists(false)));
    assert!(!d.is_installed(&Reply::IoFailure("x".to_string())));
    assert!(!d.is_installed(&Reply::Succeeded("x".to_string())));
    let absolute = MacAppDetector::new("/opt/Tool", "Tool");
    assert_eq!(absolute.probe(), Request::PathExists("/opt/Tool.app".to_string()));
}

#[test]
fn the_shell_framework_is_detected_by_its_directory() {
    let d = OhMyZshDetector;
    assert_eq!(d.name(), "oh-my-zsh");
    assert_eq!(d.probe(), Request::PathExists("~/.oh-my-zsh".to_string()));
    assert!(d.is_installed(&Reply::Exists(true)));
    assert!(!d.is_installed(&Reply::Exists(false)));
}

#[test]
fn the_catalog_detectors() {
    assert_eq!(helix_detector().probe(), run("which", &["hx"]));
    assert_eq!(helix_detector().name(), "Helix");
    assert_eq!(yazi_detector().probe(), run("which", &["yazi"]));
    assert_eq!(yazi_detector().name(), "Yazi");
    assert_eq!(wezterm_detector().probe(), Request::PathExists("/Applications/WezTerm.app".to_string()));
    assert_eq!(
        vscode_detector().probe(),
        Request::PathExists("/Applications/Visual Studio Code.app".to_string())
    );
    assert_eq!(vscode_detector().name(), "Visual Studio Code");
}

#[test]
fn the_detector_enum_defers_to_its_variant() {
    let d = Detector::Which(yazi_detector());
    assert_eq!(d.name(), "Yazi");
    assert_eq!(d.probe(), run("which", &["yazi"]));
    assert!(d.is_installed(&Reply::Succeeded(String::new())));
    let d = Detector::MacApp(wezterm_detector());
    assert_eq!(d.name(), "WezTerm");
    assert!(!d.is_installed(&Reply::Succeeded(String::new())));
    assert!(d.is_installed(&Reply::Exists(true)));
    let d = Detector::OhMyZsh(OhMyZshDetector);
    assert_eq!(d.name(), "oh-my-zsh");
    assert!(d.is_installed(&Reply::Exists(true)));
}

#[test]
fn replies_answer_commands() {
    assert_eq!(Reply::Succeeded("out".to_string()).command_result("c"), Ok("out".to_string()));
    assert_eq!(
        Reply::Failed { exit_code: Some(3), stderr: "e".to_string() }.command_result("c x"),
        Err(SetupError::CommandFailed { command: "c x".to_string(), exit_code: Some(3) })
    );
    assert_eq!(
        Reply::IoFailure("no such program".to_string()).command_result("c"),
        Err(SetupError::IoError("no such program".to_string()))
    );
    assert_eq!(
        Reply::Written.command_result("c"),
        Err(SetupError::IoError("the reply does not answer the request".to_string()))
    );
}
