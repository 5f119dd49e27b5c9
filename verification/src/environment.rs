//! The environment report: the platform and the directories of the run, and
//! on macOS the machine's serial number.

use crate::common::exchange::{CommandView, Reply, ReplyView, RequestView, Step, StepView};
use crate::common::logging::{group_of, info_line, ok_line, Log, LogLineView};
use crate::common::platform::{first_group_of, serial_pattern, Platform};
use crate::common::utils::{option_str_text, replace_home_with_tilde, with_tilde};
use crate::text::option_text;
use vstd::prelude::*;

verus! {

/// What the host knows of the run's environment.
pub struct EnvironmentFacts {
    /// The user's home directory, if it is known.
    pub home: Option<String>,
    /// The current working directory.
    pub current_dir: String,
    /// The directory of the running executable, if it has one.
    pub executable_dir: Option<String>,
}

/// How the executable's directory is shown: with the home directory as a
/// tilde, or as unknown.
pub open spec fn shown_executable_dir(dir: Option<Seq<char>>, home: Option<Seq<char>>) -> Seq<char> {
    match dir {
        Some(d) => with_tilde(d, home),
        None => "<unknown>"@,
    }
}

/// The serial number that a reply to the device registry listing gives.
pub open spec fn serial_of(platform: Platform, reply: ReplyView) -> Option<Seq<char>> {
    match reply {
        ReplyView::Succeeded(out) => if platform == Platform::MacOS {
            first_group_of(serial_pattern(), out)
        } else {
            None
        },
        _ => None,
    }
}

/// The report lines that tell of the serial number: one when there is a
/// serial number, none otherwise.
pub open spec fn serial_lines(serial: Option<Seq<char>>) -> Seq<LogLineView> {
    match serial {
        Some(s) => seq![ok_line("Serial number ->"@, s)],
        None => Seq::empty(),
    }
}

/// Reports the machine's serial number, if there is one: exactly one success
/// line for a serial number, nothing without one.
pub fn log_serial_number<L: Log>(logger: &mut L, serial: &Option<String>)
    ensures
        final(logger).lines() == old(logger).lines() + serial_lines(option_text(*serial)),
        final(logger).groups() == old(logger).groups(),
{
    match serial {
        Some(s) => {
            logger.ok_with_highlight("Serial number ->", s.as_str());
            assert(logger.lines() =~= old(logger).lines() + serial_lines(Some(s@)));
        },
        None => {
            assert(logger.lines() =~= old(logger).lines() + serial_lines(None));
        },
    }
}

/// The environment phase in progress.
pub struct EnvironmentReport {
    pub platform: Platform,
    pub finished: bool,
}

impl EnvironmentReport {
    /// Takes the host's reply to the device registry listing: reports the
    /// serial number if the listing gives one, then the phase's group, and
    /// ends the phase.
    pub fn resume<L: Log>(&mut self, logger: &mut L, reply: &Reply) -> (step: Step)
        ensures
            final(self).platform == old(self).platform,
            final(self).finished,
            step@ == StepView::Done(Ok(())),
            old(self).finished ==> final(logger).lines() == old(logger).lines(),
            old(self).finished ==> final(logger).groups() == old(logger).groups(),
            !old(self).finished ==> final(logger).lines() == old(logger).lines() + serial_lines(
                serial_of(old(self).platform, reply@),
            ),
            !old(self).finished ==> final(logger).groups() == old(logger).groups().push(
                group_of("Environment"@, 0),
            ),
    {
        if self.finished {
            return Step::Done(Ok(()));
        }
        let serial = match reply {
            Reply::Succeeded(out) => self.platform.get_serial_number(out.as_str()),
            _ => None,
        };
        assert(option_text(serial) == serial_of(self.platform, reply@));
        log_serial_number(logger, &serial);
        logger.add_group("Environment", 0);
        self.finished = true;
        Step::Done(Ok(()))
    }
}

/// Starts the environment phase: reports the platform, the working
/// directory and the executable's directory. On macOS it then asks for the
/// device registry listing; elsewhere it reports the phase's group and ends.
pub fn log_environment_info<L: Log>(
    logger: &mut L,
    platform: &Platform,
    facts: &EnvironmentFacts,
) -> (started: (EnvironmentReport, Step))
    ensures
        started.0.platform == *platform,
        final(logger).lines() == old(logger).lines().push(info_line("▶ Environment"@)).push(
            ok_line("Detected platform ->"@, platform.label()),
        ).push(
            ok_line(
                "Current working directory ->"@,
                with_tilde(facts.current_dir@, option_text(facts.home)),
            ),
        ).push(
            ok_line(
                "Executable directory ->"@,
                shown_executable_dir(option_text(facts.executable_dir), option_text(facts.home)),
            ),
        ),
        *platform == Platform::MacOS ==> !started.0.finished && started.1@ == StepView::Ask(
            RequestView::Run(CommandView { program: "ioreg"@, args: seq!["-l"@] }),
        ) && final(logger).groups() == old(logger).groups(),
        *platform != Platform::MacOS ==> started.0.finished && started.1@ == StepView::Done(Ok(()))
            && final(logger).groups() == old(logger).groups().push(group_of("Environment"@, 0)),
{
    logger.info("▶ Environment");
    logger.ok_with_highlight("Detected platform ->", platform.as_str());
    let home: Option<&str> = match &facts.home {
        Some(h) => Some(h.as_str()),
        None => None,
    };
    assert(option_str_text(home) == option_text(facts.home));
    let cwd = replace_home_with_tilde(facts.current_dir.as_str(), home);
    logger.ok_with_highlight("Current working directory ->", cwd.as_str());
    let exe = match &facts.executable_dir {
        Some(d) => replace_home_with_tilde(d.as_str(), home),
        None => "<unknown>".to_owned(),
    };
    logger.ok_with_highlight("Executable directory ->", exe.as_str());
    match platform.serial_number_query() {
        Some(query) => (EnvironmentReport { platform: *platform, finished: false }, Step::Ask(query)),
        None => {
            logger.add_group("Environment", 0);
            (EnvironmentReport { platform: *platform, finished: true }, Step::Done(Ok(())))
        },
    }
}

} // verus!
