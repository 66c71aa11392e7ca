//! The launch of the daemon that tracks the UIDs of applications: a fixed
//! sequence of preparations, none of which may stop the start of the daemon.

use vstd::prelude::*;

use crate::error::KpmError;

verus! {

/// The binary of the daemon that tracks the UIDs of applications.
pub const SCANNER_PATH: &'static str = "/data/adb/uid_scanner";

/// The directory that holds a link to the binary.
pub const LINK_DIR: &'static str = "/data/adb/ksu/bin";

/// The link to the binary.
pub const LINK_PATH: &'static str = "/data/adb/ksu/bin/uid_scanner";

/// The directory of the scripts that run at boot.
pub const SERVICE_DIR: &'static str = "/data/adb/service.d";

/// The script that restarts the daemon at boot.
pub const SERVICE_PATH: &'static str = "/data/adb/service.d/uid_scanner.sh";

/// What the restart script holds.
pub const SERVICE_SCRIPT: &'static str =
    "#!/system/bin/sh\n# KSU uid_scanner auto-restart script\nuntil [ -d \"/sdcard/Android\" ]; do sleep 1; done\nsleep 10\n/data/adb/uid_scanner restart\n";

/// The argument that the daemon is started with.
pub const START_ARG: &'static str = "start";

/// The mode of the binary and of the restart script.
pub const EXECUTABLE_MODE: u32 = 0o755;

/// The scheduling priority of the daemon: the highest.
pub const DAEMON_NICE: i32 = -20;

/// The places that the launch touches.
#[derive(Clone, Copy, Debug, PartialEq, Eq, Structural)]
pub enum Place {
    Binary,
    LinkDir,
    Link,
    ServiceDir,
    Script,
}

/// One thing the driver is asked to do for the launch.
#[derive(Clone, Copy, Debug, PartialEq, Eq, Structural)]
pub enum Launch {
    /// Say whether the place exists. Answered by `Found`.
    Probe(Place),
    /// Give the binary `EXECUTABLE_MODE`. Answered by `Done` or `Failed`.
    MakeExecutable,
    /// Create the directory and its parents. Answered by `Done` or `Failed`.
    MakeDir(Place),
    /// Link `LINK_PATH` to `SCANNER_PATH`. Answered by `Done` or `Failed`.
    MakeLink,
    /// Create `SERVICE_PATH` anew with `SERVICE_SCRIPT` in it, flush it and
    /// give it `EXECUTABLE_MODE`. Answered by `Done` or `Failed`.
    WriteScript,
    /// Run the binary with `START_ARG`, in `/`, without standard streams, in
    /// a session of its own and at `DAEMON_NICE`, and do not wait for it.
    /// Answered by `Done` or `Failed`.
    Spawn,
}

/// What the driver reports after it has carried out a `Launch`.
#[derive(Clone, Copy, Debug, PartialEq, Eq, Structural)]
pub enum Report {
    Found(bool),
    Done,
    Failed,
}

/// What the launch is waiting for.
#[derive(Clone, Copy, Debug, PartialEq, Eq, Structural)]
pub enum Waiting {
    /// Whether the binary exists.
    Binary,
    /// The binary's permissions.
    Permission,
    /// The link's directory.
    LinkDir,
    /// Whether the link exists.
    LinkProbe,
    /// The link.
    Linking,
    /// The script's directory.
    ServiceDir,
    /// Whether the script exists.
    ScriptProbe,
    /// The script.
    Writing,
    /// The daemon.
    Spawning,
}

/// How the launch ended.
#[derive(Clone, Copy, Debug, PartialEq, Eq, Structural)]
pub enum Launched {
    /// There is no binary: nothing was done.
    Missing,
    /// The daemon runs.
    Started,
    /// The daemon could not be started.
    NotStarted,
}

/// The next thing to happen in the launch.
#[derive(Clone, Copy, Debug, PartialEq, Eq)]
pub enum LaunchStep {
    Perform(Waiting, Launch),
    Finish(Result<Launched, KpmError>),
}

/// The preparation of the boot script, which follows that of the link.
pub open spec fn to_service_dir() -> LaunchStep {
    LaunchStep::Perform(Waiting::ServiceDir, Launch::MakeDir(Place::ServiceDir))
}

/// The start of the daemon, which follows every preparation.
pub open spec fn to_spawn() -> LaunchStep {
    LaunchStep::Perform(Waiting::Spawning, Launch::Spawn)
}

/// The report does not fit what the launch waits for.
pub open spec fn misreported() -> LaunchStep {
    LaunchStep::Finish(Err(KpmError::OutOfOrder))
}

/// The rules of the launch. Without a binary nothing happens. With one,
/// every preparation is tried once and none can stop the launch: the
/// binary is made executable; the link is made unless it exists or its
/// directory cannot be had; the boot script is written unless it exists or
/// its directory cannot be had; then the daemon is started.
pub open spec fn launch_next(waiting: Waiting, report: Report) -> LaunchStep {
    match waiting {
        Waiting::Binary => match report {
            Report::Found(true) => LaunchStep::Perform(Waiting::Permission, Launch::MakeExecutable),
            Report::Found(false) => LaunchStep::Finish(Ok(Launched::Missing)),
            _ => misreported(),
        },
        Waiting::Permission => match report {
            Report::Found(_) => misreported(),
            _ => LaunchStep::Perform(Waiting::LinkDir, Launch::MakeDir(Place::LinkDir)),
        },
        Waiting::LinkDir => match report {
            Report::Done => LaunchStep::Perform(Waiting::LinkProbe, Launch::Probe(Place::Link)),
            Report::Failed => to_service_dir(),
            _ => misreported(),
        },
        Waiting::LinkProbe => match report {
            Report::Found(true) => to_service_dir(),
            Report::Found(false) => LaunchStep::Perform(Waiting::Linking, Launch::MakeLink),
            _ => misreported(),
        },
        Waiting::Linking => match report {
            Report::Found(_) => misreported(),
            _ => to_service_dir(),
        },
        Waiting::ServiceDir => match report {
            Report::Done => LaunchStep::Perform(
                Waiting::ScriptProbe,
                Launch::Probe(Place::Script),
            ),
            Report::Failed => to_spawn(),
            _ => misreported(),
        },
        Waiting::ScriptProbe => match report {
            Report::Found(true) => to_spawn(),
            Report::Found(false) => LaunchStep::Perform(Waiting::Writing, Launch::WriteScript),
            _ => misreported(),
        },
        Waiting::Writing => match report {
            Report::Found(_) => misreported(),
            _ => to_spawn(),
        },
        Waiting::Spawning => match report {
            Report::Done => LaunchStep::Finish(Ok(Launched::Started)),
            Report::Failed => LaunchStep::Finish(Ok(Launched::NotStarted)),
            _ => misreported(),
        },
    }
}

/// Whether a report is of the kind that the launch waits for.
pub open spec fn report_fits(waiting: Waiting, report: Report) -> bool {
    match waiting {
        Waiting::Binary | Waiting::LinkProbe | Waiting::ScriptProbe => report is Found,
        _ => !(report is Found),
    }
}

/// How far the launch has come.
pub open spec fn progress(waiting: Waiting) -> nat {
    match waiting {
        Waiting::Binary => 0,
        Waiting::Permission => 1,
        Waiting::LinkDir => 2,
        Waiting::LinkProbe => 3,
        Waiting::Linking => 4,
        Waiting::ServiceDir => 5,
        Waiting::ScriptProbe => 6,
        Waiting::Writing => 7,
        Waiting::Spawning => 8,
    }
}

impl Place {
    /// Where the place is.
    pub fn path(self) -> (path: &'static str)
        ensures
            path == match self {
                Place::Binary => SCANNER_PATH,
                Place::LinkDir => LINK_DIR,
                Place::Link => LINK_PATH,
                Place::ServiceDir => SERVICE_DIR,
                Place::Script => SERVICE_PATH,
            },
    {
        match self {
            Place::Binary => SCANNER_PATH,
            Place::LinkDir => LINK_DIR,
            Place::Link => LINK_PATH,
            Place::ServiceDir => SERVICE_DIR,
            Place::Script => SERVICE_PATH,
        }
    }
}

impl Waiting {
    /// Takes the driver's report on what the launch was waiting for and says
    /// what happens next.
    pub fn resume(self, report: Report) -> (step: LaunchStep)
        ensures
            step == launch_next(self, report),
    {
        let service_dir = LaunchStep::Perform(
            Waiting::ServiceDir,
            Launch::MakeDir(Place::ServiceDir),
        );
        let spawn = LaunchStep::Perform(Waiting::Spawning, Launch::Spawn);
        let misreported = LaunchStep::Finish(Err(KpmError::OutOfOrder));
        match self {
            Waiting::Binary => match report {
                Report::Found(true) => LaunchStep::Perform(
                    Waiting::Permission,
                    Launch::MakeExecutable,
                ),
                Report::Found(false) => LaunchStep::Finish(Ok(Launched::Missing)),
                _ => misreported,
            },
            Waiting::Permission => match report {
                Report::Found(_) => misreported,
                _ => LaunchStep::Perform(Waiting::LinkDir, Launch::MakeDir(Place::LinkDir)),
            },
            Waiting::LinkDir => match report {
                Report::Done => LaunchStep::Perform(
                    Waiting::LinkProbe,
                    Launch::Probe(Place::Link),
                ),
                Report::Failed => service_dir,
                _ => misreported,
            },
            Waiting::LinkProbe => match report {
                Report::Found(true) => service_dir,
                Report::Found(false) => LaunchStep::Perform(Waiting::Linking, Launch::MakeLink),
                _ => misreported,
            },
            Waiting::Linking => match report {
                Report::Found(_) => misreported,
                _ => service_dir,
            },
            Waiting::ServiceDir => match report {
                Report::Done => LaunchStep::Perform(
                    Waiting::ScriptProbe,
                    Launch::Probe(Place::Script),
                ),
                Report::Failed => spawn,
                _ => misreported,
            },
            Waiting::ScriptProbe => match report {
                Report::Found(true) => spawn,
                Report::Found(false) => LaunchStep::Perform(Waiting::Writing, Launch::WriteScript),
                _ => misreported,
            },
            Waiting::Writing => match report {
                Report::Found(_) => misreported,
                _ => spawn,
            },
            Waiting::Spawning => match report {
                Report::Done => LaunchStep::Finish(Ok(Launched::Started)),
                Report::Failed => LaunchStep::Finish(Ok(Launched::NotStarted)),
                _ => misreported,
            },
        }
    }
}

/// Begins the launch of the daemon: it first asks whether the binary exists.
pub fn start_uid_scanner_daemon() -> (step: LaunchStep)
    ensures
        step == LaunchStep::Perform(Waiting::Binary, Launch::Probe(Place::Binary)),
{
    LaunchStep::Perform(Waiting::Binary, Launch::Probe(Place::Binary))
}

/// Once the binary is found, no report that fits can stop the launch short
/// of the daemon's start: each leads to a later stage, and the last stage
/// ends without an error.
pub proof fn launch_goes_on(waiting: Waiting, report: Report)
    requires
        report_fits(waiting, report),
        waiting != Waiting::Binary,
    ensures
        match launch_next(waiting, report) {
            LaunchStep::Perform(later, _) => progress(waiting) < progress(later),
            LaunchStep::Finish(end) => waiting == Waiting::Spawning && end is Ok,
        },
{
}

/// A report that does not fit ends the launch as out of order, and no other
/// does.
pub proof fn launch_misreported(waiting: Waiting, report: Report)
    ensures
        launch_next(waiting, report) == misreported() <==> !report_fits(waiting, report),
{
}

} // verus!
