//! Instances: the settings of one run, the files that a prepared instance is
//! made of, the command that launches it, and the status of a running one.

use crate::error::ServerError;
use crate::paths::{absolute_spec, RelPath};
use crate::platform::Platform;
use crate::text::{
    chain, decimal, decimal_string, ends_with, join, join_with, lemma_views_push, str_eq, views,
};
use crate::version::Version;
use rand::Rng;
use vstd::prelude::*;
use vstd::string::*;

verus! {

broadcast use vstd::string::group_string_axioms;

/// The name of the file that holds the PID of the running engine.
pub const PID_FILE_NAME: &'static str = "factorio.pid";

/// Where a supervised engine stands.
#[derive(PartialEq, Eq, Structural, Debug, Clone, Copy)]
pub enum Status {
    Stopped,
    Starting,
    Running,
    Stopping,
    /// Between the engine's announcement that it has closed and the end of
    /// its process.
    Closed,
}

impl Default for Status {
    fn default() -> (status: Self)
        ensures
            status == Status::Stopped,
    {
        Status::Stopped
    }
}

impl Status {
    /// Whether the engine has announced that it closed: what a graceful
    /// stop waits for before it grants the grace period.
    pub fn has_closed(&self) -> (closed: bool)
        ensures
            closed == (*self == Status::Closed),
    {
        *self == Status::Closed
    }
}

/// Which of the mods that ship with the engine are enabled.
#[derive(PartialEq, Eq, Structural, Debug, Clone, Copy)]
pub struct BaseMods {
    /// The base game; it is enabled whatever this says.
    pub base: bool,
    pub elevated_rails: bool,
    pub quality: bool,
    pub space_age: bool,
}

impl Default for BaseMods {
    fn default() -> (mods: Self)
        ensures
            mods == (BaseMods { base: true, elevated_rails: true, quality: true, space_age: true }),
    {
        BaseMods { base: true, elevated_rails: true, quality: true, space_age: true }
    }
}

/// A mod from the portal, by name and version.
#[derive(Debug, PartialEq, Eq)]
pub struct Mod {
    pub name: String,
    pub version: Version,
}

impl Clone for Mod {
    fn clone(&self) -> (copy: Self)
        ensures
            copy == *self,
    {
        Mod { name: self.name.clone(), version: self.version }
    }
}

/// The names of a list of mods, in order.
pub open spec fn mod_names(mods: Seq<Mod>) -> Seq<Seq<char>> {
    mods.map_values(|m: Mod| m.name@)
}

/// What one run of the engine is to be.
#[derive(Debug)]
pub struct InstanceSettings {
    /// The executable, relative to the instance directory.
    pub executable_path: RelPath,
    /// The directory of saves, relative to the instance directory.
    pub saves_path: RelPath,
    pub factorio_version: Version,
    /// The name of a save in the data directory.
    pub save: String,
    pub host: String,
    pub port: u16,
    pub rcon_host: String,
    /// The port of the remote console; 0 asks for a free one at start.
    pub rcon_port: u16,
    pub rcon_pass: String,
    pub mods: Vec<Mod>,
    pub base_mods: BaseMods,
}

/// The port that the engine listens on unless told otherwise.
pub const DEFAULT_PORT: u16 = 34197;

/// The length of a generated remote console password.
pub const PASSWORD_LENGTH: usize = 16;

/// A letter of the English alphabet or a digit.
pub open spec fn is_alphanumeric(c: char) -> bool {
    ('a' <= c && c <= 'z') || ('A' <= c && c <= 'Z') || ('0' <= c && c <= '9')
}

/// Draws `length` characters from `rand`'s `Alphanumeric` distribution with
/// the thread's generator. Of the result only what holds of every draw is
/// stated: its length, and that each character is an ASCII letter or digit.
#[verifier::external_body]
fn random_alphanumeric(length: usize) -> (text: String)
    ensures
        text@.len() == length,
        forall|i: int| 0 <= i < text@.len() ==> is_alphanumeric(#[trigger] text@[i]),
{
    rand::rng().sample_iter(&rand::distr::Alphanumeric).take(length).map(char::from).collect()
}

/// The executable inside an engine build, by platform.
pub open spec fn default_executable_spec(platform: Platform) -> Seq<Seq<char>> {
    match platform {
        Platform::Windows => seq!["bin"@, "x64"@, "factorio.exe"@],
        Platform::Linux => seq!["bin"@, "x64"@, "factorio"@],
    }
}

impl InstanceSettings {
    /// Settings for `save` on `factorio_version` with every other field at
    /// its default and a fresh random password for the remote console.
    pub fn new(save: String, factorio_version: Version, platform: Platform) -> (r: Result<
        Self,
        ServerError,
    >)
        ensures
            r matches Ok(settings) && {
                &&& settings.executable_path@ == default_executable_spec(platform)
                &&& settings.saves_path@ == seq!["saves"@]
                &&& settings.factorio_version == factorio_version
                &&& settings.save == save
                &&& settings.host@ == "0.0.0.0"@
                &&& settings.port == DEFAULT_PORT
                &&& settings.rcon_host@ == "0.0.0.0"@
                &&& settings.rcon_port == 0
                &&& settings.rcon_pass@.len() == PASSWORD_LENGTH
                &&& forall|i: int|
                    0 <= i < settings.rcon_pass@.len() ==> is_alphanumeric(
                        #[trigger] settings.rcon_pass@[i],
                    )
                &&& settings.mods@ == Seq::<Mod>::empty()
                &&& settings.base_mods == (BaseMods {
                    base: true,
                    elevated_rails: true,
                    quality: true,
                    space_age: true,
                })
            },
    {
        Ok(
            InstanceSettings {
                executable_path: Self::default_executable_path(platform),
                saves_path: RelPath::new().join("saves"),
                factorio_version,
                save,
                host: String::from_str("0.0.0.0"),
                port: DEFAULT_PORT,
                rcon_host: String::from_str("0.0.0.0"),
                rcon_port: 0,
                rcon_pass: random_alphanumeric(PASSWORD_LENGTH),
                mods: Vec::new(),
                base_mods: BaseMods::default(),
            },
        )
    }

    /// The executable inside an engine build, relative to the build.
    pub fn default_executable_path(platform: Platform) -> (path: RelPath)
        ensures
            path@ == default_executable_spec(platform),
    {
        let bin = RelPath::new().join("bin").join("x64");
        match platform {
            Platform::Windows => bin.join("factorio.exe"),
            Platform::Linux => bin.join("factorio"),
        }
    }
}

impl InstanceSettings {
    /// Sets the directory of saves, relative to the instance directory.
    pub fn saves_path(&mut self, saves_path: RelPath) -> (r: &mut Self)
        ensures
            *r == (InstanceSettings { saves_path, ..*old(self) }),
            *final(self) == *final(r),
    {
        self.saves_path = saves_path;
        self
    }

    /// Sets the engine version.
    pub fn factorio_version(&mut self, factorio_version: Version) -> (r: &mut Self)
        ensures
            *r == (InstanceSettings { factorio_version, ..*old(self) }),
            *final(self) == *final(r),
    {
        self.factorio_version = factorio_version;
        self
    }

    /// Sets the name of the save.
    pub fn save(&mut self, save: &str) -> (r: &mut Self)
        ensures
            r.save@ == save@,
            *r == (InstanceSettings { save: r.save, ..*old(self) }),
            *final(self) == *final(r),
    {
        self.save = String::from_str(save);
        self
    }

    /// Sets the address that the engine binds to.
    pub fn host(&mut self, host: String) -> (r: &mut Self)
        ensures
            *r == (InstanceSettings { host, ..*old(self) }),
            *final(self) == *final(r),
    {
        self.host = host;
        self
    }

    /// Sets the port that the engine listens on.
    pub fn port(&mut self, port: u16) -> (r: &mut Self)
        ensures
            *r == (InstanceSettings { port, ..*old(self) }),
            *final(self) == *final(r),
    {
        self.port = port;
        self
    }

    /// Sets the address that the remote console binds to.
    pub fn rcon_host(&mut self, host: String) -> (r: &mut Self)
        ensures
            *r == (InstanceSettings { rcon_host: host, ..*old(self) }),
            *final(self) == *final(r),
    {
        self.rcon_host = host;
        self
    }

    /// Sets the port of the remote console; 0 asks for a free one at start.
    pub fn rcon_port(&mut self, port: u16) -> (r: &mut Self)
        ensures
            *r == (InstanceSettings { rcon_port: port, ..*old(self) }),
            *final(self) == *final(r),
    {
        self.rcon_port = port;
        self
    }

    /// Sets the password of the remote console.
    pub fn rcon_pass(&mut self, pass: String) -> (r: &mut Self)
        ensures
            *r == (InstanceSettings { rcon_pass: pass, ..*old(self) }),
            *final(self) == *final(r),
    {
        self.rcon_pass = pass;
        self
    }

    /// Replaces the list of mods.
    pub fn mods(&mut self, mods: Vec<Mod>) -> (r: &mut Self)
        ensures
            *r == (InstanceSettings { mods, ..*old(self) }),
            *final(self) == *final(r),
    {
        self.mods = mods;
        self
    }

    /// Puts one more mod at the end of the list.
    pub fn add_mod(&mut self, name: &str, version: Version) -> (r: &mut Self)
        ensures
            r.mods@.len() == old(self).mods@.len() + 1,
            r.mods@.drop_last() == old(self).mods@,
            r.mods@.last().name@ == name@,
            r.mods@.last().version == version,
            *r == (InstanceSettings { mods: r.mods, ..*old(self) }),
            *final(self) == *final(r),
    {
        self.mods.push(Mod { name: String::from_str(name), version });
        assert(self.mods@.drop_last() =~= old(self).mods@);
        self
    }

    /// Enables the expansion and the two mods it needs.
    pub fn with_space_age(&mut self) -> (r: &mut Self)
        ensures
            *r == (InstanceSettings {
                base_mods: BaseMods {
                    base: old(self).base_mods.base,
                    elevated_rails: true,
                    quality: true,
                    space_age: true,
                },
                ..*old(self)
            }),
            *final(self) == *final(r),
    {
        self.base_mods.space_age = true;
        self.base_mods.quality = true;
        self.base_mods.elevated_rails = true;
        self
    }

    /// Sets which of the shipped mods are enabled.
    pub fn base_mods(&mut self, base_mods: BaseMods) -> (r: &mut Self)
        ensures
            *r == (InstanceSettings { base_mods, ..*old(self) }),
            *final(self) == *final(r),
    {
        self.base_mods = base_mods;
        self
    }
}

/// The log that the engine writes while it runs.
pub const LOG_FILE_NAME: &'static str = "factorio-current.log";

/// The console log that the engine is told to write.
pub const CONSOLE_LOG_NAME: &'static str = "console.log";

/// A prepared instance: a directory below the root that is ready to be run.
#[derive(Debug)]
pub struct Instance {
    pub settings: InstanceSettings,
    /// The instance directory, relative to the root.
    pub path: RelPath,
    pub name: String,
}

/// The process to spawn for an instance.
#[derive(Debug, PartialEq, Eq)]
pub struct LaunchCommand {
    pub program: String,
    pub working_dir: String,
    pub args: Vec<String>,
    /// The three standard streams of the process are detached.
    pub detached: bool,
    /// The process is killed if its handle is dropped, until the handle is
    /// told otherwise once the status is followed.
    pub kill_on_drop: bool,
}

/// The save that the engine is started on: the save's name with `.zip`
/// behind it, in the instance's directory of saves.
pub open spec fn save_file_spec(path: Seq<Seq<char>>, settings: InstanceSettings) -> Seq<
    Seq<char>,
> {
    (path + settings.saves_path@).push(settings.save@ + ".zip"@)
}

/// The arguments that the engine is started with.
pub open spec fn launch_arguments_spec(
    root: Seq<char>,
    path: Seq<Seq<char>>,
    settings: InstanceSettings,
) -> Seq<Seq<char>> {
    seq![
        "--executable-path"@,
        join(settings.executable_path@, "/"@),
        "--start-server"@,
        absolute_spec(root, save_file_spec(path, settings)),
        "--console-log"@,
        "console.log"@,
        "--no-log-rotation"@,
        "--bind"@,
        settings.host@,
        "--port"@,
        decimal(settings.port as nat),
        "--rcon-bind"@,
        settings.rcon_host@ + ":"@ + decimal(settings.rcon_port as nat),
        "--rcon-password"@,
        settings.rcon_pass@,
        "--mod-directory"@,
        absolute_spec(root, path.push("mods"@)),
    ]
}

fn push_text(list: &mut Vec<String>, text: &str)
    ensures
        views(final(list)@) == views(old(list)@).push(text@),
{
    let owned = String::from_str(text);
    proof {
        lemma_views_push(list@, owned);
    }
    list.push(owned);
}

impl Instance {
    /// The executable of the instance.
    pub fn executable(&self) -> (path: RelPath)
        ensures
            path@ == self.path@ + self.settings.executable_path@,
    {
        self.path.join_path(&self.settings.executable_path)
    }

    /// The save that the engine is started on.
    pub fn save_file(&self) -> (path: RelPath)
        ensures
            path@ == save_file_spec(self.path@, self.settings),
    {
        let file = chain(self.settings.save.as_str(), ".zip");
        self.path.join_path(&self.settings.saves_path).join(file.as_str())
    }

    /// The log that the engine writes.
    pub fn log_file(&self) -> (path: RelPath)
        ensures
            path@ == self.path@.push(LOG_FILE_NAME@),
    {
        self.path.join(LOG_FILE_NAME)
    }

    /// The file that holds the engine's PID while it runs.
    pub fn pid_file(&self) -> (path: RelPath)
        ensures
            path@ == self.path@.push(PID_FILE_NAME@),
    {
        self.path.join(PID_FILE_NAME)
    }

    /// The steps that start the instance, in order.
    pub fn start_steps(&self) -> (steps: Vec<StartStep>)
        ensures
            start_views(steps@) == start_spec(*self),
    {
        let mut steps: Vec<StartStep> = Vec::new();
        assert(start_views(steps@) =~= Seq::<StartView>::empty());
        push_start(
            &mut steps,
            StartStep::WatchLog { log: self.log_file(), pid_file: self.pid_file() },
        );
        if self.settings.rcon_port == 0 {
            push_start(&mut steps, StartStep::FindFreePort { host: self.settings.rcon_host.clone() });
        }
        push_start(&mut steps, StartStep::Spawn);
        push_start(&mut steps, StartStep::WritePid { pid_file: self.pid_file() });
        push_start(&mut steps, StartStep::FollowStatus);
        push_start(&mut steps, StartStep::Disarm);
        assert(start_views(steps@) =~= start_spec(*self));
        steps
    }

    /// Whether a free port has to be found for the remote console.
    pub fn needs_free_port(&self) -> (needed: bool)
        ensures
            needed == (self.settings.rcon_port == 0),
    {
        self.settings.rcon_port == 0
    }

    /// Gives the remote console the free port that was found, unless the
    /// settings name a port.
    pub fn resolve_rcon_port(&mut self, free_port: u16)
        ensures
            final(self).settings.rcon_port == if old(self).settings.rcon_port != 0 {
                old(self).settings.rcon_port
            } else {
                free_port
            },
            *final(self) == (Instance {
                settings: InstanceSettings {
                    rcon_port: final(self).settings.rcon_port,
                    ..old(self).settings
                },
                ..*old(self)
            }),
    {
        if self.settings.rcon_port == 0 {
            self.settings.rcon_port = free_port;
        }
    }

    /// The process to spawn: the instance's executable, run in the instance
    /// directory, with the arguments that bind the engine and its remote
    /// console and point it at the save and the mods.
    pub fn launch_command(&self, root: &str) -> (command: LaunchCommand)
        ensures
            command.program@ == absolute_spec(root@, self.path@ + self.settings.executable_path@),
            command.working_dir@ == absolute_spec(root@, self.path@),
            views(command.args@) == launch_arguments_spec(root@, self.path@, self.settings),
            command.detached,
            command.kill_on_drop,
    {
        let mut args: Vec<String> = Vec::new();
        assert(views(args@) =~= Seq::<Seq<char>>::empty());
        push_text(&mut args, "--executable-path");
        push_text(&mut args, join_with(&self.settings.executable_path.segments, "/").as_str());
        push_text(&mut args, "--start-server");
        push_text(&mut args, self.save_file().absolute(root).as_str());
        push_text(&mut args, "--console-log");
        push_text(&mut args, CONSOLE_LOG_NAME);
        push_text(&mut args, "--no-log-rotation");
        push_text(&mut args, "--bind");
        push_text(&mut args, self.settings.host.as_str());
        push_text(&mut args, "--port");
        push_text(&mut args, decimal_string(self.settings.port as u64).as_str());
        push_text(&mut args, "--rcon-bind");
        let mut rcon_bind = chain(self.settings.rcon_host.as_str(), ":");
        rcon_bind.append(decimal_string(self.settings.rcon_port as u64).as_str());
        push_text(&mut args, rcon_bind.as_str());
        push_text(&mut args, "--rcon-password");
        push_text(&mut args, self.settings.rcon_pass.as_str());
        push_text(&mut args, "--mod-directory");
        push_text(&mut args, self.path.join("mods").absolute(root).as_str());
        assert(views(args@) =~= launch_arguments_spec(root@, self.path@, self.settings));
        LaunchCommand {
            program: self.executable().absolute(root),
            working_dir: self.path.absolute(root),
            args,
            detached: true,
            kill_on_drop: true,
        }
    }
}

/// The line that the tailer sends when the engine's process is gone.
pub const PROCESS_STOPPED_LINE: &'static str = "factorio process stopped";

/// How a log line ends when the engine has entered the game.
pub const IN_GAME_MARK: &'static str = "changing state from(CreatingGame) to(InGame)";

/// How a log line ends when the engine has closed.
pub const CLOSED_MARK: &'static str = "changing state from(Disconnected) to(Closed)";

/// How many log lines may wait between the tailer and the reader of the
/// status.
pub const LOG_CHANNEL_CAPACITY: usize = 32;

/// The command that asks the engine to quit.
pub const QUIT_COMMAND: &'static str = "/quit";

/// The seconds that a closed engine is given to exit before it is killed.
pub const GRACE_SECONDS: u64 = 3;

/// How many old generations of a file are kept when an instance is cleaned up.
pub const BACKUP_GENERATIONS: u8 = 9;

/// The status after a log line was seen in status `current`.
pub open spec fn status_after_line(current: Status, line: Seq<char>) -> Status {
    if line == PROCESS_STOPPED_LINE@ {
        Status::Stopped
    } else if CLOSED_MARK@.is_suffix_of(line) {
        Status::Closed
    } else if IN_GAME_MARK@.is_suffix_of(line) {
        Status::Running
    } else {
        current
    }
}

/// The name of a status, as it is written in messages.
pub open spec fn status_name_spec(status: Status) -> Seq<char> {
    match status {
        Status::Stopped => "Stopped"@,
        Status::Starting => "Starting"@,
        Status::Running => "Running"@,
        Status::Stopping => "Stopping"@,
        Status::Closed => "Closed"@,
    }
}

/// The name of a status, as it is written in messages.
pub fn status_name(status: Status) -> (name: &'static str)
    ensures
        name@ == status_name_spec(status),
{
    match status {
        Status::Stopped => "Stopped",
        Status::Starting => "Starting",
        Status::Running => "Running",
        Status::Stopping => "Stopping",
        Status::Closed => "Closed",
    }
}

/// A request to the engine's remote console: one command on one connection.
#[derive(Debug, PartialEq, Eq)]
pub struct RconRequest {
    pub address: String,
    pub password: String,
    pub command: String,
}

/// An instance whose engine has been spawned.
#[derive(Debug)]
pub struct RunningInstance {
    pub settings: InstanceSettings,
    pub path: RelPath,
    pub name: String,
    /// The PID that was written to the pidfile.
    pub pid: u32,
    pub status: Status,
}

/// One step of starting an instance.
#[derive(Debug, PartialEq, Eq)]
pub enum StartStep {
    /// Open the channel for log lines and let the tailer follow the log
    /// and the pidfile.
    WatchLog { log: RelPath, pid_file: RelPath },
    /// Find a free port on this host and give it to the remote console.
    FindFreePort { host: String },
    /// Spawn the engine with the launch command.
    Spawn,
    /// Write the PID of the spawned engine to the pidfile.
    WritePid { pid_file: RelPath },
    /// Follow the status by the log lines: from here on a status other
    /// than `Stopped` can be published.
    FollowStatus,
    /// Tell the handle of the process not to kill the engine when it is
    /// dropped: the end of the engine is `kill`'s and `stop`'s from here on.
    Disarm,
}

/// A step of starting an instance, as plain values.
pub enum StartView {
    WatchLog { log: Seq<Seq<char>>, pid_file: Seq<Seq<char>> },
    FindFreePort { host: Seq<char> },
    Spawn,
    WritePid { pid_file: Seq<Seq<char>> },
    FollowStatus,
    Disarm,
}

impl View for StartStep {
    type V = StartView;

    open spec fn view(&self) -> StartView {
        match *self {
            StartStep::WatchLog { log, pid_file } => StartView::WatchLog {
                log: log@,
                pid_file: pid_file@,
            },
            StartStep::FindFreePort { host } => StartView::FindFreePort { host: host@ },
            StartStep::Spawn => StartView::Spawn,
            StartStep::WritePid { pid_file } => StartView::WritePid { pid_file: pid_file@ },
            StartStep::FollowStatus => StartView::FollowStatus,
            StartStep::Disarm => StartView::Disarm,
        }
    }
}

/// The views of a list of steps.
pub open spec fn start_views(steps: Seq<StartStep>) -> Seq<StartView> {
    steps.map_values(|step: StartStep| step@)
}

/// The steps that start an instance, in order: the log is followed; a
/// free port is found for the remote console if the settings name none; the
/// engine is spawned; its PID is written to the pidfile; the status is
/// followed; the handle of the process is disarmed.
pub open spec fn start_spec(instance: Instance) -> Seq<StartView> {
    let pid_file = instance.path@.push(PID_FILE_NAME@);
    seq![StartView::WatchLog { log: instance.path@.push(LOG_FILE_NAME@), pid_file }] + (
    if instance.settings.rcon_port == 0 {
        seq![StartView::FindFreePort { host: instance.settings.rcon_host@ }]
    } else {
        Seq::empty()
    }) + seq![
        StartView::Spawn,
        StartView::WritePid { pid_file },
        StartView::FollowStatus,
        StartView::Disarm,
    ]
}

/// Whenever the status is followed, so that `Running` can be published,
/// the engine has been spawned and its PID has been written to the
/// instance's pidfile before.
pub proof fn lemma_pid_is_written_before_the_status_is_followed(instance: Instance)
    ensures
        forall|k: int|
            0 <= k < start_spec(instance).len() && (#[trigger] start_spec(instance)[k])
                is FollowStatus ==> k >= 2 && start_spec(instance)[k - 2] is Spawn && start_spec(
                instance,
            )[k - 1] == (StartView::WritePid { pid_file: instance.path@.push(PID_FILE_NAME@) }),
{
    let steps = start_spec(instance);
    if instance.settings.rcon_port == 0 {
        assert(steps.len() == 6);
        assert(steps[3] is WritePid && steps[2] is Spawn && steps[4] is FollowStatus);
    } else {
        assert(steps.len() == 5);
        assert(steps[2] is WritePid && steps[1] is Spawn && steps[3] is FollowStatus);
    }
}

fn push_start(steps: &mut Vec<StartStep>, step: StartStep)
    ensures
        start_views(final(steps)@) == start_views(old(steps)@).push(step@),
{
    steps.push(step);
    assert(start_views(steps@) =~= start_views(old(steps)@).push(step@));
}

/// One step of bringing a running engine to its end.
#[derive(Debug, PartialEq, Eq)]
pub enum ShutdownStep {
    /// Send the command to the remote console.
    Command(RconRequest),
    /// Wait until the status is this one.
    AwaitStatus(Status),
    /// Wait for the process to exit, but no longer than this.
    AwaitExit { seconds: u64 },
    /// If the process has not exited by now, kill it and wait for its end,
    /// passing over any failure.
    KillUnlessExited,
    /// Kill the process and wait for its end.
    Kill,
    /// Keep these files with their older generations.
    Cleanup(Vec<RelPath>),
}

/// A step of a shutdown, as plain values.
pub enum ShutdownView {
    Command { address: Seq<char>, password: Seq<char>, command: Seq<char> },
    AwaitStatus(Status),
    AwaitExit { seconds: nat },
    KillUnlessExited,
    Kill,
    Cleanup(Seq<Seq<Seq<char>>>),
}

/// The views of a list of paths.
pub open spec fn path_views(paths: Seq<RelPath>) -> Seq<Seq<Seq<char>>> {
    paths.map_values(|path: RelPath| path@)
}

impl View for ShutdownStep {
    type V = ShutdownView;

    open spec fn view(&self) -> ShutdownView {
        match *self {
            ShutdownStep::Command(request) => ShutdownView::Command {
                address: request.address@,
                password: request.password@,
                command: request.command@,
            },
            ShutdownStep::AwaitStatus(status) => ShutdownView::AwaitStatus(status),
            ShutdownStep::AwaitExit { seconds } => ShutdownView::AwaitExit {
                seconds: seconds as nat,
            },
            ShutdownStep::KillUnlessExited => ShutdownView::KillUnlessExited,
            ShutdownStep::Kill => ShutdownView::Kill,
            ShutdownStep::Cleanup(files) => ShutdownView::Cleanup(path_views(files@)),
        }
    }
}

/// The views of a list of steps.
pub open spec fn shutdown_views(steps: Seq<ShutdownStep>) -> Seq<ShutdownView> {
    steps.map_values(|step: ShutdownStep| step@)
}

/// The files to keep when the engine is gone: both logs and both forms of
/// the mod settings.
pub open spec fn cleanup_spec(path: Seq<Seq<char>>) -> Seq<Seq<Seq<char>>> {
    seq![
        path.push(LOG_FILE_NAME@),
        path.push(CONSOLE_LOG_NAME@),
        path.push("mods"@).push("mod-settings.dat"@),
        path.push("mods"@).push("mod-settings.json"@),
    ]
}

/// Where the remote console of an instance listens.
pub open spec fn rcon_address_spec(settings: InstanceSettings) -> Seq<char> {
    "127.0.0.1:"@ + decimal(settings.rcon_port as nat)
}

/// A kill: the process is killed and reaped, then the files are kept.
pub open spec fn kill_spec(running: RunningInstance) -> Seq<ShutdownView> {
    seq![ShutdownView::Kill, ShutdownView::Cleanup(cleanup_spec(running.path@))]
}

/// A graceful stop: the engine is asked to quit; once it has closed it is
/// given the grace period to exit, and killed if it has not; then the files
/// are kept.
pub open spec fn stop_spec(running: RunningInstance) -> Seq<ShutdownView> {
    seq![
        ShutdownView::Command {
            address: rcon_address_spec(running.settings),
            password: running.settings.rcon_pass@,
            command: QUIT_COMMAND@,
        },
        ShutdownView::AwaitStatus(Status::Closed),
        ShutdownView::AwaitExit { seconds: GRACE_SECONDS as nat },
        ShutdownView::KillUnlessExited,
        ShutdownView::Cleanup(cleanup_spec(running.path@)),
    ]
}

impl Instance {
    /// Takes the spawned engine's PID and hands out the running instance,
    /// in status `Stopped` until the log says otherwise. Without a PID there
    /// is nothing to supervise.
    pub fn start(self, pid: Option<u32>) -> (r: Result<RunningInstance, ServerError>)
        ensures
            match pid {
                Some(pid) => r matches Ok(running) && running == (RunningInstance {
                    settings: self.settings,
                    path: self.path,
                    name: self.name,
                    pid,
                    status: Status::Stopped,
                }),
                None => r matches Err(ServerError::NotAllowed(text)) && text@
                    == "Process has no pid"@,
            },
    {
        match pid {
            Some(pid) => Ok(
                RunningInstance {
                    settings: self.settings,
                    path: self.path,
                    name: self.name,
                    pid,
                    status: Status::default(),
                },
            ),
            None => Err(ServerError::NotAllowed(String::from_str("Process has no pid"))),
        }
    }
}

impl RunningInstance {
    /// What the pidfile holds: the PID in decimal.
    pub fn pid_file_contents(&self) -> (text: String)
        ensures
            text@ == decimal(self.pid as nat),
    {
        decimal_string(self.pid as u64)
    }

    /// Takes one line of the engine's log and moves the status with it.
    /// Returns whether the line said that the process is gone, after which
    /// no further line is to be read.
    pub fn observe_line(&mut self, line: &str) -> (done: bool)
        ensures
            final(self).status == status_after_line(old(self).status, line@),
            done == (line@ == PROCESS_STOPPED_LINE@),
            *final(self) == (RunningInstance { status: final(self).status, ..*old(self) }),
    {
        if str_eq(line, PROCESS_STOPPED_LINE) {
            self.status = Status::Stopped;
            return true;
        }
        if ends_with(line, IN_GAME_MARK) {
            self.status = Status::Running;
        }
        if ends_with(line, CLOSED_MARK) {
            self.status = Status::Closed;
        }
        false
    }

    /// Fails unless the status is `expected`.
    pub fn check_status(&self, expected: Status) -> (r: Result<(), ServerError>)
        ensures
            self.status == expected ==> r is Ok,
            self.status != expected ==> (r matches Err(ServerError::NotAllowed(text)) && text@
                == "Status not as expected "@ + status_name_spec(self.status) + " != "@
                + status_name_spec(expected)),
    {
        if self.status != expected {
            let mut text = chain("Status not as expected ", status_name(self.status));
            text.append(" != ");
            text.append(status_name(expected));
            return Err(ServerError::NotAllowed(text));
        }
        Ok(())
    }

    /// Moves the status from `expected` to `new_status`; fails, and leaves
    /// the status alone, if it is anything else.
    pub fn check_and_set_status(&mut self, expected: Status, new_status: Status) -> (r: Result<
        (),
        ServerError,
    >)
        ensures
            old(self).status == expected ==> r is Ok && *final(self) == (RunningInstance {
                status: new_status,
                ..*old(self)
            }),
            old(self).status != expected ==> *final(self) == *old(self) && (r matches Err(
                ServerError::NotAllowed(text),
            ) && text@ == "Status (with set) not as expected "@ + status_name_spec(
                old(self).status,
            ) + " != "@ + status_name_spec(expected)),
    {
        if self.status != expected {
            let mut text = chain("Status (with set) not as expected ", status_name(self.status));
            text.append(" != ");
            text.append(status_name(expected));
            return Err(ServerError::NotAllowed(text));
        }
        self.status = new_status;
        Ok(())
    }

    /// The request that carries `command` to the remote console, which
    /// listens on the loopback address.
    pub fn rcon_request(&self, command: &str) -> (request: RconRequest)
        ensures
            request.address@ == "127.0.0.1:"@ + decimal(self.settings.rcon_port as nat),
            request.password@ == self.settings.rcon_pass@,
            request.command@ == command@,
    {
        RconRequest {
            address: chain("127.0.0.1:", decimal_string(self.settings.rcon_port as u64).as_str()),
            password: self.settings.rcon_pass.clone(),
            command: String::from_str(command),
        }
    }

    /// A command for the engine. Allowed only while the engine runs.
    pub fn send_command(&self, command: &str) -> (r: Result<RconRequest, ServerError>)
        ensures
            self.status == Status::Running ==> (r matches Ok(request) && {
                &&& request.address@ == "127.0.0.1:"@ + decimal(self.settings.rcon_port as nat)
                &&& request.password@ == self.settings.rcon_pass@
                &&& request.command@ == command@
            }),
            self.status != Status::Running ==> (r matches Err(ServerError::NotAllowed(_))),
    {
        match self.check_status(Status::Running) {
            Ok(()) => Ok(self.rcon_request(command)),
            Err(e) => Err(e),
        }
    }

    /// Kills the engine. Allowed only while the engine runs; the status is
    /// then `Stopping`, and the steps that come back kill the process, wait
    /// for its end, and keep the files.
    pub fn kill(&mut self) -> (r: Result<Vec<ShutdownStep>, ServerError>)
        ensures
            old(self).status == Status::Running ==> {
                &&& *final(self) == (RunningInstance { status: Status::Stopping, ..*old(self) })
                &&& r matches Ok(steps) && shutdown_views(steps@) == kill_spec(*old(self))
            },
            old(self).status != Status::Running ==> *final(self) == *old(self) && (r matches Err(
                ServerError::NotAllowed(_),
            )),
    {
        match self.check_and_set_status(Status::Running, Status::Stopping) {
            Ok(()) => {
                let mut steps: Vec<ShutdownStep> = Vec::new();
                steps.push(ShutdownStep::Kill);
                steps.push(ShutdownStep::Cleanup(self.cleanup()));
                assert(shutdown_views(steps@) =~= kill_spec(*old(self)));
                Ok(steps)
            },
            Err(e) => Err(e),
        }
    }

    /// Stops the engine gracefully. Allowed only while the engine runs; the
    /// status is then `Stopping`, and the steps that come back ask the
    /// engine to quit, wait until it has closed, grant it the grace period
    /// to exit, kill it if it has not, and keep the files.
    pub fn stop(&mut self) -> (r: Result<Vec<ShutdownStep>, ServerError>)
        ensures
            old(self).status == Status::Running ==> {
                &&& *final(self) == (RunningInstance { status: Status::Stopping, ..*old(self) })
                &&& r matches Ok(steps) && shutdown_views(steps@) == stop_spec(*old(self))
            },
            old(self).status != Status::Running ==> *final(self) == *old(self) && (r matches Err(
                ServerError::NotAllowed(_),
            )),
    {
        match self.check_and_set_status(Status::Running, Status::Stopping) {
            Ok(()) => {
                let mut steps: Vec<ShutdownStep> = Vec::new();
                steps.push(ShutdownStep::Command(self.rcon_request(QUIT_COMMAND)));
                steps.push(ShutdownStep::AwaitStatus(Status::Closed));
                steps.push(ShutdownStep::AwaitExit { seconds: GRACE_SECONDS });
                steps.push(ShutdownStep::KillUnlessExited);
                steps.push(ShutdownStep::Cleanup(self.cleanup()));
                assert(shutdown_views(steps@) =~= stop_spec(*old(self)));
                Ok(steps)
            },
            Err(e) => Err(e),
        }
    }

    /// Whether the process has to be killed after the grace period: only if
    /// it has not exited by itself.
    pub fn must_kill_after_grace(exited: bool) -> (kill: bool)
        ensures
            kill == !exited,
    {
        !exited
    }

    /// The files to keep when the engine is gone: both logs and both forms
    /// of the mod settings.
    pub fn cleanup(&self) -> (files: Vec<RelPath>)
        ensures
            path_views(files@) == cleanup_spec(self.path@),
            files@.len() == 4,
            files@[0]@ == self.path@.push(LOG_FILE_NAME@),
            files@[1]@ == self.path@.push(CONSOLE_LOG_NAME@),
            files@[2]@ == self.path@.push("mods"@).push("mod-settings.dat"@),
            files@[3]@ == self.path@.push("mods"@).push("mod-settings.json"@),
    {
        let mut files: Vec<RelPath> = Vec::new();
        files.push(self.path.join(LOG_FILE_NAME));
        files.push(self.path.join(CONSOLE_LOG_NAME));
        files.push(self.path.join("mods").join("mod-settings.dat"));
        files.push(self.path.join("mods").join("mod-settings.json"));
        assert(path_views(files@) =~= cleanup_spec(self.path@));
        files
    }
}

} // verus!
