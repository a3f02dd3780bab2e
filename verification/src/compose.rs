//! Building an instance directory: the steps that link the cached engine
//! build, the save and the mods into it, and the test that forbids it while
//! the instance runs.

use crate::cache::{mod_artifact_path, mod_artifact_spec, mod_file_name, mod_file_name_spec};
use crate::error::ServerError;
use crate::instance::{default_executable_spec, mod_names, Instance, InstanceSettings, Mod};
use crate::mod_list::{build_mod_list_json, mod_list_spec, mod_list_text};
use crate::paths::RelPath;
use crate::platform::Platform;
use crate::utilities::{pid_is_live, pid_spec};
use crate::version::Version;
use vstd::prelude::*;
use vstd::string::*;

verus! {

broadcast use vstd::string::group_string_axioms;

/// One step of building an instance directory.
#[derive(Debug, PartialEq, Eq)]
pub enum ComposeStep {
    /// Remove the directory and all below it.
    RemoveTree(RelPath),
    /// Create the directory and its missing parents.
    CreateDirs(RelPath),
    /// Make `link` a symbolic link to the file `source`.
    LinkFile { source: RelPath, link: RelPath },
    /// Make `link` a symbolic link to the directory `source`.
    LinkDir { source: RelPath, link: RelPath },
    /// Have the cache fetch the mod, reporting to one of `fractions` equal
    /// shares of the progress.
    FetchMod { name: String, version: Version, fractions: u64 },
    /// Write the text to the file.
    WriteFile { path: RelPath, contents: String },
    /// Copy the file.
    CopyFile { source: RelPath, target: RelPath },
}

/// A step of building an instance directory, as plain values.
pub enum StepView {
    RemoveTree(Seq<Seq<char>>),
    CreateDirs(Seq<Seq<char>>),
    LinkFile { source: Seq<Seq<char>>, link: Seq<Seq<char>> },
    LinkDir { source: Seq<Seq<char>>, link: Seq<Seq<char>> },
    FetchMod { name: Seq<char>, version: (nat, nat, nat), fractions: nat },
    WriteFile { path: Seq<Seq<char>>, contents: Seq<char> },
    CopyFile { source: Seq<Seq<char>>, target: Seq<Seq<char>> },
}

impl View for ComposeStep {
    type V = StepView;

    open spec fn view(&self) -> StepView {
        match *self {
            ComposeStep::RemoveTree(path) => StepView::RemoveTree(path@),
            ComposeStep::CreateDirs(path) => StepView::CreateDirs(path@),
            ComposeStep::LinkFile { source, link } => StepView::LinkFile {
                source: source@,
                link: link@,
            },
            ComposeStep::LinkDir { source, link } => StepView::LinkDir {
                source: source@,
                link: link@,
            },
            ComposeStep::FetchMod { name, version, fractions } => StepView::FetchMod {
                name: name@,
                version: version@,
                fractions: fractions as nat,
            },
            ComposeStep::WriteFile { path, contents } => StepView::WriteFile {
                path: path@,
                contents: contents@,
            },
            ComposeStep::CopyFile { source, target } => StepView::CopyFile {
                source: source@,
                target: target@,
            },
        }
    }
}

/// The views of a list of steps.
pub open spec fn step_views(steps: Seq<ComposeStep>) -> Seq<StepView> {
    steps.map_values(|step: ComposeStep| step@)
}

/// What was found on disk before an instance is composed.
#[derive(Debug, Clone, Copy, PartialEq, Eq, Structural)]
pub struct Found {
    /// The instance directory exists.
    pub instance: bool,
    /// A binary mod settings file was kept from an earlier run.
    pub settings_dat: bool,
    /// A JSON mod settings file was kept from an earlier run.
    pub settings_json: bool,
}

/// Where the parts of an instance come from and where it goes.
#[derive(Debug)]
pub struct Sources {
    /// The instance directory.
    pub instance_path: RelPath,
    /// The engine build in the cache.
    pub factorio_cache_path: RelPath,
    /// The save directory in the data area.
    pub saves_path: RelPath,
    /// The cache's directory of mods.
    pub mods_dir: RelPath,
    /// The directory of files kept from this instance's earlier runs.
    pub backups: RelPath,
}

/// The steps that fetch the mods and link each archive into `link_dir`.
pub open spec fn mod_steps_spec(
    mods: Seq<Mod>,
    mods_dir: Seq<Seq<char>>,
    link_dir: Seq<Seq<char>>,
    fractions: nat,
) -> Seq<StepView>
    decreases mods.len(),
{
    if mods.len() == 0 {
        Seq::empty()
    } else {
        let m = mods.last();
        mod_steps_spec(mods.drop_last(), mods_dir, link_dir, fractions) + seq![
            StepView::FetchMod { name: m.name@, version: m.version@, fractions },
            StepView::LinkFile {
                source: mod_artifact_spec(mods_dir, m.name@, m.version@),
                link: link_dir.push(mod_file_name_spec(m.name@, m.version@)),
            },
        ]
    }
}

/// The step that brings back the mod settings of an earlier run: the binary
/// form if it was kept, else the JSON form, else nothing.
pub open spec fn restore_steps_spec(
    found: Found,
    backups: Seq<Seq<char>>,
    link_dir: Seq<Seq<char>>,
) -> Seq<StepView> {
    if found.settings_dat {
        seq![
            StepView::CopyFile {
                source: backups.push("mod-settings.dat"@),
                target: link_dir.push("mod-settings.dat"@),
            },
        ]
    } else if found.settings_json {
        seq![
            StepView::CopyFile {
                source: backups.push("mod-settings.json"@),
                target: link_dir.push("mod-settings.json"@),
            },
        ]
    } else {
        Seq::empty()
    }
}

/// The steps that build an instance directory, in order: clear what is
/// left of an earlier run; make the executable's directory; link the
/// executable, the configuration and the data of the engine build; link the
/// saves; make `mods` and fetch and link each mod; write the mod list;
/// bring back the mod settings.
pub open spec fn compose_spec(
    settings: InstanceSettings,
    platform: Platform,
    instance: Seq<Seq<char>>,
    engine: Seq<Seq<char>>,
    saves: Seq<Seq<char>>,
    mods_dir: Seq<Seq<char>>,
    backups: Seq<Seq<char>>,
    found: Found,
    mod_list: Seq<char>,
) -> Seq<StepView> {
    let executable = instance + settings.executable_path@;
    let link_dir = instance.push("mods"@);
    (if found.instance {
        seq![StepView::RemoveTree(instance)]
    } else {
        Seq::empty()
    }) + seq![
        StepView::CreateDirs(executable.drop_last()),
        StepView::LinkFile {
            source: engine + default_executable_spec(platform),
            link: executable,
        },
        StepView::LinkFile {
            source: engine.push("config-path.cfg"@),
            link: instance.push("config-path.cfg"@),
        },
        StepView::LinkDir { source: engine.push("data"@), link: instance.push("data"@) },
        StepView::LinkDir { source: saves, link: instance.push("saves"@) },
        StepView::CreateDirs(link_dir),
    ] + mod_steps_spec(settings.mods@, mods_dir, link_dir, settings.mods@.len()) + seq![
        StepView::WriteFile { path: link_dir.push("mod-list.json"@), contents: mod_list },
    ] + restore_steps_spec(found, backups, link_dir)
}

fn push_step(steps: &mut Vec<ComposeStep>, step: ComposeStep)
    ensures
        step_views(final(steps)@) == step_views(old(steps)@).push(step@),
{
    steps.push(step);
    assert(step_views(steps@) =~= step_views(old(steps)@).push(step@));
}

impl Instance {
    /// The steps that build the instance directory, given the text of the
    /// mod list file. An executable path that names no file in any
    /// directory is refused.
    pub fn compose_steps(
        settings: &InstanceSettings,
        platform: Platform,
        sources: &Sources,
        found: Found,
        mod_list: String,
    ) -> (r: Result<Vec<ComposeStep>, ServerError>)
        ensures
            (sources.instance_path@ + settings.executable_path@).len() == 0 ==> (r matches Err(
                ServerError::NotAllowed(text),
            ) && text@ == "Configured executable path has no parent"@),
            (sources.instance_path@ + settings.executable_path@).len() > 0 ==> (r matches Ok(
                steps,
            ) && step_views(steps@) == compose_spec(
                *settings,
                platform,
                sources.instance_path@,
                sources.factorio_cache_path@,
                sources.saves_path@,
                sources.mods_dir@,
                sources.backups@,
                found,
                mod_list@,
            )),
    {
        let instance = &sources.instance_path;
        let engine = &sources.factorio_cache_path;
        let executable = instance.join_path(&settings.executable_path);
        let executable_parent = match executable.parent() {
            Some(parent) => parent,
            None => {
                return Err(
                    ServerError::NotAllowed(
                        String::from_str("Configured executable path has no parent"),
                    ),
                );
            },
        };
        let mut steps: Vec<ComposeStep> = Vec::new();
        assert(step_views(steps@) =~= Seq::<StepView>::empty());
        if found.instance {
            push_step(&mut steps, ComposeStep::RemoveTree(instance.clone()));
        }
        push_step(&mut steps, ComposeStep::CreateDirs(executable_parent));
        push_step(
            &mut steps,
            ComposeStep::LinkFile {
                source: engine.join_path(&InstanceSettings::default_executable_path(platform)),
                link: executable,
            },
        );
        push_step(
            &mut steps,
            ComposeStep::LinkFile {
                source: engine.join("config-path.cfg"),
                link: instance.join("config-path.cfg"),
            },
        );
        push_step(
            &mut steps,
            ComposeStep::LinkDir { source: engine.join("data"), link: instance.join("data") },
        );
        push_step(
            &mut steps,
            ComposeStep::LinkDir { source: sources.saves_path.clone(), link: instance.join("saves") },
        );
        let link_dir = instance.join("mods");
        push_step(&mut steps, ComposeStep::CreateDirs(link_dir.clone()));
        let ghost head = step_views(steps@);
        let n: usize = settings.mods.len();
        let mut i: usize = 0;
        assert(settings.mods@.take(0) =~= Seq::<Mod>::empty());
        assert(head + Seq::<StepView>::empty() =~= head);
        while i < n
            invariant
                i <= n,
                n == settings.mods.len(),
                link_dir@ == sources.instance_path@.push("mods"@),
                step_views(steps@) == head + mod_steps_spec(
                    settings.mods@.take(i as int),
                    sources.mods_dir@,
                    link_dir@,
                    n as nat,
                ),
            decreases n - i,
        {
            let m = &settings.mods[i];
            let ghost done = settings.mods@.take(i as int);
            let ghost next = settings.mods@.take(i + 1);
            assert(next.drop_last() =~= done);
            assert(next.last() == *m);
            let source = mod_artifact_path(&sources.mods_dir, m.name.as_str(), &m.version);
            let file_name = mod_file_name(m.name.as_str(), &m.version);
            let ghost before = step_views(steps@);
            push_step(
                &mut steps,
                ComposeStep::FetchMod {
                    name: m.name.clone(),
                    version: m.version,
                    fractions: n as u64,
                },
            );
            push_step(
                &mut steps,
                ComposeStep::LinkFile { source, link: link_dir.join(file_name.as_str()) },
            );
            assert(step_views(steps@) =~= head + mod_steps_spec(
                next,
                sources.mods_dir@,
                link_dir@,
                n as nat,
            ));
            i = i + 1;
        }
        assert(settings.mods@.take(n as int) =~= settings.mods@);
        push_step(
            &mut steps,
            ComposeStep::WriteFile { path: link_dir.join("mod-list.json"), contents: mod_list },
        );
        if found.settings_dat {
            push_step(
                &mut steps,
                ComposeStep::CopyFile {
                    source: sources.backups.join("mod-settings.dat"),
                    target: link_dir.join("mod-settings.dat"),
                },
            );
        } else if found.settings_json {
            push_step(
                &mut steps,
                ComposeStep::CopyFile {
                    source: sources.backups.join("mod-settings.json"),
                    target: link_dir.join("mod-settings.json"),
                },
            );
        }
        assert(step_views(steps@) =~= compose_spec(
            *settings,
            platform,
            sources.instance_path@,
            sources.factorio_cache_path@,
            sources.saves_path@,
            sources.mods_dir@,
            sources.backups@,
            found,
            mod_list@,
        ));
        Ok(steps)
    }

    /// Prepares an instance: hands out the instance and the steps that
    /// build its directory. The mod list file among them holds the list for
    /// these settings. Only an executable path that names no file in any
    /// directory is refused.
    pub fn prepare(
        name: &str,
        settings: InstanceSettings,
        platform: Platform,
        sources: &Sources,
        found: Found,
    ) -> (r: Result<(Instance, Vec<ComposeStep>), ServerError>)
        ensures
            (sources.instance_path@ + settings.executable_path@).len() == 0 ==> (r matches Err(e)
                && e.is_not_allowed("Configured executable path has no parent"@)),
            (sources.instance_path@ + settings.executable_path@).len() > 0 ==> (r matches Ok(
                (instance, steps),
            ) && {
                &&& instance.settings == settings
                &&& instance.path@ == sources.instance_path@
                &&& instance.name@ == name@
                &&& step_views(steps@) == compose_spec(
                    settings,
                    platform,
                    sources.instance_path@,
                    sources.factorio_cache_path@,
                    sources.saves_path@,
                    sources.mods_dir@,
                    sources.backups@,
                    found,
                    mod_list_text(
                        mod_list_spec(
                            settings.factorio_version@,
                            settings.base_mods,
                            mod_names(settings.mods@),
                        ),
                    ),
                )
            }),
    {
        let mod_list = match build_mod_list_json(&settings) {
            Ok(text) => text,
            Err(e) => {
                return Err(e);
            },
        };
        let steps = match Self::compose_steps(&settings, platform, sources, found, mod_list) {
            Ok(steps) => steps,
            Err(e) => {
                return Err(e);
            },
        };
        Ok(
            (
                Instance {
                    settings,
                    path: sources.instance_path.clone(),
                    name: String::from_str(name),
                },
                steps,
            ),
        )
    }

    /// What the liveness of the process that the pidfile names means for a
    /// new run: a live one forbids it.
    pub fn running_verdict(alive: bool) -> (r: Result<(), ServerError>)
        ensures
            alive ==> r == Err::<(), ServerError>(ServerError::AlreadyRunningError),
            !alive ==> r is Ok,
    {
        if alive {
            Err(ServerError::AlreadyRunningError)
        } else {
            Ok(())
        }
    }

    /// Whether an instance may be prepared, given what its pidfile holds
    /// (`None` where there is no pidfile, or no instance directory). Only a
    /// pidfile that names a live process forbids it; one that names no PID
    /// at all is an error of its own.
    pub fn check_running(pid_file: Option<&str>) -> (r: Result<(), ServerError>)
        ensures
            match pid_file {
                None => r is Ok,
                Some(text) => if pid_spec(text@) is None {
                    r matches Err(ServerError::ParseIntError(t)) && t@ == text@
                } else {
                    r is Ok || r == Err::<(), ServerError>(ServerError::AlreadyRunningError)
                },
            },
    {
        match pid_file {
            None => Ok(()),
            Some(text) => match pid_is_live(text) {
                Ok(alive) => Self::running_verdict(alive),
                Err(e) => Err(e),
            },
        }
    }
}

} // verus!
