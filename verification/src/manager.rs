//! The coordinator: the layout of the root directory, and what it takes to
//! prepare an instance and to keep its files when it is gone.

use crate::cache::{engine_dir_spec, Cache, Fetch};
use crate::credentials::Credentials;
use crate::data::{op_views, rotation_steps, step_ops, Data, FileOp, FileOpView};
use crate::error::ServerError;
use crate::in_flight::ask;
use crate::compose::{
    compose_spec, mod_steps_spec, restore_steps_spec, step_views, ComposeStep, Found, Sources,
    StepView,
};
use crate::instance::{
    default_executable_spec, mod_names, Instance, InstanceSettings, Mod, BACKUP_GENERATIONS,
    PID_FILE_NAME,
};
use crate::mod_list::{mod_list_spec, mod_list_text};
use crate::paths::{is_safe_name, safe_name, stays_inside, RelPath};
use crate::text::{decimal, is_digit, lemma_decimal_digits};
use crate::version::format_spec;
use crate::platform::Platform;
use crate::utilities::pid_spec;
use crate::version::Version;
use vstd::prelude::*;
use vstd::string::*;

verus! {

broadcast use vstd::string::group_string_axioms;

/// The coordinator of one root directory.
pub struct Manager {
    root_path: String,
    cache: Cache,
    data: Data,
    instances_path: RelPath,
}

/// What it takes to prepare an instance.
pub struct Preparation {
    /// The number of equal shares that the progress is split into for the
    /// cache: one for the engine and one for each mod.
    pub fractions: u64,
    /// The engine build to fetch first.
    pub engine_path: RelPath,
    /// The instance that the steps build.
    pub instance: Instance,
    /// The steps that build the instance directory.
    pub steps: Vec<ComposeStep>,
}

/// What to look at before an instance is prepared.
#[derive(Debug, PartialEq, Eq)]
pub struct Probes {
    /// The instance directory: is it there?
    pub instance: RelPath,
    /// The pidfile: what does it hold, if it is there?
    pub pid_file: RelPath,
    /// The directory of the save: is it there?
    pub save: RelPath,
    /// The binary mod settings kept from an earlier run: are they there?
    pub settings_dat: RelPath,
    /// The JSON mod settings kept from an earlier run: are they there?
    pub settings_json: RelPath,
}

/// A file of an instance that is to be kept, and what was found of it.
#[derive(Debug, PartialEq, Eq)]
pub struct Kept {
    /// The file in the instance directory.
    pub path: RelPath,
    /// The file exists.
    pub exists: bool,
    /// The size of the file of that name that is kept already, `None`
    /// where there is none.
    pub kept_size: Option<u64>,
    /// For each generation of the kept file, from 0 on, whether it exists.
    pub generations: Vec<bool>,
}

/// Where the instance `name` lies.
pub open spec fn instance_path_spec(name: Seq<char>) -> Seq<Seq<char>> {
    seq!["instances"@, name]
}

/// Where the files of the instance `name` are kept.
pub open spec fn kept_files_spec(name: Seq<char>) -> Seq<Seq<char>> {
    seq!["data"@, "files"@, name]
}

/// Where the save `save` lies.
pub open spec fn save_path_spec(save: Seq<char>) -> Seq<Seq<char>> {
    seq!["data"@, "saves"@, save]
}

/// Where the engine builds lie.
pub open spec fn engines_spec() -> Seq<Seq<char>> {
    seq!["cache"@, "factorio"@]
}

/// Where the mods lie.
pub open spec fn mods_spec() -> Seq<Seq<char>> {
    seq!["cache"@, "mods"@]
}

/// The steps that build the instance `name` in the root's layout, given
/// the text of the mod list file.
pub open spec fn prepare_spec(
    name: Seq<char>,
    settings: InstanceSettings,
    platform: Platform,
    found: Found,
    mod_list: Seq<char>,
) -> Seq<StepView> {
    compose_spec(
        settings,
        platform,
        instance_path_spec(name),
        engine_dir_spec(engines_spec(), settings.factorio_version@),
        save_path_spec(settings.save@),
        mods_spec(),
        kept_files_spec(name),
        found,
        mod_list,
    )
}

/// The changes that keep one file of an instance: the file that is kept
/// already makes room if it holds anything, then the file moves into its
/// place. A file that does not exist, or a path without a name, is passed
/// over.
pub open spec fn keep_spec(kept_files: Seq<Seq<char>>, found: Kept) -> Seq<FileOpView> {
    let path = found.path@;
    if found.exists && path.len() > 0 {
        let place = kept_files.push(path.last());
        (if found.kept_size is Some && found.kept_size->0 != 0 {
            step_ops(place, rotation_steps(found.generations@, BACKUP_GENERATIONS as nat))
        } else {
            Seq::empty()
        }).push(FileOpView::Rename { from: path, to: place })
    } else {
        Seq::empty()
    }
}

/// The changes that keep the files of an instance, file by file.
pub open spec fn backup_spec(kept_files: Seq<Seq<char>>, files: Seq<Kept>) -> Seq<FileOpView>
    decreases files.len(),
{
    if files.len() == 0 {
        Seq::empty()
    } else {
        backup_spec(kept_files, files.drop_last()) + keep_spec(kept_files, files.last())
    }
}

impl Manager {
    /// The text of the root directory.
    pub closed spec fn root(&self) -> Seq<char> {
        self.root_path@
    }

    /// The account of the cache, if it holds one.
    pub closed spec fn account(&self) -> Option<Credentials> {
        self.cache.account()
    }

    /// The keys of the fetches in flight.
    pub closed spec fn in_flight(&self) -> Set<Seq<char>> {
        self.cache.in_flight()
    }

    /// The parts are where they belong below the root.
    pub closed spec fn wf(&self) -> bool {
        &&& self.cache.root() == seq!["cache"@]
        &&& self.data.root() == seq!["data"@]
        &&& self.instances_path@ == seq!["instances"@]
    }

    /// The coordinator of the root directory `root_path`, with the account
    /// that the cache's credentials file held.
    pub fn new(root_path: String, stored: Option<Credentials>) -> (manager: Self)
        ensures
            manager.wf(),
            manager.root() == root_path@,
            manager.account() == stored,
            manager.in_flight() == Set::<Seq<char>>::empty(),
    {
        let root = RelPath::new();
        Manager {
            root_path,
            cache: Cache::new(root.join("cache"), stored),
            data: Data::new(root.join("data")),
            instances_path: root.join("instances"),
        }
    }

    /// The text of a path below the root.
    pub fn absolute(&self, path: &RelPath) -> (text: String)
        ensures
            text@ == crate::paths::absolute_spec(self.root(), path@),
    {
        path.absolute(self.root_path.as_str())
    }

    /// The directories that have to exist: the root, the directory of
    /// instances, and those of the data area.
    pub fn directories(&self) -> (dirs: Vec<RelPath>)
        requires
            self.wf(),
        ensures
            dirs@.len() == 5,
            dirs@[0]@ == Seq::<Seq<char>>::empty(),
            dirs@[1]@ == seq!["instances"@],
            dirs@[2]@ == seq!["data"@],
            dirs@[3]@ == seq!["data"@, "saves"@],
            dirs@[4]@ == seq!["data"@, "files"@],
    {
        let mut dirs: Vec<RelPath> = Vec::new();
        dirs.push(RelPath::new());
        dirs.push(self.instances_path.clone());
        let mut data = self.data.directories();
        dirs.append(&mut data);
        dirs
    }

    /// The cache.
    pub fn cache(&self) -> (cache: &Cache)
        requires
            self.wf(),
        ensures
            cache.root() == seq!["cache"@],
            cache.account() == self.account(),
            cache.in_flight() == self.in_flight(),
    {
        &self.cache
    }

    /// Holds the given name and token from now on.
    pub fn login_with_token(&mut self, username: String, token: String)
        requires
            old(self).wf(),
        ensures
            final(self).wf(),
            final(self).root() == old(self).root(),
            final(self).in_flight() == old(self).in_flight(),
            final(self).account() == Some(Credentials { username, token }),
    {
        self.cache.login_with_token(username, token);
    }

    /// Takes the answer of the login endpoint: see `Cache::finish_login`.
    pub fn finish_login(&mut self, reply: crate::credentials::LoginReply) -> (r: Result<
        (),
        ServerError,
    >)
        requires
            old(self).wf(),
        ensures
            final(self).wf(),
            final(self).root() == old(self).root(),
            final(self).in_flight() == old(self).in_flight(),
            match reply {
                crate::credentials::LoginReply::Granted(credentials) => r is Ok && final(self).account() == Some(credentials),
                crate::credentials::LoginReply::Refused(failure) => r == Err::<(), ServerError>(
                    ServerError::CredentialsFailure(failure),
                ) && final(self).account() == old(self).account(),
            },
    {
        self.cache.finish_login(reply)
    }

    /// Forgets the account.
    pub fn logout(&mut self)
        requires
            old(self).wf(),
        ensures
            final(self).wf(),
            final(self).root() == old(self).root(),
            final(self).in_flight() == old(self).in_flight(),
            final(self).account() is None,
    {
        self.cache.logout();
    }

    /// Where the instance `name` lies.
    pub fn instance_path(&self, name: &str) -> (path: RelPath)
        requires
            self.wf(),
        ensures
            path@ == instance_path_spec(name@),
    {
        self.instances_path.join(name)
    }

    /// Where the pidfile of the instance `name` lies.
    pub fn pid_file(&self, name: &str) -> (path: RelPath)
        requires
            self.wf(),
        ensures
            path@ == instance_path_spec(name@).push(PID_FILE_NAME@),
    {
        self.instances_path.join(name).join(PID_FILE_NAME)
    }

    /// Where the save `save` lies.
    pub fn saves_folder(&self, save: &str) -> (path: RelPath)
        requires
            self.wf(),
        ensures
            path@ == save_path_spec(save@),
    {
        self.data.saves_folder(save)
    }

    /// What to look at before the instance `name` is prepared.
    pub fn probes(&self, name: &str, settings: &InstanceSettings) -> (probes: Probes)
        requires
            self.wf(),
        ensures
            probes.instance@ == instance_path_spec(name@),
            probes.pid_file@ == instance_path_spec(name@).push(PID_FILE_NAME@),
            probes.save@ == save_path_spec(settings.save@),
            probes.settings_dat@ == kept_files_spec(name@).push("mod-settings.dat"@),
            probes.settings_json@ == kept_files_spec(name@).push("mod-settings.json"@),
    {
        Probes {
            instance: self.instance_path(name),
            pid_file: self.pid_file(name),
            save: self.data.saves_folder(settings.save.as_str()),
            settings_dat: self.data.get_file(name, "mod-settings.dat"),
            settings_json: self.data.get_file(name, "mod-settings.json"),
        }
    }

    /// Where the parts of the instance `name` come from.
    pub fn sources(&self, name: &str, settings: &InstanceSettings) -> (sources: Sources)
        requires
            self.wf(),
        ensures
            sources.instance_path@ == instance_path_spec(name@),
            sources.factorio_cache_path@ == engine_dir_spec(
                engines_spec(),
                settings.factorio_version@,
            ),
            sources.saves_path@ == save_path_spec(settings.save@),
            sources.mods_dir@ == mods_spec(),
            sources.backups@ == kept_files_spec(name@),
    {
        Sources {
            instance_path: self.instance_path(name),
            factorio_cache_path: self.cache.factorio_path(&settings.factorio_version),
            saves_path: self.data.saves_folder(settings.save.as_str()),
            mods_dir: self.cache.mods_dir(),
            backups: self.data.instance_files(name),
        }
    }

    /// Prepares the instance `name`: says what to fetch and which steps
    /// build the instance directory. `pid_file` is what the instance's
    /// pidfile holds, if there is one; `save_exists` says whether the save's
    /// directory is there. A pidfile that holds no PID is an error; an
    /// instance whose pidfile names a live process is refused; so is a save
    /// that is not there; all else is prepared. The names that the settings
    /// bring are taken as they are, safe or not: where they are safe (see
    /// `has_safe_names`), every link of the steps stays inside the root.
    pub fn prepare_instance(
        &self,
        name: &str,
        settings: InstanceSettings,
        platform: Platform,
        found: Found,
        pid_file: Option<&str>,
        save_exists: bool,
    ) -> (r: Result<Preparation, ServerError>)
        requires
            self.wf(),
            settings.mods@.len() < u64::MAX,
        ensures
            match r {
                Ok(preparation) => {
                    &&& save_exists
                    &&& pid_file is Some ==> pid_spec(pid_file->0@) is Some
                    &&& preparation.fractions == settings.mods@.len() + 1
                    &&& preparation.engine_path@ == engine_dir_spec(
                        engines_spec(),
                        settings.factorio_version@,
                    )
                    &&& preparation.instance.settings == settings
                    &&& preparation.instance.path@ == instance_path_spec(name@)
                    &&& preparation.instance.name@ == name@
                    &&& step_views(preparation.steps@) == prepare_spec(
                        name@,
                        settings,
                        platform,
                        found,
                        mod_list_text(
                            mod_list_spec(
                                settings.factorio_version@,
                                settings.base_mods,
                                mod_names(settings.mods@),
                            ),
                        ),
                    )
                    &&& names_are_safe(name@, settings) ==> steps_stay_inside(
                        step_views(preparation.steps@),
                        name@,
                    )
                },
                Err(e) => if pid_file is Some && pid_spec(pid_file->0@) is None {
                    e.is_parse_int_error(pid_file->0@)
                } else if e is AlreadyRunningError {
                    pid_file is Some
                } else {
                    !save_exists && e.is_not_allowed("Save folder not found"@)
                },
            },
            pid_file is Some && pid_spec(pid_file->0@) is None ==> r is Err,
            pid_file is None ==> (r is Ok <==> save_exists),
            pid_file is Some && pid_spec(pid_file->0@) is Some && save_exists ==> r is Ok || r
                == Err::<Preparation, ServerError>(ServerError::AlreadyRunningError),
            !save_exists ==> r is Err,
    {
        match Instance::check_running(pid_file) {
            Ok(()) => {},
            Err(e) => {
                return Err(e);
            },
        }
        let fractions: u64 = settings.mods.len() as u64 + 1;
        let sources = self.sources(name, &settings);
        match self.data.get_saves_folder(settings.save.as_str(), save_exists) {
            Ok(_) => {},
            Err(e) => {
                return Err(e);
            },
        }
        let engine_path = sources.factorio_cache_path.clone();
        proof {
            if names_are_safe(name@, settings) {
                lemma_links_stay_inside(
                    name@,
                    settings,
                    platform,
                    found,
                    mod_list_text(
                        mod_list_spec(
                            settings.factorio_version@,
                            settings.base_mods,
                            mod_names(settings.mods@),
                        ),
                    ),
                );
            }
        }
        match Instance::prepare(name, settings, platform, &sources, found) {
            Ok((instance, steps)) => Ok(Preparation { fractions, engine_path, instance, steps }),
            Err(e) => Err(e),
        }
    }

    /// Where the file `name` of an instance is kept.
    pub fn load_backup_file(&self, instance_name: &str, name: &str) -> (path: RelPath)
        requires
            self.wf(),
        ensures
            path@ == kept_files_spec(instance_name@).push(name@),
    {
        self.data.get_file(instance_name, name)
    }

    /// The changes that keep the files of an instance that is gone, and
    /// the directory that they are kept in. Each file makes the one that is
    /// kept already one generation older.
    pub fn backup_files(&self, instance_name: &str, files: &Vec<Kept>) -> (r: (RelPath, Vec<FileOp>))
        requires
            self.wf(),
        ensures
            r.0@ == kept_files_spec(instance_name@),
            op_views(r.1@) == backup_spec(kept_files_spec(instance_name@), files@),
    {
        let directory = self.data.instance_files(instance_name);
        let mut ops: Vec<FileOp> = Vec::new();
        let n: usize = files.len();
        let mut i: usize = 0;
        assert(files@.take(0) =~= Seq::<Kept>::empty());
        assert(op_views(ops@) =~= Seq::<FileOpView>::empty());
        while i < n
            invariant
                i <= n,
                n == files@.len(),
                self.wf(),
                directory@ == kept_files_spec(instance_name@),
                op_views(ops@) == backup_spec(directory@, files@.take(i as int)),
            decreases n - i,
        {
            let file = &files[i];
            let ghost next = files@.take(i + 1);
            assert(next.drop_last() =~= files@.take(i as int));
            assert(next.last() == files@[i as int]);
            let ghost before = op_views(ops@);
            if file.exists {
                match file.path.file_name() {
                    Some(file_name) => {
                        let (place, mut rotation) = self.data.get_and_rotate_file(
                            instance_name,
                            file_name.as_str(),
                            BACKUP_GENERATIONS,
                            file.kept_size,
                            &file.generations,
                        );
                        assert(place@ =~= directory@.push(file_name@));
                        let ghost rotated = op_views(rotation@);
                        ops.append(&mut rotation);
                        assert(op_views(ops@) =~= before + rotated);
                        let rename = FileOp::Rename { from: file.path.clone(), to: place };
                        let ghost grown = ops@;
                        ops.push(rename);
                        assert(op_views(ops@) =~= op_views(grown).push(rename@));
                        assert(op_views(ops@) =~= before + keep_spec(directory@, *file));
                    },
                    None => {
                        assert(before + keep_spec(directory@, *file) =~= before);
                    },
                }
            } else {
                assert(before + keep_spec(directory@, *file) =~= before);
            }
            i = i + 1;
        }
        assert(files@.take(n as int) =~= files@);
        (directory, ops)
    }

    /// Asks the cache for the archive of a mod, given whether the file
    /// exists: see `Cache::get_mod`.
    pub fn get_mod(&mut self, name: &str, version: &Version, exists: bool) -> (r: Result<
        Fetch,
        ServerError,
    >)
        requires
            old(self).wf(),
        ensures
            final(self).wf(),
            final(self).root() == old(self).root(),
            final(self).account() == old(self).account(),
            ({
                let path = crate::cache::mod_artifact_spec(mods_spec(), name@, version@);
                let asked = ask(old(self).in_flight(), crate::cache::flight_key(path));
                if exists {
                    &&& r matches Ok(Fetch::Ready(p)) && p@ == path
                    &&& final(self).in_flight() == old(self).in_flight()
                } else if !asked.1 {
                    &&& r matches Ok(Fetch::Wait { path: p, receiver: _ }) && p@ == path
                    &&& final(self).in_flight() == old(self).in_flight()
                } else if old(self).account() is Some {
                    &&& r matches Ok(Fetch::Download { path: p, guard }) && p@ == path
                        && guard.path_spec() == crate::cache::flight_key(path)
                    &&& final(self).in_flight() == asked.0
                } else {
                    &&& r matches Err(ServerError::NotAllowed(text)) && text@
                        == "credentials required"@
                    &&& final(self).in_flight() == old(self).in_flight()
                }
            }),
    {
        assert(seq!["cache"@].push("mods"@) =~= mods_spec());
        self.cache.get_mod(name, version, exists)
    }

    /// Asks the cache for the engine build of a version, given whether its
    /// directory exists: see `Cache::get_factorio`.
    pub fn get_factorio(&mut self, version: &Version, exists: bool) -> (fetch: Fetch)
        requires
            old(self).wf(),
        ensures
            final(self).wf(),
            final(self).root() == old(self).root(),
            final(self).account() == old(self).account(),
            ({
                let path = engine_dir_spec(engines_spec(), version@);
                let asked = ask(old(self).in_flight(), crate::cache::flight_key(path));
                if exists {
                    &&& fetch matches Fetch::Ready(p) && p@ == path
                    &&& final(self).in_flight() == old(self).in_flight()
                } else {
                    &&& final(self).in_flight() == asked.0
                    &&& if asked.1 {
                        fetch matches Fetch::Download { path: p, guard } && p@ == path
                            && guard.path_spec() == crate::cache::flight_key(path)
                    } else {
                        fetch matches Fetch::Wait { path: p, receiver: _ } && p@ == path
                    }
                }
            }),
    {
        assert(seq!["cache"@].push("factorio"@) =~= engines_spec());
        self.cache.get_factorio(version, exists)
    }

    /// Ends a fetch that this caller led: see `Cache::finish`.
    pub fn finish(
        &mut self,
        guard: crate::in_flight::SenderGuard,
        path: RelPath,
        outcome: Result<(), ServerError>,
    ) -> (r: Result<RelPath, ServerError>)
        requires
            old(self).wf(),
        ensures
            final(self).wf(),
            final(self).root() == old(self).root(),
            final(self).account() == old(self).account(),
            final(self).in_flight() == old(self).in_flight().remove(guard.path_spec()),
            r == match outcome {
                Ok(()) => Ok::<RelPath, ServerError>(path),
                Err(error) => Err::<RelPath, ServerError>(error),
            },
    {
        self.cache.finish(guard, path, outcome)
    }
}

/// The path lies in the cache or among the saves.
pub open spec fn in_cache_or_saves(path: Seq<Seq<char>>) -> bool {
    seq!["cache"@].is_prefix_of(path) || seq!["data"@, "saves"@].is_prefix_of(path)
}

/// A link of the instance `name` lies in the instance directory and leads
/// into the cache or to a save, and neither path can leave the root.
pub open spec fn link_stays_inside(source: Seq<Seq<char>>, link: Seq<Seq<char>>, name: Seq<char>) -> bool {
    &&& in_cache_or_saves(source)
    &&& stays_inside(source)
    &&& instance_path_spec(name).is_prefix_of(link)
    &&& stays_inside(link)
}

/// If the step makes a link, the link stays inside.
pub open spec fn step_stays_inside(step: StepView, name: Seq<char>) -> bool {
    match step {
        StepView::LinkFile { source, link } => link_stays_inside(source, link, name),
        StepView::LinkDir { source, link } => link_stays_inside(source, link, name),
        _ => true,
    }
}

/// Every link that the steps make stays inside.
pub open spec fn steps_stay_inside(steps: Seq<StepView>, name: Seq<char>) -> bool {
    forall|i: int| 0 <= i < steps.len() ==> step_stays_inside(#[trigger] steps[i], name)
}

/// The names that the settings bring are safe: the instance's name, the
/// save's, each mod's, and each component of the executable's path.
pub open spec fn names_are_safe(name: Seq<char>, settings: InstanceSettings) -> bool {
    &&& safe_name(name)
    &&& safe_name(settings.save@)
    &&& stays_inside(settings.executable_path@)
    &&& forall|i: int| 0 <= i < settings.mods@.len() ==> safe_name(#[trigger] settings.mods@[i].name@)
}

/// Whether the names that the settings bring are safe.
pub fn has_safe_names(name: &str, settings: &InstanceSettings) -> (safe: bool)
    ensures
        safe == names_are_safe(name@, *settings),
{
    if !is_safe_name(name) || !is_safe_name(settings.save.as_str())
        || !settings.executable_path.is_contained() {
        return false;
    }
    let n: usize = settings.mods.len();
    let mut i: usize = 0;
    while i < n
        invariant
            i <= n,
            n == settings.mods.len(),
            forall|j: int| 0 <= j < i ==> safe_name(#[trigger] settings.mods@[j].name@),
        decreases n - i,
    {
        if !is_safe_name(settings.mods[i].name.as_str()) {
            return false;
        }
        i = i + 1;
    }
    true
}

proof fn lemma_long_name_is_safe(name: Seq<char>)
    requires
        name.len() >= 3,
        forall|i: int| 0 <= i < name.len() ==> name[i] != '/' && name[i] != '\\',
    ensures
        safe_name(name),
{
}

proof fn lemma_cache_is_safe()
    ensures
        safe_name("cache"@),
{
    reveal_strlit("cache");
    lemma_long_name_is_safe("cache"@);
}

proof fn lemma_data_is_safe()
    ensures
        safe_name("data"@),
{
    reveal_strlit("data");
    lemma_long_name_is_safe("data"@);
}

proof fn lemma_saves_is_safe()
    ensures
        safe_name("saves"@),
{
    reveal_strlit("saves");
    lemma_long_name_is_safe("saves"@);
}

proof fn lemma_instances_is_safe()
    ensures
        safe_name("instances"@),
{
    reveal_strlit("instances");
    lemma_long_name_is_safe("instances"@);
}

proof fn lemma_factorio_is_safe()
    ensures
        safe_name("factorio"@),
{
    reveal_strlit("factorio");
    lemma_long_name_is_safe("factorio"@);
}

proof fn lemma_mods_is_safe()
    ensures
        safe_name("mods"@),
{
    reveal_strlit("mods");
    lemma_long_name_is_safe("mods"@);
}

proof fn lemma_bin_is_safe()
    ensures
        safe_name("bin"@),
{
    reveal_strlit("bin");
    lemma_long_name_is_safe("bin"@);
}

proof fn lemma_x64_is_safe()
    ensures
        safe_name("x64"@),
{
    reveal_strlit("x64");
    lemma_long_name_is_safe("x64"@);
}

proof fn lemma_factorio_exe_is_safe()
    ensures
        safe_name("factorio.exe"@),
{
    reveal_strlit("factorio.exe");
    lemma_long_name_is_safe("factorio.exe"@);
}

proof fn lemma_config_path_cfg_is_safe()
    ensures
        safe_name("config-path.cfg"@),
{
    reveal_strlit("config-path.cfg");
    lemma_long_name_is_safe("config-path.cfg"@);
}

proof fn lemma_layout_names_are_safe()
    ensures
        safe_name("cache"@),
        safe_name("data"@),
        safe_name("saves"@),
        safe_name("instances"@),
        safe_name("factorio"@),
        safe_name("mods"@),
        safe_name("bin"@),
        safe_name("x64"@),
        safe_name("factorio.exe"@),
        safe_name("config-path.cfg"@),
{
    lemma_cache_is_safe();
    lemma_data_is_safe();
    lemma_saves_is_safe();
    lemma_instances_is_safe();
    lemma_factorio_is_safe();
    lemma_mods_is_safe();
    lemma_bin_is_safe();
    lemma_x64_is_safe();
    lemma_factorio_exe_is_safe();
    lemma_config_path_cfg_is_safe();
}

/// The text of a version is a safe name.
pub proof fn lemma_version_text_is_safe(version: (nat, nat, nat))
    ensures
        safe_name(format_spec(version)),
        forall|i: int|
            0 <= i < format_spec(version).len() ==> is_digit(#[trigger] format_spec(version)[i])
                || format_spec(version)[i] == '.',
        format_spec(version).len() >= 5,
{
    lemma_decimal_digits(version.0);
    lemma_decimal_digits(version.1);
    lemma_decimal_digits(version.2);
    let d0 = decimal(version.0);
    let d1 = decimal(version.1);
    let d2 = decimal(version.2);
    let text = format_spec(version);
    assert forall|i: int| 0 <= i < text.len() implies is_digit(#[trigger] text[i]) || text[i]
        == '.' by {
        if i < d0.len() {
            assert(text[i] == d0[i]);
        } else if i == d0.len() {
        } else if i < d0.len() + 1 + d1.len() {
            assert(text[i] == d1[i - d0.len() - 1]);
        } else if i == d0.len() + 1 + d1.len() {
        } else {
            assert(text[i] == d2[i - d0.len() - d1.len() - 2]);
        }
    }
    assert(text.len() == d0.len() + d1.len() + d2.len() + 2);
    assert forall|i: int| 0 <= i < text.len() implies text[i] != '/' && text[i] != '\\' by {
        assert(is_digit(text[i]) || text[i] == '.');
    }
}

/// The file name of a mod's archive is a safe name if the mod's name is.
pub proof fn lemma_mod_file_name_is_safe(name: Seq<char>, version: (nat, nat, nat))
    requires
        safe_name(name),
    ensures
        safe_name(crate::cache::mod_file_name_spec(name, version)),
{
    lemma_version_text_is_safe(version);
    reveal_strlit("_");
    reveal_strlit(".zip");
    let text = format_spec(version);
    let file = crate::cache::mod_file_name_spec(name, version);
    assert(file.len() == name.len() + 1 + text.len() + 4);
    assert forall|i: int| 0 <= i < file.len() implies file[i] != '/' && file[i] != '\\' by {
        if i < name.len() {
            assert(file[i] == name[i]);
        } else if i == name.len() {
        } else if i < name.len() + 1 + text.len() {
            assert(file[i] == text[i - name.len() - 1]);
            assert(is_digit(text[i - name.len() - 1]) || text[i - name.len() - 1] == '.');
        } else {
            assert(file[i] == ".zip"@[i - name.len() - 1 - text.len()]);
        }
    }
}

proof fn lemma_stays_inside_push(path: Seq<Seq<char>>, name: Seq<char>)
    requires
        stays_inside(path),
        safe_name(name),
    ensures
        stays_inside(path.push(name)),
{
    assert forall|i: int| 0 <= i < path.push(name).len() implies safe_name(
        #[trigger] path.push(name)[i],
    ) by {
        if i < path.len() {
            assert(path.push(name)[i] == path[i]);
        }
    }
}

proof fn lemma_stays_inside_concat(first: Seq<Seq<char>>, second: Seq<Seq<char>>)
    requires
        stays_inside(first),
        stays_inside(second),
    ensures
        stays_inside(first + second),
{
    assert forall|i: int| 0 <= i < (first + second).len() implies safe_name(
        #[trigger] (first + second)[i],
    ) by {
        if i < first.len() {
            assert((first + second)[i] == first[i]);
        } else {
            assert((first + second)[i] == second[i - first.len()]);
        }
    }
}

proof fn lemma_steps_concat(first: Seq<StepView>, second: Seq<StepView>, name: Seq<char>)
    requires
        steps_stay_inside(first, name),
        steps_stay_inside(second, name),
    ensures
        steps_stay_inside(first + second, name),
{
    assert forall|i: int| 0 <= i < (first + second).len() implies step_stays_inside(
        #[trigger] (first + second)[i],
        name,
    ) by {
        if i < first.len() {
            assert((first + second)[i] == first[i]);
        } else {
            assert((first + second)[i] == second[i - first.len()]);
        }
    }
}

proof fn lemma_mod_links_stay_inside(mods: Seq<Mod>, name: Seq<char>, fractions: nat)
    requires
        safe_name(name),
        forall|i: int| 0 <= i < mods.len() ==> safe_name(#[trigger] mods[i].name@),
    ensures
        steps_stay_inside(
            mod_steps_spec(mods, mods_spec(), instance_path_spec(name).push("mods"@), fractions),
            name,
        ),
    decreases mods.len(),
{
    let link_dir = instance_path_spec(name).push("mods"@);
    if mods.len() > 0 {
        let m = mods.last();
        let earlier = mods.drop_last();
        assert forall|i: int| 0 <= i < earlier.len() implies safe_name(
            #[trigger] earlier[i].name@,
        ) by {
            assert(earlier[i] == mods[i]);
        }
        lemma_mod_links_stay_inside(earlier, name, fractions);
        lemma_layout_names_are_safe();
        lemma_version_text_is_safe(m.version@);
        lemma_mod_file_name_is_safe(m.name@, m.version@);
        let source = crate::cache::mod_artifact_spec(mods_spec(), m.name@, m.version@);
        let link = link_dir.push(crate::cache::mod_file_name_spec(m.name@, m.version@));
        assert(stays_inside(mods_spec()));
        lemma_stays_inside_push(mods_spec(), m.name@);
        lemma_stays_inside_push(mods_spec().push(m.name@), format_spec(m.version@));
        lemma_stays_inside_push(
            mods_spec().push(m.name@).push(format_spec(m.version@)),
            crate::cache::mod_file_name_spec(m.name@, m.version@),
        );
        assert(seq!["cache"@] =~= source.subrange(0, 1));
        assert(stays_inside(instance_path_spec(name)));
        lemma_stays_inside_push(instance_path_spec(name), "mods"@);
        lemma_stays_inside_push(link_dir, crate::cache::mod_file_name_spec(m.name@, m.version@));
        assert(instance_path_spec(name) =~= link.subrange(0, 2));
        let last_two = seq![
            StepView::FetchMod { name: m.name@, version: m.version@, fractions },
            StepView::LinkFile { source, link },
        ];
        assert(steps_stay_inside(last_two, name));
        lemma_steps_concat(
            mod_steps_spec(earlier, mods_spec(), link_dir, fractions),
            last_two,
            name,
        );
    }
}

/// Every link of a prepared instance lies in the instance directory and
/// leads into the cache or to a save below the root, and no path of a link
/// can leave the root, provided that the names which the settings bring are
/// safe names. (A mod named `../x` would lead its link out of the cache.)
pub proof fn lemma_links_stay_inside(
    name: Seq<char>,
    settings: InstanceSettings,
    platform: Platform,
    found: Found,
    mod_list: Seq<char>,
)
    requires
        names_are_safe(name, settings),
    ensures
        steps_stay_inside(prepare_spec(name, settings, platform, found, mod_list), name),
{
    lemma_layout_names_are_safe();
    lemma_version_text_is_safe(settings.factorio_version@);
    let instance = instance_path_spec(name);
    let engine = engine_dir_spec(engines_spec(), settings.factorio_version@);
    let saves = save_path_spec(settings.save@);
    let link_dir = instance.push("mods"@);
    let executable = instance + settings.executable_path@;
    assert(stays_inside(instance));
    assert(stays_inside(engines_spec()));
    lemma_stays_inside_push(engines_spec(), format_spec(settings.factorio_version@));
    assert(stays_inside(saves));
    assert(stays_inside(default_executable_spec(platform)));
    lemma_stays_inside_concat(engine, default_executable_spec(platform));
    lemma_stays_inside_concat(instance, settings.executable_path@);
    lemma_stays_inside_push(engine, "config-path.cfg"@);
    lemma_stays_inside_push(engine, "data"@);
    lemma_stays_inside_push(instance, "config-path.cfg"@);
    lemma_stays_inside_push(instance, "data"@);
    lemma_stays_inside_push(instance, "saves"@);
    assert(seq!["cache"@] =~= (engine + default_executable_spec(platform)).subrange(0, 1));
    assert(seq!["cache"@] =~= engine.push("config-path.cfg"@).subrange(0, 1));
    assert(seq!["cache"@] =~= engine.push("data"@).subrange(0, 1));
    assert(seq!["data"@, "saves"@] =~= saves.subrange(0, 2));
    assert(instance =~= executable.subrange(0, 2));
    assert(instance =~= instance.push("config-path.cfg"@).subrange(0, 2));
    assert(instance =~= instance.push("data"@).subrange(0, 2));
    assert(instance =~= instance.push("saves"@).subrange(0, 2));
    let removal = if found.instance {
        seq![StepView::RemoveTree(instance)]
    } else {
        Seq::<StepView>::empty()
    };
    let fixed = seq![
        StepView::CreateDirs(executable.drop_last()),
        StepView::LinkFile {
            source: engine + default_executable_spec(platform),
            link: executable,
        },
        StepView::LinkFile {
            source: engine.push("config-path.cfg"@),
            link: instance.push("config-path.cfg"@),
        },
        StepView::LinkDir { source: engine.push("data"@), link: instance.push("data"@) },
        StepView::LinkDir { source: saves, link: instance.push("saves"@) },
        StepView::CreateDirs(link_dir),
    ];
    let fetched = mod_steps_spec(settings.mods@, mods_spec(), link_dir, settings.mods@.len());
    let written = seq![
        StepView::WriteFile { path: link_dir.push("mod-list.json"@), contents: mod_list },
    ];
    let restored = restore_steps_spec(found, kept_files_spec(name), link_dir);
    assert(steps_stay_inside(removal, name));
    assert(steps_stay_inside(fixed, name));
    lemma_mod_links_stay_inside(settings.mods@, name, settings.mods@.len());
    assert(steps_stay_inside(written, name));
    assert(steps_stay_inside(restored, name));
    lemma_steps_concat(removal, fixed, name);
    lemma_steps_concat(removal + fixed, fetched, name);
    lemma_steps_concat(removal + fixed + fetched, written, name);
    lemma_steps_concat(removal + fixed + fetched + written, restored, name);
    assert(prepare_spec(name, settings, platform, found, mod_list) =~= removal + fixed + fetched
        + written + restored);
}

/// Preparing an instance whose directory is there does what preparing it
/// for the first time does, after it has removed the directory: the same
/// links, the same mod list file, the same restored settings.
pub proof fn lemma_prepare_again(
    name: Seq<char>,
    settings: InstanceSettings,
    platform: Platform,
    found: Found,
    mod_list: Seq<char>,
)
    ensures
        prepare_spec(name, settings, platform, Found { instance: true, ..found }, mod_list)
            == seq![StepView::RemoveTree(instance_path_spec(name))] + prepare_spec(
            name,
            settings,
            platform,
            Found { instance: false, ..found },
            mod_list,
        ),
{
    let again = prepare_spec(name, settings, platform, Found { instance: true, ..found }, mod_list);
    let first = prepare_spec(name, settings, platform, Found { instance: false, ..found }, mod_list);
    assert(again =~= seq![StepView::RemoveTree(instance_path_spec(name))] + first);
}

/// The step changes nothing outside the instance directory: what it
/// removes, creates, links, writes or copies to lies in that directory.
pub open spec fn step_stays_in_instance(step: StepView, name: Seq<char>) -> bool {
    let instance = instance_path_spec(name);
    match step {
        StepView::RemoveTree(path) => instance.is_prefix_of(path),
        StepView::CreateDirs(path) => instance.is_prefix_of(path),
        StepView::LinkFile { source, link } => instance.is_prefix_of(link),
        StepView::LinkDir { source, link } => instance.is_prefix_of(link),
        StepView::FetchMod { name, version, fractions } => true,
        StepView::WriteFile { path, contents } => instance.is_prefix_of(path),
        StepView::CopyFile { source, target } => instance.is_prefix_of(target),
    }
}

proof fn lemma_mod_steps_stay_in_instance(mods: Seq<Mod>, name: Seq<char>, fractions: nat)
    ensures
        forall|i: int|
            0 <= i < mod_steps_spec(
                mods,
                mods_spec(),
                instance_path_spec(name).push("mods"@),
                fractions,
            ).len() ==> step_stays_in_instance(
                #[trigger] mod_steps_spec(
                    mods,
                    mods_spec(),
                    instance_path_spec(name).push("mods"@),
                    fractions,
                )[i],
                name,
            ),
    decreases mods.len(),
{
    let link_dir = instance_path_spec(name).push("mods"@);
    if mods.len() > 0 {
        let m = mods.last();
        lemma_mod_steps_stay_in_instance(mods.drop_last(), name, fractions);
        let earlier = mod_steps_spec(mods.drop_last(), mods_spec(), link_dir, fractions);
        let all = mod_steps_spec(mods, mods_spec(), link_dir, fractions);
        let link = link_dir.push(crate::cache::mod_file_name_spec(m.name@, m.version@));
        assert(instance_path_spec(name) =~= link.subrange(0, 2));
        assert forall|i: int| 0 <= i < all.len() implies step_stays_in_instance(
            #[trigger] all[i],
            name,
        ) by {
            if i < earlier.len() {
                assert(all[i] == earlier[i]);
            }
        }
    }
}

/// Preparing an instance changes nothing outside its directory, provided
/// that the executable's path names a file in it.
pub proof fn lemma_composition_stays_in_instance(
    name: Seq<char>,
    settings: InstanceSettings,
    platform: Platform,
    found: Found,
    mod_list: Seq<char>,
)
    requires
        settings.executable_path@.len() > 0,
    ensures
        forall|i: int|
            0 <= i < prepare_spec(name, settings, platform, found, mod_list).len()
                ==> step_stays_in_instance(
                #[trigger] prepare_spec(name, settings, platform, found, mod_list)[i],
                name,
            ),
{
    let instance = instance_path_spec(name);
    let link_dir = instance.push("mods"@);
    let executable = instance + settings.executable_path@;
    let steps = prepare_spec(name, settings, platform, found, mod_list);
    let removal = if found.instance {
        seq![StepView::RemoveTree(instance)]
    } else {
        Seq::<StepView>::empty()
    };
    let engine = engine_dir_spec(engines_spec(), settings.factorio_version@);
    let fixed = seq![
        StepView::CreateDirs(executable.drop_last()),
        StepView::LinkFile {
            source: engine + default_executable_spec(platform),
            link: executable,
        },
        StepView::LinkFile {
            source: engine.push("config-path.cfg"@),
            link: instance.push("config-path.cfg"@),
        },
        StepView::LinkDir { source: engine.push("data"@), link: instance.push("data"@) },
        StepView::LinkDir { source: save_path_spec(settings.save@), link: instance.push("saves"@) },
        StepView::CreateDirs(link_dir),
    ];
    let fetched = mod_steps_spec(settings.mods@, mods_spec(), link_dir, settings.mods@.len());
    let written = seq![
        StepView::WriteFile { path: link_dir.push("mod-list.json"@), contents: mod_list },
    ];
    let restored = restore_steps_spec(found, kept_files_spec(name), link_dir);
    assert(steps =~= removal + fixed + fetched + written + restored);
    lemma_mod_steps_stay_in_instance(settings.mods@, name, settings.mods@.len());
    assert(instance =~= instance.subrange(0, 2));
    assert(instance =~= executable.subrange(0, 2));
    assert(instance =~= executable.drop_last().subrange(0, 2));
    assert(instance =~= instance.push("config-path.cfg"@).subrange(0, 2));
    assert(instance =~= instance.push("data"@).subrange(0, 2));
    assert(instance =~= instance.push("saves"@).subrange(0, 2));
    assert(instance =~= link_dir.subrange(0, 2));
    assert(instance =~= link_dir.push("mod-list.json"@).subrange(0, 2));
    assert(instance =~= link_dir.push("mod-settings.dat"@).subrange(0, 2));
    assert(instance =~= link_dir.push("mod-settings.json"@).subrange(0, 2));
    assert forall|i: int| 0 <= i < steps.len() implies step_stays_in_instance(
        #[trigger] steps[i],
        name,
    ) by {
        let a = removal.len();
        let b = a + fixed.len();
        let c = b + fetched.len();
        let d = c + written.len();
        if i < a {
            assert(steps[i] == removal[i]);
        } else if i < b {
            assert(steps[i] == fixed[i - a]);
        } else if i < c {
            assert(steps[i] == fetched[i - b]);
        } else if i < d {
            assert(steps[i] == written[i - c]);
        } else {
            assert(steps[i] == restored[i - d]);
        }
    }
}

} // verus!
