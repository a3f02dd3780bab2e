//! The cache of engine builds and mod archives: where each artifact lies,
//! where it is downloaded from, and who fetches it when several ask at once.

use crate::credentials::{CredentialManager, Credentials};
use crate::download::{
    account_query, engine_download_url, engine_url_stem, mod_download_url, mod_url_spec,
};
use crate::error::ServerError;
use crate::in_flight::{ask, Flight, InFlight, SenderGuard};
use crate::mod_portal::Release;
use crate::paths::RelPath;
use crate::platform::Platform;
use crate::text::{chain, views};
use crate::version::{format_spec, Version};
use crate::versions::{
    link_version, link_versions, list_versions, lists_versions, select_attributes,
    selected_attributes, attribute_views, VersionListing, ARCHIVE_LINK_SELECTOR, LINK_ATTRIBUTE,
};
use tokio::sync::broadcast::Receiver;
use vstd::prelude::*;
use vstd::string::*;

verus! {

broadcast use vstd::string::group_string_axioms;

/// The file name of a mod archive: `<name>_<version>.zip`.
pub open spec fn mod_file_name_spec(name: Seq<char>, version: (nat, nat, nat)) -> Seq<char> {
    name + "_"@ + format_spec(version) + ".zip"@
}

/// Where a mod archive lies below the directory of mods:
/// `<name>/<version>/<name>_<version>.zip`.
pub open spec fn mod_artifact_spec(
    mods_dir: Seq<Seq<char>>,
    name: Seq<char>,
    version: (nat, nat, nat),
) -> Seq<Seq<char>> {
    mods_dir.push(name).push(format_spec(version)).push(mod_file_name_spec(name, version))
}

/// The file name of a mod archive.
pub fn mod_file_name(name: &str, version: &Version) -> (file: String)
    ensures
        file@ == mod_file_name_spec(name@, version@),
{
    let mut file = chain(name, "_");
    file.append(version.to_string().as_str());
    file.append(".zip");
    file
}

/// Where a mod archive lies below the directory of mods.
pub fn mod_artifact_path(mods_dir: &RelPath, name: &str, version: &Version) -> (path: RelPath)
    ensures
        path@ == mod_artifact_spec(mods_dir@, name@, version@),
{
    mods_dir.join(name).join(version.to_string().as_str()).join(
        mod_file_name(name, version).as_str(),
    )
}

/// Where an engine build lies below the directory of builds: `<version>`.
pub open spec fn engine_dir_spec(factorio_dir: Seq<Seq<char>>, version: (nat, nat, nat)) -> Seq<
    Seq<char>,
> {
    factorio_dir.push(format_spec(version))
}

/// Where an engine build lies below the directory of builds.
pub fn engine_dir(factorio_dir: &RelPath, version: &Version) -> (path: RelPath)
    ensures
        path@ == engine_dir_spec(factorio_dir@, version@),
{
    factorio_dir.join(version.to_string().as_str())
}

/// The cache: its directories, the account that it downloads with, and
/// the fetches in flight.
pub struct Cache {
    root_path: RelPath,
    credentials: CredentialManager,
    in_flight: InFlight,
}

/// What a caller that asked for an artifact is to do.
pub enum Fetch {
    /// The artifact is there.
    Ready(RelPath),
    /// Another caller fetches it: wait for its message, then look whether
    /// the artifact is there.
    Wait { path: RelPath, receiver: Receiver<()> },
    /// This caller fetches it.
    Download { path: RelPath, guard: SenderGuard },
}

/// What the leader does once its download has ended.
#[derive(Debug, PartialEq, Eq)]
pub enum AfterDownload {
    /// It succeeded: tell the followers and hand out the path.
    Publish(RelPath),
    /// It failed: remove what was written of the destination, then fail.
    RemoveThenFail { destination: RelPath, error: ServerError },
}

/// What lies at a path on disk.
#[derive(Debug, Clone, Copy, PartialEq, Eq, Structural)]
pub enum OnDisk {
    Nothing,
    File,
    Directory,
}

/// How the destination of a failed fetch is removed.
#[derive(Debug, PartialEq, Eq)]
pub enum Removal {
    /// Nothing was written: there is nothing to remove.
    Nothing,
    /// Remove the file.
    File(RelPath),
    /// Remove the directory and all below it.
    Tree(RelPath),
}

/// What a mod download needs.
#[derive(Debug, PartialEq, Eq)]
pub struct ModDownload {
    /// Where the archive is downloaded from.
    pub url: String,
    /// The directory to create for it.
    pub directory: RelPath,
    /// The file to write.
    pub file: RelPath,
}

/// The name under which a path is held among the fetches in flight.
pub open spec fn flight_key(path: Seq<Seq<char>>) -> Seq<char> {
    crate::paths::absolute_spec(Seq::<char>::empty(), path)
}

impl Cache {
    /// The root of the cache.
    pub closed spec fn root(&self) -> Seq<Seq<char>> {
        self.root_path@
    }

    /// The account that the cache downloads with, if it holds one.
    pub closed spec fn account(&self) -> Option<Credentials> {
        self.credentials.state()
    }

    /// The keys of the fetches in flight.
    pub closed spec fn in_flight(&self) -> Set<Seq<char>> {
        self.in_flight.paths()
    }

    /// Where the credentials are kept below the root of a cache.
    pub fn credentials_file(root_path: &RelPath) -> (path: RelPath)
        ensures
            path@ == root_path@.push("credentials.json"@),
    {
        root_path.join("credentials.json")
    }

    /// The cache below `root_path`, with the account that its credentials
    /// file held (`None` where there was no file) and no fetch in flight.
    pub fn new(root_path: RelPath, stored: Option<Credentials>) -> (cache: Self)
        ensures
            cache.root() == root_path@,
            cache.account() == stored,
            cache.in_flight() == Set::<Seq<char>>::empty(),
    {
        let credentials = CredentialManager::load(Self::credentials_file(&root_path), stored);
        Cache { root_path, credentials, in_flight: InFlight::new() }
    }

    /// The account that the cache downloads with.
    pub fn credentials(&self) -> (manager: &CredentialManager)
        ensures
            manager.state() == self.account(),
    {
        &self.credentials
    }

    /// Holds the given name and token from now on.
    pub fn login_with_token(&mut self, username: String, token: String)
        ensures
            final(self).account() == Some(Credentials { username, token }),
            final(self).root() == old(self).root(),
            final(self).in_flight() == old(self).in_flight(),
    {
        self.credentials.login_with_token(username, token);
    }

    /// Takes the answer of the login endpoint: see
    /// `CredentialManager::finish_login`.
    pub fn finish_login(&mut self, reply: crate::credentials::LoginReply) -> (r: Result<
        (),
        ServerError,
    >)
        ensures
            final(self).root() == old(self).root(),
            final(self).in_flight() == old(self).in_flight(),
            match reply {
                crate::credentials::LoginReply::Granted(credentials) => r is Ok && final(self).account() == Some(credentials),
                crate::credentials::LoginReply::Refused(failure) => r == Err::<(), ServerError>(
                    ServerError::CredentialsFailure(failure),
                ) && final(self).account() == old(self).account(),
            },
    {
        self.credentials.finish_login(reply)
    }

    /// Forgets the account.
    pub fn logout(&mut self)
        ensures
            final(self).account() is None,
            final(self).root() == old(self).root(),
            final(self).in_flight() == old(self).in_flight(),
    {
        self.credentials.logout();
    }

    /// The directory of engine builds.
    pub fn factorio_dir(&self) -> (path: RelPath)
        ensures
            path@ == self.root().push("factorio"@),
    {
        self.root_path.join("factorio")
    }

    /// The directory of mods.
    pub fn mods_dir(&self) -> (path: RelPath)
        ensures
            path@ == self.root().push("mods"@),
    {
        self.root_path.join("mods")
    }

    /// Where the engine build of a version lies.
    pub fn factorio_path(&self, version: &Version) -> (path: RelPath)
        ensures
            path@ == engine_dir_spec(self.root().push("factorio"@), version@),
    {
        engine_dir(&self.factorio_dir(), version)
    }

    /// Where the archive of a mod lies.
    pub fn mod_path(&self, name: &str, version: &Version) -> (path: RelPath)
        ensures
            path@ == mod_artifact_spec(self.root().push("mods"@), name@, version@),
    {
        mod_artifact_path(&self.mods_dir(), name, version)
    }

    fn begin(&mut self, path: RelPath, exists: bool) -> (fetch: Fetch)
        ensures
            final(self).root() == old(self).root(),
            final(self).account() == old(self).account(),
            exists ==> fetch == Fetch::Ready(path) && final(self).in_flight() == old(self).in_flight(),
            !exists ==> {
                &&& final(self).in_flight() == ask(old(self).in_flight(), flight_key(path@)).0
                &&& if ask(old(self).in_flight(), flight_key(path@)).1 {
                    fetch matches Fetch::Download { path: p, guard } && p == path
                        && guard.path_spec() == flight_key(path@)
                } else {
                    fetch matches Fetch::Wait { path: p, receiver: _ } && p == path
                }
            },
    {
        if exists {
            return Fetch::Ready(path);
        }
        proof {
            reveal_strlit("");
            assert(""@ =~= Seq::<char>::empty());
        }
        let key = path.absolute("");
        match self.in_flight.check_inflight(key.as_str()) {
            Flight::Follower(receiver) => Fetch::Wait { path, receiver },
            Flight::Leader(guard) => Fetch::Download { path, guard },
        }
    }

    /// Asks for the engine build of a version, given whether its directory
    /// exists. A build that is there is ready. Else the caller leads the
    /// fetch if nobody does, and waits for the leader if somebody does.
    pub fn get_factorio(&mut self, version: &Version, exists: bool) -> (fetch: Fetch)
        ensures
            final(self).root() == old(self).root(),
            final(self).account() == old(self).account(),
            ({
                let path = engine_dir_spec(old(self).root().push("factorio"@), version@);
                let asked = ask(old(self).in_flight(), flight_key(path));
                if exists {
                    &&& fetch matches Fetch::Ready(p) && p@ == path
                    &&& final(self).in_flight() == old(self).in_flight()
                } else {
                    &&& final(self).in_flight() == asked.0
                    &&& if asked.1 {
                        fetch matches Fetch::Download { path: p, guard } && p@ == path
                            && guard.path_spec() == flight_key(path)
                    } else {
                        fetch matches Fetch::Wait { path: p, receiver: _ } && p@ == path
                    }
                }
            }),
    {
        let path = self.factorio_path(version);
        self.begin(path, exists)
    }

    /// Asks for the archive of a mod, given whether the file exists. As
    /// for an engine build; but a caller that would lead without an account
    /// is refused, and leaves nothing in flight.
    pub fn get_mod(&mut self, name: &str, version: &Version, exists: bool) -> (r: Result<
        Fetch,
        ServerError,
    >)
        ensures
            final(self).root() == old(self).root(),
            final(self).account() == old(self).account(),
            ({
                let path = mod_artifact_spec(old(self).root().push("mods"@), name@, version@);
                let asked = ask(old(self).in_flight(), flight_key(path));
                if exists {
                    &&& r matches Ok(Fetch::Ready(p)) && p@ == path
                    &&& final(self).in_flight() == old(self).in_flight()
                } else if !asked.1 {
                    &&& r matches Ok(Fetch::Wait { path: p, receiver: _ }) && p@ == path
                    &&& final(self).in_flight() == old(self).in_flight()
                } else if old(self).account() is Some {
                    &&& r matches Ok(Fetch::Download { path: p, guard }) && p@ == path
                        && guard.path_spec() == flight_key(path)
                    &&& final(self).in_flight() == asked.0
                } else {
                    &&& r matches Err(ServerError::NotAllowed(text)) && text@
                        == "credentials required"@
                    &&& final(self).in_flight() == old(self).in_flight()
                }
            }),
    {
        let path = self.mod_path(name, version);
        match self.begin(path, exists) {
            Fetch::Download { path, guard } => {
                if !self.credentials().has_token() {
                    self.in_flight.release(guard, false);
                    assert(self.in_flight() =~= old(self).in_flight());
                    return Err(ServerError::NotAllowed(String::from_str("credentials required")));
                }
                Ok(Fetch::Download { path, guard })
            },
            other => Ok(other),
        }
    }

    /// What a follower gets once the leader's message has come: the path if
    /// the artifact is there now, else the news that the fetch has failed.
    pub fn after_wait(path: RelPath, exists: bool) -> (r: Result<RelPath, ServerError>)
        ensures
            exists ==> r == Ok::<RelPath, ServerError>(path),
            !exists ==> r == Err::<RelPath, ServerError>(ServerError::InFlightError),
    {
        if exists {
            Ok(path)
        } else {
            Err(ServerError::InFlightError)
        }
    }

    /// What the leader does once its download has ended: every failure is
    /// answered by the removal of the destination.
    pub fn after_download(path: RelPath, outcome: Result<(), ServerError>) -> (next: AfterDownload)
        ensures
            next == match outcome {
                Ok(()) => AfterDownload::Publish(path),
                Err(error) => AfterDownload::RemoveThenFail { destination: path, error },
            },
    {
        match outcome {
            Ok(()) => AfterDownload::Publish(path),
            Err(error) => AfterDownload::RemoveThenFail { destination: path, error },
        }
    }

    /// How the destination of a failed fetch is removed, given what lies
    /// there: a directory with all below it, a file alone, and nothing where
    /// nothing was written.
    pub fn removal(destination: RelPath, found: OnDisk) -> (removal: Removal)
        ensures
            removal == match found {
                OnDisk::Nothing => Removal::Nothing,
                OnDisk::File => Removal::File(destination),
                OnDisk::Directory => Removal::Tree(destination),
            },
    {
        match found {
            OnDisk::Nothing => Removal::Nothing,
            OnDisk::File => Removal::File(destination),
            OnDisk::Directory => Removal::Tree(destination),
        }
    }

    /// The error of a failed fetch, given how the removal of the
    /// destination went: the removal's own error if it failed, so that a
    /// stuck file system shows; else the error of the download.
    pub fn cleanup_error(error: ServerError, removal: Result<(), ServerError>) -> (e: ServerError)
        ensures
            e == match removal {
                Ok(()) => error,
                Err(removal_error) => removal_error,
            },
    {
        match removal {
            Ok(()) => error,
            Err(removal_error) => removal_error,
        }
    }

    /// Ends the leader's fetch. The path is no longer in flight; the
    /// followers are told exactly if the fetch succeeded; the result is the
    /// path then, and the error else.
    pub fn finish(&mut self, guard: SenderGuard, path: RelPath, outcome: Result<(), ServerError>) -> (r:
        Result<RelPath, ServerError>)
        ensures
            final(self).root() == old(self).root(),
            final(self).account() == old(self).account(),
            final(self).in_flight() == old(self).in_flight().remove(guard.path_spec()),
            r == match outcome {
                Ok(()) => Ok::<RelPath, ServerError>(path),
                Err(error) => Err::<RelPath, ServerError>(error),
            },
    {
        match outcome {
            Ok(()) => {
                self.in_flight.release(guard, true);
                Ok(path)
            },
            Err(error) => {
                self.in_flight.release(guard, false);
                Err(error)
            },
        }
    }

    /// Where the engine build of a version is downloaded from, with the
    /// cache's account where the platform asks for one.
    pub fn engine_download(&self, version: &Version, platform: Platform) -> (r: Result<
        String,
        ServerError,
    >)
        ensures
            match (platform, self.account()) {
                (Platform::Linux, _) => r matches Ok(url) && url@ == engine_url_stem(
                    version@,
                    platform,
                ),
                (Platform::Windows, Some(account)) => r matches Ok(url) && url@
                    == engine_url_stem(version@, platform) + account_query(account),
                (Platform::Windows, None) => r matches Err(ServerError::NotAllowed(text))
                    && text@ == "Please Login before downloading factorio"@,
            },
    {
        match self.credentials().get_credentials() {
            Ok(account) => engine_download_url(version, platform, Some(&account)),
            Err(_) => engine_download_url(version, platform, None),
        }
    }

    /// What the download of a mod's release into `path` needs. It needs an
    /// account, and a path that lies in a directory.
    pub fn mod_download(&self, path: &RelPath, release: &Release) -> (r: Result<
        ModDownload,
        ServerError,
    >)
        ensures
            if path@.len() == 0 {
                r matches Err(ServerError::NotAllowed(text)) && text@
                    == "mod_file_path has no parent"@
            } else {
                match self.account() {
                    None => r matches Err(ServerError::NotAllowed(text)) && text@
                        == "No credentials found"@,
                    Some(account) => r matches Ok(download) && {
                        &&& download.url@ == mod_url_spec(release.download_url@, account)
                        &&& download.directory@ == path@.drop_last()
                        &&& download.file@ == path@
                    },
                }
            },
    {
        let directory = match path.parent() {
            Some(directory) => directory,
            None => {
                return Err(
                    ServerError::NotAllowed(String::from_str("mod_file_path has no parent")),
                );
            },
        };
        let account = match self.credentials().get_credentials() {
            Ok(account) => account,
            Err(e) => {
                return Err(e);
            },
        };
        Ok(
            ModDownload {
                url: mod_download_url(release.download_url.as_str(), &account),
                directory,
                file: path.clone(),
            },
        )
    }

    /// The engine versions of the cache and of the archive page, given the
    /// names in the cache's directory of builds and the archive page. A link
    /// of the page without a target ends the listing, as does a selector
    /// that cannot be read.
    pub fn get_available_versions(&self, local: &Vec<String>, html: &str) -> (r: Result<
        Vec<VersionListing>,
        ServerError,
    >)
        ensures
            match selected_attributes(html@, ARCHIVE_LINK_SELECTOR@, LINK_ATTRIBUTE@) {
                None => r matches Err(e) && e.is_download_error("selector not readable"@),
                Some(links) => if exists|i: int| 0 <= i < links.len() && (#[trigger] links[i]) is None {
                    r matches Err(ServerError::DownloadError(text)) && text@ == "no href present"@
                } else {
                    r matches Ok(entries) && lists_versions(
                        entries@,
                        views(local@),
                        links.map_values(|link: Option<Seq<char>>| link_version(link->0)),
                    )
                },
            },
    {
        let links = match select_attributes(html, ARCHIVE_LINK_SELECTOR, LINK_ATTRIBUTE) {
            Some(links) => links,
            None => {
                return Err(ServerError::DownloadError(String::from_str("selector not readable")));
            },
        };
        let ghost found = attribute_views(links@);
        let remote = match link_versions(&links) {
            Ok(remote) => remote,
            Err(e) => {
                proof {
                    let i = choose|i: int| 0 <= i < links@.len() && (#[trigger] links@[i]) is None;
                    assert(found[i] is None);
                }
                return Err(e);
            },
        };
        proof {
            assert forall|i: int| 0 <= i < found.len() implies !((#[trigger] found[i]) is None) by {
                assert(links@[i] is Some);
            }
            assert(views(remote@) =~= found.map_values(
                |link: Option<Seq<char>>| link_version(link->0),
            )) by {
                assert forall|i: int| 0 <= i < remote@.len() implies views(remote@)[i]
                    == link_version(found[i]->0) by {
                    assert(links@[i] is Some);
                }
            }
        }
        Ok(list_versions(local, &remote))
    }

    /// The directory to remove so as to drop the engine build `version`,
    /// given whether it exists. A build that is not there cannot be dropped.
    pub fn delete_version(&self, version: &str, exists: bool) -> (r: Result<RelPath, ServerError>)
        ensures
            exists ==> (r matches Ok(path) && path@ == self.root().push("factorio"@).push(
                version@,
            )),
            !exists ==> (r matches Err(ServerError::NotAllowed(text)) && text@
                == "version doesn't exist"@),
    {
        if !exists {
            return Err(ServerError::NotAllowed(String::from_str("version doesn't exist")));
        }
        Ok(self.factorio_dir().join(version))
    }
}

} // verus!
