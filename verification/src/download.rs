//! Downloads: where an artifact is downloaded from, how a download counts
//! its progress, which release of a mod is wanted, and what to do with the
//! entries of the archive that an engine build comes in.

use crate::credentials::Credentials;
use crate::error::ServerError;
use crate::mod_portal::Release;
use crate::paths::RelPath;
use crate::platform::Platform;
use crate::text::{chain, str_eq, views};
use crate::version::{format_spec, triple_le, Version};
use vstd::prelude::*;
use vstd::string::*;

verus! {

broadcast use vstd::string::group_string_axioms;

/// Where engine builds are downloaded from.
pub const ENGINE_DOWNLOAD_URL: &'static str = "https://www.factorio.com/get-download/";

/// Where mod archives are downloaded from.
pub const MOD_DOWNLOAD_URL: &'static str = "https://mods.factorio.com/";

/// The build of the engine that is downloaded for a platform: the
/// headless one on Linux; on Windows the full game, which is called
/// `expansion` from version 2.0.0 on and `alpha` before.
pub open spec fn build_spec(version: (nat, nat, nat), platform: Platform) -> Seq<char> {
    match platform {
        Platform::Linux => "headless"@,
        Platform::Windows => if triple_le((2, 0, 0), version) {
            "expansion"@
        } else {
            "alpha"@
        },
    }
}

/// The distribution that is downloaded for a platform.
pub open spec fn distro_spec(platform: Platform) -> Seq<char> {
    match platform {
        Platform::Linux => "linux64"@,
        Platform::Windows => "win64-manual"@,
    }
}

/// The query that carries the account.
pub open spec fn account_query(credentials: Credentials) -> Seq<char> {
    "?username="@ + credentials.username@ + "&token="@ + credentials.token@
}

/// Where an engine build is downloaded from, the account aside.
pub open spec fn engine_url_stem(version: (nat, nat, nat), platform: Platform) -> Seq<char> {
    ENGINE_DOWNLOAD_URL@ + format_spec(version) + "/"@ + build_spec(version, platform) + "/"@
        + distro_spec(platform)
}

/// Where a mod archive is downloaded from.
pub open spec fn mod_url_spec(download_url: Seq<char>, credentials: Credentials) -> Seq<char> {
    MOD_DOWNLOAD_URL@ + download_url + account_query(credentials)
}

fn account_query_text(credentials: &Credentials) -> (text: String)
    ensures
        text@ == account_query(*credentials),
{
    let mut text = chain("?username=", credentials.username.as_str());
    text.append("&token=");
    text.append(credentials.token.as_str());
    text
}

/// Where an engine build is downloaded from. The Windows download needs an
/// account and carries it in the query; the Linux one needs none.
pub fn engine_download_url(
    version: &Version,
    platform: Platform,
    credentials: Option<&Credentials>,
) -> (r: Result<String, ServerError>)
    ensures
        match (platform, credentials) {
            (Platform::Linux, _) => r matches Ok(url) && url@ == engine_url_stem(
                version@,
                platform,
            ),
            (Platform::Windows, Some(account)) => r matches Ok(url) && url@ == engine_url_stem(
                version@,
                platform,
            ) + account_query(*account),
            (Platform::Windows, None) => r matches Err(ServerError::NotAllowed(text)) && text@
                == "Please Login before downloading factorio"@,
        },
{
    let mut url = chain(ENGINE_DOWNLOAD_URL, version.to_string().as_str());
    url.append("/");
    match platform {
        Platform::Linux => {
            url.append("headless");
            url.append("/");
            url.append("linux64");
            Ok(url)
        },
        Platform::Windows => {
            let account = match credentials {
                Some(account) => account,
                None => {
                    return Err(
                        ServerError::NotAllowed(
                            String::from_str("Please Login before downloading factorio"),
                        ),
                    );
                },
            };
            if version.at_least(&Version::new(2, 0, 0)) {
                url.append("expansion");
            } else {
                url.append("alpha");
            }
            url.append("/");
            url.append("win64-manual");
            url.append(account_query_text(account).as_str());
            Ok(url)
        },
    }
}

/// Where a mod archive is downloaded from: the portal, the release's
/// download path, and the account.
pub fn mod_download_url(download_url: &str, credentials: &Credentials) -> (url: String)
    ensures
        url@ == mod_url_spec(download_url@, *credentials),
{
    let mut url = chain(MOD_DOWNLOAD_URL, download_url);
    url.append(account_query_text(credentials).as_str());
    url
}

/// The number of equal shares that the progress of a Windows engine
/// download is split into: one for the download, one for the extraction.
pub const WINDOWS_PHASES: u64 = 2;

/// How a download reports its progress, given the length that the server
/// announced, if it announced one.
#[derive(Debug, Clone, Copy, PartialEq, Eq, Structural)]
pub struct DownloadMeter {
    pub content_length: Option<u64>,
}

/// The progress that a list of chunks has reported when the length of the
/// download is known: their lengths, summed.
pub open spec fn chunks_total(chunks: Seq<nat>) -> nat
    decreases chunks.len(),
{
    if chunks.len() == 0 {
        0
    } else {
        chunks_total(chunks.drop_last()) + chunks.last()
    }
}

impl DownloadMeter {
    /// The meter of a download with the announced length.
    pub fn new(content_length: Option<u64>) -> (meter: Self)
        ensures
            meter.content_length == content_length,
    {
        DownloadMeter { content_length }
    }

    /// The units that the whole download counts for: its length in bytes
    /// if that is known, else one.
    pub fn units(&self) -> (units: u64)
        ensures
            units == match self.content_length {
                Some(length) => length,
                None => 1,
            },
    {
        match self.content_length {
            Some(length) => length,
            None => 1,
        }
    }

    /// The units that a chunk of `length` bytes advances the progress by:
    /// its length if the length of the download is known, else nothing.
    pub fn chunk(&self, length: u64) -> (advance: u64)
        ensures
            advance == if self.content_length is Some {
                length
            } else {
                0
            },
    {
        if self.content_length.is_some() {
            length
        } else {
            0
        }
    }

    /// The units that the end of the download advances the progress by:
    /// the one unit of a download of unknown length, else nothing.
    pub fn complete(&self) -> (advance: u64)
        ensures
            advance == if self.content_length is None {
                1u64
            } else {
                0u64
            },
    {
        if self.content_length.is_none() {
            1
        } else {
            0
        }
    }

    /// What a download has reported when it is complete.
    pub open spec fn reported(self, chunks: Seq<nat>) -> nat {
        if self.content_length is Some {
            chunks_total(chunks)
        } else {
            1nat
        }
    }

    /// What a download is to report in all.
    pub open spec fn units_spec(self) -> nat {
        match self.content_length {
            Some(length) => length as nat,
            None => 1,
        }
    }

    /// A complete download has reported exactly its units: always when the
    /// length was not announced, and when the chunks add up to the
    /// announced length where it was.
    pub proof fn lemma_complete_download_reports_all(self, chunks: Seq<nat>)
        requires
            self.content_length matches Some(length) ==> chunks_total(chunks) == length,
        ensures
            self.reported(chunks) == self.units_spec(),
    {
    }
}

/// One entry of an archive, as far as its extraction depends on it.
#[derive(Debug, PartialEq, Eq)]
pub struct ArchiveEntry {
    /// The entry's name if it is safe to extract, else `None`.
    pub sanitized_name: Option<String>,
    /// The entry is a directory.
    pub is_dir: bool,
    /// The size of the entry's contents.
    pub uncompressed_size: u64,
}

/// What to do with an entry of an archive.
#[derive(Debug, PartialEq, Eq)]
pub enum ExtractStep {
    /// Make the directory, unless it is there; it counts one unit.
    Directory { name: String },
    /// Make the parent directory, unless it is there, and write the
    /// contents to a new file; it counts `units` units.
    File { name: String, units: u64 },
}

/// What to do with an entry of an archive. An entry without a safe name
/// ends the extraction.
pub fn plan_entry(entry: &ArchiveEntry) -> (r: Result<ExtractStep, ServerError>)
    ensures
        match entry.sanitized_name {
            None => r matches Err(ServerError::DownloadError(text)) && text@
                == "invalid filename in factorio zip-file"@,
            Some(name) => if entry.is_dir {
                r == Ok::<ExtractStep, ServerError>(ExtractStep::Directory { name })
            } else {
                r == Ok::<ExtractStep, ServerError>(
                    ExtractStep::File { name, units: entry.uncompressed_size },
                )
            },
        },
{
    match &entry.sanitized_name {
        None => Err(
            ServerError::DownloadError(String::from_str("invalid filename in factorio zip-file")),
        ),
        Some(name) => if entry.is_dir {
            Ok(ExtractStep::Directory { name: name.clone() })
        } else {
            Ok(ExtractStep::File { name: name.clone(), units: entry.uncompressed_size })
        },
    }
}

/// One step of lifting the contents of an archive's only top directory
/// into the destination.
#[derive(Debug, PartialEq, Eq)]
pub enum FlattenStep {
    /// Rename `from` to `to`.
    Move { from: RelPath, to: RelPath },
    /// Remove the directory, which is empty by now.
    RemoveDir(RelPath),
}

/// A step of a flattening, as plain values.
pub enum FlattenView {
    Move { from: Seq<Seq<char>>, to: Seq<Seq<char>> },
    RemoveDir(Seq<Seq<char>>),
}

impl View for FlattenStep {
    type V = FlattenView;

    open spec fn view(&self) -> FlattenView {
        match *self {
            FlattenStep::Move { from, to } => FlattenView::Move { from: from@, to: to@ },
            FlattenStep::RemoveDir(path) => FlattenView::RemoveDir(path@),
        }
    }
}

/// The views of a list of steps.
pub open spec fn flatten_views(steps: Seq<FlattenStep>) -> Seq<FlattenView> {
    steps.map_values(|step: FlattenStep| step@)
}

/// The steps that lift the children of `wrapper` into `destination`: each
/// child moves one level up, then the wrapper is removed.
pub open spec fn flatten_spec(
    destination: Seq<Seq<char>>,
    wrapper: Seq<char>,
    children: Seq<Seq<char>>,
) -> Seq<FlattenView> {
    Seq::new(
        children.len(),
        |i: int|
            FlattenView::Move {
                from: destination.push(wrapper).push(children[i]),
                to: destination.push(children[i]),
            },
    ).push(FlattenView::RemoveDir(destination.push(wrapper)))
}

/// The steps that lift the contents of an extracted archive's top
/// directory into the destination. `wrapper` is the first entry of the
/// destination after the extraction, `None` if it has none; `children` are
/// the entries of that directory.
pub fn flatten_steps(destination: &RelPath, wrapper: Option<&str>, children: &Vec<String>) -> (r:
    Result<Vec<FlattenStep>, ServerError>)
    ensures
        match wrapper {
            None => r matches Err(ServerError::DownloadError(text)) && text@
                == "missing subfolder after extracting tar"@,
            Some(name) => r matches Ok(steps) && flatten_views(steps@) == flatten_spec(
                destination@,
                name@,
                views(children@),
            ),
        },
{
    let name = match wrapper {
        Some(name) => name,
        None => {
            return Err(
                ServerError::DownloadError(
                    String::from_str("missing subfolder after extracting tar"),
                ),
            );
        },
    };
    let inner = destination.join(name);
    let mut steps: Vec<FlattenStep> = Vec::new();
    let n: usize = children.len();
    let mut i: usize = 0;
    let ghost wanted = flatten_spec(destination@, name@, views(children@));
    assert(flatten_views(steps@) =~= wanted.take(0));
    while i < n
        invariant
            i <= n,
            n == children.len(),
            inner@ == destination@.push(name@),
            wanted == flatten_spec(destination@, name@, views(children@)),
            flatten_views(steps@) == wanted.take(i as int),
        decreases n - i,
    {
        let child = children[i].as_str();
        let step = FlattenStep::Move { from: inner.join(child), to: destination.join(child) };
        assert(views(children@)[i as int] == child@);
        assert(step@ == wanted[i as int]);
        let ghost before = steps@;
        steps.push(step);
        assert(flatten_views(steps@) =~= flatten_views(before).push(step@));
        assert(wanted.take(i + 1) =~= wanted.take(i as int).push(wanted[i as int]));
        i = i + 1;
    }
    let ghost before = steps@;
    let last = FlattenStep::RemoveDir(inner);
    steps.push(last);
    assert(flatten_views(steps@) =~= flatten_views(before).push(last@));
    assert(wanted.take(n as int).push(last@) =~= wanted);
    Ok(steps)
}

/// The first release with the given version text, if there is one.
pub open spec fn find_release_spec(releases: Seq<Release>, version: Seq<char>) -> Option<Release>
    decreases releases.len(),
{
    if releases.len() == 0 {
        None
    } else if releases[0].version@ == version {
        Some(releases[0])
    } else {
        find_release_spec(releases.drop_first(), version)
    }
}

/// The release of a mod in the given version: the first one of the
/// portal's list whose version reads like it.
pub fn select_release<'a>(releases: Option<&'a Vec<Release>>, version: &Version) -> (r: Result<
    &'a Release,
    ServerError,
>)
    ensures
        match releases {
            None => r matches Err(ServerError::DownloadError(text)) && text@
                == "no releases found"@,
            Some(list) => match find_release_spec(list@, format_spec(version@)) {
                Some(release) => r matches Ok(found) && *found == release,
                None => r matches Err(ServerError::DownloadError(text)) && text@
                    == "release not found"@,
            },
        },
{
    let list = match releases {
        Some(list) => list,
        None => {
            return Err(ServerError::DownloadError(String::from_str("no releases found")));
        },
    };
    let wanted = version.to_string();
    let n: usize = list.len();
    let mut i: usize = 0;
    assert(list@.skip(0) =~= list@);
    while i < n
        invariant
            i <= n,
            n == list.len(),
            releases == Some(list),
            wanted@ == format_spec(version@),
            find_release_spec(list@, wanted@) == find_release_spec(list@.skip(i as int), wanted@),
        decreases n - i,
    {
        let ghost rest = list@.skip(i as int);
        assert(rest[0] == list@[i as int]);
        if str_eq(list[i].version.as_str(), wanted.as_str()) {
            assert(find_release_spec(rest, wanted@) == Some(rest[0]));
            return Ok(&list[i]);
        }
        assert(rest.drop_first() =~= list@.skip(i + 1));
        i = i + 1;
    }
    Err(ServerError::DownloadError(String::from_str("release not found")))
}

} // verus!
