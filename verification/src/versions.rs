//! The engine versions that can be had: those that lie in the cache and
//! those that the archive page offers.

use crate::error::ServerError;
use crate::text::{lemma_split_nonempty, split, split_on, str_eq, views};
use vstd::prelude::*;
use vstd::string::*;

verus! {

broadcast use vstd::string::group_string_axioms;

/// The page that lists the engine versions that can be downloaded.
pub const ARCHIVE_URL: &'static str = "https://www.factorio.com/download/archive/";

/// The links of the archive page that lead to a version.
pub const ARCHIVE_LINK_SELECTOR: &'static str = "a.slot-button-inline";

/// The attribute of a link that holds where it leads.
pub const LINK_ATTRIBUTE: &'static str = "href";

/// One engine version and where it can be had.
#[derive(Debug, PartialEq, Eq)]
pub struct VersionListing {
    pub name: String,
    /// The archive page offers it.
    pub available: bool,
    /// The cache holds it.
    pub downloaded: bool,
}

/// The names of a list of versions.
pub open spec fn listing_names(entries: Seq<VersionListing>) -> Seq<Seq<char>> {
    entries.map_values(|entry: VersionListing| entry.name@)
}

/// The version that a link of the archive page leads to: what stands
/// behind its last `/`.
pub open spec fn link_version(link: Seq<char>) -> Seq<char> {
    split(link, '/').last()
}

/// The list names each version of the cache or the archive page once,
/// and says of each where it was found.
pub open spec fn lists_versions(
    entries: Seq<VersionListing>,
    local: Seq<Seq<char>>,
    remote: Seq<Seq<char>>,
) -> bool {
    &&& listing_names(entries).no_duplicates()
    &&& forall|i: int|
        0 <= i < entries.len() ==> {
            &&& (#[trigger] entries[i]).available == remote.contains(entries[i].name@)
            &&& entries[i].downloaded == local.contains(entries[i].name@)
            &&& (entries[i].available || entries[i].downloaded)
        }
    &&& forall|name: Seq<char>|
        local.contains(name) || remote.contains(name) ==> #[trigger] listing_names(
            entries,
        ).contains(name)
}

/// What `scraper` finds in a document: for each element that the CSS
/// selector matches, in document order, the value of the attribute, if
/// the element has it; `None` for a selector that `scraper` cannot parse.
pub uninterp spec fn selected_attributes(
    html: Seq<char>,
    selector: Seq<char>,
    attribute: Seq<char>,
) -> Option<Seq<Option<Seq<char>>>>;

/// The attribute values of a list of elements.
pub open spec fn attribute_views(values: Seq<Option<String>>) -> Seq<Option<Seq<char>>> {
    values.map_values(
        |value: Option<String>|
            match value {
                Some(text) => Some(text@),
                None => None,
            },
    )
}

/// Parses the selector with `Selector::parse` and the document with
/// `Html::parse_document`, and collects `ElementRef::attr` of each element
/// that `Html::select` yields. What comes back is given the name
/// `selected_attributes`.
#[verifier::external_body]
pub(crate) fn select_attributes(html: &str, selector: &str, attribute: &str) -> (values: Option<
    Vec<Option<String>>,
>)
    ensures
        match values {
            Some(list) => selected_attributes(html@, selector@, attribute@) == Some(
                attribute_views(list@),
            ),
            None => selected_attributes(html@, selector@, attribute@) is None,
        },
{
    let selector = scraper::Selector::parse(selector).ok()?;
    let document = scraper::Html::parse_document(html);
    let mut values = Vec::new();
    for element in document.select(&selector) {
        values.push(element.attr(attribute).map(String::from));
    }
    Some(values)
}

fn contains_name(names: &Vec<String>, name: &str) -> (found: bool)
    ensures
        found == views(names@).contains(name@),
{
    let n: usize = names.len();
    let mut i: usize = 0;
    while i < n
        invariant
            i <= n,
            n == names.len(),
            forall|j: int| 0 <= j < i ==> views(names@)[j] != name@,
        decreases n - i,
    {
        if str_eq(names[i].as_str(), name) {
            assert(views(names@)[i as int] == name@);
            return true;
        }
        i = i + 1;
    }
    false
}

fn is_listed(entries: &Vec<VersionListing>, name: &str) -> (found: bool)
    ensures
        found == listing_names(entries@).contains(name@),
{
    let n: usize = entries.len();
    let mut i: usize = 0;
    while i < n
        invariant
            i <= n,
            n == entries.len(),
            forall|j: int| 0 <= j < i ==> listing_names(entries@)[j] != name@,
        decreases n - i,
    {
        if str_eq(entries[i].name.as_str(), name) {
            assert(listing_names(entries@)[i as int] == name@);
            return true;
        }
        i = i + 1;
    }
    false
}

/// The versions that the links of the archive page lead to. A link that
/// leads nowhere ends the listing.
pub fn link_versions(links: &Vec<Option<String>>) -> (r: Result<Vec<String>, ServerError>)
    ensures
        match r {
            Ok(names) => {
                &&& names@.len() == links@.len()
                &&& forall|i: int|
                    0 <= i < links@.len() ==> (#[trigger] links@[i]) is Some && names@[i]@
                        == link_version(links@[i]->0@)
            },
            Err(e) => {
                &&& exists|i: int| 0 <= i < links@.len() && (#[trigger] links@[i]) is None
                &&& e matches ServerError::DownloadError(text) && text@ == "no href present"@
            },
        },
{
    let mut names: Vec<String> = Vec::new();
    let n: usize = links.len();
    let mut i: usize = 0;
    while i < n
        invariant
            i <= n,
            n == links.len(),
            names@.len() == i,
            forall|j: int|
                0 <= j < i ==> (#[trigger] links@[j]) is Some && names@[j]@ == link_version(
                    links@[j]->0@,
                ),
        decreases n - i,
    {
        match &links[i] {
            None => {
                return Err(ServerError::DownloadError(String::from_str("no href present")));
            },
            Some(link) => {
                let mut pieces = split_on(link.as_str(), '/');
                proof {
                    lemma_split_nonempty(link@, '/');
                    assert(views(pieces@).last() == pieces@.last()@);
                }
                match pieces.pop() {
                    Some(last) => {
                        names.push(last);
                    },
                    None => {
                        names.push(String::new());
                    },
                }
            },
        }
        i = i + 1;
    }
    Ok(names)
}

/// Lists the versions of the cache and of the archive page: each once,
/// with where it was found.
pub fn list_versions(local: &Vec<String>, remote: &Vec<String>) -> (entries: Vec<VersionListing>)
    ensures
        lists_versions(entries@, views(local@), views(remote@)),
{
    broadcast use vstd::seq_lib::group_seq_properties;

    let mut entries: Vec<VersionListing> = Vec::new();
    let ghost here = views(local@);
    let ghost there = views(remote@);
    let n: usize = local.len();
    let mut i: usize = 0;
    while i < n
        invariant
            i <= n,
            n == local.len(),
            here == views(local@),
            there == views(remote@),
            listing_names(entries@).no_duplicates(),
            forall|k: int|
                0 <= k < entries@.len() ==> {
                    &&& (#[trigger] entries@[k]).available == there.contains(entries@[k].name@)
                    &&& entries@[k].downloaded
                    &&& here.contains(entries@[k].name@)
                },
            forall|j: int| 0 <= j < i ==> listing_names(entries@).contains(#[trigger] here[j]),
        decreases n - i,
    {
        let name = local[i].as_str();
        assert(here[i as int] == name@);
        if !is_listed(&entries, name) {
            let ghost before = entries@;
            let entry = VersionListing {
                name: String::from_str(name),
                available: contains_name(remote, name),
                downloaded: true,
            };
            entries.push(entry);
            assert(listing_names(entries@) =~= listing_names(before).push(name@));
            assert forall|j: int| 0 <= j < i implies listing_names(entries@).contains(
                #[trigger] here[j],
            ) by {
                let at = choose|at: int|
                    0 <= at < listing_names(before).len() && listing_names(before)[at] == here[j];
                assert(listing_names(entries@)[at] == here[j]);
            }
            assert(listing_names(entries@)[before.len() as int] == name@);
        }
        i = i + 1;
    }
    let m: usize = remote.len();
    let mut j: usize = 0;
    while j < m
        invariant
            j <= m,
            m == remote.len(),
            here == views(local@),
            there == views(remote@),
            listing_names(entries@).no_duplicates(),
            forall|k: int|
                0 <= k < entries@.len() ==> {
                    &&& (#[trigger] entries@[k]).available == there.contains(entries@[k].name@)
                    &&& entries@[k].downloaded == here.contains(entries@[k].name@)
                    &&& (entries@[k].available || entries@[k].downloaded)
                },
            forall|name: Seq<char>|
                here.contains(name) ==> #[trigger] listing_names(entries@).contains(name),
            forall|k: int| 0 <= k < j ==> listing_names(entries@).contains(#[trigger] there[k]),
        decreases m - j,
    {
        let name = remote[j].as_str();
        assert(there[j as int] == name@);
        if !is_listed(&entries, name) {
            let ghost before = entries@;
            let entry = VersionListing {
                name: String::from_str(name),
                available: true,
                downloaded: false,
            };
            entries.push(entry);
            assert(listing_names(entries@) =~= listing_names(before).push(name@));
            assert forall|other: Seq<char>| here.contains(other) implies #[trigger] listing_names(
                entries@,
            ).contains(other) by {
                assert(listing_names(before).contains(other));
                let at = choose|at: int|
                    0 <= at < listing_names(before).len() && listing_names(before)[at] == other;
                assert(listing_names(entries@)[at] == other);
            }
            assert forall|k: int| 0 <= k < j implies listing_names(entries@).contains(
                #[trigger] there[k],
            ) by {
                let at = choose|at: int|
                    0 <= at < listing_names(before).len() && listing_names(before)[at] == there[k];
                assert(listing_names(entries@)[at] == there[k]);
            }
            assert(listing_names(entries@)[before.len() as int] == name@);
        }
        j = j + 1;
    }
    assert forall|name: Seq<char>| here.contains(name) || there.contains(name) implies
        #[trigger] listing_names(entries@).contains(name) by {
        if !here.contains(name) {
            let k = choose|k: int| 0 <= k < there.len() && there[k] == name;
            assert(listing_names(entries@).contains(there[k]));
        }
    }
    entries
}

} // verus!
