//! The mod portal: what its answers hold and how it is asked.

use crate::text::{chain, decimal, decimal_string, join, join_with, views};
use vstd::prelude::*;
use vstd::string::*;

verus! {

broadcast use vstd::string::group_string_axioms;

/// Where the portal lists mods.
pub const MOD_LIST_URL: &'static str = "https://mods.factorio.com/api/mods";

/// What a list of mods is sorted by.
#[allow(non_camel_case_types)]
#[derive(Debug, Clone, Copy, PartialEq, Eq, Structural)]
pub enum Sort {
    name,
    created_at,
    updated_at,
}

impl Default for Sort {
    fn default() -> (sort: Self)
        ensures
            sort == Sort::name,
    {
        Sort::name
    }
}

/// The direction of a sort.
#[allow(non_camel_case_types)]
#[derive(Debug, Clone, Copy, PartialEq, Eq, Structural)]
pub enum SortOrder {
    ascending,
    descending,
}

impl Default for SortOrder {
    fn default() -> (order: Self)
        ensures
            order == SortOrder::ascending,
    {
        SortOrder::ascending
    }
}

/// The engine versions that the portal can list mods for.
#[allow(non_camel_case_types)]
#[derive(Debug, Clone, Copy, PartialEq, Eq, Structural)]
pub enum Version {
    version_0_13,
    version_0_14,
    version_0_15,
    version_0_16,
    version_0_17,
    version_0_18,
    version_1_0,
    version_1_1,
}

impl Default for Version {
    fn default() -> (version: Self)
        ensures
            version == Version::version_1_1,
    {
        Version::version_1_1
    }
}

/// What to ask the list of mods for. A `page_size` of `u32::MAX` asks for
/// everything on one page.
#[derive(Debug, PartialEq, Eq)]
pub struct ModListParameter {
    pub hide_deprecated: bool,
    pub page: u32,
    pub page_size: u32,
    pub sort: Sort,
    pub sort_order: SortOrder,
    pub namelist: Vec<String>,
    pub version: Version,
}

impl Default for ModListParameter {
    fn default() -> (parameter: Self)
        ensures
            parameter.hide_deprecated == false,
            parameter.page == 1,
            parameter.page_size == u32::MAX,
            parameter.sort == Sort::name,
            parameter.sort_order == SortOrder::ascending,
            parameter.namelist@ == Seq::<String>::empty(),
            parameter.version == Version::version_1_1,
    {
        ModListParameter {
            hide_deprecated: false,
            page: 1,
            page_size: u32::MAX,
            sort: Sort::default(),
            sort_order: SortOrder::default(),
            namelist: Vec::new(),
            version: Version::default(),
        }
    }
}

/// Where a page of a list lies among the pages.
#[derive(Debug, PartialEq, Eq)]
pub struct Pagination {
    pub count: u32,
    pub links: PaginationLinks,
    pub page: u32,
    pub page_size: u32,
    pub page_count: u32,
}

/// The neighbours of a page.
#[derive(Debug, PartialEq, Eq)]
pub struct PaginationLinks {
    pub first: Option<String>,
    pub prev: Option<String>,
    pub next: Option<String>,
    pub last: Option<String>,
}

/// One release of a mod.
#[derive(Debug, PartialEq, Eq)]
pub struct Release {
    pub download_url: String,
    pub file_name: String,
    pub released_at: String,
    pub version: String,
    pub sha1: String,
}

/// What a mod is about.
#[allow(non_camel_case_types)]
#[derive(Debug, Clone, Copy, PartialEq, Eq, Structural)]
pub enum Tag {
    transportation,
    logistics,
    combat,
    enemies,
    armor,
    environment,
    logistic_network,
    circuit_network,
    storage,
    power,
    manufacturing,
    blueprints,
    cheats,
    mining,
    fluids,
    trains,
}

/// The license of a mod.
#[derive(Debug, PartialEq, Eq)]
pub struct License {
    pub description: String,
    pub id: String,
    pub name: String,
    pub title: String,
    pub url: String,
}

/// The kind of a mod.
#[allow(non_camel_case_types)]
#[derive(Debug, Clone, Copy, PartialEq, Eq, Structural)]
pub enum Category {
    no_category,
    content,
    overhaul,
    tweaks,
    utilities,
    scenarios,
    mod_packs,
    localizations,
    internal,
}

/// How a sort key is written in a query.
pub open spec fn sort_text(sort: Sort) -> Seq<char> {
    match sort {
        Sort::name => "name"@,
        Sort::created_at => "created_at"@,
        Sort::updated_at => "updated_at"@,
    }
}

/// How a direction is written in a query.
pub open spec fn sort_order_text(order: SortOrder) -> Seq<char> {
    match order {
        SortOrder::ascending => "asc"@,
        SortOrder::descending => "desc"@,
    }
}

/// How an engine version is written in a query.
pub open spec fn version_text(version: Version) -> Seq<char> {
    match version {
        Version::version_0_13 => "0.13"@,
        Version::version_0_14 => "0.14"@,
        Version::version_0_15 => "0.15"@,
        Version::version_0_16 => "0.16"@,
        Version::version_0_17 => "0.17"@,
        Version::version_0_18 => "0.18"@,
        Version::version_1_0 => "1.0"@,
        Version::version_1_1 => "1.1"@,
    }
}

/// How a flag is written in a query.
pub open spec fn flag_text(flag: bool) -> Seq<char> {
    if flag {
        "true"@
    } else {
        "false"@
    }
}

/// How a page size is written in a query: `max` stands for the largest.
pub open spec fn page_size_text(page_size: u32) -> Seq<char> {
    if page_size == u32::MAX {
        "max"@
    } else {
        decimal(page_size as nat)
    }
}

/// The query that asks the portal for a list of mods: the names, joined by
/// commas, if any are given; then the other parameters in a fixed order.
pub open spec fn mod_list_query_spec(parameter: ModListParameter) -> Seq<(Seq<char>, Seq<char>)> {
    (if parameter.namelist@.len() > 0 {
        seq![("namelist"@, join(views(parameter.namelist@), ","@))]
    } else {
        Seq::empty()
    }) + seq![
        ("hide_deprecated"@, flag_text(parameter.hide_deprecated)),
        ("page"@, decimal(parameter.page as nat)),
        ("sort"@, sort_text(parameter.sort)),
        ("sort_order"@, sort_order_text(parameter.sort_order)),
        ("version"@, version_text(parameter.version)),
        ("page_size"@, page_size_text(parameter.page_size)),
    ]
}

/// The views of the pairs of a query.
pub open spec fn pair_views(pairs: Seq<(String, String)>) -> Seq<(Seq<char>, Seq<char>)> {
    pairs.map_values(|pair: (String, String)| (pair.0@, pair.1@))
}

fn push_pair(pairs: &mut Vec<(String, String)>, key: &str, value: &str)
    ensures
        pair_views(final(pairs)@) == pair_views(old(pairs)@).push((key@, value@)),
{
    pairs.push((String::from_str(key), String::from_str(value)));
    assert(pair_views(pairs@) =~= pair_views(old(pairs)@).push((key@, value@)));
}

/// The query that asks the portal for a list of mods.
pub fn mod_list_query(parameter: &ModListParameter) -> (pairs: Vec<(String, String)>)
    ensures
        pair_views(pairs@) == mod_list_query_spec(*parameter),
{
    let mut pairs: Vec<(String, String)> = Vec::new();
    assert(pair_views(pairs@) =~= Seq::<(Seq<char>, Seq<char>)>::empty());
    if parameter.namelist.len() > 0 {
        push_pair(&mut pairs, "namelist", join_with(&parameter.namelist, ",").as_str());
    }
    push_pair(
        &mut pairs,
        "hide_deprecated",
        if parameter.hide_deprecated {
            "true"
        } else {
            "false"
        },
    );
    push_pair(&mut pairs, "page", decimal_string(parameter.page as u64).as_str());
    push_pair(
        &mut pairs,
        "sort",
        match parameter.sort {
            Sort::name => "name",
            Sort::created_at => "created_at",
            Sort::updated_at => "updated_at",
        },
    );
    push_pair(
        &mut pairs,
        "sort_order",
        match parameter.sort_order {
            SortOrder::ascending => "asc",
            SortOrder::descending => "desc",
        },
    );
    push_pair(
        &mut pairs,
        "version",
        match parameter.version {
            Version::version_0_13 => "0.13",
            Version::version_0_14 => "0.14",
            Version::version_0_15 => "0.15",
            Version::version_0_16 => "0.16",
            Version::version_0_17 => "0.17",
            Version::version_0_18 => "0.18",
            Version::version_1_0 => "1.0",
            Version::version_1_1 => "1.1",
        },
    );
    if parameter.page_size == u32::MAX {
        push_pair(&mut pairs, "page_size", "max");
    } else {
        push_pair(&mut pairs, "page_size", decimal_string(parameter.page_size as u64).as_str());
    }
    assert(pair_views(pairs@) =~= mod_list_query_spec(*parameter));
    pairs
}

/// Where the portal describes the mod `mod_name`.
pub fn mod_url(mod_name: &str) -> (url: String)
    ensures
        url@ == "https://mods.factorio.com/api/mods/"@ + mod_name@,
{
    chain("https://mods.factorio.com/api/mods/", mod_name)
}

} // verus!
