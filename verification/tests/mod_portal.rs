use factorio_server::mod_portal::{
    mod_list_query, mod_url, ModListParameter, Sort, SortOrder, Version, MOD_LIST_URL,
};

fn pair(key: &str, value: &str) -> (String, String) {
    (key.to_string(), value.to_string())
}

#[test]
fn test_mod_list() {
    let parameter = ModListParameter::default();
    assert_eq!(MOD_LIST_URL, "https://mods.factorio.com/api/mods");
    assert_eq!(
        mod_list_query(&parameter),
        vec![
            pair("hide_deprecated", "false"),
            pair("page", "1"),
            pair("sort", "name"),
            pair("sort_order", "asc"),
            pair("version", "1.1"),
            pair("page_size", "max"),
        ]
    );
}

#[test]
fn the_default_parameter_asks_for_everything() {
    let parameter = ModListParameter::default();
    assert!(!parameter.hide_deprecated);
    assert_eq!(parameter.page, 1);
    assert_eq!(parameter.page_size, u32::MAX);
    assert_eq!(parameter.sort, Sort::name);
    assert_eq!(parameter.sort_order, SortOrder::ascending);
    assert!(parameter.namelist.is_empty());
    assert_eq!(parameter.version, Version::version_1_1);
    assert_eq!(Sort::default(), Sort::name);
    assert_eq!(SortOrder::default(), SortOrder::ascending);
    assert_eq!(Version::default(), Version::version_1_1);
}

#[test]
fn the_query_names_the_mods_first() {
    let parameter = ModListParameter {
        hide_deprecated: true,
        page: 3,
        page_size: 25,
        sort: Sort::updated_at,
        sort_order: SortOrder::descending,
        namelist: vec!["Bottleneck".to_string(), "flib".to_string()],
        version: Version::version_0_17,
    };
    assert_eq!(
        mod_list_query(&parameter),
        vec![
            pair("namelist", "Bottleneck,flib"),
            pair("hide_deprecated", "true"),
            pair("page", "3"),
            pair("sort", "updated_at"),
            pair("sort_order", "desc"),
            pair("version", "0.17"),
            pair("page_size", "25"),
        ]
    );
}

#[test]
fn every_engine_version_has_its_text() {
    let texts = [
        (Version::version_0_13, "0.13"),
        (Version::version_0_14, "0.14"),
        (Version::version_0_15, "0.15"),
        (Version::version_0_16, "0.16"),
        (Version::version_0_17, "0.17"),
        (Version::version_0_18, "0.18"),
        (Version::version_1_0, "1.0"),
        (Version::version_1_1, "1.1"),
    ];
    for (version, text) in texts {
        let parameter = ModListParameter { version, ..ModListParameter::default() };
        assert_eq!(mod_list_query(&parameter)[4], pair("version", text));
    }
    let parameter = ModListParameter { sort: Sort::created_at, ..ModListParameter::default() };
    assert_eq!(mod_list_query(&parameter)[2], pair("sort", "created_at"));
}

#[test]
fn a_mod_is_described_under_its_name() {
    assert_eq!(mod_url("Bottleneck"), "https://mods.factorio.com/api/mods/Bottleneck");
}
