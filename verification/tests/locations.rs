use itm_defmt::locations::{location_info, resolve, Location, Locations};

fn table() -> Locations {
    let mut table = Locations::new();
    table.insert(
        7,
        Location {
            file: "/work/app/src/main.rs".to_string(),
            line: 42,
            module: "app::main".to_string(),
        },
    );
    table.insert(
        8,
        Location {
            file: "/opt/registry/defmt/src/lib.rs".to_string(),
            line: 5_000_000_000,
            module: "defmt".to_string(),
        },
    );
    table
}

#[test]
fn disabled_table_resolves_to_nothing() {
    assert_eq!(location_info(&None, 7, "/work/app"), (None, None, None));
}

#[test]
fn path_under_the_directory_is_shown_relative() {
    assert_eq!(
        location_info(&Some(table()), 7, "/work/app"),
        (Some("src/main.rs".to_string()), Some(42), Some("app::main".to_string()))
    );
}

#[test]
fn path_outside_the_directory_is_shown_whole() {
    assert_eq!(
        location_info(&Some(table()), 8, "/work/app"),
        (
            Some("/opt/registry/defmt/src/lib.rs".to_string()),
            Some(5_000_000_000),
            Some("defmt".to_string())
        )
    );
}

#[test]
fn prefix_is_taken_by_components() {
    // "/work/ap" is a prefix of the text, not of the path.
    assert_eq!(
        location_info(&Some(table()), 7, "/work/ap").0,
        Some("/work/app/src/main.rs".to_string())
    );
    assert_eq!(location_info(&Some(table()), 7, "/work/").0, Some("app/src/main.rs".to_string()));
}

#[test]
fn directory_itself_is_shown_as_the_empty_path() {
    let mut table = Locations::new();
    table.insert(1, Location { file: "/work".to_string(), line: 1, module: "m".to_string() });
    assert_eq!(location_info(&Some(table), 1, "/work").0, Some(String::new()));
}

#[test]
fn index_that_the_table_lacks_resolves_to_nothing() {
    assert_eq!(resolve(&Some(table()), 9, "/work/app"), (None, None, None));
    assert_eq!(resolve(&Some(Locations::new()), 0, "/"), (None, None, None));
}

#[test]
fn index_that_the_table_holds_resolves_as_ever() {
    assert_eq!(resolve(&None, 7, "/work/app"), (None, None, None));
    assert_eq!(
        resolve(&Some(table()), 7, "/work/app"),
        location_info(&Some(table()), 7, "/work/app")
    );
    assert_eq!(
        resolve(&Some(table()), 8, "/opt"),
        (Some("registry/defmt/src/lib.rs".to_string()), Some(5_000_000_000), Some("defmt".to_string()))
    );
}
