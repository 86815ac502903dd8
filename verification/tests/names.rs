use desktop_snake::config::Config;
use desktop_snake::grid::Cell;
use desktop_snake::names::{
    append_decimal, cell_file_name, decoy_file_name, folder_name, is_render_file, is_stale,
    startup_file_names,
};

fn decimal_of(n: u32) -> String {
    let mut text = String::new();
    append_decimal(&mut text, n);
    text
}

#[test]
fn decimal_of_small_and_large_numbers() {
    assert_eq!(decimal_of(0), "0");
    assert_eq!(decimal_of(7), "7");
    assert_eq!(decimal_of(9), "9");
    assert_eq!(decimal_of(10), "10");
    assert_eq!(decimal_of(101), "101");
    assert_eq!(decimal_of(1234567890), "1234567890");
    assert_eq!(decimal_of(4294967295), "4294967295");
}

#[test]
fn decimal_is_appended_to_what_is_there() {
    let mut text = String::from("row ");
    append_decimal(&mut text, 42);
    assert_eq!(text, "row 42");
}

#[test]
fn decimal_agrees_with_std() {
    for n in (0..5000).chain([65535, 65536, 99999, 100000, 4294967294]) {
        assert_eq!(decimal_of(n), format!("{}", n));
    }
}

#[test]
fn cell_file_name_is_row_then_column() {
    assert_eq!(cell_file_name(Cell::new(2, 1)), "ds_p1-2.bmp");
    assert_eq!(cell_file_name(Cell::new(0, 0)), "ds_p0-0.bmp");
    assert_eq!(cell_file_name(Cell::new(12, 345)), "ds_p345-12.bmp");
}

#[test]
fn decoy_file_name_holds_index() {
    assert_eq!(decoy_file_name(0), "ds_o0.bmp");
    assert_eq!(decoy_file_name(17), "ds_o17.bmp");
}

#[test]
fn startup_writes_decoys_then_cells() {
    let names = startup_file_names(&Config::new(3, 2, 1));
    assert_eq!(
        names,
        vec![
            "ds_o0.bmp",
            "ds_p0-0.bmp",
            "ds_p0-1.bmp",
            "ds_p0-2.bmp",
            "ds_p1-0.bmp",
            "ds_p1-1.bmp",
            "ds_p1-2.bmp",
        ]
    );
    assert_eq!(names.iter().filter(|n| n.starts_with("ds_p")).count(), 3 * 2);
    assert_eq!(names.iter().filter(|n| n.starts_with("ds_o")).count(), 1);
}

#[test]
fn startup_without_cells_or_decoys() {
    assert!(startup_file_names(&Config::new(0, 5, 0)).is_empty());
    assert!(startup_file_names(&Config::new(5, 0, 0)).is_empty());
    assert_eq!(startup_file_names(&Config::new(0, 0, 2)), vec!["ds_o0.bmp", "ds_o1.bmp"]);
    assert_eq!(startup_file_names(&Config::new(1, 1, 0)), vec!["ds_p0-0.bmp"]);
}

#[test]
fn startup_names_are_all_different() {
    let names = startup_file_names(&Config::new(12, 11, 13));
    assert_eq!(names.len(), 12 * 11 + 13);
    let mut sorted = names.clone();
    sorted.sort();
    sorted.dedup();
    assert_eq!(sorted.len(), names.len());
}

#[test]
fn files_of_the_game_are_known_by_their_prefix() {
    assert!(is_render_file("ds_p1-2.bmp"));
    assert!(is_render_file("ds_o0.bmp"));
    assert!(is_render_file("ds_"));
    assert!(is_render_file("ds_anything at all"));
    assert!(!is_render_file(""));
    assert!(!is_render_file("ds"));
    assert!(!is_render_file("d_s"));
    assert!(!is_render_file("Ds_p1-2.bmp"));
    assert!(!is_render_file(" ds_p1-2.bmp"));
    assert!(!is_render_file("config.toml"));
    assert!(!is_render_file("\u{e9}s_"));
}

#[test]
fn every_startup_name_is_a_render_file() {
    for name in startup_file_names(&Config::new(4, 3, 2)) {
        assert!(is_render_file(&name));
    }
    assert!(is_render_file(&cell_file_name(Cell::new(4294967295, 4294967295))));
}

#[test]
fn folder_is_called_snake() {
    assert_eq!(folder_name(), "snake");
}

#[test]
fn only_files_of_the_game_are_stale() {
    assert!(is_stale(true, "ds_p0-0.bmp"));
    assert!(is_stale(true, "ds_o3.bmp"));
    assert!(!is_stale(false, "ds_p0-0.bmp"));
    assert!(!is_stale(true, "notes.txt"));
    assert!(!is_stale(false, "notes.txt"));
}
