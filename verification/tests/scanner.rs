use launch_handoff::scanner::{find_data_file, is_data_file};

fn arguments(list: &[&str]) -> Vec<String> {
    list.iter().map(|s| s.to_string()).collect()
}

fn std_answer(arg: &str) -> bool {
    let lower = arg.to_lowercase();
    lower.ends_with(".h5") || lower.ends_with(".hdf5") || lower.ends_with(".hdf")
}

#[test]
fn recognises_each_extension() {
    assert!(is_data_file("/data/scan.h5"));
    assert!(is_data_file("/data/scan.hdf5"));
    assert!(is_data_file("/data/scan.hdf"));
}

#[test]
fn recognises_upper_and_lower_case() {
    assert!(is_data_file("FOO.H5"));
    assert!(is_data_file("foo.h5"));
    assert!(is_data_file("Scan.HdF5"));
    assert!(is_data_file("C:\\Data\\RUN.HDF"));
}

#[test]
fn rejects_other_names() {
    assert!(!is_data_file("readme.txt"));
    assert!(!is_data_file(""));
    assert!(!is_data_file("h5"));
    assert!(!is_data_file("scan.h5x"));
    assert!(!is_data_file("scan.h5 "));
    assert!(!is_data_file("scan.hdf4"));
    assert!(!is_data_file("scan_h5"));
    assert!(!is_data_file(".h"));
}

#[test]
fn a_bare_extension_is_a_name() {
    assert!(is_data_file(".h5"));
    assert!(is_data_file(".HDF5"));
    assert!(is_data_file(".hdf"));
}

#[test]
fn counts_characters_not_bytes() {
    assert!(is_data_file("données/мера.h5"));
    assert!(is_data_file("日本語.HDF5"));
    assert!(!is_data_file("scan.h5é"));
    assert!(!is_data_file("é"));
}

#[test]
fn agrees_with_lower_casing_on_every_last_character() {
    let mut c: u32 = 0;
    while c <= 0x10FFFF {
        if let Some(ch) = char::from_u32(c) {
            let name = format!("scan.h{}", ch);
            assert_eq!(is_data_file(&name), std_answer(&name), "U+{:04X}", c);
            let name = format!("scan.hd{}", ch);
            assert_eq!(is_data_file(&name), std_answer(&name), "U+{:04X}", c);
        }
        c += 1;
    }
}

#[test]
fn agrees_with_lower_casing_on_every_inner_character() {
    let mut c: u32 = 0;
    while c <= 0x10FFFF {
        if let Some(ch) = char::from_u32(c) {
            let name = format!("scan.{}5", ch);
            assert_eq!(is_data_file(&name), std_answer(&name), "U+{:04X}", c);
            let name = format!("scan.h{}f", ch);
            assert_eq!(is_data_file(&name), std_answer(&name), "U+{:04X}", c);
            let name = format!("scan.{}df5", ch);
            assert_eq!(is_data_file(&name), std_answer(&name), "U+{:04X}", c);
        }
        c += 1;
    }
}

#[test]
fn agrees_with_lower_casing_on_every_character_before_the_extension() {
    let mut c: u32 = 0;
    while c <= 0x10FFFF {
        if let Some(ch) = char::from_u32(c) {
            let name = format!("scan{}h5", ch);
            assert_eq!(is_data_file(&name), std_answer(&name), "U+{:04X}", c);
            let name = format!("{}.hdf", ch);
            assert_eq!(is_data_file(&name), std_answer(&name), "U+{:04X}", c);
        }
        c += 1;
    }
}

#[test]
fn finds_nothing_without_arguments() {
    assert_eq!(find_data_file(&arguments(&[])), None);
    assert_eq!(find_data_file(&arguments(&["app.exe"])), None);
}

#[test]
fn finds_nothing_among_other_files() {
    assert_eq!(find_data_file(&arguments(&["app.exe", "readme.txt", "--verbose"])), None);
}

#[test]
fn finds_the_data_file_at_any_place() {
    assert_eq!(find_data_file(&arguments(&["app.exe", "/data/scan.h5"])), Some(1));
    assert_eq!(find_data_file(&arguments(&["app.exe", "--flag", "x.txt", "RUN.HDF5"])), Some(3));
}

#[test]
fn skips_the_name_of_the_executable() {
    assert_eq!(find_data_file(&arguments(&["viewer.h5"])), None);
    assert_eq!(find_data_file(&arguments(&["viewer.h5", "notes.txt"])), None);
    assert_eq!(find_data_file(&arguments(&["viewer.h5", "notes.txt", "b.hdf"])), Some(2));
}

#[test]
fn finds_the_first_of_several() {
    assert_eq!(find_data_file(&arguments(&["app.exe", "a.txt", "B.H5", "c.h5", "d.hdf"])), Some(2));
}
