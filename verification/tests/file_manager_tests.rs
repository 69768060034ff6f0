use switchlink::file_manager::{add_files, format_file_size, FileCandidate, GB, KB, MB};
use switchlink::registry::{FileEntry, FileRegistry};

fn file(path: &str, name: &str) -> FileCandidate {
    FileCandidate { path: path.to_string(), file_name: Some(name.to_string()), is_file: true }
}

fn entry(name: &str, path: &str) -> FileEntry {
    FileEntry { name: name.to_string(), path: path.to_string() }
}

#[test]
fn files_are_registered_under_their_names() {
    let mut registry = FileRegistry::new();
    let count = add_files(
        &mut registry,
        vec![file("/roms/a.nsp", "a.nsp"), file("/roms/sub/b.xci", "b.xci")],
    );
    assert_eq!(count, 2);
    assert_eq!(
        registry.snapshot(),
        vec![entry("a.nsp", "/roms/a.nsp"), entry("b.xci", "/roms/sub/b.xci")]
    );
}

#[test]
fn what_is_no_file_or_has_no_name_is_skipped() {
    let mut registry = FileRegistry::new();
    let count = add_files(
        &mut registry,
        vec![
            FileCandidate {
                path: "/roms".to_string(),
                file_name: Some("roms".to_string()),
                is_file: false,
            },
            FileCandidate { path: "/".to_string(), file_name: None, is_file: true },
            file("/roms/a.nsp", "a.nsp"),
            file("/roms/bad\nname", "bad\nname"),
        ],
    );
    assert_eq!(count, 1);
    assert_eq!(registry.snapshot(), vec![entry("a.nsp", "/roms/a.nsp")]);
}

#[test]
fn file_of_a_known_name_replaces_the_path_and_counts() {
    let mut registry = FileRegistry::new();
    registry.insert("a.nsp".to_string(), "/old/a.nsp".to_string()).unwrap();
    let count = add_files(
        &mut registry,
        vec![file("/new/a.nsp", "a.nsp"), file("/newer/a.nsp", "a.nsp")],
    );
    assert_eq!(count, 2);
    assert_eq!(registry.snapshot(), vec![entry("a.nsp", "/newer/a.nsp")]);
}

#[test]
fn no_candidates_change_nothing() {
    let mut registry = FileRegistry::new();
    registry.insert("a.nsp".to_string(), "/a.nsp".to_string()).unwrap();
    assert_eq!(add_files(&mut registry, vec![]), 0);
    assert_eq!(registry.len(), 1);
}

#[test]
fn units_are_binary() {
    assert_eq!(KB, 1024);
    assert_eq!(MB, 1024 * 1024);
    assert_eq!(GB, 1024 * 1024 * 1024);
}

#[test]
fn small_sizes_are_given_in_bytes() {
    assert_eq!(format_file_size(0), "0 B");
    assert_eq!(format_file_size(1), "1 B");
    assert_eq!(format_file_size(500), "500 B");
    assert_eq!(format_file_size(1023), "1023 B");
}

#[test]
fn larger_sizes_are_given_with_two_decimals() {
    assert_eq!(format_file_size(1024), "1.00 KB");
    assert_eq!(format_file_size(1536), "1.50 KB");
    assert_eq!(format_file_size(1000 * 1024), "1000.00 KB");
    assert_eq!(format_file_size(1024 * 1024 - 1), "1024.00 KB");
    assert_eq!(format_file_size(1024 * 1024), "1.00 MB");
    assert_eq!(format_file_size(5_000_000), "4.77 MB");
    assert_eq!(format_file_size(1024 * 1024 * 1024), "1.00 GB");
    assert_eq!(format_file_size(16_106_127_360), "15.00 GB");
    assert_eq!(format_file_size(3 * 1024 * 1024 * 1024 + 512 * 1024 * 1024), "3.50 GB");
}

#[test]
fn sizes_agree_with_floating_point_formatting() {
    for size in [
        1024u64,
        1025,
        1029,
        1030,
        1152,
        1408,
        2047,
        10_000,
        123_456,
        1_048_575,
        1_048_576,
        1_500_000,
        5_000_000,
        123_456_789,
        1_073_741_823,
        1_073_741_824,
        4_500_000_000,
        16_106_127_360,
        1_000_000_000_000,
        9_007_199_254_740_992,
        9_007_199_254_740_993,
        9_007_199_254_740_995,
        u64::MAX - 1024,
        u64::MAX,
    ] {
        let expected = if size >= GB {
            format!("{:.2} GB", size as f64 / GB as f64)
        } else if size >= MB {
            format!("{:.2} MB", size as f64 / MB as f64)
        } else {
            format!("{:.2} KB", size as f64 / KB as f64)
        };
        assert_eq!(format_file_size(size), expected);
    }
}

#[test]
fn ties_go_to_the_even_hundredth() {
    assert_eq!(format_file_size(1152), "1.12 KB");
    assert_eq!(format_file_size(1408), "1.38 KB");
}
