use file_listing::config::ScanConfig;
use file_listing::scan::{FileEntry, Observation, Request, Scan, ScanError};

fn entry(is_file: bool, base_name: Option<&str>) -> Observation {
    Observation::Entry { is_file, base_name: base_name.map(str::to_string) }
}

fn line(filename: &str, size: u64) -> FileEntry {
    FileEntry { filename: filename.to_string(), size }
}

/// Drives a scan over a tree that can be read throughout, answering every
/// request as a faithful driver would.
fn scan_tree(config: &ScanConfig, tree: &[(bool, Option<&str>, u64)]) -> Vec<FileEntry> {
    let mut scan = Scan::new();
    assert_eq!(scan.request(), Request::NextEntry);
    for &(is_file, base_name, size) in tree {
        match scan.step(config, entry(is_file, base_name)) {
            Request::NextEntry => {}
            Request::FileSize => {
                assert_eq!(scan.step(config, Observation::Size(size)), Request::NextEntry)
            }
            other => panic!("unexpected request {other:?}"),
        }
    }
    assert_eq!(scan.step(config, Observation::WalkEnded), Request::Finish);
    scan.listing().expect("a finished scan has a listing").clone()
}

fn sorted(mut listing: Vec<FileEntry>) -> Vec<(String, u64)> {
    let mut lines: Vec<(String, u64)> =
        listing.drain(..).map(|entry| (entry.filename, entry.size)).collect();
    lines.sort();
    lines
}

#[test]
fn text_files_in_a_flat_directory() {
    let config = ScanConfig::new("root", r"\.txt$").unwrap();
    let tree = [(false, Some("root"), 4096), (true, Some("a.txt"), 10), (true, Some("b.log"), 5)];
    assert_eq!(scan_tree(&config, &tree), vec![line("a.txt", 10)]);
}

#[test]
fn nested_directory_is_searched() {
    let config = ScanConfig::new("root", "txt").unwrap();
    let tree = [(false, Some("root"), 4096), (false, Some("sub"), 4096), (true, Some("c.txt"), 3)];
    let listing = scan_tree(&config, &tree);
    assert!(listing.contains(&line("c.txt", 3)));
    assert_eq!(listing.len(), 1);
}

#[test]
fn empty_directory_gives_an_empty_listing() {
    let config = ScanConfig::new("root", "txt").unwrap();
    assert_eq!(scan_tree(&config, &[(false, Some("root"), 4096)]), vec![]);
    assert_eq!(scan_tree(&config, &[]), vec![]);
}

#[test]
fn no_matching_file_gives_an_empty_listing() {
    let config = ScanConfig::new("root", r"\.txt$").unwrap();
    let tree = [(false, Some("root"), 0), (true, Some("b.log"), 5), (true, Some("txt.md"), 7)];
    assert_eq!(scan_tree(&config, &tree), vec![]);
}

#[test]
fn empty_pattern_lists_every_file() {
    let config = ScanConfig::new("root", "").unwrap();
    let tree = [
        (false, Some("root"), 0),
        (true, Some("a.txt"), 10),
        (true, Some("b.log"), 5),
        (false, Some("sub"), 0),
        (true, Some("c"), 0),
    ];
    assert_eq!(scan_tree(&config, &tree), vec![line("a.txt", 10), line("b.log", 5), line("c", 0)]);
}

#[test]
fn directories_are_never_listed() {
    let config = ScanConfig::new("root", "txt").unwrap();
    let tree = [(false, Some("txt"), 4096), (false, Some("notes.txt"), 4096)];
    assert_eq!(scan_tree(&config, &tree), vec![]);
}

#[test]
fn entry_without_a_base_name_is_skipped() {
    let config = ScanConfig::new("root", "").unwrap();
    let mut scan = Scan::new();
    assert_eq!(scan.step(&config, entry(true, None)), Request::NextEntry);
    assert_eq!(scan.step(&config, Observation::WalkEnded), Request::Finish);
    assert_eq!(scan.listing(), Some(&vec![]));
}

#[test]
fn listing_keeps_traversal_order() {
    let config = ScanConfig::new("root", "^f").unwrap();
    let tree = [(true, Some("f3"), 3), (true, Some("f1"), 1), (true, Some("g"), 9), (true, Some("f2"), 2)];
    assert_eq!(scan_tree(&config, &tree), vec![line("f3", 3), line("f1", 1), line("f2", 2)]);
}

#[test]
fn each_match_is_listed_exactly_once() {
    let config = ScanConfig::new("root", r"\.txt$").unwrap();
    let tree = [
        (false, Some("root"), 0),
        (true, Some("a.txt"), 10),
        (false, Some("sub"), 0),
        (true, Some("a.txt"), 10),
        (true, Some("b.txt"), 0),
        (true, Some("a.log"), 10),
    ];
    let listing = scan_tree(&config, &tree);
    assert_eq!(listing.len(), 3);
    assert_eq!(listing.iter().filter(|entry| **entry == line("a.txt", 10)).count(), 2);
    assert_eq!(listing.iter().filter(|entry| **entry == line("b.txt", 0)).count(), 1);
}

#[test]
fn rescan_in_another_order_lists_the_same_lines() {
    let config = ScanConfig::new("root", "txt").unwrap();
    let first = [
        (false, Some("root"), 0),
        (true, Some("a.txt"), 10),
        (true, Some("b.log"), 5),
        (true, Some("c.txt"), 3),
    ];
    let second = [
        (true, Some("c.txt"), 3),
        (true, Some("b.log"), 5),
        (false, Some("root"), 0),
        (true, Some("a.txt"), 10),
    ];
    let one = scan_tree(&config, &first);
    assert_eq!(one, scan_tree(&config, &first));
    assert_eq!(sorted(one), sorted(scan_tree(&config, &second)));
}

#[test]
fn size_is_asked_only_for_selected_files() {
    let config = ScanConfig::new("root", r"\.txt$").unwrap();
    let mut scan = Scan::new();
    assert_eq!(scan.step(&config, entry(true, Some("b.log"))), Request::NextEntry);
    assert_eq!(scan.step(&config, entry(false, Some("d.txt"))), Request::NextEntry);
    assert_eq!(scan.step(&config, entry(true, Some("a.txt"))), Request::FileSize);
    assert_eq!(scan.request(), Request::FileSize);
    assert_eq!(scan.listing(), None);
    assert_eq!(scan.step(&config, Observation::Size(u64::MAX)), Request::NextEntry);
    assert_eq!(scan.step(&config, Observation::WalkEnded), Request::Finish);
    assert_eq!(scan.listing(), Some(&vec![line("a.txt", u64::MAX)]));
}

#[test]
fn unreadable_entry_fails_the_scan() {
    let config = ScanConfig::new("root", "txt").unwrap();
    let mut scan = Scan::new();
    assert_eq!(scan.step(&config, entry(true, Some("a.txt"))), Request::FileSize);
    assert_eq!(scan.step(&config, Observation::Size(10)), Request::NextEntry);
    assert_eq!(scan.step(&config, Observation::WalkFailed), Request::Abort(ScanError::Traversal));
    assert_eq!(scan.request(), Request::Abort(ScanError::Traversal));
    assert_eq!(scan.listing(), None);
}

#[test]
fn unreadable_size_fails_the_scan() {
    let config = ScanConfig::new("root", "txt").unwrap();
    let mut scan = Scan::new();
    assert_eq!(scan.step(&config, entry(true, Some("a.txt"))), Request::FileSize);
    assert_eq!(scan.step(&config, Observation::SizeFailed), Request::Abort(ScanError::Metadata));
    assert_eq!(scan.listing(), None);
}

#[test]
fn failed_scan_stays_failed() {
    let config = ScanConfig::new("root", "txt").unwrap();
    let mut scan = Scan::new();
    assert_eq!(scan.step(&config, Observation::WalkFailed), Request::Abort(ScanError::Traversal));
    for report in [
        entry(true, Some("a.txt")),
        Observation::Size(1),
        Observation::SizeFailed,
        Observation::WalkFailed,
        Observation::WalkEnded,
    ] {
        assert_eq!(scan.step(&config, report), Request::Abort(ScanError::Traversal));
        assert_eq!(scan.listing(), None);
    }
}

#[test]
fn finished_scan_stays_finished() {
    let config = ScanConfig::new("root", "txt").unwrap();
    let mut scan = Scan::new();
    assert_eq!(scan.step(&config, entry(true, Some("a.txt"))), Request::FileSize);
    assert_eq!(scan.step(&config, Observation::Size(10)), Request::NextEntry);
    assert_eq!(scan.step(&config, Observation::WalkEnded), Request::Finish);
    for report in [
        entry(true, Some("b.txt")),
        Observation::Size(1),
        Observation::SizeFailed,
        Observation::WalkFailed,
        Observation::WalkEnded,
    ] {
        assert_eq!(scan.step(&config, report), Request::Finish);
        assert_eq!(scan.listing(), Some(&vec![line("a.txt", 10)]));
    }
}

#[test]
fn report_that_answers_nothing_is_ignored() {
    let config = ScanConfig::new("root", "txt").unwrap();
    let mut scan = Scan::new();
    assert_eq!(scan.step(&config, Observation::Size(7)), Request::NextEntry);
    assert_eq!(scan.step(&config, Observation::SizeFailed), Request::NextEntry);
    assert_eq!(scan.step(&config, entry(true, Some("a.txt"))), Request::FileSize);
    assert_eq!(scan.step(&config, entry(true, Some("b.txt"))), Request::FileSize);
    assert_eq!(scan.step(&config, Observation::WalkEnded), Request::FileSize);
    assert_eq!(scan.step(&config, Observation::WalkFailed), Request::FileSize);
    assert_eq!(scan.step(&config, Observation::Size(10)), Request::NextEntry);
    assert_eq!(scan.step(&config, Observation::WalkEnded), Request::Finish);
    assert_eq!(scan.listing(), Some(&vec![line("a.txt", 10)]));
}
