use everything_browser::file_result::{make_type_label, FileResult, SizeUnit};

fn entry(size: u64, modified_time: u64) -> FileResult {
    let mut e = FileResult::from_path("/data/a.txt");
    e.size = size;
    e.modified_time = modified_time;
    e
}

#[test]
fn from_path_with_extension() {
    let e = FileResult::from_path("/home/user/photo.png");
    assert_eq!(e.path, "/home/user/photo.png");
    assert_eq!(e.name, "photo.png");
    assert_eq!(e.extension, "png");
    assert_eq!(e.file_type, "PNG File");
    assert_eq!(e.size, 0);
    assert_eq!(e.modified_time, 0);
}

#[test]
fn from_path_without_extension() {
    let e = FileResult::from_path("/home/user/README");
    assert_eq!(e.name, "README");
    assert_eq!(e.extension, "");
    assert_eq!(e.file_type, "File");
}

#[test]
fn from_path_without_file_name() {
    let e = FileResult::from_path("");
    assert_eq!(e.name, "Unknown");
    assert_eq!(e.extension, "");
    assert_eq!(e.file_type, "File");
    assert_eq!(e.path, "");
}

#[test]
fn from_path_uppercases_the_extension() {
    let e = FileResult::from_path("C:\\Users\\Example\\Documents\\File_000001.txt");
    assert_eq!(e.extension, "txt");
    assert_eq!(e.file_type, "TXT File");
}

#[test]
fn from_parts_uses_what_it_is_given() {
    let e = FileResult::from_parts("x/y.tar.gz", Some("y.tar.gz".to_string()), Some("gz".to_string()));
    assert_eq!(e.path, "x/y.tar.gz");
    assert_eq!(e.name, "y.tar.gz");
    assert_eq!(e.extension, "gz");
    assert_eq!(e.file_type, "GZ File");
    let f = FileResult::from_parts("x", None, None);
    assert_eq!(f.name, "Unknown");
    assert_eq!(f.extension, "");
    assert_eq!(f.file_type, "File");
}

#[test]
fn apply_metadata_fills_only_once() {
    let mut e = FileResult::from_path("/data/a.txt");
    assert!(e.needs_metadata());
    e.apply_metadata(2048, 1_700_000_000);
    assert_eq!(e.size, 2048);
    assert_eq!(e.modified_time, 1_700_000_000);
    assert!(!e.needs_metadata());
    e.apply_metadata(1, 2);
    assert_eq!(e.size, 2048);
    assert_eq!(e.modified_time, 1_700_000_000);
}

#[test]
fn size_unit_thresholds() {
    assert_eq!(entry(0, 0).size_unit(), SizeUnit::Unknown);
    assert_eq!(entry(1, 0).size_unit(), SizeUnit::Bytes);
    assert_eq!(entry(1024, 0).size_unit(), SizeUnit::Bytes);
    assert_eq!(entry(1025, 0).size_unit(), SizeUnit::Kilobytes);
    assert_eq!(entry(1024 * 1024, 0).size_unit(), SizeUnit::Kilobytes);
    assert_eq!(entry(1024 * 1024 + 1, 0).size_unit(), SizeUnit::Megabytes);
    assert_eq!(entry(1024 * 1024 * 1024, 0).size_unit(), SizeUnit::Megabytes);
    assert_eq!(entry(1024 * 1024 * 1024 + 1, 0).size_unit(), SizeUnit::Gigabytes);
    assert_eq!(entry(u64::MAX, 0).size_unit(), SizeUnit::Gigabytes);
}

#[test]
fn modified_time_not_loaded_is_empty() {
    assert_eq!(entry(5, 0).format_modified_time(1_700_000_000), "");
}

#[test]
fn modified_time_today_and_yesterday() {
    let m = 1_000_000;
    assert_eq!(entry(5, m).format_modified_time(m), "Today");
    assert_eq!(entry(5, m).format_modified_time(m + 86_399), "Today");
    assert_eq!(entry(5, m).format_modified_time(m + 86_400), "Yesterday");
    assert_eq!(entry(5, m).format_modified_time(m + 2 * 86_400 - 1), "Yesterday");
}

#[test]
fn modified_time_in_the_future_is_today() {
    assert_eq!(entry(5, 2_000_000).format_modified_time(1_000_000), "Today");
}

#[test]
fn modified_time_days_weeks_months() {
    let m = 1_000_000;
    assert_eq!(entry(5, m).format_modified_time(m + 2 * 86_400), "2 days ago");
    assert_eq!(entry(5, m).format_modified_time(m + 6 * 86_400), "6 days ago");
    assert_eq!(entry(5, m).format_modified_time(m + 7 * 86_400), "1 weeks ago");
    assert_eq!(entry(5, m).format_modified_time(m + 14 * 86_400), "2 weeks ago");
    assert_eq!(entry(5, m).format_modified_time(m + 29 * 86_400), "4 weeks ago");
    assert_eq!(entry(5, m).format_modified_time(m + 30 * 86_400), "1 months ago");
    assert_eq!(entry(5, m).format_modified_time(m + 60 * 86_400), "2 months ago");
    assert_eq!(entry(5, m).format_modified_time(m + 364 * 86_400), "12 months ago");
}

#[test]
fn modified_time_older_than_a_year_is_a_date() {
    let m = 1_000_000;
    assert_eq!(entry(5, m).format_modified_time(m + 365 * 86_400), "5/4/1971");
    assert_eq!(entry(5, 86_400).format_modified_time(86_400 + 400 * 86_400), "4/24/1971");
}

#[test]
fn type_label_from_extension_and_uppercase() {
    assert_eq!(make_type_label("", ""), "File");
    assert_eq!(make_type_label("png", "PNG"), "PNG File");
    assert_eq!(make_type_label("", "PNG"), "File");
    assert_eq!(make_type_label("png", "png"), "png File");
}
