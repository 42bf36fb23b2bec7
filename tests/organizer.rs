use chrono::TimeZone;
use media_renamer::arguments::{image_strategy, parse, video_strategy, ArgumentProblem, Args, NamingStrategy};
use media_renamer::calendar::{canonical_name, is_valid_date, LocalDateTime};
use media_renamer::media::{classify, get_valid_image_extension, get_valid_video_extension, has_valid_extension, MediaKind};
use media_renamer::naming::{
    first_capture_text, local_time_new_path, ExifEntry, capture_modified_time, get_image_created_on_date, last_modified_new_path, metadata_new_path,
    plan_transfer, use_last_modified_to_generate_new_path, use_metadata_to_generate_new_path, Step,
};
use media_renamer::organize::{canonical_date_time, modified_time_for, move_destination};
use media_renamer::paths::{
    generate_complete_path, get_file_extension, get_file_name, get_file_name_without_extension,
    get_parent_dir, with_file_name,
};
use media_renamer::pattern::{get_date_time_formatted_name, image_patterns, rename_file_using_regex, video_patterns};

fn dt(year: i32, month: u32, day: u32, hour: u32, minute: u32, second: u32) -> LocalDateTime {
    LocalDateTime { year, month, day, hour, minute, second }
}

fn args() -> Args {
    Args {
        source_dir: ".".to_string(),
        rename_images: false,
        rename_videos: false,
        use_file_name: false,
        use_last_modified: false,
        use_image_properties: false,
        move_files: false,
        update_last_modified: false,
        change_last_modified: false,
    }
}

/// A little-endian TIFF whose Exif directory holds DateTimeOriginal.
fn tiff_with_capture_time(text: &str) -> Vec<u8> {
    let mut b: Vec<u8> = vec![0x49, 0x49, 0x2A, 0x00, 0x08, 0x00, 0x00, 0x00];
    b.extend_from_slice(&[0x01, 0x00, 0x69, 0x87, 0x04, 0x00, 0x01, 0x00, 0x00, 0x00, 0x1A, 0x00, 0x00, 0x00]);
    b.extend_from_slice(&[0x00, 0x00, 0x00, 0x00]);
    b.extend_from_slice(&[0x01, 0x00, 0x03, 0x90, 0x02, 0x00, 0x14, 0x00, 0x00, 0x00, 0x2C, 0x00, 0x00, 0x00]);
    b.extend_from_slice(&[0x00, 0x00, 0x00, 0x00]);
    b.extend_from_slice(text.as_bytes());
    b.push(0);
    b
}

#[test]
fn file_name_parts() {
    assert_eq!(get_file_name("photos/IMG_1.JPG"), Some("IMG_1.JPG".to_string()));
    assert_eq!(get_file_name("photos/.."), None);
    assert_eq!(get_file_name("photos/"), Some("photos".to_string()));
    assert_eq!(get_file_name("a/b.jpg/"), Some("b.jpg".to_string()));
    assert_eq!(get_file_name("a/b.jpg/."), Some("b.jpg".to_string()));
    assert_eq!(get_file_name("."), None);
    assert_eq!(get_file_name("/"), None);
    assert_eq!(get_file_name("a/.."), None);
    assert_eq!(get_file_extension("photos/IMG_1.JPG"), Some("jpg".to_string()));
    assert_eq!(get_file_extension("photos/.hidden"), None);
    assert_eq!(get_file_extension("photos/plain"), None);
    assert_eq!(get_file_name_without_extension("a/b.c.jpg"), Some("b.c".to_string()));
    assert_eq!(get_file_name_without_extension("a/plain"), None);
    assert_eq!(get_parent_dir("a/b/c.jpg"), Some("a/b".to_string()));
    assert_eq!(get_parent_dir("/c.jpg"), Some("/".to_string()));
    assert_eq!(get_parent_dir("c.jpg"), Some("".to_string()));
    assert_eq!(get_parent_dir("a//c.jpg"), Some("a".to_string()));
    assert_eq!(get_parent_dir("a/./c.jpg/"), Some("a".to_string()));
    assert_eq!(get_parent_dir("./c.jpg"), Some(".".to_string()));
    assert_eq!(get_parent_dir("/"), None);
}

#[test]
fn path_building() {
    assert_eq!(with_file_name("a/b/x.jpg", "y.jpg"), "a/b/y.jpg");
    assert_eq!(with_file_name("x.jpg", "y.jpg"), "y.jpg");
    assert_eq!(with_file_name("a//b/x.jpg/", "y.jpg"), "a//b/y.jpg");
    assert_eq!(generate_complete_path("/src", "2023", "07", "f.png"), "/src/2023/07/f.png");
    assert_eq!(generate_complete_path("/src/", "2023", "07", "f.png"), "/src/2023/07/f.png");
}

#[test]
fn extension_classifier() {
    assert_eq!(classify("a/b.jpg"), MediaKind::Image);
    assert_eq!(classify("a/b.JPEG"), MediaKind::Image);
    assert_eq!(classify("a/b.avif"), MediaKind::Image);
    assert_eq!(classify("a/b.webp"), MediaKind::Image);
    assert_eq!(classify("a/b.gif"), MediaKind::Image);
    assert_eq!(classify("a/b.mp4"), MediaKind::Video);
    assert_eq!(classify("a/b.MP4"), MediaKind::Video);
    assert_eq!(classify("a/b.txt"), MediaKind::Unrecognized);
    assert_eq!(classify("a/jpg"), MediaKind::Unrecognized);
    assert_eq!(get_valid_image_extension("a/b.PNG"), Some("PNG".to_string()));
    assert_eq!(get_valid_image_extension("a/b.jpeg"), Some("jpeg".to_string()));
    assert_eq!(get_valid_image_extension("a/b.mp4"), None);
    assert_eq!(get_valid_video_extension("a/b.mp4"), Some("mp4".to_string()));
    assert_eq!(get_valid_video_extension("a/b.Mp4"), Some("Mp4".to_string()));
    assert_eq!(get_valid_video_extension("a/b.jpg"), None);
    assert!(has_valid_extension("a/b.png"));
    assert!(!has_valid_extension("a/b.mov"));
}

#[test]
fn image_pattern_renaming() {
    let pats = image_patterns();
    assert_eq!(
        rename_file_using_regex("photos/IMG_20230401_120000.jpg", &pats),
        Some("photos/2023-04-01 12.00.00.jpg".to_string())
    );
    assert_eq!(
        rename_file_using_regex("IMG_20230401_120000.jpg", &pats),
        Some("2023-04-01 12.00.00.jpg".to_string())
    );
}

#[test]
fn image_burst_variant_drops_suffix() {
    let pats = image_patterns();
    assert_eq!(
        get_date_time_formatted_name("p/IMG_20221231_235959~3.jpg", &pats),
        Some("2022-12-31 23.59.59.jpg".to_string())
    );
    assert_eq!(rename_file_using_regex("p/IMG_2023.jpg", &pats), None);
    assert_eq!(rename_file_using_regex("p/holiday.jpg", &pats), None);
}

#[test]
fn video_pattern_renaming() {
    let pats = video_patterns();
    assert_eq!(
        rename_file_using_regex("v/VID_20230401_120000_HSR_001.mp4", &pats),
        Some("v/2023-04-01 12.00.00.mp4".to_string())
    );
    assert_eq!(
        rename_file_using_regex("v/VID_20230401_120000.mp4", &pats),
        Some("v/2023-04-01 12.00.00.mp4".to_string())
    );
    assert_eq!(rename_file_using_regex("v/IMG_20230401_120000.jpg", &pats), None);
}

#[test]
fn mover_destination() {
    assert_eq!(
        move_destination("/src/2023-07-15 09.30.00.png"),
        Some("/src/2023/07/2023-07-15 09.30.00.png".to_string())
    );
    assert_eq!(
        move_destination("src/2021-01-02 03.04.05.mp4"),
        Some("src/2021/01/2021-01-02 03.04.05.mp4".to_string())
    );
    assert_eq!(move_destination("/src/2023-07-15 09.30.00.txt"), None);
    assert_eq!(move_destination("/src/holiday.png"), None);
}

#[test]
fn timestamp_rewrite() {
    assert_eq!(modified_time_for("/src/2023-07-15 09.30.00.png"), Some(1689413400 - 19800));
    assert_eq!(modified_time_for("/src/1969-12-31 23.59.59.jpg"), Some(-1 - 19800));
    assert_eq!(modified_time_for("/src/0000-03-01 00.00.00.jpg"), Some(-62162035200 - 19800));
    let expected = chrono::NaiveDate::from_ymd_opt(2020, 2, 29)
        .unwrap()
        .and_hms_opt(23, 59, 58)
        .unwrap()
        .and_utc()
        .timestamp();
    assert_eq!(modified_time_for("/src/2020-02-29 23.59.58.jpg"), Some(expected - 19800));
    assert_eq!(
        canonical_date_time("/src/2023-07-15 09.30.00.png"),
        Some(dt(2023, 7, 15, 9, 30, 0))
    );
}

#[test]
fn timestamp_rewrite_skips_invalid_dates() {
    assert_eq!(modified_time_for("/src/2023-02-29 09.30.00.png"), None);
    assert_eq!(modified_time_for("/src/2023-07-32 09.30.00.png"), None);
    assert_eq!(modified_time_for("/src/2023-07-15 24.30.00.png"), None);
    assert_eq!(modified_time_for("/src/2023-07-15 09.30.00.txt"), None);
    assert_eq!(modified_time_for("/src/holiday.png"), None);
}

#[test]
fn calendar_checks() {
    assert!(is_valid_date(2024, 2, 29));
    assert!(!is_valid_date(2023, 2, 29));
    assert!(is_valid_date(2000, 2, 29));
    assert!(!is_valid_date(1900, 2, 29));
    assert!(!is_valid_date(2023, 4, 31));
    assert!(!is_valid_date(2023, 13, 1));
}

#[test]
fn canonical_name_format() {
    assert_eq!(canonical_name(&dt(2023, 4, 1, 12, 0, 0), "jpg"), "2023-04-01 12.00.00.jpg");
    assert_eq!(canonical_name(&dt(987, 10, 9, 8, 7, 6), "png"), "0987-10-09 08.07.06.png");
    assert_eq!(canonical_name(&dt(12345, 1, 1, 0, 0, 0), "mp4"), "+12345-01-01 00.00.00.mp4");
    assert_eq!(canonical_name(&dt(-5, 1, 1, 0, 0, 0), "mp4"), "-0005-01-01 00.00.00.mp4");
}

#[test]
fn last_modified_naming() {
    assert_eq!(
        use_last_modified_to_generate_new_path("d/x.JPG", &dt(2023, 4, 1, 12, 0, 0)),
        Some("d/2023-04-01 12.00.00.jpg".to_string())
    );
    assert_eq!(use_last_modified_to_generate_new_path("d/x", &dt(2023, 4, 1, 12, 0, 0)), None);
    let local = chrono::Local.timestamp_opt(1689413400, 0).single().unwrap();
    let expected = format!("d/{}.mp4", local.format("%Y-%m-%d %H.%M.%S"));
    assert_eq!(last_modified_new_path("d/v.mp4", 1689413400), Some(expected));
    assert_eq!(last_modified_new_path("d/v", 1689413400), None);
}

#[test]
fn metadata_naming() {
    let data = tiff_with_capture_time("2023:04:01 12:00:00");
    assert_eq!(get_image_created_on_date(&data), Some(dt(2023, 4, 1, 12, 0, 0)));
    assert_eq!(
        metadata_new_path("p/photo.JPG", &data),
        Some("p/2023-04-01 12.00.00.jpg".to_string())
    );
}

#[test]
fn metadata_absent_is_no_decision() {
    assert_eq!(get_image_created_on_date(&vec![1, 2, 3]), None);
    assert_eq!(metadata_new_path("p/photo.jpg", &vec![0xFF, 0xD8, 0xFF, 0xD9]), None);
    assert_eq!(use_metadata_to_generate_new_path("p/photo.jpg", None), None);
    let bad = tiff_with_capture_time("2023:13:01 12:00:00");
    assert_eq!(get_image_created_on_date(&bad), None);
}

#[test]
fn capture_time_as_modified_time() {
    let capture = dt(2023, 4, 1, 12, 0, 0);
    assert_eq!(capture_modified_time(&capture, false, false), None);
    assert_eq!(capture_modified_time(&capture, true, true), None);
    let naive = chrono::NaiveDate::from_ymd_opt(2023, 4, 1).unwrap().and_hms_opt(12, 0, 0).unwrap();
    let expected = chrono::Local.from_local_datetime(&naive).single().map(|t| t.timestamp());
    assert_eq!(capture_modified_time(&capture, true, false), expected);
}

#[test]
fn existing_target_is_skipped() {
    assert_eq!(plan_transfer("a/x.jpg", Some("a/y.jpg".to_string()), true), Step::Skip);
    assert_eq!(
        plan_transfer("a/x.jpg", Some("a/y.jpg".to_string()), false),
        Step::MoveTo("a/y.jpg".to_string())
    );
    assert_eq!(plan_transfer("a/x.jpg", None, false), Step::Skip);
}

#[test]
fn unrecognized_files_untouched() {
    assert_eq!(plan_transfer("a/x.txt", Some("a/y.txt".to_string()), false), Step::Skip);
    assert_eq!(move_destination("a/2023-07-15 09.30.00.doc"), None);
    assert_eq!(modified_time_for("a/2023-07-15 09.30.00.doc"), None);
}

#[test]
fn argument_validation() {
    let e = parse(args()).unwrap_err();
    assert_eq!(e.problem, ArgumentProblem::NoAction);
    assert!(e.message.starts_with("Kindly use at least one argument from below"));

    let mut a = args();
    a.rename_videos = true;
    let e = parse(a.clone()).unwrap_err();
    assert_eq!(e.problem, ArgumentProblem::NoVideoStrategy);
    assert_eq!(e.message, "Kindly use --use-last-modified or --use-file-name along with --rename-videos");
    a.use_file_name = true;
    a.use_last_modified = true;
    assert_eq!(parse(a.clone()).unwrap_err().problem, ArgumentProblem::ManyVideoStrategies);
    a.use_last_modified = false;
    assert!(parse(a).is_ok());

    let mut b = args();
    b.rename_images = true;
    assert_eq!(parse(b.clone()).unwrap_err().problem, ArgumentProblem::NoImageStrategy);
    b.use_image_properties = true;
    b.use_file_name = true;
    assert_eq!(parse(b.clone()).unwrap_err().problem, ArgumentProblem::ManyImageStrategies);
    b.use_file_name = false;
    let ok = parse(b).unwrap();
    assert!(ok.use_image_properties);

    let mut c = args();
    c.move_files = true;
    assert!(parse(c).is_ok());
}

#[test]
fn strategy_choice() {
    let mut a = args();
    a.use_file_name = true;
    assert_eq!(image_strategy(&a), Some(NamingStrategy::ByFileNamePattern));
    assert_eq!(video_strategy(&a), Some(NamingStrategy::ByFileNamePattern));
    a.use_image_properties = true;
    assert_eq!(image_strategy(&a), Some(NamingStrategy::ByImageProperties));
    assert_eq!(video_strategy(&a), Some(NamingStrategy::ByFileNamePattern));
    a.use_last_modified = true;
    assert_eq!(video_strategy(&a), Some(NamingStrategy::ByLastModified));
    assert_eq!(video_strategy(&args()), None);
}

fn entry(context: u8, number: u16, ifd: u16, text: &str) -> ExifEntry {
    ExifEntry { context, number, ifd, text: text.to_string() }
}

#[test]
fn first_capture_field_wins() {
    let entries = vec![
        entry(0, 0x9003, 0, "tiff context"),
        entry(1, 0x9003, 1, "thumbnail"),
        entry(1, 0x9003, 0, "2021-01-01 00:00:00"),
        entry(1, 0x9003, 0, "2022-02-02 00:00:00"),
    ];
    assert_eq!(first_capture_text(&entries), Some("2021-01-01 00:00:00".to_string()));
    assert_eq!(first_capture_text(&entries[..2].to_vec()), None);
    assert_eq!(first_capture_text(&vec![]), None);
}

#[test]
fn local_time_naming() {
    assert_eq!(
        local_time_new_path("d/x.PNG", Some(dt(2023, 4, 1, 12, 0, 0))),
        Some("d/2023-04-01 12.00.00.png".to_string())
    );
    assert_eq!(local_time_new_path("d/x.png", Some(dt(262143, 1, 1, 0, 0, 0))), None);
    assert_eq!(local_time_new_path("d/x.png", Some(dt(2023, 2, 29, 0, 0, 0))), None);
    assert_eq!(local_time_new_path("d/x.png", None), None);
}
