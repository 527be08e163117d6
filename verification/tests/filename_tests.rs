use snapchat_memories_downloader::filename::create_filename;
use snapchat_memories_downloader::record::Memory;

fn memory(date: &str, media_type: &str, link: &str) -> Memory {
    Memory {
        date: date.to_string(),
        media_type: media_type.to_string(),
        download_link: link.to_string(),
    }
}

#[test]
fn image_gets_jpg_extension() {
    let m = memory("2023:01:01", "image", "L1");
    assert_eq!(create_filename(&m, "out"), "out/Memory 2023-01-01.jpg");
}

#[test]
fn video_gets_mp4_extension() {
    let m = memory("2023:01:02", "video", "L2");
    assert_eq!(create_filename(&m, "out"), "out/Memory 2023-01-02.mp4");
}

#[test]
fn unrecognized_kind_gets_unknown_extension() {
    let m = memory("2023:01:03", "hologram", "L3");
    assert_eq!(create_filename(&m, "out"), "out/Memory 2023-01-03.unknown");
}

#[test]
fn kind_match_folds_case() {
    let m = memory("2023:01:04", "Image", "L4");
    assert_eq!(create_filename(&m, "out"), "out/Memory 2023-01-04.jpg");
    let v = memory("2023:01:04", "VIDEO", "L4");
    assert_eq!(create_filename(&v, "out"), "out/Memory 2023-01-04.mp4");
}

#[test]
fn every_colon_becomes_a_hyphen() {
    let m = memory("2023:12:31 23:59:59 UTC", "image", "L5");
    assert_eq!(
        create_filename(&m, "dir"),
        "dir/Memory 2023-12-31 23-59-59 UTC.jpg"
    );
}

#[test]
fn same_record_same_directory_same_path() {
    let m = memory("2023:05:06", "video", "L6");
    let first = create_filename(&m, "target");
    let second = create_filename(&m, "target");
    assert_eq!(first, second);
}

#[test]
fn records_differing_only_in_kind_do_not_collide() {
    let a = memory("2023:05:06", "image", "L7");
    let b = memory("2023:05:06", "video", "L7");
    assert_ne!(create_filename(&a, "target"), create_filename(&b, "target"));
}

#[test]
fn empty_directory_prefix() {
    let m = memory("2023:01:01", "image", "L8");
    assert_eq!(create_filename(&m, ""), "/Memory 2023-01-01.jpg");
}
