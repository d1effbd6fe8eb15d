use tri_spotify::format::FormatLabel;
use tri_spotify::select::{select_tiers, TierLabel};
use tri_spotify::store::{artifact_dir, artifact_file_name, artifact_path, is_valid_hash, store_jobs, StoreError};

#[test]
fn hash_validation() {
    assert!(is_valid_hash("abc-DEF_019"));
    assert!(!is_valid_hash(""));
    assert!(!is_valid_hash("../etc"));
    assert!(!is_valid_hash("a/b"));
    assert!(!is_valid_hash("h\u{e9}"));
}

#[test]
fn artifact_locations() {
    assert_eq!(artifact_dir("h1"), Ok("h1/spotify".to_string()));
    assert_eq!(artifact_dir(".."), Err(StoreError::InvalidHash));
    assert_eq!(artifact_file_name(TierLabel::Low, FormatLabel::OGG_VORBIS_96), "low.ogg");
    assert_eq!(artifact_path("h1", TierLabel::Best, FormatLabel::FLAC_FLAC), Ok("h1/spotify/best.flac".to_string()));
    assert_eq!(artifact_path("a b", TierLabel::Best, FormatLabel::FLAC_FLAC), Err(StoreError::InvalidHash));
}

#[test]
fn same_inputs_same_path() {
    let a = artifact_path("k", TierLabel::Medium, FormatLabel::MP3_160);
    let b = artifact_path("k", TierLabel::Medium, FormatLabel::MP3_160);
    assert_eq!(a, b);
    assert_eq!(a, Ok("k/spotify/medium.mp3".to_string()));
}

#[test]
fn jobs_for_assigned_tiers() {
    let r = select_tiers(&vec![FormatLabel::MP3_160, FormatLabel::AAC_24]);
    let jobs = store_jobs("x9", &r).unwrap();
    assert_eq!(jobs.len(), 2);
    assert_eq!(jobs[0].tier, TierLabel::Best);
    assert_eq!(jobs[0].format, FormatLabel::MP3_160);
    assert_eq!(jobs[0].path, "x9/spotify/best.mp3");
    assert_eq!(jobs[1].tier, TierLabel::Medium);
    assert_eq!(jobs[1].path, "x9/spotify/medium.aac");
    assert!(matches!(store_jobs("x/9", &r), Err(StoreError::InvalidHash)));
    assert_eq!(store_jobs("x9", &select_tiers(&vec![])).unwrap().len(), 0);
}
