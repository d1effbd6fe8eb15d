use tri_spotify::format::{get_extension, FormatLabel};
use tri_spotify::select::{any_assigned, claim_format, default_policies, select, select_tiers, TierLabel, TierPolicy};

fn formats(r: &[tri_spotify::select::TierAssignment]) -> Vec<Option<FormatLabel>> {
    r.iter().map(|a| a.format).collect()
}

#[test]
fn only_lossy_160_goes_to_best() {
    let r = select_tiers(&vec![FormatLabel::MP3_160]);
    assert_eq!(r.len(), 3);
    assert_eq!(r[0].tier, TierLabel::Best);
    assert_eq!(r[1].tier, TierLabel::Medium);
    assert_eq!(r[2].tier, TierLabel::Low);
    assert_eq!(formats(&r), vec![Some(FormatLabel::MP3_160), None, None]);
}

#[test]
fn full_set_fills_each_tier_from_its_own_list() {
    let all = vec![
        FormatLabel::OGG_VORBIS_96,
        FormatLabel::OGG_VORBIS_160,
        FormatLabel::OGG_VORBIS_320,
        FormatLabel::MP3_256,
        FormatLabel::MP3_320,
        FormatLabel::MP3_160,
        FormatLabel::MP3_96,
        FormatLabel::MP3_160_ENC,
        FormatLabel::AAC_24,
        FormatLabel::AAC_48,
        FormatLabel::FLAC_FLAC,
        FormatLabel::XHE_AAC_24,
        FormatLabel::XHE_AAC_16,
        FormatLabel::XHE_AAC_12,
        FormatLabel::FLAC_FLAC_24BIT,
        FormatLabel::AAC_160,
        FormatLabel::AAC_320,
        FormatLabel::MP4_128,
        FormatLabel::OTHER5,
    ];
    let r = select_tiers(&all);
    assert_eq!(
        formats(&r),
        vec![Some(FormatLabel::FLAC_FLAC_24BIT), Some(FormatLabel::MP3_160), Some(FormatLabel::AAC_24)]
    );
}

#[test]
fn best_takes_highest_ranked_primary() {
    let r = select_tiers(&vec![FormatLabel::MP3_160, FormatLabel::MP3_320, FormatLabel::FLAC_FLAC]);
    assert_eq!(r[0].format, Some(FormatLabel::FLAC_FLAC));
    assert_eq!(r[1].format, Some(FormatLabel::MP3_160));
    assert_eq!(r[2].format, Some(FormatLabel::MP3_320));
}

#[test]
fn shared_format_is_claimed_once() {
    let r = select_tiers(&vec![FormatLabel::OGG_VORBIS_320, FormatLabel::MP3_256]);
    assert_eq!(formats(&r), vec![Some(FormatLabel::MP3_256), Some(FormatLabel::OGG_VORBIS_320), None]);
}

#[test]
fn medium_band_only_spreads_over_tiers() {
    let r = select_tiers(&vec![FormatLabel::XHE_AAC_24, FormatLabel::AAC_24]);
    assert_eq!(formats(&r), vec![Some(FormatLabel::AAC_24), Some(FormatLabel::XHE_AAC_24), None]);
    let picked: Vec<FormatLabel> = r.iter().filter_map(|a| a.format).collect();
    assert_ne!(picked[0], picked[1]);
}

#[test]
fn low_only_format_still_assigned() {
    let r = select_tiers(&vec![FormatLabel::OGG_VORBIS_96]);
    assert!(any_assigned(&r));
    assert_eq!(r[0].format, Some(FormatLabel::OGG_VORBIS_96));
}

#[test]
fn unranked_or_empty_sets_assign_nothing() {
    let r = select_tiers(&vec![FormatLabel::AAC_160, FormatLabel::OTHER5]);
    assert_eq!(formats(&r), vec![None, None, None]);
    assert!(!any_assigned(&r));
    let r = select_tiers(&vec![]);
    assert!(!any_assigned(&r));
}

#[test]
fn duplicates_in_offer_are_one_variant() {
    let r = select_tiers(&vec![FormatLabel::MP3_96, FormatLabel::MP3_96]);
    assert_eq!(formats(&r), vec![Some(FormatLabel::MP3_96), None, None]);
}

#[test]
fn custom_policies_follow_their_order() {
    let policies = vec![
        TierPolicy { tier: TierLabel::Low, prefs: vec![FormatLabel::MP3_96, FormatLabel::MP3_320] },
        TierPolicy { tier: TierLabel::Best, prefs: vec![FormatLabel::MP3_96, FormatLabel::MP3_320] },
        TierPolicy { tier: TierLabel::Medium, prefs: vec![FormatLabel::MP3_96] },
    ];
    let r = select(&vec![FormatLabel::MP3_320, FormatLabel::MP3_96], &policies);
    assert_eq!(r[0].tier, TierLabel::Low);
    assert_eq!(formats(&r), vec![Some(FormatLabel::MP3_96), Some(FormatLabel::MP3_320), None]);
}

#[test]
fn claim_skips_used_formats() {
    let mut used = vec![FormatLabel::FLAC_FLAC];
    let prefs = vec![FormatLabel::FLAC_FLAC, FormatLabel::MP3_320, FormatLabel::MP3_256];
    let avail = vec![FormatLabel::MP3_256, FormatLabel::FLAC_FLAC];
    assert_eq!(claim_format(&prefs, &avail, &mut used), Some(FormatLabel::MP3_256));
    assert_eq!(used, vec![FormatLabel::FLAC_FLAC, FormatLabel::MP3_256]);
    assert_eq!(claim_format(&prefs, &avail, &mut used), None);
    assert_eq!(used.len(), 2);
}

#[test]
fn default_policy_shape() {
    let p = default_policies();
    assert_eq!(p.len(), 3);
    assert_eq!(p[0].prefs.len(), 20);
    assert_eq!(p[0].prefs[0], FormatLabel::FLAC_FLAC_24BIT);
    assert_eq!(p[1].prefs[0], FormatLabel::MP3_160);
    assert_eq!(p[2].prefs[0], FormatLabel::AAC_24);
    assert_eq!(p[2].prefs[7], FormatLabel::MP3_160);
}

#[test]
fn extensions_by_family() {
    assert_eq!(get_extension(FormatLabel::FLAC_FLAC_24BIT), "flac");
    assert_eq!(get_extension(FormatLabel::MP3_160_ENC), "mp3");
    assert_eq!(get_extension(FormatLabel::XHE_AAC_12), "aac");
    assert_eq!(get_extension(FormatLabel::OGG_VORBIS_160), "ogg");
    assert_eq!(get_extension(FormatLabel::MP4_128), "mp4");
    assert_eq!(get_extension(FormatLabel::OTHER5), "dat");
    assert_eq!(TierLabel::Medium.name(), "medium");
}
