//! Encoded audio formats and the file extension each one is stored under.

use vstd::prelude::*;

verus! {

/// One codec/bitrate encoding in which the streaming backend may offer a track.
#[allow(non_camel_case_types)]
#[derive(Clone, Copy, PartialEq, Eq, Structural, Debug, Hash)]
pub enum FormatLabel {
    OGG_VORBIS_96,
    OGG_VORBIS_160,
    OGG_VORBIS_320,
    MP3_256,
    MP3_320,
    MP3_160,
    MP3_96,
    MP3_160_ENC,
    AAC_24,
    AAC_48,
    FLAC_FLAC,
    XHE_AAC_24,
    XHE_AAC_16,
    XHE_AAC_12,
    FLAC_FLAC_24BIT,
    AAC_160,
    AAC_320,
    MP4_128,
    OTHER5,
}

/// The extension of the file that holds a variant of format `f`.
pub open spec fn extension_of(f: FormatLabel) -> Seq<char> {
    match f {
        FormatLabel::FLAC_FLAC | FormatLabel::FLAC_FLAC_24BIT => "flac"@,
        FormatLabel::MP3_96
        | FormatLabel::MP3_160
        | FormatLabel::MP3_160_ENC
        | FormatLabel::MP3_256
        | FormatLabel::MP3_320 => "mp3"@,
        FormatLabel::AAC_24
        | FormatLabel::AAC_48
        | FormatLabel::AAC_160
        | FormatLabel::AAC_320
        | FormatLabel::XHE_AAC_24
        | FormatLabel::XHE_AAC_16
        | FormatLabel::XHE_AAC_12 => "aac"@,
        FormatLabel::OGG_VORBIS_96
        | FormatLabel::OGG_VORBIS_160
        | FormatLabel::OGG_VORBIS_320 => "ogg"@,
        FormatLabel::MP4_128 => "mp4"@,
        FormatLabel::OTHER5 => "dat"@,
    }
}

/// File extension for a format: lossless formats are "flac", the MP3, AAC,
/// Vorbis and MP4 families "mp3", "aac", "ogg" and "mp4", the unknown one "dat".
pub fn get_extension(format: FormatLabel) -> (r: &'static str)
    ensures
        r@ == extension_of(format),
{
    match format {
        FormatLabel::FLAC_FLAC | FormatLabel::FLAC_FLAC_24BIT => "flac",
        FormatLabel::MP3_96
        | FormatLabel::MP3_160
        | FormatLabel::MP3_160_ENC
        | FormatLabel::MP3_256
        | FormatLabel::MP3_320 => "mp3",
        FormatLabel::AAC_24
        | FormatLabel::AAC_48
        | FormatLabel::AAC_160
        | FormatLabel::AAC_320
        | FormatLabel::XHE_AAC_24
        | FormatLabel::XHE_AAC_16
        | FormatLabel::XHE_AAC_12 => "aac",
        FormatLabel::OGG_VORBIS_96
        | FormatLabel::OGG_VORBIS_160
        | FormatLabel::OGG_VORBIS_320 => "ogg",
        FormatLabel::MP4_128 => "mp4",
        FormatLabel::OTHER5 => "dat",
    }
}

} // verus!
