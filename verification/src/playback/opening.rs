//! Opening a video: which playlist is played, and the player that plays it.

use crate::model::Quality;
use crate::playback::backend::{OxidePlayer, OxideView};
use crate::playback::decode_mode::DecodeMode;
use crate::playback::engine::{AudioLevels, OxidePlayback};
use crate::playback::hls;
use crate::playback::hls::{
    quality_set_from_variants, select_initial_quality_index, HlsQualitySet, HlsVariant,
};
use crate::video::{VideoPlatform, VideoSource};
use vstd::prelude::*;
use vstd::string::*;

verus! {

/// What a playlist turned out to be: media itself, or a choice of variants.
#[derive(Debug, PartialEq, Eq)]
pub enum HlsPlaylistInfo {
    Media { url: String },
    Master { variants: Vec<HlsVariant>, preferred_variant: usize },
}

/// What is to be opened: the qualities of a video, the one to start with, and whether its
/// playlist brings the audio along.
#[derive(Debug, PartialEq, Eq)]
pub struct Opening {
    pub set: HlsQualitySet,
    pub index: usize,
    pub include_audio: bool,
}

/// Whether the qualities are those of a playlist. A playlist of media is its own and only
/// quality; that of a choice are its playable variants.
pub open spec fn qualities_of(set: HlsQualitySet, playlist: HlsPlaylistInfo) -> bool {
    match playlist {
        HlsPlaylistInfo::Media { url } => {
            &&& set.qualities@.len() == 1
            &&& set.qualities@[0].id@ == "hls-media"@
            &&& set.qualities@[0].label@ == "HLS"@
            &&& set.urls@ == seq![url]
            &&& set.preferred_index == 0
        },
        HlsPlaylistInfo::Master { variants, preferred_variant } => {
            &&& hls::set_matches(set, variants@)
            &&& set.preferred_index == hls::preferred_position(
                variants@,
                preferred_variant as int,
            )
        },
    }
}

/// Why there is nothing to choose from, where that is so.
pub open spec fn inspection_error(inspected: Result<HlsPlaylistInfo, String>) -> Option<Seq<char>> {
    match inspected {
        Err(error) => Some("inspect HLS playlist qualities: "@ + error@),
        Ok(HlsPlaylistInfo::Media { .. }) => None,
        Ok(HlsPlaylistInfo::Master { variants, preferred_variant }) => if preferred_variant
            >= variants@.len() {
            Some("HLS preferred variant index is out of range"@)
        } else if hls::playable_positions(variants@).len() == 0 {
            Some("HLS master contains no video variants with a supported codec"@)
        } else {
            None
        },
    }
}

/// The qualities that an inspected playlist offers.
pub fn inspect_hls_qualities(inspected: Result<HlsPlaylistInfo, String>) -> (set: Result<
    HlsQualitySet,
    String,
>)
    ensures
        match set {
            Ok(set) => {
                &&& inspection_error(inspected) is None
                &&& qualities_of(set, inspected->Ok_0)
                &&& set.urls@.len() == set.qualities@.len()
                &&& set.preferred_index < set.qualities@.len()
            },
            Err(error) => inspection_error(inspected) == Some(error@),
        },
{
    match inspected {
        Err(error) => {
            let mut message = "inspect HLS playlist qualities: ".to_owned();
            message.append(error.as_str());
            Err(message)
        },
        Ok(HlsPlaylistInfo::Media { url }) => {
            let mut qualities: Vec<Quality> = Vec::new();
            qualities.push(Quality::new("hls-media", "HLS"));
            let mut urls: Vec<String> = Vec::new();
            urls.push(url);
            assert(urls@ =~= seq![url]);
            Ok(HlsQualitySet { qualities, urls, preferred_index: 0 })
        },
        Ok(HlsPlaylistInfo::Master { variants, preferred_variant }) => {
            quality_set_from_variants(&variants, preferred_variant)
        },
    }
}

/// Plans the opening of a video from its inspected playlist. The audio of YouTube stands in
/// a playlist of its own, so only the video is asked for there.
pub fn plan_opening(
    inspected: Result<HlsPlaylistInfo, String>,
    cancelled: bool,
    initial_qualities: &str,
    platform: VideoPlatform,
) -> (opening: Result<Opening, String>)
    ensures
        match opening {
            Ok(opening) => {
                &&& inspection_error(inspected) is None
                &&& !cancelled
                &&& qualities_of(opening.set, inspected->Ok_0)
                &&& opening.index == (match hls::favourite(
                    opening.set.qualities@,
                    initial_qualities@,
                ) {
                    Some(index) => index,
                    None => opening.set.preferred_index as int,
                })
                &&& opening.index < opening.set.qualities@.len()
                &&& opening.set.urls@.len() == opening.set.qualities@.len()
                &&& opening.include_audio == !(platform is YouTube)
            },
            Err(error) => match inspection_error(inspected) {
                Some(message) => error@ == message,
                None => cancelled && error@ == "OxideAV open cancelled after HLS inspection"@,
            },
        },
{
    match inspect_hls_qualities(inspected) {
        Err(error) => Err(error),
        Ok(set) => {
            if cancelled {
                return Err("OxideAV open cancelled after HLS inspection".to_owned());
            }
            let index = select_initial_quality_index(
                &set.qualities,
                set.preferred_index,
                initial_qualities,
            );
            let include_audio = match platform {
                VideoPlatform::YouTube => false,
                VideoPlatform::Twitch => true,
            };
            Ok(Opening { set, index, include_audio })
        },
    }
}

impl OxidePlayer {
    /// The player on a video that was just opened: at normal speed, which is the only one,
    /// and at full volume.
    pub fn open(
        source: VideoSource,
        master_url: String,
        opening: Opening,
        decode_mode: DecodeMode,
        muted: bool,
        engine: OxidePlayback,
    ) -> (player: Self)
        ensures
            player@ == (OxideView {
                source,
                engine: engine@,
                rate: 100,
                rates: seq![100u32],
                qualities: opening.set.qualities@,
                quality_urls: opening.set.urls@,
                quality_index: opening.index,
                master_url,
                decode_mode,
                muted,
                volume: 100,
                levels: AudioLevels {
                    preroll_ready: false,
                    queued_samples: 0,
                    target_samples: 0,
                    headroom_samples: 0,
                    minimum_headroom_samples: 0,
                },
                request: None,
            }),
    {
        let mut rates: Vec<u32> = Vec::new();
        rates.push(100);
        assert(rates@ =~= seq![100u32]);
        OxidePlayer {
            source,
            engine,
            rate: 100,
            rates,
            qualities: opening.set.qualities,
            quality_urls: opening.set.urls,
            quality_index: opening.index,
            master_url,
            decode_mode,
            muted,
            volume: 100,
            levels: AudioLevels {
                preroll_ready: false,
                queued_samples: 0,
                target_samples: 0,
                headroom_samples: 0,
                minimum_headroom_samples: 0,
            },
            request: None,
        }
    }
}

/// A playlist that could not be looked into, that prefers a variant it does not have, or that
/// has none that can be played is told of; every other can be opened.
pub proof fn playlists_without_a_video_are_told_of(
    error: String,
    url: String,
    variants: Vec<HlsVariant>,
    preferred: usize,
)
    ensures
        inspection_error(Err(error)) is Some,
        inspection_error(Ok(HlsPlaylistInfo::Media { url })) is None,
        inspection_error(
            Ok(HlsPlaylistInfo::Master { variants, preferred_variant: preferred }),
        ) is None <==> preferred < variants@.len() && hls::playable_positions(variants@).len() > 0,
{
}

} // verus!
