//! Services that know a few fixed videos and keep positions in memory.

use crate::services;
use crate::services::{
    copy_positions, MetadataService, PositionService, Saved, SavedPosition, VideoMetadata,
};
use crate::time::Duration;
use crate::video;
use crate::video::{Video, VideoPlatform, VideoSource};
use vstd::prelude::*;

verus! {

#[derive(Debug, Default)]
pub struct DummyMetadataService;

/// What every video on a platform is called. The titles give away what a title should not.
pub open spec fn dummy_title(platform: VideoPlatform) -> Seq<char> {
    match platform {
        VideoPlatform::Twitch => "FIRST STAND - HLE VS CFO - Game 5 | Dummy Twitch VOD"@,
        VideoPlatform::YouTube => "GAM vs. DRX | Worlds Game 3 | Dummy YouTube video"@,
    }
}

impl MetadataService for DummyMetadataService {
    fn metadata_for(&self, source: &VideoSource) -> (metadata: VideoMetadata)
        ensures
            metadata.title@ == dummy_title(source.platform),
            metadata.release_age == Duration::of_secs(356_400),
    {
        let title = match source.platform {
            VideoPlatform::Twitch => "FIRST STAND - HLE VS CFO - Game 5 | Dummy Twitch VOD",
            VideoPlatform::YouTube => "GAM vs. DRX | Worlds Game 3 | Dummy YouTube video",
        };
        VideoMetadata {
            title: title.to_owned(),
            release_age: Duration::from_secs(4 * 24 * 3600 + 3 * 3600),
        }
    }
}

/// Keeps positions in memory, for everyone alike.
#[derive(Debug)]
pub struct DummyPositionService {
    positions: Vec<SavedPosition>,
}

/// Whether a position is that of a video on a device.
pub open spec fn is_entry(entry: Saved, device_id: Seq<char>, id: Seq<char>) -> bool {
    entry.device_id == device_id && entry.source.id == id
}

/// The first of the positions from `from` on that is that of a video on a device; their
/// number if none is.
pub open spec fn entry_index(
    positions: Seq<Saved>,
    device_id: Seq<char>,
    id: Seq<char>,
    from: int,
) -> int
    decreases positions.len() - from,
{
    if from < 0 || from >= positions.len() {
        positions.len() as int
    } else if is_entry(positions[from], device_id, id) {
        from
    } else {
        entry_index(positions, device_id, id, from + 1)
    }
}

/// The positions once one is saved: it takes the place of the one for the same video and
/// device, or comes first.
pub open spec fn with_saved(
    positions: Seq<Saved>,
    device_id: Seq<char>,
    source: Video,
    position: Duration,
) -> Seq<Saved> {
    let i = entry_index(positions, device_id, source.id, 0);
    if i < positions.len() {
        positions.update(
            i,
            Saved { position, modified_age: Duration { nanos: 0 }, ..positions[i] },
        )
    } else {
        positions.insert(
            0,
            Saved {
                source,
                device_id,
                position,
                modified_age: Duration { nanos: 0 },
                title: None,
                release_age: None,
            },
        )
    }
}

/// The positions that are there from the start.
pub open spec fn seeded_positions() -> Seq<Saved> {
    let stand = Video { id: "2386400830"@, platform: VideoPlatform::Twitch, start_time: None };
    let worlds = Video { id: "3fgD9k8Hkbc"@, platform: VideoPlatform::YouTube, start_time: None };
    seq![
        Saved {
            source: stand,
            device_id: "Phone"@,
            position: Duration::of_secs(6485),
            modified_age: Duration::of_secs(120),
            title: Some("HLE vs CFO | Game 5"@),
            release_age: Some(Duration::of_secs(345_600)),
        },
        Saved {
            source: stand,
            device_id: "Laptop"@,
            position: Duration::of_secs(5771),
            modified_age: Duration::of_secs(10_800),
            title: Some("HLE vs CFO | Game 5"@),
            release_age: Some(Duration::of_secs(345_600)),
        },
        Saved {
            source: worlds,
            device_id: "Desktop"@,
            position: Duration::of_secs(3120),
            modified_age: Duration::of_secs(172_800),
            title: Some("GAM vs. DRX | Worlds Game 3"@),
            release_age: Some(Duration::of_secs(1_036_800)),
        },
    ]
}

fn seed(
    id: &str,
    platform: VideoPlatform,
    device_id: &str,
    position: u64,
    modified_age: u64,
    title: &str,
    release_age: u64,
) -> (saved: SavedPosition)
    ensures
        saved@ == (Saved {
            source: Video { id: id@, platform, start_time: None },
            device_id: device_id@,
            position: Duration::of_secs(position),
            modified_age: Duration::of_secs(modified_age),
            title: Some(title@),
            release_age: Some(Duration::of_secs(release_age)),
        }),
{
    SavedPosition {
        source: VideoSource { id: id.to_owned(), platform, start_time: None },
        device_id: device_id.to_owned(),
        position: Duration::from_secs(position),
        modified_age: Duration::from_secs(modified_age),
        title: Some(title.to_owned()),
        release_age: Some(Duration::from_secs(release_age)),
    }
}

impl DummyPositionService {
    /// The positions, in order.
    pub closed spec fn entries(self) -> Seq<Saved> {
        services::saved_view(self.positions@)
    }

    pub fn new() -> (service: Self)
        ensures
            service.entries() == seeded_positions(),
    {
        let mut positions: Vec<SavedPosition> = Vec::new();
        positions.push(
            seed(
                "2386400830",
                VideoPlatform::Twitch,
                "Phone",
                6485,
                2 * 60,
                "HLE vs CFO | Game 5",
                4 * 24 * 3600,
            ),
        );
        positions.push(
            seed(
                "2386400830",
                VideoPlatform::Twitch,
                "Laptop",
                5771,
                3 * 3600,
                "HLE vs CFO | Game 5",
                4 * 24 * 3600,
            ),
        );
        positions.push(
            seed(
                "3fgD9k8Hkbc",
                VideoPlatform::YouTube,
                "Desktop",
                3120,
                2 * 24 * 3600,
                "GAM vs. DRX | Worlds Game 3",
                12 * 24 * 3600,
            ),
        );
        let service = DummyPositionService { positions };
        assert(service.entries() =~= seeded_positions());
        service
    }

    fn find(&self, device_id: &str, id: &str) -> (index: usize)
        ensures
            index == entry_index(self.entries(), device_id@, id@, 0),
            index <= self.positions@.len(),
    {
        let mut i: usize = 0;
        while i < self.positions.len()
            invariant
                i <= self.positions@.len(),
                entry_index(self.entries(), device_id@, id@, 0) == entry_index(
                    self.entries(),
                    device_id@,
                    id@,
                    i as int,
                ),
            decreases self.positions@.len() - i,
        {
            let entry = &self.positions[i];
            assert(self.entries()[i as int] == entry@);
            if crate::text::same(entry.device_id.as_str(), device_id) && crate::text::same(
                entry.source.id.as_str(),
                id,
            ) {
                return i;
            }
            i += 1;
        }
        i
    }
}

impl Default for DummyPositionService {
    fn default() -> (service: Self)
        ensures
            service.entries() == seeded_positions(),
    {
        DummyPositionService::new()
    }
}

impl PositionService for DummyPositionService {
    fn positions(&self, user_id: &str) -> (positions: Result<Vec<SavedPosition>, String>)
        ensures
            positions matches Ok(positions) && services::saved_view(positions@) == self.entries(),
    {
        Ok(copy_positions(&self.positions))
    }

    fn save_position(
        &mut self,
        user_id: &str,
        device_id: &str,
        source: &VideoSource,
        position: Duration,
    ) -> (saved: Result<(), String>)
        ensures
            saved is Ok,
            final(self).entries() == with_saved(old(self).entries(), device_id@, source@, position),
    {
        let i: usize = self.find(device_id, source.id.as_str());
        if i < self.positions.len() {
            let mut entry = self.positions[i].clone();
            entry.position = position;
            entry.modified_age = Duration::zero();
            self.positions.set(i, entry);
        } else {
            self.positions.insert(
                0,
                SavedPosition {
                    source: source.clone(),
                    device_id: device_id.to_owned(),
                    position,
                    modified_age: Duration::zero(),
                    title: None,
                    release_age: None,
                },
            );
        }
        assert(self.entries() =~= with_saved(old(self).entries(), device_id@, source@, position));
        Ok(())
    }
}

proof fn entry_index_is_an_entry(
    positions: Seq<Saved>,
    device_id: Seq<char>,
    id: Seq<char>,
    from: int,
)
    requires
        0 <= from <= positions.len(),
    ensures
        from <= entry_index(positions, device_id, id, from) <= positions.len(),
        entry_index(positions, device_id, id, from) < positions.len() ==> is_entry(
            positions[entry_index(positions, device_id, id, from)],
            device_id,
            id,
        ),
        forall|k: int|
            from <= k < entry_index(positions, device_id, id, from) ==> !is_entry(
                #[trigger] positions[k],
                device_id,
                id,
            ),
    decreases positions.len() - from,
{
    if from < positions.len() && !is_entry(positions[from], device_id, id) {
        entry_index_is_an_entry(positions, device_id, id, from + 1);
    }
}

/// A saved position is found again: the first one for the video and the device is the one
/// that was saved, just now.
pub proof fn saved_position_is_found(
    positions: Seq<Saved>,
    device_id: Seq<char>,
    source: Video,
    position: Duration,
)
    ensures
        ({
            let saved = with_saved(positions, device_id, source, position);
            let i = entry_index(saved, device_id, source.id, 0);
            &&& 0 <= i < saved.len()
            &&& saved[i].position == position
            &&& saved[i].modified_age.nanos == 0
        }),
{
    let saved = with_saved(positions, device_id, source, position);
    let i = entry_index(positions, device_id, source.id, 0);
    entry_index_is_an_entry(positions, device_id, source.id, 0);
    entry_index_is_an_entry(saved, device_id, source.id, 0);
    let j = entry_index(saved, device_id, source.id, 0);
    if i < positions.len() {
        assert(is_entry(saved[i], device_id, source.id));
        if j < i {
            assert(saved[j] == positions[j]);
        }
    } else {
        assert(is_entry(saved[0], device_id, source.id));
    }
}

/// Saving a position changes none of another video or device, and adds at most one.
pub proof fn saving_keeps_other_positions(
    positions: Seq<Saved>,
    device_id: Seq<char>,
    source: Video,
    position: Duration,
    k: int,
)
    requires
        0 <= k < positions.len(),
        !is_entry(positions[k], device_id, source.id),
    ensures
        ({
            let saved = with_saved(positions, device_id, source, position);
            &&& saved.len() <= positions.len() + 1
            &&& saved[k + (saved.len() - positions.len())] == positions[k]
        }),
{
    entry_index_is_an_entry(positions, device_id, source.id, 0);
}

/// The positions that are there from the start name videos on their platforms.
pub proof fn seeded_videos_are_known()
    ensures
        video::platform_of("2386400830"@) == Some(VideoPlatform::Twitch),
        video::platform_of("3fgD9k8Hkbc"@) == Some(VideoPlatform::YouTube),
{
    reveal_strlit("2386400830");
    reveal_strlit("3fgD9k8Hkbc");
    let worlds = "3fgD9k8Hkbc"@;
    assert(!crate::text::is_digit(worlds[1]));
}

} // verus!
