//! What is known about a video, and where it was left on other devices.

pub mod dummy;
pub mod remote;

use crate::settings;
use crate::settings::copy_optional;
use crate::time::Duration;
use crate::video::{Video, VideoSource};
use vstd::prelude::*;

verus! {

#[derive(Debug, PartialEq, Eq)]
pub struct VideoMetadata {
    pub title: String,
    pub release_age: Duration,
}

impl Clone for VideoMetadata {
    fn clone(&self) -> (metadata: Self)
        ensures
            metadata == *self,
    {
        VideoMetadata { title: self.title.clone(), release_age: self.release_age }
    }
}

/// Where a video was left on a device.
#[derive(Debug, PartialEq, Eq)]
pub struct SavedPosition {
    pub source: VideoSource,
    pub device_id: String,
    pub position: Duration,
    pub modified_age: Duration,
    pub title: Option<String>,
    pub release_age: Option<Duration>,
}

/// Such a position as values.
pub struct Saved {
    pub source: Video,
    pub device_id: Seq<char>,
    pub position: Duration,
    pub modified_age: Duration,
    pub title: Option<Seq<char>>,
    pub release_age: Option<Duration>,
}

impl View for SavedPosition {
    type V = Saved;

    open spec fn view(&self) -> Saved {
        Saved {
            source: self.source@,
            device_id: self.device_id@,
            position: self.position,
            modified_age: self.modified_age,
            title: settings::optional_view(self.title),
            release_age: self.release_age,
        }
    }
}

impl Clone for SavedPosition {
    fn clone(&self) -> (position: Self)
        ensures
            position == *self,
    {
        SavedPosition {
            source: self.source.clone(),
            device_id: self.device_id.clone(),
            position: self.position,
            modified_age: self.modified_age,
            title: copy_optional(&self.title),
            release_age: self.release_age,
        }
    }
}

/// A list of positions as values.
pub open spec fn saved_view(positions: Seq<SavedPosition>) -> Seq<Saved> {
    Seq::new(positions.len(), |i: int| positions[i]@)
}

/// A copy of a list of positions.
pub fn copy_positions(positions: &Vec<SavedPosition>) -> (copy: Vec<SavedPosition>)
    ensures
        copy@ == positions@,
{
    let mut copy: Vec<SavedPosition> = Vec::new();
    let mut i: usize = 0;
    while i < positions.len()
        invariant
            i <= positions.len(),
            copy@ == positions@.take(i as int),
        decreases positions.len() - i,
    {
        copy.push(positions[i].clone());
        assert(positions@.take(i + 1) =~= positions@.take(i as int).push(positions@[i as int]));
        i += 1;
    }
    assert(positions@.take(i as int) =~= positions@);
    copy
}

/// Knows what videos are called and how old they are.
pub trait MetadataService {
    fn metadata_for(&self, source: &VideoSource) -> VideoMetadata;
}

/// Keeps where videos were left.
pub trait PositionService {
    fn positions(&self, user_id: &str) -> Result<Vec<SavedPosition>, String>;

    fn save_position(
        &mut self,
        user_id: &str,
        device_id: &str,
        source: &VideoSource,
        position: Duration,
    ) -> Result<(), String>;
}

} // verus!
