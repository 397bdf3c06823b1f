//! The positions that the server knows, as far as they have been fetched.

use crate::services;
use crate::services::{Saved, SavedPosition};
use crate::settings;
use crate::text;
use crate::time::Duration;
use crate::video::{Video, VideoSource};
use vstd::prelude::*;

verus! {

/// How many positions are kept.
pub const MAX_POSITIONS: usize = 10;

/// How near to where playback stands a position of this device is not worth showing: less
/// than ten seconds.
pub const CURRENT_POSITION_ROW_TOLERANCE_NANOS: u128 = 10_000_000_000;

/// The positions, why they could not be fetched, and for whom they are being fetched.
pub struct PositionCache {
    pub positions: Vec<SavedPosition>,
    pub error: Option<String>,
    pub refresh_requested: bool,
    pub pending_fetch: Option<String>,
}

/// The positions as values.
pub struct Cached {
    pub positions: Seq<Saved>,
    pub error: Option<Seq<char>>,
    pub refresh_requested: bool,
    pub pending_fetch: Option<Seq<char>>,
}

impl View for PositionCache {
    type V = Cached;

    open spec fn view(&self) -> Cached {
        Cached {
            positions: services::saved_view(self.positions@),
            error: settings::optional_view(self.error),
            refresh_requested: self.refresh_requested,
            pending_fetch: settings::optional_view(self.pending_fetch),
        }
    }
}

/// A position a while later.
pub open spec fn older(saved: Saved, elapsed: Duration) -> Saved {
    Saved {
        modified_age: saved.modified_age.plus(elapsed),
        release_age: match saved.release_age {
            Some(age) => Some(age.plus(elapsed)),
            None => None,
        },
        ..saved
    }
}

/// Whether a position is of a video on a device.
pub open spec fn is_of(saved: Saved, video_id: Seq<char>, device_id: Seq<char>) -> bool {
    saved.source.id == video_id && saved.device_id == device_id
}

/// The first of the positions from `from` on of a video on a device; their number if there
/// is none.
pub open spec fn index_of_video(
    positions: Seq<Saved>,
    video_id: Seq<char>,
    device_id: Seq<char>,
    from: int,
) -> int
    decreases positions.len() - from,
{
    if from < 0 || from >= positions.len() {
        positions.len() as int
    } else if is_of(positions[from], video_id, device_id) {
        from
    } else {
        index_of_video(positions, video_id, device_id, from + 1)
    }
}

/// The first of the positions, as many as are kept.
pub open spec fn kept(positions: Seq<Saved>) -> Seq<Saved> {
    if positions.len() > MAX_POSITIONS { positions.take(MAX_POSITIONS as int) } else { positions }
}

/// Whether a position says no more than what playback shows: it is of the video and the
/// device in use, and near to where playback stands.
pub open spec fn is_redundant(
    saved: Saved,
    current_id: Option<Seq<char>>,
    current_device: Option<Seq<char>>,
    position: Duration,
) -> bool {
    Some(saved.source.id) == current_id && Some(saved.device_id) == current_device
        && saved.position.distance(position).nanos < CURRENT_POSITION_ROW_TOLERANCE_NANOS
}

/// Those of the first `n` positions that are worth showing, in order.
pub open spec fn worth_showing(
    positions: Seq<Saved>,
    current_id: Option<Seq<char>>,
    current_device: Option<Seq<char>>,
    position: Duration,
    n: int,
) -> Seq<Saved>
    decreases n,
{
    if n <= 0 {
        Seq::empty()
    } else {
        let before = worth_showing(positions, current_id, current_device, position, n - 1);
        if is_redundant(positions[n - 1], current_id, current_device, position) {
            before
        } else {
            before.push(positions[n - 1])
        }
    }
}

impl Cached {
    pub open spec fn aged(self, elapsed: Duration) -> Self {
        Cached {
            positions: Seq::new(
                self.positions.len(),
                |i: int| older(self.positions[i], elapsed),
            ),
            ..self
        }
    }

    /// The positions once a fetch that was asked for has begun, and for whom.
    pub open spec fn fetch_begun(self, user_id: Option<Seq<char>>) -> (Option<Seq<char>>, Self) {
        if !self.refresh_requested || self.pending_fetch is Some {
            (None, self)
        } else {
            match user_id {
                None => (None, Cached { refresh_requested: false, ..self }),
                Some(user_id) => (
                    Some(user_id),
                    Cached {
                        refresh_requested: false,
                        error: None,
                        pending_fetch: Some(user_id),
                        ..self
                    },
                ),
            }
        }
    }

    /// The positions once a fetch has come to its end. What was fetched for someone who is
    /// no longer signed in is dropped.
    pub open spec fn fetched(
        self,
        result: Result<Seq<Saved>, Seq<char>>,
        user_id: Option<Seq<char>>,
    ) -> Self {
        match self.pending_fetch {
            None => self,
            Some(fetched_for) => {
                let idle = Cached { pending_fetch: None, ..self };
                if user_id != Some(fetched_for) {
                    idle
                } else {
                    match result {
                        Ok(positions) => Cached { positions, error: None, ..idle },
                        Err(error) => Cached { error: Some(error), ..idle },
                    }
                }
            },
        }
    }

    /// The positions with one that was just saved in the first place. It keeps what was
    /// known of the video.
    pub open spec fn with_saved(self, source: Video, device_id: Seq<char>, position: Duration) -> Self {
        let i = index_of_video(self.positions, source.id, device_id, 0);
        let known = i < self.positions.len();
        let others = if known { self.positions.remove(i) } else { self.positions };
        let saved = Saved {
            source,
            device_id,
            position,
            modified_age: Duration { nanos: 0 },
            title: if known { self.positions[i].title } else { None },
            release_age: if known { self.positions[i].release_age } else { None },
        };
        Cached { positions: kept(others.insert(0, saved)), ..self }
    }

    /// Nothing is known, and why does not matter any more.
    pub open spec fn forgotten(self, refresh: bool) -> Self {
        Cached { positions: Seq::empty(), error: None, refresh_requested: refresh, ..self }
    }
}

impl PositionCache {
    pub fn new() -> (cache: Self)
        ensures
            cache@ == (Cached {
                positions: Seq::empty(),
                error: None,
                refresh_requested: false,
                pending_fetch: None,
            }),
    {
        let cache = PositionCache {
            positions: Vec::new(),
            error: None,
            refresh_requested: false,
            pending_fetch: None,
        };
        assert(cache@.positions =~= Seq::<Saved>::empty());
        cache
    }

    /// Lets `elapsed` pass.
    pub fn age_saved_positions(&mut self, elapsed: Duration)
        ensures
            final(self)@ == old(self)@.aged(elapsed),
    {
        let ghost all = self.positions@;
        let mut aged: Vec<SavedPosition> = Vec::new();
        let mut i: usize = 0;
        while i < self.positions.len()
            invariant
                i <= all.len(),
                self.positions@ == all,
                self.error == old(self).error,
                self.refresh_requested == old(self).refresh_requested,
                self.pending_fetch == old(self).pending_fetch,
                aged@.len() == i,
                forall|k: int| 0 <= k < i ==> (#[trigger] aged@[k])@ == older(all[k]@, elapsed),
            decreases all.len() - i,
        {
            let mut position = self.positions[i].clone();
            position.modified_age = position.modified_age.saturating_add(elapsed);
            position.release_age = match position.release_age {
                Some(age) => Some(age.saturating_add(elapsed)),
                None => None,
            };
            aged.push(position);
            i += 1;
        }
        self.positions = aged;
        assert(self@.positions =~= old(self)@.aged(elapsed).positions);
    }

    /// Begins the fetch that was asked for, if none is under way. Returns for whom.
    pub fn begin_fetch(&mut self, user_id: &Option<String>) -> (fetch_for: Option<String>)
        ensures
            old(self)@.fetch_begun(settings::optional_view(*user_id)) == (
                settings::optional_view(fetch_for),
                final(self)@,
            ),
    {
        if !self.refresh_requested || self.pending_fetch.is_some() {
            return None;
        }
        self.refresh_requested = false;
        match user_id {
            None => None,
            Some(user_id) => {
                self.error = None;
                self.pending_fetch = Some(user_id.clone());
                Some(user_id.clone())
            },
        }
    }

    /// Takes note of how a fetch came to its end.
    pub fn finish_fetch(
        &mut self,
        result: Result<Vec<SavedPosition>, String>,
        user_id: &Option<String>,
    )
        ensures
            final(self)@ == old(self)@.fetched(
                match result {
                    Ok(positions) => Ok(services::saved_view(positions@)),
                    Err(error) => Err(error@),
                },
                settings::optional_view(*user_id),
            ),
    {
        let mut pending: Option<String> = None;
        std::mem::swap(&mut pending, &mut self.pending_fetch);
        let fetched_for = match pending {
            Some(user_id) => user_id,
            None => {
                return;
            },
        };
        let current: bool = match user_id {
            Some(user_id) => *user_id == fetched_for,
            None => false,
        };
        if !current {
            return;
        }
        match result {
            Ok(positions) => {
                self.positions = positions;
                self.error = None;
            },
            Err(error) => {
                self.error = Some(error);
            },
        }
    }

    fn find_video(&self, video_id: &str, device_id: &str) -> (index: usize)
        ensures
            index == index_of_video(self@.positions, video_id@, device_id@, 0),
            index <= self.positions@.len(),
    {
        let mut i: usize = 0;
        while i < self.positions.len()
            invariant
                i <= self.positions@.len(),
                index_of_video(self@.positions, video_id@, device_id@, 0) == index_of_video(
                    self@.positions,
                    video_id@,
                    device_id@,
                    i as int,
                ),
            decreases self.positions@.len() - i,
        {
            let entry = &self.positions[i];
            assert(self@.positions[i as int] == entry@);
            if text::same(entry.source.id.as_str(), video_id) && text::same(
                entry.device_id.as_str(),
                device_id,
            ) {
                return i;
            }
            i += 1;
        }
        i
    }

    /// Puts a position that was just saved in the first place.
    pub fn update_cached_saved_position(
        &mut self,
        source: VideoSource,
        device_id: String,
        position: Duration,
    )
        ensures
            final(self)@ == old(self)@.with_saved(source@, device_id@, position),
    {
        let i: usize = self.find_video(source.id.as_str(), device_id.as_str());
        let mut title: Option<String> = None;
        let mut release_age: Option<Duration> = None;
        if i < self.positions.len() {
            let existing = self.positions.remove(i);
            title = existing.title;
            release_age = existing.release_age;
        }
        self.positions.insert(
            0,
            SavedPosition {
                source,
                device_id,
                position,
                modified_age: Duration::zero(),
                title,
                release_age,
            },
        );
        self.positions.truncate(MAX_POSITIONS);
        assert(self@.positions =~= old(self)@.with_saved(source@, device_id@, position).positions);
    }

    /// The positions that are worth showing.
    pub fn visible(
        &self,
        current_id: Option<&str>,
        current_device: &Option<String>,
        position: Duration,
    ) -> (visible: Vec<SavedPosition>)
        ensures
            services::saved_view(visible@) == worth_showing(
                self@.positions,
                match current_id {
                    Some(id) => Some(id@),
                    None => None,
                },
                settings::optional_view(*current_device),
                position,
                self@.positions.len() as int,
            ),
    {
        let ghost id_view: Option<Seq<char>> = match current_id {
            Some(id) => Some(id@),
            None => None,
        };
        let ghost device_view = settings::optional_view(*current_device);
        let mut visible: Vec<SavedPosition> = Vec::new();
        let mut i: usize = 0;
        assert(services::saved_view(visible@) =~= Seq::<Saved>::empty());
        while i < self.positions.len()
            invariant
                i <= self.positions@.len(),
                id_view == (match current_id {
                    Some(id) => Some(id@),
                    None => None,
                }),
                device_view == settings::optional_view(*current_device),
                services::saved_view(visible@) == worth_showing(
                    self@.positions,
                    id_view,
                    device_view,
                    position,
                    i as int,
                ),
            decreases self.positions@.len() - i,
        {
            let entry = &self.positions[i];
            assert(self@.positions[i as int] == entry@);
            let same_video: bool = match current_id {
                Some(id) => text::same(entry.source.id.as_str(), id),
                None => false,
            };
            let same_device: bool = match current_device {
                Some(device) => entry.device_id == *device,
                None => false,
            };
            let near: bool = entry.position.abs_diff(position).nanos
                < CURRENT_POSITION_ROW_TOLERANCE_NANOS;
            if !(same_video && same_device && near) {
                let ghost before = visible@;
                visible.push(entry.clone());
                assert(services::saved_view(visible@) =~= services::saved_view(before).push(entry@));
            }
            i += 1;
        }
        visible
    }

    pub fn forget(&mut self, refresh: bool)
        ensures
            final(self)@ == old(self)@.forgotten(refresh),
    {
        self.positions.clear();
        self.error = None;
        self.refresh_requested = refresh;
        assert(self@.positions =~= Seq::<Saved>::empty());
    }
}

/// However often positions are saved, at most ten are kept, and the last one saved comes
/// first.
pub proof fn last_saved_position_comes_first(
    cached: Cached,
    source: Video,
    device_id: Seq<char>,
    position: Duration,
)
    ensures
        ({
            let after = cached.with_saved(source, device_id, position).positions;
            &&& 0 < after.len() <= MAX_POSITIONS
            &&& is_of(after[0], source.id, device_id)
            &&& after[0].position == position
            &&& after[0].modified_age.nanos == 0
        }),
{
}

/// What was fetched for someone else than who is signed in is never shown.
pub proof fn foreign_positions_are_dropped(
    cached: Cached,
    result: Result<Seq<Saved>, Seq<char>>,
    user_id: Option<Seq<char>>,
)
    requires
        cached.pending_fetch != user_id,
    ensures
        cached.fetched(result, user_id).positions == cached.positions,
        cached.fetched(result, user_id).error == cached.error,
{
}

/// Positions of other devices and of other videos are always worth showing.
pub proof fn only_redundant_positions_are_hidden(
    positions: Seq<Saved>,
    current_id: Option<Seq<char>>,
    current_device: Option<Seq<char>>,
    position: Duration,
    n: int,
    k: int,
)
    requires
        0 <= k < n <= positions.len(),
        !is_redundant(positions[k], current_id, current_device, position),
    ensures
        worth_showing(positions, current_id, current_device, position, n).contains(positions[k]),
    decreases n,
{
    let shown = worth_showing(positions, current_id, current_device, position, n);
    if k < n - 1 {
        only_redundant_positions_are_hidden(
            positions,
            current_id,
            current_device,
            position,
            n - 1,
            k,
        );
        let before = worth_showing(positions, current_id, current_device, position, n - 1);
        let i = choose|i: int| 0 <= i < before.len() && before[i] == positions[k];
        assert(shown[i] == positions[k]);
    } else {
        assert(shown.last() == positions[k]);
    }
}

/// Whether `k` is the first of the positions that is of a video on a device.
pub open spec fn is_first_of(
    positions: Seq<Saved>,
    video_id: Seq<char>,
    device_id: Seq<char>,
    k: int,
) -> bool {
    &&& 0 <= k < positions.len()
    &&& positions[k].source.id == video_id
    &&& positions[k].device_id == device_id
    &&& forall|j: int|
        0 <= j < k ==> !((#[trigger] positions[j]).source.id == video_id && positions[j].device_id
            == device_id)
}

proof fn first_is_found(
    positions: Seq<Saved>,
    video_id: Seq<char>,
    device_id: Seq<char>,
    from: int,
    k: int,
)
    requires
        0 <= from <= k <= positions.len(),
        k < positions.len() ==> positions[k].source.id == video_id && positions[k].device_id
            == device_id,
        forall|j: int|
            from <= j < k ==> !((#[trigger] positions[j]).source.id == video_id
                && positions[j].device_id == device_id),
    ensures
        index_of_video(positions, video_id, device_id, from) == k,
    decreases k - from,
{
    if from < k {
        first_is_found(positions, video_id, device_id, from + 1, k);
    }
}

/// A position that was just saved takes the place of the one that was there of the same
/// video on the same device, and keeps that one's title and age of release. It moves to the
/// front; the others keep their order, and at most ten are kept.
pub proof fn saved_position_takes_the_place_of_its_own(
    cached: Cached,
    source: Video,
    device_id: Seq<char>,
    position: Duration,
    k: int,
)
    requires
        is_first_of(cached.positions, source.id, device_id, k),
    ensures
        ({
            let after = cached.with_saved(source, device_id, position).positions;
            &&& after.len() == if cached.positions.len() > 10 {
                10
            } else {
                cached.positions.len()
            }
            &&& after[0] == (Saved {
                source,
                device_id,
                position,
                modified_age: Duration { nanos: 0 },
                title: cached.positions[k].title,
                release_age: cached.positions[k].release_age,
            })
            &&& forall|j: int|
                0 < j < after.len() ==> #[trigger] after[j] == cached.positions[if j <= k {
                    j - 1
                } else {
                    j
                }]
        }),
{
    first_is_found(cached.positions, source.id, device_id, 0, k);
}

/// A position of a video that none was there of on the same device comes before the others,
/// with nothing known of the video, and at most ten are kept.
pub proof fn saved_position_of_a_new_video_comes_first(
    cached: Cached,
    source: Video,
    device_id: Seq<char>,
    position: Duration,
)
    requires
        forall|j: int|
            0 <= j < cached.positions.len() ==> !((#[trigger] cached.positions[j]).source.id
                == source.id && cached.positions[j].device_id == device_id),
    ensures
        ({
            let after = cached.with_saved(source, device_id, position).positions;
            &&& after.len() == if cached.positions.len() >= 10 {
                10
            } else {
                cached.positions.len() + 1
            }
            &&& after[0] == (Saved {
                source,
                device_id,
                position,
                modified_age: Duration { nanos: 0 },
                title: None,
                release_age: None,
            })
            &&& forall|j: int|
                0 < j < after.len() ==> #[trigger] after[j] == cached.positions[j - 1]
        }),
{
    first_is_found(cached.positions, source.id, device_id, 0, cached.positions.len() as int);
}

/// Whether a position is within ten seconds of where this device stands in the same video.
pub open spec fn is_near(saved: Saved, video_id: Seq<char>, device_id: Seq<char>, at: Duration) -> bool {
    &&& saved.source.id == video_id
    &&& saved.device_id == device_id
    &&& at.nanos - 10_000_000_000 < saved.position.nanos < at.nanos + 10_000_000_000
}

/// The positions that show are all of them, in their order, but those of this device within
/// ten seconds of where it stands in the same video.
pub proof fn all_but_near_positions_show(
    positions: Seq<Saved>,
    video_id: Seq<char>,
    device_id: Seq<char>,
    at: Duration,
    n: int,
)
    requires
        0 <= n <= positions.len(),
    ensures
        worth_showing(positions, Some(video_id), Some(device_id), at, n) == positions.take(
            n,
        ).filter(|saved: Saved| !is_near(saved, video_id, device_id, at)),
    decreases n,
{
    reveal(Seq::filter);
    if n > 0 {
        all_but_near_positions_show(positions, video_id, device_id, at, n - 1);
        assert(positions.take(n).drop_last() =~= positions.take(n - 1));
    }
}

/// All positions show, in their order, while no video is open or nobody is signed in.
pub proof fn all_positions_show_without_a_video(
    positions: Seq<Saved>,
    video_id: Option<Seq<char>>,
    device_id: Option<Seq<char>>,
    at: Duration,
    n: int,
)
    requires
        0 <= n <= positions.len(),
        video_id is None || device_id is None,
    ensures
        worth_showing(positions, video_id, device_id, at, n) == positions.take(n),
    decreases n,
{
    if n > 0 {
        all_positions_show_without_a_video(positions, video_id, device_id, at, n - 1);
        assert(positions.take(n) =~= positions.take(n - 1).push(positions[n - 1]));
    } else {
        assert(positions.take(0) =~= Seq::empty());
    }
}

/// Positions grow older by the time that passes and change in nothing else.
pub proof fn positions_grow_older(cached: Cached, elapsed: Duration, k: int)
    requires
        0 <= k < cached.positions.len(),
        cached.positions[k].modified_age.nanos + elapsed.nanos
            < 18_446_744_073_709_551_616_000_000_000,
    ensures
        ({
            let before = cached.positions[k];
            let after = cached.aged(elapsed).positions[k];
            &&& cached.aged(elapsed).positions.len() == cached.positions.len()
            &&& after.modified_age.nanos == before.modified_age.nanos + elapsed.nanos
            &&& before.release_age is None ==> after.release_age is None
            &&& before.release_age is Some && before.release_age.unwrap().nanos + elapsed.nanos
                < 18_446_744_073_709_551_616_000_000_000 ==> after.release_age is Some
                && after.release_age.unwrap().nanos == before.release_age.unwrap().nanos
                + elapsed.nanos
            &&& after.source == before.source
            &&& after.device_id == before.device_id
            &&& after.position == before.position
            &&& after.title == before.title
        }),
{
}

/// A fetch begins when one was asked for, nobody waits for another, and somebody is signed
/// in; it is for who is signed in, and it is not asked for again. What was known stays.
pub proof fn fetches_begin_when_asked_for(cached: Cached, user_id: Option<Seq<char>>)
    ensures
        ({
            let (fetch_for, after) = cached.fetch_begun(user_id);
            &&& fetch_for is Some <==> cached.refresh_requested && cached.pending_fetch is None
                && user_id is Some
            &&& fetch_for is Some ==> fetch_for == user_id && after.pending_fetch == user_id
                && !after.refresh_requested
            &&& fetch_for is None ==> after.pending_fetch == cached.pending_fetch && after.error
                == cached.error
            &&& after.positions == cached.positions
            &&& cached.pending_fetch is Some ==> after == cached
        }),
{
}

/// What was fetched for who is signed in shows, in place of what did; a fetch that failed
/// leaves what did and says why.
pub proof fn fetched_positions_show(
    cached: Cached,
    positions: Seq<Saved>,
    error: Seq<char>,
    user_id: Seq<char>,
)
    requires
        cached.pending_fetch == Some(user_id),
    ensures
        ({
            let after = cached.fetched(Ok(positions), Some(user_id));
            &&& after.positions == positions
            &&& after.error is None
            &&& after.pending_fetch is None
            &&& after.refresh_requested == cached.refresh_requested
        }),
        ({
            let after = cached.fetched(Err(error), Some(user_id));
            &&& after.positions == cached.positions
            &&& after.error == Some(error)
            &&& after.pending_fetch is None
            &&& after.refresh_requested == cached.refresh_requested
        }),
{
}

} // verus!
