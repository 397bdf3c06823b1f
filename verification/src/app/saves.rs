//! Which positions are sent to the server, and when.

use crate::session::{Session, SessionState};
use crate::text;
use crate::time::{Duration, Instant};
use crate::video::{Video, VideoSource};
use vstd::prelude::*;

verus! {

/// How far playback has to get before its position is sent unasked: more than ten seconds.
pub const POSITION_UPLOAD_DELTA_NANOS: u128 = 10_000_000_000;

/// How long a failed upload is waited with: five seconds.
pub const POSITION_SAVE_RETRY_NANOS: u128 = 5_000_000_000;

/// How long a pause has to last before its position is sent: half a second.
pub const PAUSE_POSITION_SAVE_NANOS: u128 = 500_000_000;

/// A position that is to be sent.
#[derive(Debug, PartialEq, Eq)]
pub struct PositionSaveRequest {
    pub user_id: String,
    pub device_id: String,
    pub source: VideoSource,
    pub position: Duration,
}

/// Such a position as values.
pub struct SaveRequest {
    pub user_id: Seq<char>,
    pub device_id: Seq<char>,
    pub source: Video,
    pub position: Duration,
}

impl View for PositionSaveRequest {
    type V = SaveRequest;

    open spec fn view(&self) -> SaveRequest {
        SaveRequest {
            user_id: self.user_id@,
            device_id: self.device_id@,
            source: self.source@,
            position: self.position,
        }
    }
}

impl Clone for PositionSaveRequest {
    fn clone(&self) -> (request: Self)
        ensures
            request == *self,
    {
        PositionSaveRequest {
            user_id: self.user_id.clone(),
            device_id: self.device_id.clone(),
            source: self.source.clone(),
            position: self.position,
        }
    }
}

pub open spec fn request_view(request: Option<PositionSaveRequest>) -> Option<SaveRequest> {
    match request {
        Some(request) => Some(request@),
        None => None,
    }
}

pub open spec fn requests_view(requests: Seq<PositionSaveRequest>) -> Seq<SaveRequest> {
    Seq::new(requests.len(), |i: int| requests[i]@)
}

/// Whether a request is for a user's video on a device.
pub open spec fn is_for(
    request: SaveRequest,
    user_id: Seq<char>,
    device_id: Seq<char>,
    video_id: Seq<char>,
) -> bool {
    request.user_id == user_id && request.device_id == device_id && request.source.id == video_id
}

/// Whether two requests are for the same user's video on the same device.
pub open spec fn same_key(left: SaveRequest, right: SaveRequest) -> bool {
    is_for(left, right.user_id, right.device_id, right.source.id)
}

/// The first of the requests from `from` on with the key of `request`; their number if
/// none has it.
pub open spec fn key_index(queue: Seq<SaveRequest>, request: SaveRequest, from: int) -> int
    decreases queue.len() - from,
{
    if from < 0 || from >= queue.len() {
        queue.len() as int
    } else if same_key(queue[from], request) {
        from
    } else {
        key_index(queue, request, from + 1)
    }
}

/// The position in the last of the first `n` requests for a user's video on a device.
pub open spec fn last_queued(
    queue: Seq<SaveRequest>,
    user_id: Seq<char>,
    device_id: Seq<char>,
    video_id: Seq<char>,
    n: int,
) -> Option<Duration>
    decreases n,
{
    if n <= 0 {
        None
    } else if is_for(queue[n - 1], user_id, device_id, video_id) {
        Some(queue[n - 1].position)
    } else {
        last_queued(queue, user_id, device_id, video_id, n - 1)
    }
}

/// A position in whole seconds, half a second and more counting as one.
pub open spec fn whole_seconds(position: Duration) -> Duration {
    let seconds = (position.nanos + 500_000_000) / 1_000_000_000;
    Duration::of_secs(if seconds > u64::MAX { u64::MAX } else { seconds as u64 })
}

/// Rounds a position to whole seconds.
pub fn rounded_position(position: Duration) -> (rounded: Duration)
    ensures
        rounded == whole_seconds(position),
{
    let whole: u128 = position.nanos / 1_000_000_000;
    let rest: u128 = position.nanos % 1_000_000_000;
    let seconds: u128 = if rest >= 500_000_000 { whole + 1 } else { whole };
    Duration::from_secs(if seconds > u64::MAX as u128 { u64::MAX } else { seconds as u64 })
}

/// What waits to be sent, what is being sent, and what was sent last.
pub struct PositionSaver {
    pub queue: Vec<PositionSaveRequest>,
    pub pending: Option<PositionSaveRequest>,
    pub pause_due: Option<Instant>,
    pub last_uploaded: Option<PositionSaveRequest>,
    pub next_allowed: Instant,
}

/// What waits to be sent, what is being sent and what was sent last, as values.
pub struct Saves {
    pub queue: Seq<SaveRequest>,
    pub pending: Option<SaveRequest>,
    pub pause_due: Option<Instant>,
    pub last_uploaded: Option<SaveRequest>,
    pub next_allowed: Instant,
}

impl View for PositionSaver {
    type V = Saves;

    open spec fn view(&self) -> Saves {
        Saves {
            queue: requests_view(self.queue@),
            pending: request_view(self.pending),
            pause_due: self.pause_due,
            last_uploaded: request_view(self.last_uploaded),
            next_allowed: self.next_allowed,
        }
    }
}

/// Whether no two requests have the same key.
pub open spec fn distinct_keys(queue: Seq<SaveRequest>) -> bool {
    forall|i: int, j: int|
        0 <= i < j < queue.len() ==> !same_key(#[trigger] queue[i], #[trigger] queue[j])
}

/// The position in a request, if it is for a user's video on a device.
pub open spec fn position_for(
    request: Option<SaveRequest>,
    user_id: Seq<char>,
    device_id: Seq<char>,
    video_id: Seq<char>,
) -> Option<Duration> {
    match request {
        Some(request) => if is_for(request, user_id, device_id, video_id) {
            Some(request.position)
        } else {
            None
        },
        None => None,
    }
}

impl Saves {
    /// The position that was last asked to be sent for a user's video on a device: in the
    /// queue, under way, or sent.
    pub open spec fn latest(
        self,
        user_id: Seq<char>,
        device_id: Seq<char>,
        video_id: Seq<char>,
    ) -> Option<Duration> {
        let queued = last_queued(
            self.queue,
            user_id,
            device_id,
            video_id,
            self.queue.len() as int,
        );
        let pending = position_for(self.pending, user_id, device_id, video_id);
        if queued is Some {
            queued
        } else if pending is Some {
            pending
        } else {
            position_for(self.last_uploaded, user_id, device_id, video_id)
        }
    }

    /// Whether a position differs enough from the one last asked to be sent.
    pub open spec fn wants(self, request: SaveRequest, force: bool) -> bool {
        match self.latest(request.user_id, request.device_id, request.source.id) {
            None => true,
            Some(baseline) => if force {
                baseline != request.position
            } else {
                request.position.distance(baseline).nanos > POSITION_UPLOAD_DELTA_NANOS
            },
        }
    }

    /// What waits once a request is there: it takes the place of the one with its key, or
    /// comes last.
    pub open spec fn with_request(self, request: SaveRequest) -> Self {
        let i = key_index(self.queue, request, 0);
        Saves {
            queue: if i < self.queue.len() {
                self.queue.update(i, request)
            } else {
                self.queue.push(request)
            },
            ..self
        }
    }

    /// What waits once a session's position is to be sent by a user on a device.
    pub open spec fn queued(
        self,
        user_id: Option<Seq<char>>,
        device_id: Option<Seq<char>>,
        session: Session,
        force: bool,
    ) -> Self {
        match (user_id, device_id) {
            (Some(user_id), Some(device_id)) => {
                let request = SaveRequest {
                    user_id,
                    device_id,
                    source: Video { start_time: None, ..session.source },
                    position: whole_seconds(session.position),
                };
                if request.position.nanos == 0 || !self.wants(request, force) {
                    self
                } else {
                    self.with_request(request)
                }
            },
            _ => self,
        }
    }

    /// The request that is sent at `now`, if one is.
    pub open spec fn started(self, now: Instant) -> (Option<SaveRequest>, Self) {
        if self.pending is Some || self.queue.len() == 0 || now.nanos < self.next_allowed.nanos {
            (None, self)
        } else {
            (
                Some(self.queue[0]),
                Saves { queue: self.queue.skip(1), pending: Some(self.queue[0]), ..self },
            )
        }
    }

    /// What waits once the request under way has come to its end.
    pub open spec fn completed(self, sent: bool, requeue_failure: bool, now: Instant) -> Self {
        match self.pending {
            None => self,
            Some(request) => if sent {
                Saves { pending: None, last_uploaded: Some(request), next_allowed: now, ..self }
            } else {
                Saves {
                    pending: None,
                    queue: if requeue_failure && key_index(self.queue, request, 0)
                        >= self.queue.len() {
                        self.queue.insert(0, request)
                    } else {
                        self.queue
                    },
                    next_allowed: now.plus(Duration { nanos: POSITION_SAVE_RETRY_NANOS }),
                    ..self
                }
            },
        }
    }

    /// When what waits wants to be looked at again.
    pub open spec fn wake_deadline(self, now: Instant) -> Option<Instant> {
        let pause = match self.pause_due {
            Some(due) => Some(later_of(due, now)),
            None => None,
        };
        let retry = if self.pending is None && self.queue.len() > 0 {
            Some(later_of(self.next_allowed, now))
        } else {
            None
        };
        match (pause, retry) {
            (Some(pause), Some(retry)) => Some(
                if retry.nanos < pause.nanos { retry } else { pause },
            ),
            (Some(pause), None) => Some(pause),
            (None, retry) => retry,
        }
    }

    /// Nothing waits and nothing is known to have been sent; what is under way stays so.
    pub open spec fn forgotten(self) -> Self {
        Saves { queue: Seq::empty(), pause_due: None, last_uploaded: None, ..self }
    }
}

pub open spec fn later_of(a: Instant, b: Instant) -> Instant {
    if a.nanos < b.nanos { b } else { a }
}

fn later(a: Instant, b: Instant) -> (later: Instant)
    ensures
        later == later_of(a, b),
{
    if a.nanos < b.nanos { b } else { a }
}

/// Whether a request is for a user's video on a device.
pub fn has_key(request: &PositionSaveRequest, user_id: &str, device_id: &str, video_id: &str) -> (has:
    bool)
    ensures
        has == is_for(request@, user_id@, device_id@, video_id@),
{
    text::same(request.user_id.as_str(), user_id) && text::same(
        request.device_id.as_str(),
        device_id,
    ) && text::same(request.source.id.as_str(), video_id)
}

/// Whether two requests are for the same user's video on the same device.
pub fn same_position_key(left: &PositionSaveRequest, right: &PositionSaveRequest) -> (same: bool)
    ensures
        same == same_key(left@, right@),
{
    has_key(left, right.user_id.as_str(), right.device_id.as_str(), right.source.id.as_str())
}

fn request_for(
    request: &Option<PositionSaveRequest>,
    user_id: &str,
    device_id: &str,
    video_id: &str,
) -> (position: Option<Duration>)
    ensures
        position == position_for(request_view(*request), user_id@, device_id@, video_id@),
{
    match request {
        Some(request) => if has_key(request, user_id, device_id, video_id) {
            Some(request.position)
        } else {
            None
        },
        None => None,
    }
}

impl PositionSaver {
    pub fn new(now: Instant) -> (saver: Self)
        ensures
            saver@ == (Saves {
                queue: Seq::empty(),
                pending: None,
                pause_due: None,
                last_uploaded: None,
                next_allowed: now,
            }),
    {
        let saver = PositionSaver {
            queue: Vec::new(),
            pending: None,
            pause_due: None,
            last_uploaded: None,
            next_allowed: now,
        };
        assert(saver@.queue =~= Seq::<SaveRequest>::empty());
        saver
    }

    /// The position that was last asked to be sent for a user's video on a device.
    pub fn latest_requested_position(&self, user_id: &str, device_id: &str, video_id: &str) -> (position:
        Option<Duration>)
        ensures
            position == self@.latest(user_id@, device_id@, video_id@),
    {
        let mut n: usize = self.queue.len();
        while n > 0
            invariant
                n <= self.queue@.len(),
                last_queued(
                    self@.queue,
                    user_id@,
                    device_id@,
                    video_id@,
                    self.queue@.len() as int,
                ) == last_queued(self@.queue, user_id@, device_id@, video_id@, n as int),
            decreases n,
        {
            n -= 1;
            assert(self@.queue[n as int] == self.queue@[n as int]@);
            if has_key(&self.queue[n], user_id, device_id, video_id) {
                return Some(self.queue[n].position);
            }
        }
        let pending = request_for(&self.pending, user_id, device_id, video_id);
        if pending.is_some() {
            return pending;
        }
        request_for(&self.last_uploaded, user_id, device_id, video_id)
    }

    fn find_key(&self, request: &PositionSaveRequest) -> (index: usize)
        ensures
            index == key_index(self@.queue, request@, 0),
            index <= self.queue@.len(),
    {
        let mut i: usize = 0;
        while i < self.queue.len()
            invariant
                i <= self.queue@.len(),
                key_index(self@.queue, request@, 0) == key_index(
                    self@.queue,
                    request@,
                    i as int,
                ),
            decreases self.queue@.len() - i,
        {
            assert(self@.queue[i as int] == self.queue@[i as int]@);
            if same_position_key(&self.queue[i], request) {
                return i;
            }
            i += 1;
        }
        i
    }

    fn enqueue(&mut self, request: PositionSaveRequest)
        ensures
            final(self)@ == old(self)@.with_request(request@),
    {
        let i: usize = self.find_key(&request);
        if i < self.queue.len() {
            self.queue.set(i, request);
        } else {
            self.queue.push(request);
        }
        assert(self@.queue =~= old(self)@.with_request(request@).queue);
    }

    /// Puts a session's position in the queue, if it differs enough from the one last asked
    /// to be sent, or at all where that is forced.
    pub fn queue_position_save(
        &mut self,
        user_id: &Option<String>,
        device_id: &Option<String>,
        session: &SessionState,
        force: bool,
    )
        ensures
            final(self)@ == old(self)@.queued(
                crate::settings::optional_view(*user_id),
                crate::settings::optional_view(*device_id),
                session@,
                force,
            ),
    {
        let (user_id, device_id) = match (user_id, device_id) {
            (Some(user_id), Some(device_id)) => (user_id.clone(), device_id.clone()),
            _ => {
                return;
            },
        };
        let position = rounded_position(session.position);
        if position.is_zero() {
            return;
        }
        let mut source = session.source.clone();
        source.start_time = None;
        let wanted: bool = match self.latest_requested_position(
            user_id.as_str(),
            device_id.as_str(),
            source.id.as_str(),
        ) {
            None => true,
            Some(baseline) => if force {
                baseline != position
            } else {
                position.abs_diff(baseline).nanos > POSITION_UPLOAD_DELTA_NANOS
            },
        };
        if wanted {
            self.enqueue(PositionSaveRequest { user_id, device_id, source, position });
        }
    }

    /// Takes the next request from the queue, if it can be sent at `now`.
    pub fn start_next(&mut self, now: Instant) -> (request: Option<PositionSaveRequest>)
        ensures
            old(self)@.started(now) == (request_view(request), final(self)@),
    {
        if self.pending.is_some() || self.queue.len() == 0 || now.nanos < self.next_allowed.nanos {
            return None;
        }
        let request = self.queue.remove(0);
        self.pending = Some(request.clone());
        assert(self@.queue =~= old(self)@.queue.skip(1));
        Some(request)
    }

    /// Takes note of how the request under way came to its end. Returns it if it was sent.
    pub fn complete(&mut self, sent: bool, requeue_failure: bool, now: Instant) -> (done: Option<
        PositionSaveRequest,
    >)
        ensures
            final(self)@ == old(self)@.completed(sent, requeue_failure, now),
            request_view(done) == (if sent { old(self)@.pending } else { None }),
    {
        let mut pending: Option<PositionSaveRequest> = None;
        std::mem::swap(&mut pending, &mut self.pending);
        let request = match pending {
            Some(request) => request,
            None => {
                return None;
            },
        };
        if sent {
            self.last_uploaded = Some(request.clone());
            self.next_allowed = now;
            return Some(request);
        }
        if requeue_failure && self.find_key(&request) >= self.queue.len() {
            self.queue.insert(0, request);
            assert(self@.queue =~= old(self)@.queue.insert(0, request@));
        }
        self.next_allowed = now.after(Duration { nanos: POSITION_SAVE_RETRY_NANOS });
        None
    }

    /// Sends the position of a pause once it has lasted.
    pub fn schedule_pause(&mut self, now: Instant)
        ensures
            final(self)@ == (Saves {
                pause_due: Some(now.plus(Duration { nanos: PAUSE_POSITION_SAVE_NANOS })),
                ..old(self)@
            }),
            now.nanos + 500_000_000 <= u128::MAX ==> final(self).pause_due == Some(
                Instant { nanos: (now.nanos + 500_000_000) as u128 },
            ),
    {
        self.pause_due = Some(now.after(Duration { nanos: PAUSE_POSITION_SAVE_NANOS }));
    }

    pub fn cancel_pause(&mut self)
        ensures
            final(self)@ == (Saves { pause_due: None, ..old(self)@ }),
    {
        self.pause_due = None;
    }

    /// Whether a pause has lasted long enough at `now`.
    pub fn pause_is_due(&self, now: Instant) -> (due: bool)
        ensures
            due == (self.pause_due is Some && now.nanos >= self.pause_due.unwrap().nanos),
    {
        match self.pause_due {
            Some(due) => now.nanos >= due.nanos,
            None => false,
        }
    }

    pub fn forget(&mut self)
        ensures
            final(self)@ == old(self)@.forgotten(),
    {
        self.queue.clear();
        self.pause_due = None;
        self.last_uploaded = None;
        assert(self@.queue =~= Seq::<SaveRequest>::empty());
    }

    pub fn wake_deadline(&self, now: Instant) -> (deadline: Option<Instant>)
        ensures
            deadline == self@.wake_deadline(now),
    {
        let pause = match self.pause_due {
            Some(due) => Some(later(due, now)),
            None => None,
        };
        let retry = if self.pending.is_none() && self.queue.len() > 0 {
            Some(later(self.next_allowed, now))
        } else {
            None
        };
        match (pause, retry) {
            (Some(pause), Some(retry)) => Some(
                if retry.nanos < pause.nanos { retry } else { pause },
            ),
            (Some(pause), None) => Some(pause),
            (None, retry) => retry,
        }
    }
}

proof fn key_index_is_first(queue: Seq<SaveRequest>, request: SaveRequest, from: int)
    requires
        0 <= from <= queue.len(),
    ensures
        from <= key_index(queue, request, from) <= queue.len(),
        key_index(queue, request, from) < queue.len() ==> same_key(
            queue[key_index(queue, request, from)],
            request,
        ),
        forall|k: int|
            from <= k < key_index(queue, request, from) ==> !same_key(#[trigger] queue[k], request),
    decreases queue.len() - from,
{
    if from < queue.len() && !same_key(queue[from], request) {
        key_index_is_first(queue, request, from + 1);
    }
}

/// The queue holds at most one request for each user's video on each device, whatever is
/// queued, sent or taken back.
pub proof fn queue_keeps_distinct_keys(
    saves: Saves,
    user_id: Option<Seq<char>>,
    device_id: Option<Seq<char>>,
    session: Session,
    force: bool,
    sent: bool,
    requeue_failure: bool,
    now: Instant,
)
    requires
        distinct_keys(saves.queue),
    ensures
        distinct_keys(saves.queued(user_id, device_id, session, force).queue),
        distinct_keys(saves.started(now).1.queue),
        distinct_keys(saves.completed(sent, requeue_failure, now).queue),
        distinct_keys(saves.forgotten().queue),
{
    match (user_id, device_id) {
        (Some(user_id), Some(device_id)) => {
            let request = SaveRequest {
                user_id,
                device_id,
                source: Video { start_time: None, ..session.source },
                position: whole_seconds(session.position),
            };
            key_index_is_first(saves.queue, request, 0);
            let i = key_index(saves.queue, request, 0);
            let after = saves.with_request(request).queue;
            assert(distinct_keys(after)) by {
                assert forall|a: int, b: int| 0 <= a < b < after.len() implies !same_key(
                    #[trigger] after[a],
                    #[trigger] after[b],
                ) by {
                    if i < saves.queue.len() {
                        assert(same_key(saves.queue[i], request));
                        if a != i && b != i {
                            assert(!same_key(saves.queue[a], saves.queue[b]));
                        } else if a == i {
                            assert(!same_key(saves.queue[i], saves.queue[b]));
                        } else {
                            assert(!same_key(saves.queue[a], saves.queue[i]));
                        }
                    } else if b < saves.queue.len() {
                        assert(!same_key(saves.queue[a], saves.queue[b]));
                    }
                }
            }
        },
        _ => {},
    }
    match saves.pending {
        Some(request) => {
            key_index_is_first(saves.queue, request, 0);
            if key_index(saves.queue, request, 0) >= saves.queue.len() {
                let after = saves.queue.insert(0, request);
                assert forall|a: int, b: int| 0 <= a < b < after.len() implies !same_key(
                    #[trigger] after[a],
                    #[trigger] after[b],
                ) by {
                    if a == 0 {
                        assert(!same_key(saves.queue[b - 1], request));
                    } else {
                        assert(!same_key(saves.queue[a - 1], saves.queue[b - 1]));
                    }
                }
            }
        },
        None => {},
    }
}

proof fn last_queued_of_update(
    queue: Seq<SaveRequest>,
    request: SaveRequest,
    i: int,
    n: int,
)
    requires
        0 <= i < n <= queue.len(),
        queue[i] == request,
        forall|k: int| i < k < n ==> !same_key(#[trigger] queue[k], request),
    ensures
        last_queued(queue, request.user_id, request.device_id, request.source.id, n) == Some(
            request.position,
        ),
    decreases n,
{
    if i < n - 1 {
        assert(!same_key(queue[n - 1], request));
        last_queued_of_update(queue, request, i, n - 1);
    }
}

/// A position that was put in the queue is the one last asked to be sent: further requests
/// for the same video only replace it.
pub proof fn queued_position_is_the_latest(saves: Saves, request: SaveRequest)
    requires
        distinct_keys(saves.queue),
    ensures
        saves.with_request(request).latest(
            request.user_id,
            request.device_id,
            request.source.id,
        ) == Some(request.position),
        saves.with_request(request).queue.len() <= saves.queue.len() + 1,
        key_index(saves.queue, request, 0) < saves.queue.len() ==> saves.with_request(
            request,
        ).queue.len() == saves.queue.len(),
{
    key_index_is_first(saves.queue, request, 0);
    let i = key_index(saves.queue, request, 0);
    let after = saves.with_request(request).queue;
    if i < saves.queue.len() {
        assert forall|k: int| i < k < after.len() implies !same_key(#[trigger] after[k], request) by {
            assert(!same_key(saves.queue[i], saves.queue[k]));
        }
        last_queued_of_update(after, request, i, after.len() as int);
    } else {
        last_queued_of_update(after, request, after.len() - 1, after.len() as int);
    }
}

/// A position that has been asked to be sent is not asked for again, forced or not, until
/// it changes.
pub proof fn unchanged_position_is_not_queued_again(saves: Saves, request: SaveRequest, force: bool)
    requires
        distinct_keys(saves.queue),
    ensures
        !saves.with_request(request).wants(request, force),
{
    queued_position_is_the_latest(saves, request);
}

/// Whether a request is of a viewer for a video.
pub open spec fn is_of(
    request: SaveRequest,
    user_id: Seq<char>,
    device_id: Seq<char>,
    video_id: Seq<char>,
) -> bool {
    &&& request.user_id == user_id
    &&& request.device_id == device_id
    &&& request.source.id == video_id
}

/// Whether `baseline` is what was last asked to be sent of a viewer for a video: what waits,
/// or else what is under way, or else what was sent last.
pub open spec fn is_baseline(
    saves: Saves,
    user_id: Seq<char>,
    device_id: Seq<char>,
    video_id: Seq<char>,
    baseline: Option<Duration>,
) -> bool {
    if exists|i: int|
        0 <= i < saves.queue.len() && is_of(#[trigger] saves.queue[i], user_id, device_id, video_id) {
        exists|i: int|
            0 <= i < saves.queue.len() && is_of(
                #[trigger] saves.queue[i],
                user_id,
                device_id,
                video_id,
            ) && baseline == Some(saves.queue[i].position)
    } else if saves.pending matches Some(request) && is_of(request, user_id, device_id, video_id) {
        baseline == Some(saves.pending.unwrap().position)
    } else if saves.last_uploaded matches Some(request) && is_of(
        request,
        user_id,
        device_id,
        video_id,
    ) {
        baseline == Some(saves.last_uploaded.unwrap().position)
    } else {
        baseline is None
    }
}

proof fn last_queued_is_found(
    queue: Seq<SaveRequest>,
    user_id: Seq<char>,
    device_id: Seq<char>,
    video_id: Seq<char>,
    n: int,
)
    requires
        0 <= n <= queue.len(),
    ensures
        match last_queued(queue, user_id, device_id, video_id, n) {
            Some(position) => exists|i: int|
                0 <= i < n && is_of(#[trigger] queue[i], user_id, device_id, video_id)
                    && queue[i].position == position,
            None => forall|i: int|
                0 <= i < n ==> !is_of(#[trigger] queue[i], user_id, device_id, video_id),
        },
    decreases n,
{
    if n > 0 && !is_of(queue[n - 1], user_id, device_id, video_id) {
        last_queued_is_found(queue, user_id, device_id, video_id, n - 1);
    }
}

proof fn latest_is_the_baseline(
    saves: Saves,
    user_id: Seq<char>,
    device_id: Seq<char>,
    video_id: Seq<char>,
    baseline: Option<Duration>,
)
    requires
        distinct_keys(saves.queue),
        is_baseline(saves, user_id, device_id, video_id, baseline),
    ensures
        saves.latest(user_id, device_id, video_id) == baseline,
{
    let queue = saves.queue;
    last_queued_is_found(queue, user_id, device_id, video_id, queue.len() as int);
    if exists|i: int|
        0 <= i < queue.len() && is_of(#[trigger] queue[i], user_id, device_id, video_id) {
        let a = choose|i: int|
            0 <= i < queue.len() && is_of(#[trigger] queue[i], user_id, device_id, video_id)
                && baseline == Some(queue[i].position);
        let b = choose|i: int|
            0 <= i < queue.len() && is_of(#[trigger] queue[i], user_id, device_id, video_id)
                && last_queued(queue, user_id, device_id, video_id, queue.len() as int) == Some(
                queue[i].position,
            );
        if a < b {
            assert(!same_key(queue[a], queue[b]));
        } else if b < a {
            assert(!same_key(queue[b], queue[a]));
        }
    }
}

/// A position is sent once it lies more than ten seconds from the one last asked to be sent
/// for the same viewer and video, before it or behind it; where that is forced, once it is
/// another one; and always where none was asked for yet. Otherwise nothing changes. Positions
/// count in whole seconds, half a second and more as one, and the start is not sent.
pub proof fn positions_that_moved_are_queued(
    saves: Saves,
    user_id: Seq<char>,
    device_id: Seq<char>,
    session: Session,
    force: bool,
    baseline: Option<Duration>,
    seconds: nat,
)
    requires
        distinct_keys(saves.queue),
        is_baseline(saves, user_id, device_id, session.source.id, baseline),
        seconds <= u64::MAX,
        seconds * 1_000_000_000 <= session.position.nanos + 500_000_000 < (seconds + 1)
            * 1_000_000_000,
    ensures
        ({
            let after = saves.queued(Some(user_id), Some(device_id), session, force);
            let nanos = seconds * 1_000_000_000;
            let moved = match baseline {
                None => true,
                Some(b) => if force {
                    nanos != b.nanos
                } else {
                    nanos > b.nanos + 10_000_000_000 || b.nanos > nanos + 10_000_000_000
                },
            };
            &&& seconds > 0 && moved ==> exists|i: int|
                0 <= i < after.queue.len() && {
                    &&& is_of(#[trigger] after.queue[i], user_id, device_id, session.source.id)
                    &&& after.queue[i].position.nanos == nanos
                    &&& after.queue[i].source.start_time is None
                    &&& after.queue[i].source.platform == session.source.platform
                }
            &&& !(seconds > 0 && moved) ==> after == saves
            &&& forall|i: int|
                0 <= i < saves.queue.len() && !is_of(
                    #[trigger] saves.queue[i],
                    user_id,
                    device_id,
                    session.source.id,
                ) ==> after.queue[i] == saves.queue[i]
            &&& after.queue.len() <= saves.queue.len() + 1
            &&& after.pending == saves.pending
            &&& after.last_uploaded == saves.last_uploaded
            &&& after.next_allowed == saves.next_allowed
            &&& after.pause_due == saves.pause_due
        }),
        saves.queued(None, Some(device_id), session, force) == saves,
        saves.queued(Some(user_id), None, session, force) == saves,
{
    latest_is_the_baseline(saves, user_id, device_id, session.source.id, baseline);
    assert((session.position.nanos + 500_000_000) / 1_000_000_000 == seconds);
    let request = SaveRequest {
        user_id,
        device_id,
        source: Video { start_time: None, ..session.source },
        position: whole_seconds(session.position),
    };
    assert(request.position.nanos == seconds * 1_000_000_000);
    key_index_is_first(saves.queue, request, 0);
    let i = key_index(saves.queue, request, 0);
    let after = saves.with_request(request).queue;
    assert(after[if i < saves.queue.len() { i } else { saves.queue.len() as int }] == request);
}

/// Requests are sent one at a time and in their order, and only once their time has come.
pub proof fn requests_are_sent_in_order(saves: Saves, now: Instant)
    ensures
        ({
            let (sent, after) = saves.started(now);
            &&& sent is Some <==> saves.pending is None && saves.queue.len() > 0 && now.nanos
                >= saves.next_allowed.nanos
            &&& sent is Some ==> sent == Some(saves.queue[0]) && after.pending == sent && seq![
                saves.queue[0],
            ] + after.queue == saves.queue
            &&& sent is None ==> after == saves
            &&& after.last_uploaded == saves.last_uploaded
        }),
{
    let (sent, after) = saves.started(now);
    if sent is Some {
        assert(seq![saves.queue[0]] + after.queue =~= saves.queue);
    }
}

/// What was sent is known as such, and the next one may go at once. What was not sent waits
/// first in line again, for five seconds, unless a newer one of the same viewer for the same
/// video waits, or it is not to be tried again.
pub proof fn failed_requests_are_tried_again(
    saves: Saves,
    request: SaveRequest,
    requeue_failure: bool,
    now: Instant,
)
    requires
        saves.pending == Some(request),
        now.nanos + 5_000_000_000 <= u128::MAX,
    ensures
        ({
            let after = saves.completed(true, requeue_failure, now);
            &&& after.pending is None
            &&& after.last_uploaded == Some(request)
            &&& after.next_allowed == now
            &&& after.queue == saves.queue
        }),
        ({
            let after = saves.completed(false, requeue_failure, now);
            let newer = exists|i: int|
                0 <= i < saves.queue.len() && is_of(
                    #[trigger] saves.queue[i],
                    request.user_id,
                    request.device_id,
                    request.source.id,
                );
            &&& after.pending is None
            &&& after.last_uploaded == saves.last_uploaded
            &&& after.next_allowed.nanos == now.nanos + 5_000_000_000
            &&& requeue_failure && !newer ==> after.queue == seq![request] + saves.queue
            &&& !requeue_failure || newer ==> after.queue == saves.queue
        }),
{
    key_index_is_first(saves.queue, request, 0);
    let k = key_index(saves.queue, request, 0);
    if k < saves.queue.len() {
        assert(is_of(saves.queue[k], request.user_id, request.device_id, request.source.id));
    } else {
        assert forall|i: int| 0 <= i < saves.queue.len() implies !is_of(
            #[trigger] saves.queue[i],
            request.user_id,
            request.device_id,
            request.source.id,
        ) by {
            assert(!same_key(saves.queue[i], request));
        }
        assert(saves.queue.insert(0, request) =~= seq![request] + saves.queue);
    }
}

/// What waits is looked at again as soon as the first of its times has come, and not before
/// now; where nothing waits, there is no such time.
pub proof fn waiting_requests_are_woken_for(saves: Saves, now: Instant)
    ensures
        ({
            let sendable = saves.pending is None && saves.queue.len() > 0;
            let deadline = saves.wake_deadline(now);
            &&& deadline is Some <==> saves.pause_due is Some || sendable
            &&& deadline matches Some(at) ==> at.nanos >= now.nanos
            &&& saves.pause_due matches Some(due) ==> deadline.unwrap().nanos <= due.nanos
                || deadline == Some(now)
            &&& sendable ==> deadline.unwrap().nanos <= saves.next_allowed.nanos || deadline
                == Some(now)
            &&& deadline matches Some(at) ==> at == now || saves.pause_due == Some(at) || (sendable
                && at == saves.next_allowed)
        }),
{
}

/// Nothing of a viewer is left to be sent once it is forgotten, but for what is under way.
pub proof fn forgotten_requests_are_not_sent(saves: Saves)
    ensures
        saves.forgotten().queue.len() == 0,
        saves.forgotten().pause_due is None,
        saves.forgotten().last_uploaded is None,
        saves.forgotten().pending == saves.pending,
{
}

} // verus!
