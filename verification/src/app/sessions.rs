//! When the session is written down, so that the next start can come back to it.

use crate::persistence;
use crate::session;
use crate::session::{Session, SessionState, SessionStore};
use crate::text;
use crate::time::{Duration, Instant};
use crate::video::{Video, VideoSource};
use vstd::prelude::*;

verus! {

/// The shortest time between two writes that nothing forces: three seconds.
pub const SESSION_SAVE_INTERVAL_NANOS: u128 = 3_000_000_000;

/// A session that is to be written, and the one that was written before it.
#[derive(Debug, PartialEq, Eq)]
pub struct SessionWrite {
    pub session: SessionState,
    pub previous: Option<SessionState>,
}

/// Such a session as values.
pub struct Write {
    pub session: Session,
    pub previous: Option<Session>,
}

impl View for SessionWrite {
    type V = Write;

    open spec fn view(&self) -> Write {
        Write { session: self.session@, previous: session_view(self.previous) }
    }
}

pub open spec fn session_view(session: Option<SessionState>) -> Option<Session> {
    match session {
        Some(session) => Some(session@),
        None => None,
    }
}

pub open spec fn write_view(write: Option<SessionWrite>) -> Option<Write> {
    match write {
        Some(write) => Some(write@),
        None => None,
    }
}

/// What is kept of the session.
pub struct SessionKeeper {
    pub store: Option<SessionStore>,
    pub startup: Option<SessionState>,
    pub last_safe: Option<SessionState>,
    pub last_persisted: Option<SessionState>,
    pub next_save_allowed: Instant,
}

/// What is kept of the session, as values; `store` is the path of its file.
pub struct Kept {
    pub store: Option<Seq<char>>,
    pub startup: Option<Session>,
    pub last_safe: Option<Session>,
    pub last_persisted: Option<Session>,
    pub next_save_allowed: Instant,
}

impl View for SessionKeeper {
    type V = Kept;

    open spec fn view(&self) -> Kept {
        Kept {
            store: session::store_path(self.store),
            startup: session_view(self.startup),
            last_safe: session_view(self.last_safe),
            last_persisted: session_view(self.last_persisted),
            next_save_allowed: self.next_save_allowed,
        }
    }
}

impl Kept {
    /// With a store, and the session that was read of its file; what cannot be read changes
    /// nothing else.
    pub open spec fn with_store(
        self,
        path: Seq<char>,
        read: Result<Option<Seq<char>>, Seq<char>>,
    ) -> Self {
        match session::stored_session(path, read) {
            Ok(found) => Kept { store: Some(path), startup: found, last_persisted: found, ..self },
            Err(_) => Kept { store: Some(path), ..self },
        }
    }

    /// The session that playback can be come back to: the last one at which it was settled.
    pub open spec fn refreshed(
        self,
        settled: bool,
        source: Option<VideoSource>,
        position: Duration,
    ) -> Self {
        match source {
            Some(source) if settled => Kept {
                last_safe: Some(
                    Session { source: Video { start_time: None, ..source@ }, position },
                ),
                ..self
            },
            _ => self,
        }
    }

    /// What is to be written at `now`, if anything, and what is kept then.
    pub open spec fn persisted(self, force: bool, now: Instant) -> (Option<Write>, Self) {
        if self.store is None || self.last_safe is None || (!force && now.nanos
            < self.next_save_allowed.nanos) {
            (None, self)
        } else {
            let waiting = Kept {
                next_save_allowed: now.plus(Duration { nanos: SESSION_SAVE_INTERVAL_NANOS }),
                ..self
            };
            if self.last_persisted == self.last_safe {
                (None, waiting)
            } else {
                (
                    Some(
                        Write {
                            session: self.last_safe.unwrap(),
                            previous: self.last_persisted,
                        },
                    ),
                    Kept { last_persisted: self.last_safe, ..waiting },
                )
            }
        }
    }
}

/// Whether two sessions are the same.
pub fn same_session(a: &SessionState, b: &SessionState) -> (same: bool)
    ensures
        same == (a@ == b@),
{
    let same_start: bool = match (a.source.start_time, b.source.start_time) {
        (Some(x), Some(y)) => x == y,
        (None, None) => true,
        _ => false,
    };
    text::same(a.source.id.as_str(), b.source.id.as_str()) && a.source.platform
        == b.source.platform && same_start && a.position == b.position
}

fn copy_session(session: &Option<SessionState>) -> (copy: Option<SessionState>)
    ensures
        copy == *session,
{
    match session {
        Some(session) => Some(session.clone()),
        None => None,
    }
}

impl SessionKeeper {
    pub fn new(now: Instant) -> (keeper: Self)
        ensures
            keeper@ == (Kept {
                store: None,
                startup: None,
                last_safe: None,
                last_persisted: None,
                next_save_allowed: now,
            }),
    {
        SessionKeeper {
            store: None,
            startup: None,
            last_safe: None,
            last_persisted: None,
            next_save_allowed: now,
        }
    }

    /// Takes over the store, and the session that was found in its file. What is wrong with
    /// the file is returned; the store is used all the same.
    pub fn set_store(&mut self, store: SessionStore, read: Result<Option<&str>, &str>) -> (loaded:
        Result<(), String>)
        ensures
            final(self).store == Some(store),
            final(self)@ == old(self)@.with_store(store.location(), persistence::read_view(read)),
            match loaded {
                Ok(()) => session::stored_session(
                    store.location(),
                    persistence::read_view(read),
                ) is Ok,
                Err(message) => session::stored_session(
                    store.location(),
                    persistence::read_view(read),
                ) == Err::<Option<Session>, Seq<char>>(message@),
            },
    {
        let loaded = match store.load(read) {
            Ok(session) => {
                self.startup = copy_session(&session);
                self.last_persisted = session;
                Ok(())
            },
            Err(message) => Err(message),
        };
        self.store = Some(store);
        loaded
    }

    /// The video to come back to; asked for again, there is none.
    pub fn take_startup_source(&mut self) -> (source: Option<VideoSource>)
        ensures
            final(self)@ == (Kept { startup: None, ..old(self)@ }),
            match source {
                Some(source) => old(self)@.startup matches Some(session) && source@ == (Video {
                    start_time: if session.position.nanos == 0 {
                        None
                    } else {
                        Some(session.position)
                    },
                    ..session.source
                }),
                None => old(self)@.startup is None,
            },
    {
        let mut startup: Option<SessionState> = None;
        std::mem::swap(&mut startup, &mut self.startup);
        match startup {
            Some(session) => Some(session.restore_source()),
            None => None,
        }
    }

    /// Takes note of where playback stands, if it is settled.
    pub fn refresh(&mut self, settled: bool, source: Option<&VideoSource>, position: Duration)
        ensures
            final(self)@ == old(self)@.refreshed(
                settled,
                match source {
                    Some(source) => Some(*source),
                    None => None,
                },
                position,
            ),
    {
        if !settled {
            return;
        }
        match source {
            Some(source) => {
                let mut source = source.clone();
                source.start_time = None;
                self.last_safe = Some(SessionState { source, position });
            },
            None => {},
        }
    }

    /// Decides whether the session is to be written at `now`.
    pub fn persist(&mut self, force: bool, now: Instant) -> (write: Option<SessionWrite>)
        ensures
            old(self)@.persisted(force, now) == (write_view(write), final(self)@),
    {
        if self.store.is_none() {
            return None;
        }
        let session = match &self.last_safe {
            Some(session) => session.clone(),
            None => {
                return None;
            },
        };
        if !force && now.nanos < self.next_save_allowed.nanos {
            return None;
        }
        self.next_save_allowed = now.after(Duration { nanos: SESSION_SAVE_INTERVAL_NANOS });
        let unchanged: bool = match &self.last_persisted {
            Some(persisted) => same_session(persisted, &session),
            None => false,
        };
        if unchanged {
            return None;
        }
        let mut previous: Option<SessionState> = Some(session.clone());
        std::mem::swap(&mut previous, &mut self.last_persisted);
        Some(SessionWrite { session, previous })
    }

    /// Takes back a write that failed.
    pub fn write_failed(&mut self, write: SessionWrite)
        ensures
            final(self)@ == (Kept { last_persisted: write@.previous, ..old(self)@ }),
    {
        self.last_persisted = write.previous;
    }
}

/// A session that was written is not written again before it changes.
pub proof fn unchanged_session_is_written_once(kept: Kept, now: Instant, later: Instant, force: bool)
    requires
        kept.store is Some,
        kept.last_safe is Some,
    ensures
        kept.persisted(true, now).1.persisted(force, later).0 is None,
        kept.persisted(true, now).1.last_persisted == kept.last_safe,
{
}

/// A write that fails leaves the session to be written again.
pub proof fn failed_write_is_tried_again(kept: Kept, now: Instant, later: Instant)
    requires
        kept.persisted(true, now).0 is Some,
    ensures
        ({
            let write = kept.persisted(true, now).0.unwrap();
            let after = Kept {
                last_persisted: write.previous,
                ..kept.persisted(true, now).1
            };
            after.persisted(true, later).0 == Some(write)
        }),
{
}

/// Unforced writes are at least three seconds apart.
pub proof fn unforced_writes_keep_their_distance(kept: Kept, now: Instant, later: Instant, force: bool)
    requires
        kept.persisted(force, now).0 is Some,
        later.nanos < now.nanos + SESSION_SAVE_INTERVAL_NANOS <= u128::MAX,
    ensures
        kept.persisted(force, now).1.persisted(false, later) == (
            None::<Write>,
            kept.persisted(force, now).1,
        ),
{
}

/// The session to come back to is the video that plays and where it stands, without where
/// its link would have started it. It is kept from when playback was last settled.
pub proof fn settled_playback_is_come_back_to(
    kept: Kept,
    source: VideoSource,
    position: Duration,
    settled: bool,
)
    ensures
        ({
            let after = kept.refreshed(settled, Some(source), position).last_safe;
            &&& !settled ==> after == kept.last_safe
            &&& settled ==> after is Some && after.unwrap().position == position
                && after.unwrap().source.id == source@.id && after.unwrap().source.platform
                == source@.platform && after.unwrap().source.start_time is None
        }),
        kept.refreshed(settled, None, position) == kept,
{
}

/// A session that changed is written when writing is forced, and otherwise three seconds
/// after the last time at the soonest; what is written is the session to come back to.
pub proof fn changed_session_is_written(kept: Kept, now: Instant, later: Instant, force: bool)
    requires
        kept.store is Some,
        kept.last_safe is Some,
        kept.last_persisted != kept.last_safe,
    ensures
        ({
            let (write, after) = kept.persisted(force, now);
            &&& write is Some <==> force || now.nanos >= kept.next_save_allowed.nanos
            &&& write is Some ==> Some(write.unwrap().session) == kept.last_safe
                && write.unwrap().previous == kept.last_persisted && after.last_persisted
                == kept.last_safe
            &&& write is Some && now.nanos + 3_000_000_000 <= u128::MAX
                ==> after.next_save_allowed.nanos == now.nanos + 3_000_000_000
            &&& write is None ==> after == kept
        }),
{
}

/// Nothing is written without a place to write it, or without a session to come back to.
pub proof fn nothing_is_written_without_a_session(kept: Kept, now: Instant, force: bool)
    requires
        kept.store is None || kept.last_safe is None,
    ensures
        kept.persisted(force, now) == (None::<Write>, kept),
{
}

} // verus!
