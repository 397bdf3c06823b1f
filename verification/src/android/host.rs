//! The activity: what it does as Android shows and hides it, and when it draws.

use crate::android::focus;
use crate::android::focus::{starts_playback, AndroidMediaEvent, AndroidMediaFocus};
use crate::android::screen::AndroidScreenOn;
use crate::app::state::{App, AppEffect, AppState};
use crate::app::update::{Events, UpdateEvents};
use crate::desktop;
use crate::desktop::{ANIMATION_FRAME_INTERVAL_NANOS, SHUTDOWN_POSITION_FLUSH_BUDGET_NANOS};
use crate::model::{AppCommand, PlaybackState};
use crate::playback::wake::{PendingPlaybackWakes, PlaybackWake};
use crate::surface;
use crate::time::{Duration, Instant, MAX_NANOS};
use crate::video::{Video, VideoSource};
use vstd::prelude::*;

verus! {

/// The shorter of two spans, where there are two.
pub open spec fn shorter(left: Option<Duration>, right: Option<Duration>) -> Option<Duration> {
    match (left, right) {
        (Some(left), Some(right)) => Some(left.smaller(right)),
        (Some(left), None) => Some(left),
        (None, right) => right,
    }
}

pub fn min_timeout(left: Option<Duration>, right: Option<Duration>) -> (timeout: Option<Duration>)
    ensures
        timeout == shorter(left, right),
{
    match left {
        Some(left) => match right {
            Some(right) => Some(left.min(right)),
            None => Some(left),
        },
        None => right,
    }
}

/// How long it is to a point in time.
pub open spec fn wait_for(deadline: Option<Instant>, now: Instant) -> Option<Duration> {
    match deadline {
        Some(deadline) => Some(deadline.since(now)),
        None => None,
    }
}

fn time_to(deadline: Option<Instant>, now: Instant) -> (wait: Option<Duration>)
    ensures
        wait == wait_for(deadline, now),
{
    match deadline {
        Some(deadline) => Some(deadline.saturating_duration_since(now)),
        None => None,
    }
}

/// When the next frame is wanted.
#[derive(Clone, Copy, Debug, PartialEq, Eq, Structural)]
pub struct RepaintSignal {
    pub deadline: Option<Instant>,
}

impl RepaintSignal {
    /// A frame wanted `delay` from now; one that is wanted earlier stays.
    pub open spec fn requested(self, delay: Duration, now: Instant) -> Self {
        match self.deadline {
            Some(deadline) => if now.plus(delay).nanos < deadline.nanos {
                RepaintSignal { deadline: Some(now.plus(delay)) }
            } else {
                self
            },
            None => RepaintSignal { deadline: Some(now.plus(delay)) },
        }
    }

    /// A frame wanted at once.
    pub open spec fn at_once(self, now: Instant) -> Self {
        self.requested(Duration { nanos: 0 }, now)
    }

    pub open spec fn is_due(self, now: Instant) -> bool {
        self.deadline matches Some(deadline) && deadline.nanos <= now.nanos
    }

    /// The first frame is wanted at once.
    pub fn new(now: Instant) -> (signal: Self)
        ensures
            signal == (RepaintSignal { deadline: Some(now) }),
    {
        RepaintSignal { deadline: Some(now) }
    }

    pub fn request(&mut self, delay: Duration, now: Instant)
        ensures
            *final(self) == old(self).requested(delay, now),
    {
        let wanted = now.after(delay);
        let earlier: bool = match self.deadline {
            Some(deadline) => wanted.nanos < deadline.nanos,
            None => true,
        };
        if earlier {
            self.deadline = Some(wanted);
        }
    }

    pub fn timeout(&self, now: Instant) -> (timeout: Option<Duration>)
        ensures
            timeout == wait_for(self.deadline, now),
    {
        time_to(self.deadline, now)
    }

    /// Whether a frame is due, which then is no longer wanted.
    pub fn take_if_due(&mut self, now: Instant) -> (due: bool)
        ensures
            due == old(self).is_due(now),
            *final(self) == (if due { RepaintSignal { deadline: None } } else { *old(self) }),
    {
        let due: bool = match self.deadline {
            Some(deadline) => deadline.nanos <= now.nanos,
            None => false,
        };
        if due {
            self.deadline = None;
        }
        due
    }
}

/// A frame that is wanted is never put off by another that is wanted.
pub proof fn requests_never_delay(signal: RepaintSignal, delay: Duration, now: Instant)
    ensures
        signal.requested(delay, now).deadline matches Some(deadline) && deadline.nanos <= now.plus(
            delay,
        ).nanos && (signal.deadline matches Some(earlier) ==> deadline.nanos <= earlier.nanos),
{
}

/// A frame that is wanted at once is due.
pub proof fn immediate_requests_are_due(signal: RepaintSignal, now: Instant)
    ensures
        signal.at_once(now).is_due(now),
{
}

/// What Android tells the activity.
#[derive(Clone, Copy, Debug, PartialEq, Eq, Structural)]
pub enum HostEvent {
    Destroy,
    InitWindow,
    TerminateWindow,
    WindowResized,
    InputAvailable,
    GainedFocus,
    LostFocus,
    Pause,
    Stop,
    SaveState,
    Resume,
    RedrawNeeded,
    ContentRectChanged,
    InsetsChanged,
    ConfigChanged,
    Start,
    LowMemory,
    Timeout,
    Other,
}

/// What the activity asks for.
#[derive(Clone, Copy, Debug, PartialEq, Eq, Structural)]
pub enum HostAction {
    /// Sends the positions that wait, until a point in time.
    SendPositions(Instant),
    /// Gives the right to make a sound back.
    AbandonFocus,
    KeepScreenOn(bool),
    ShutDownMedia,
    DisableDirectPresentation,
    DropGpu,
    /// Makes a surface in a window that is new, and the GPU with it where there is none yet.
    AttachWindow,
    DetachWindow,
    ResizeWindow,
    SetFullscreen(bool),
}

/// The activity.
pub struct AndroidHost {
    pub state: AppState,
    /// The video to begin with as soon as there is something to draw on.
    pub startup_source: Option<VideoSource>,
    pub media_focus: AndroidMediaFocus,
    pub screen_on: AndroidScreenOn,
    pub repaint: RepaintSignal,
    pub focused: bool,
    pub input_available: bool,
    pub fullscreen: bool,
    pub running: bool,
    pub last_update: Instant,
}

/// The activity, as values.
pub struct Host {
    pub state: App,
    pub startup: Option<Video>,
    pub focus: AndroidMediaFocus,
    pub screen: AndroidScreenOn,
    pub repaint: RepaintSignal,
    pub focused: bool,
    pub input_available: bool,
    pub fullscreen: bool,
    pub running: bool,
    pub last_update: Instant,
}

impl View for AndroidHost {
    type V = Host;

    open spec fn view(&self) -> Host {
        Host {
            state: self.state@,
            startup: desktop::video_view(self.startup_source),
            focus: self.media_focus,
            screen: self.screen_on,
            repaint: self.repaint,
            focused: self.focused,
            input_available: self.input_available,
            fullscreen: self.fullscreen,
            running: self.running,
            last_update: self.last_update,
        }
    }
}

/// What is asked for so that the right to make a sound is given back, if it is held.
pub open spec fn giving_up(focus: AndroidMediaFocus) -> Seq<HostAction> {
    if focus.request_active {
        Seq::<HostAction>::empty().push(HostAction::AbandonFocus)
    } else {
        Seq::empty()
    }
}

/// What is asked for so that the screen is kept on or not, if that changes.
pub open spec fn with_screen(actions: Seq<HostAction>, change: Option<bool>) -> Seq<HostAction> {
    match change {
        Some(keep) => actions.push(HostAction::KeepScreenOn(keep)),
        None => actions,
    }
}

impl Host {
    pub open spec fn wf(self) -> bool {
        self.state.wf() && self.focus.wf()
    }

    pub open spec fn repainting(self, now: Instant) -> Self {
        Host { repaint: self.repaint.at_once(now), ..self }
    }

    pub open spec fn in_sight(self, foreground: bool) -> Self {
        Host { screen: AndroidScreenOn { foreground, ..self.screen }, ..self }
    }

    pub open spec fn screen_change(self) -> Option<bool> {
        self.screen.change(self.state.playback.state())
    }

    /// The state after an event.
    pub open spec fn handled(self, event: HostEvent, now: Instant) -> Self {
        match event {
            HostEvent::Destroy => Host {
                state: self.state.session_flushed(now).save_forced(now),
                focus: AndroidMediaFocus::none(),
                running: false,
                ..self.in_sight(false)
            },
            HostEvent::InputAvailable => Host { input_available: true, ..self },
            HostEvent::GainedFocus => Host { focused: true, ..self }.repainting(now),
            HostEvent::LostFocus => Host { focused: false, ..self }.repainting(now),
            HostEvent::Pause | HostEvent::Stop => Host {
                state: self.state.backgrounded(now),
                focus: AndroidMediaFocus::none(),
                ..self.in_sight(false)
            },
            HostEvent::SaveState => Host {
                state: self.state.session_flushed(now).save_forced(now),
                ..self
            },
            HostEvent::Resume => self.in_sight(true).repainting(now),
            HostEvent::WindowResized
            | HostEvent::RedrawNeeded
            | HostEvent::ContentRectChanged
            | HostEvent::InsetsChanged
            | HostEvent::ConfigChanged
            | HostEvent::Start => self.repainting(now),
            HostEvent::InitWindow
            | HostEvent::TerminateWindow
            | HostEvent::LowMemory
            | HostEvent::Timeout
            | HostEvent::Other => self,
        }
    }

    /// What an event asks for, in order.
    pub open spec fn actions(self, event: HostEvent, now: Instant) -> Seq<HostAction> {
        match event {
            HostEvent::Destroy => with_screen(
                Seq::<HostAction>::empty().push(
                    HostAction::SendPositions(
                        now.plus(Duration { nanos: SHUTDOWN_POSITION_FLUSH_BUDGET_NANOS }),
                    ),
                ) + giving_up(self.focus),
                self.handled(event, now).screen_change(),
            ).push(HostAction::ShutDownMedia).push(HostAction::DisableDirectPresentation).push(
                HostAction::DropGpu,
            ),
            HostEvent::InitWindow => Seq::<HostAction>::empty().push(HostAction::AttachWindow),
            HostEvent::TerminateWindow => Seq::<HostAction>::empty().push(HostAction::DetachWindow),
            HostEvent::WindowResized => Seq::<HostAction>::empty().push(HostAction::ResizeWindow),
            HostEvent::GainedFocus => Seq::<HostAction>::empty().push(
                HostAction::SetFullscreen(self.fullscreen),
            ),
            HostEvent::Pause | HostEvent::Stop => with_screen(
                giving_up(self.focus),
                self.handled(event, now).screen_change(),
            ),
            HostEvent::Resume => with_screen(
                Seq::empty(),
                self.handled(event, now).screen_change(),
            ),
            _ => Seq::empty(),
        }
    }

    /// The state once what Android says of the sound is taken note of.
    pub open spec fn sounded(self, events: Seq<AndroidMediaEvent>, now: Instant) -> Self
        decreases events.len(),
    {
        if events.len() == 0 {
            self
        } else {
            let before = self.sounded(events.drop_last(), now);
            let event = events.last();
            Host {
                focus: before.focus.informed(event, before.state.playback.wants_to_play()),
                state: if before.focus.stops(event) {
                    before.state.interrupted(now)
                } else if before.focus.resumes(event) {
                    before.state.uninterrupted(now)
                } else {
                    before.state
                },
                ..before
            }
        }
    }

    /// What is asked for while that is taken note of.
    pub open spec fn sound_actions(self, events: Seq<AndroidMediaEvent>, now: Instant) -> Seq<HostAction>
        decreases events.len(),
    {
        if events.len() == 0 {
            Seq::empty()
        } else {
            let before = self.sound_actions(events.drop_last(), now);
            if self.sounded(events.drop_last(), now).focus.gives_back(events.last()) {
                before.push(HostAction::AbandonFocus)
            } else {
                before
            }
        }
    }

    /// The state once the activity is woken.
    pub open spec fn woken(self, events: Seq<AndroidMediaEvent>, now: Instant) -> Self {
        let sounded = self.sounded(events, now);
        let taken = Host {
            state: App {
                wake: PlaybackWake {
                    pending: PendingPlaybackWakes::none(),
                    ..sounded.state.wake
                },
                ..sounded.state
            },
            ..sounded
        };
        if events.len() > 0 || sounded.state.wake.pending != PendingPlaybackWakes::none() {
            taken.repainting(now)
        } else {
            taken
        }
    }

    /// How long the player can be left alone.
    pub open spec fn state_timeout(self, now: Instant) -> Option<Duration> {
        shorter(
            shorter(
                if self.state.is_animated() {
                    Some(Duration { nanos: ANIMATION_FRAME_INTERVAL_NANOS })
                } else {
                    None
                },
                wait_for(self.state.playback.wake_deadline(now), now),
            ),
            wait_for(self.state.saves.wake_deadline(now), now),
        )
    }

    /// Whether the player has something to show.
    pub open spec fn state_due(self, now: Instant) -> bool {
        ||| self.state.is_animated()
        ||| desktop::is_due(self.state.playback.wake_deadline(now), now)
        ||| desktop::is_due(self.state.saves.wake_deadline(now), now)
    }

    /// The state once every event is dealt with.
    pub open spec fn settled(self, now: Instant) -> Self {
        let read = if self.input_available {
            Host { input_available: false, ..self }.repainting(now)
        } else {
            self
        };
        if read.state_due(now) { read.repainting(now) } else { read }
    }

    pub open spec fn updated(self, now: Instant, events: Events) -> Self {
        Host {
            state: self.state.updated(now.since(self.last_update), now, events),
            last_update: now,
            ..self
        }
    }

    /// The state after a frame that was drawn, with commands from the user or none.
    pub open spec fn painted(self, commanded: bool, repaint_delay: Option<Duration>, now: Instant) -> Self {
        let first = if commanded { self.repainting(now) } else { self };
        match surface::finite_delay(repaint_delay) {
            Some(delay) => Host { repaint: first.repaint.requested(delay, now), ..first },
            None => first,
        }
    }

    /// Whether a command needs the right to make a sound.
    pub open spec fn needs_sound(self, command: AppCommand) -> bool {
        focus::starts_sound(command, self.state.playback.state())
    }

    /// Whether a command is carried out, where the right, if it had to be asked for, was
    /// granted or not.
    pub open spec fn is_let_through(self, command: AppCommand, granted: bool) -> bool {
        !self.needs_sound(command) || (if self.focus.request_active {
            self.focus.has_focus
        } else {
            granted
        })
    }

    /// The right that is held once a command was looked at.
    pub open spec fn focus_after(self, command: AppCommand, granted: bool) -> AndroidMediaFocus {
        if self.needs_sound(command) { self.focus.asked(granted) } else { self.focus }
    }
}

impl AndroidHost {
    pub open spec fn wf(self) -> bool {
        self@.wf()
    }

    /// Begins with a state, which may have a session to come back to.
    pub fn new(state: AppState, now: Instant) -> (host: Self)
        requires
            state.wf(),
        ensures
            host.wf(),
            host@.state == (App {
                sessions: crate::app::sessions::Kept { startup: None, ..state@.sessions },
                ..state@
            }),
            host@.startup == (match state@.sessions.startup {
                Some(session) => Some(
                    Video {
                        start_time: if session.position.nanos == 0 {
                            None
                        } else {
                            Some(session.position)
                        },
                        ..session.source
                    },
                ),
                None => None,
            }),
            host@.focus == AndroidMediaFocus::none(),
            host@.screen == (AndroidScreenOn { enabled: false, foreground: false }),
            host@.repaint == (RepaintSignal { deadline: Some(now) }),
            !host@.focused && !host@.input_available && !host@.fullscreen && host@.running,
            host@.last_update == now,
    {
        let mut state = state;
        let startup_source = state.take_startup_session_source();
        AndroidHost {
            state,
            startup_source,
            media_focus: AndroidMediaFocus::new(),
            screen_on: AndroidScreenOn::new(),
            repaint: RepaintSignal::new(now),
            focused: false,
            input_available: false,
            fullscreen: false,
            running: true,
            last_update: now,
        }
    }

    fn request_repaint(&mut self, now: Instant)
        ensures
            final(self)@ == old(self)@.repainting(now),
            final(self).state == old(self).state,
            final(self).media_focus == old(self).media_focus,
    {
        self.repaint.request(Duration::zero(), now);
    }

    /// Gives up the right to make a sound.
    fn give_up(&mut self, actions: &mut Vec<HostAction>)
        ensures
            final(self)@ == (Host { focus: AndroidMediaFocus::none(), ..old(self)@ }),
            final(self).state == old(self).state,
            final(actions)@ == old(actions)@ + giving_up(old(self)@.focus),
    {
        if self.media_focus.abandon() {
            actions.push(HostAction::AbandonFocus);
        }
        assert(actions@ =~= old(actions)@ + giving_up(old(self)@.focus));
    }

    /// Takes note of whether the player is in sight.
    fn set_foreground(&mut self, foreground: bool, actions: &mut Vec<HostAction>)
        ensures
            final(self)@ == old(self)@.in_sight(foreground),
            final(self).state == old(self).state,
            final(self).media_focus == old(self).media_focus,
            final(actions)@ == with_screen(old(actions)@, final(self)@.screen_change()),
    {
        match self.screen_on.set_foreground(&self.state, foreground) {
            Some(keep) => actions.push(HostAction::KeepScreenOn(keep)),
            None => {},
        }
    }

    /// Ends the activity.
    fn destroy(&mut self, now: Instant) -> (actions: Vec<HostAction>)
        ensures
            final(self)@ == old(self)@.handled(HostEvent::Destroy, now),
            actions@ == old(self)@.actions(HostEvent::Destroy, now),
            old(self).wf() ==> final(self).wf(),
    {
        let mut actions: Vec<HostAction> = Vec::new();
        self.state.flush_persistence_for_background(now);
        actions.push(
            HostAction::SendPositions(
                now.after(Duration { nanos: SHUTDOWN_POSITION_FLUSH_BUDGET_NANOS }),
            ),
        );
        self.give_up(&mut actions);
        self.set_foreground(false, &mut actions);
        self.running = false;
        actions.push(HostAction::ShutDownMedia);
        actions.push(HostAction::DisableDirectPresentation);
        actions.push(HostAction::DropGpu);
        actions
    }

    /// Goes out of sight.
    fn go_out_of_sight(&mut self, now: Instant) -> (actions: Vec<HostAction>)
        ensures
            final(self)@ == old(self)@.handled(HostEvent::Pause, now),
            final(self)@ == old(self)@.handled(HostEvent::Stop, now),
            actions@ == old(self)@.actions(HostEvent::Pause, now),
            actions@ == old(self)@.actions(HostEvent::Stop, now),
            old(self).wf() ==> final(self).wf(),
    {
        let mut actions: Vec<HostAction> = Vec::new();
        self.state.pause_for_background(now);
        self.give_up(&mut actions);
        assert(actions@ =~= giving_up(old(self)@.focus));
        self.set_foreground(false, &mut actions);
        actions
    }

    /// Takes note of an event that changes nothing about playback.
    fn change_window(&mut self, event: HostEvent, now: Instant) -> (actions: Vec<HostAction>)
        requires
            !(event is Destroy || event is Pause || event is Stop || event is SaveState),
        ensures
            final(self)@ == old(self)@.handled(event, now),
            actions@ == old(self)@.actions(event, now),
            final(self).state == old(self).state,
            final(self).media_focus == old(self).media_focus,
    {
        let mut actions: Vec<HostAction> = Vec::new();
        match event {
            HostEvent::InitWindow => actions.push(HostAction::AttachWindow),
            HostEvent::TerminateWindow => actions.push(HostAction::DetachWindow),
            HostEvent::WindowResized => {
                actions.push(HostAction::ResizeWindow);
                self.request_repaint(now);
            },
            HostEvent::InputAvailable => {
                self.input_available = true;
            },
            HostEvent::GainedFocus => {
                self.focused = true;
                actions.push(HostAction::SetFullscreen(self.fullscreen));
                self.request_repaint(now);
            },
            HostEvent::LostFocus => {
                self.focused = false;
                self.request_repaint(now);
            },
            HostEvent::Resume => {
                self.set_foreground(true, &mut actions);
                self.request_repaint(now);
            },
            HostEvent::RedrawNeeded
            | HostEvent::ContentRectChanged
            | HostEvent::InsetsChanged
            | HostEvent::ConfigChanged
            | HostEvent::Start => self.request_repaint(now),
            _ => {},
        }
        actions
    }

    /// Takes note of an event, and says what is to be done.
    pub fn handle(&mut self, event: HostEvent, now: Instant) -> (actions: Vec<HostAction>)
        ensures
            final(self)@ == old(self)@.handled(event, now),
            actions@ == old(self)@.actions(event, now),
            old(self).wf() ==> final(self).wf(),
    {
        match event {
            HostEvent::Destroy => self.destroy(now),
            HostEvent::Pause | HostEvent::Stop => self.go_out_of_sight(now),
            HostEvent::SaveState => {
                self.state.flush_persistence_for_background(now);
                Vec::new()
            },
            _ => self.change_window(event, now),
        }
    }

    /// Takes note of whether a new window can be drawn in, and begins with the video that
    /// waited for it.
    pub fn window_attached(&mut self, attached: bool, now: Instant) -> (actions: Vec<HostAction>)
        ensures
            ({
                let before = old(self)@;
                let after = final(self)@;
                if attached && before.startup is Some {
                    &&& exists|source: VideoSource|
                        {
                            &&& before.startup == Some(source@)
                            &&& #[trigger] before.state.plays_on(
                                AppCommand::OpenVideo(source),
                                now,
                                after.state.playback,
                            )
                            &&& after == (Host {
                                startup: None,
                                state: before.state.applied(
                                    AppCommand::OpenVideo(source),
                                    now,
                                    after.state.playback,
                                ),
                                ..before
                            }).repainting(now)
                        }
                } else {
                    after == before.repainting(now)
                }
            }),
            actions@ == (if attached {
                Seq::<HostAction>::empty()
            } else {
                Seq::<HostAction>::empty().push(HostAction::DisableDirectPresentation)
            }).push(HostAction::SetFullscreen(old(self)@.fullscreen)),
            old(self).wf() ==> final(self).wf(),
    {
        let mut actions: Vec<HostAction> = Vec::new();
        if !attached {
            actions.push(HostAction::DisableDirectPresentation);
        } else {
            let mut source: Option<VideoSource> = None;
            std::mem::swap(&mut source, &mut self.startup_source);
            if let Some(source) = source {
                let _ = self.state.apply(AppCommand::OpenVideo(source), now);
            }
        }
        actions.push(HostAction::SetFullscreen(self.fullscreen));
        self.request_repaint(now);
        actions
    }

    /// Takes note of what Android says of the sound, and of the wake-ups of playback.
    pub fn wake(&mut self, events: &Vec<AndroidMediaEvent>, now: Instant) -> (actions: Vec<HostAction>)
        ensures
            final(self)@ == old(self)@.woken(events@, now),
            actions@ == with_screen(
                old(self)@.sound_actions(events@, now),
                old(self)@.sounded(events@, now).screen_change(),
            ),
            old(self).wf() ==> final(self).wf(),
    {
        let mut actions: Vec<HostAction> = Vec::new();
        let mut i: usize = 0;
        assert(events@.take(0) =~= Seq::<AndroidMediaEvent>::empty());
        while i < events.len()
            invariant
                i <= events.len(),
                self@ == old(self)@.sounded(events@.take(i as int), now),
                actions@ == old(self)@.sound_actions(events@.take(i as int), now),
                old(self).wf() ==> self.wf(),
            decreases events.len() - i,
        {
            assert(events@.take(i + 1).drop_last() =~= events@.take(i as int));
            assert(events@.take(i + 1).last() == events@[i as int]);
            if self.media_focus.handle_event(&mut self.state, events[i], now) {
                actions.push(HostAction::AbandonFocus);
            }
            i += 1;
        }
        assert(events@.take(events@.len() as int) =~= events@);
        match self.screen_on.sync(&self.state) {
            Some(keep) => actions.push(HostAction::KeepScreenOn(keep)),
            None => {},
        }
        let wakes = self.state.take_playback_wakes();
        if events.len() > 0 || !wakes.is_empty() {
            self.request_repaint(now);
        }
        actions
    }

    /// Takes note of whether Android did as it was told about the screen.
    pub fn screen_told(&mut self, keep: bool, done: bool)
        ensures
            final(self)@ == (Host {
                screen: if done {
                    AndroidScreenOn { enabled: keep, ..old(self)@.screen }
                } else {
                    old(self)@.screen
                },
                ..old(self)@
            }),
            old(self).wf() ==> final(self).wf(),
    {
        self.screen_on.told(keep, done);
    }

    /// What Android is to be told about the screen, if anything.
    pub fn sync_screen(&self) -> (change: Option<bool>)
        ensures
            change == self@.screen_change(),
    {
        self.screen_on.sync(&self.state)
    }

    /// Whether Android has to be asked for the right to make a sound, as playback stands.
    pub fn must_ask_for_focus(&self) -> (must: bool)
        ensures
            must == self@.focus.must_ask(self@.state.playback.state()),
    {
        self.media_focus.needs_request() && matches!(
            self.state.playback_state(),
            PlaybackState::Playing
        )
    }

    /// Brings the right to make a sound in line with playback. Whether Android has to be told
    /// that it is given up.
    pub fn sync_focus(&mut self, granted: bool, now: Instant) -> (tell: bool)
        ensures
            ({
                let before = old(self)@;
                let playback = before.state.playback.state();
                let held = if before.focus.request_active {
                    before.focus.has_focus
                } else {
                    granted
                };
                &&& final(self)@ == (Host {
                    focus: if playback is Playing {
                        before.focus.asked(granted)
                    } else if before.focus.is_useless(playback) {
                        AndroidMediaFocus::none()
                    } else {
                        before.focus
                    },
                    state: if playback is Playing && !held {
                        before.state.interrupted(now)
                    } else {
                        before.state
                    },
                    ..before
                })
                &&& tell == (before.focus.is_useless(playback) && before.focus.request_active)
            }),
            old(self).wf() ==> final(self).wf(),
    {
        self.media_focus.sync_playback_state(&mut self.state, granted, now)
    }

    /// How long the player can be left alone.
    pub fn state_timeout(&self, now: Instant) -> (timeout: Option<Duration>)
        ensures
            timeout == self@.state_timeout(now),
    {
        let animation: Option<Duration> = if self.state.needs_animation() {
            Some(Duration { nanos: ANIMATION_FRAME_INTERVAL_NANOS })
        } else {
            None
        };
        let timeout = min_timeout(animation, time_to(self.state.playback_wake_deadline(now), now));
        min_timeout(timeout, time_to(self.state.persistence_wake_deadline(now), now))
    }

    /// How long Android may take to tell the next event.
    pub fn poll_timeout(&self, now: Instant) -> (timeout: Option<Duration>)
        ensures
            timeout == shorter(wait_for(self@.repaint.deadline, now), self@.state_timeout(now)),
    {
        min_timeout(self.repaint.timeout(now), self.state_timeout(now))
    }

    /// Whether the player has something to show.
    pub fn state_due(&self, now: Instant) -> (due: bool)
        ensures
            due == self@.state_due(now),
    {
        let playback: bool = match self.state.playback_wake_deadline(now) {
            Some(deadline) => deadline.nanos <= now.nanos,
            None => false,
        };
        let persistence: bool = match self.state.persistence_wake_deadline(now) {
            Some(deadline) => deadline.nanos <= now.nanos,
            None => false,
        };
        self.state.needs_animation() || playback || persistence
    }

    /// Goes on once every event is dealt with and the input is read; whether a frame is due,
    /// which then is no longer wanted.
    pub fn settle(&mut self, now: Instant) -> (draw: bool)
        ensures
            draw == old(self)@.settled(now).repaint.is_due(now),
            final(self)@ == (if draw {
                Host { repaint: RepaintSignal { deadline: None }, ..old(self)@.settled(now) }
            } else {
                old(self)@.settled(now)
            }),
            old(self).wf() ==> final(self).wf(),
    {
        if self.input_available {
            self.input_available = false;
            self.request_repaint(now);
        }
        if self.state_due(now) {
            self.request_repaint(now);
        }
        self.repaint.take_if_due(now)
    }

    /// Lets the time pass up to a frame.
    pub fn update_state_at(&mut self, now: Instant, events: UpdateEvents)
        requires
            old(self).wf(),
        ensures
            final(self)@ == old(self)@.updated(now, events@),
            final(self).wf(),
    {
        self.state.update(now.saturating_duration_since(self.last_update), now, events);
        self.last_update = now;
    }

    /// Takes note of a frame that was drawn, with commands from the user or none.
    pub fn frame_painted(&mut self, commanded: bool, repaint_delay: Option<Duration>, now: Instant)
        ensures
            final(self)@ == old(self)@.painted(commanded, repaint_delay, now),
            old(self).wf() ==> final(self).wf(),
    {
        if commanded {
            self.request_repaint(now);
        }
        match repaint_delay {
            Some(delay) => {
                if delay.nanos != MAX_NANOS {
                    self.repaint.request(delay, now);
                }
            },
            None => {},
        }
    }

    /// Takes note of a frame that could not be drawn, and tries again soon.
    pub fn frame_missed(&mut self, now: Instant)
        ensures
            final(self)@ == (Host {
                repaint: old(self)@.repaint.requested(
                    Duration { nanos: ANIMATION_FRAME_INTERVAL_NANOS },
                    now,
                ),
                ..old(self)@
            }),
            old(self).wf() ==> final(self).wf(),
    {
        self.repaint.request(Duration { nanos: ANIMATION_FRAME_INTERVAL_NANOS }, now);
    }

    /// Whether Android has to be asked for the right to make a sound before a command.
    pub fn must_ask_before(&self, command: &AppCommand) -> (must: bool)
        ensures
            must == (self@.needs_sound(*command) && !self@.focus.request_active),
    {
        starts_playback(command, &self.state.playback_state()) && self.media_focus.needs_request()
    }

    /// Carries a command out, unless it would make a sound without the right to; how the
    /// screen is to be filled, if that changes.
    pub fn apply_command(&mut self, command: AppCommand, granted: bool, now: Instant) -> (carried: (
        bool,
        Option<bool>,
    ))
        ensures
            ({
                let before = old(self)@;
                let after = final(self)@;
                let toggles = command is ToggleFullscreen && !before.state.is_blocked(command);
                &&& carried.0 == before.is_let_through(command, granted)
                &&& if carried.0 {
                    &&& before.state.plays_on(command, now, after.state.playback)
                    &&& after == (Host {
                        state: before.state.applied(command, now, after.state.playback),
                        focus: before.focus_after(command, granted),
                        fullscreen: before.fullscreen != toggles,
                        ..before
                    })
                    &&& carried.1 == (if toggles { Some(!before.fullscreen) } else { None })
                } else {
                    &&& after == (Host { focus: before.focus_after(command, granted), ..before })
                    &&& carried.1 is None
                }
            }),
            old(self).wf() ==> final(self).wf(),
    {
        if starts_playback(&command, &self.state.playback_state()) {
            if !self.media_focus.ensure_focus(granted) {
                return (false, None);
            }
        }
        let effect = self.state.apply(command, now);
        if matches!(effect, Some(AppEffect::ToggleFullscreen)) {
            self.fullscreen = !self.fullscreen;
            (true, Some(self.fullscreen))
        } else {
            (true, None)
        }
    }
}

/// The player makes no sound without the right to: a command that would is not carried out.
pub proof fn no_sound_without_the_right(host: Host, command: AppCommand)
    requires
        host.needs_sound(command),
        host.focus.wf(),
        !host.focus.has_focus,
    ensures
        !host.is_let_through(command, false),
{
}

/// A player that is out of sight neither plays on by itself nor holds the right to, and lets
/// the screen sleep.
pub proof fn hidden_player_is_still(host: Host, now: Instant, event: HostEvent, sound: AndroidMediaEvent)
    requires
        event is Pause || event is Stop || event is Destroy,
    ensures
        !host.handled(event, now).focus.request_active,
        !host.handled(event, now).focus.resumes(sound),
        !host.handled(event, now).screen.desired(host.handled(event, now).state.playback.state()),
{
}

/// As long as something is to be shown, the activity does not sleep past it.
pub proof fn frames_are_not_slept_through(host: Host, now: Instant)
    ensures
        host.repaint.deadline matches Some(deadline) ==> shorter(
            wait_for(host.repaint.deadline, now),
            host.state_timeout(now),
        ) matches Some(timeout) && timeout.nanos <= deadline.since(now).nanos,
        host.state.playback.wake_deadline(now) matches Some(deadline) ==> host.state_timeout(
            now,
        ) matches Some(timeout) && timeout.nanos <= deadline.since(now).nanos,
        host.state.saves.wake_deadline(now) matches Some(deadline) ==> host.state_timeout(
            now,
        ) matches Some(timeout) && timeout.nanos <= deadline.since(now).nanos,
{
}

/// Out of sight the video stands, and the right to sound and the screen are let go. When the
/// application ends, two seconds are taken to send the positions.
pub proof fn player_out_of_sight_lets_go(host: Host, now: Instant)
    requires
        now.nanos + 2_000_000_000 <= u128::MAX,
    ensures
        ({
            let after = host.handled(HostEvent::Pause, now);
            &&& after == host.handled(HostEvent::Stop, now)
            &&& after.state == host.state.backgrounded(now)
            &&& after.focus == AndroidMediaFocus::none()
            &&& !after.screen.foreground
            &&& after.running == host.running
            &&& host.focus.request_active ==> host.actions(HostEvent::Pause, now).contains(
                HostAction::AbandonFocus,
            )
        }),
        ({
            let after = host.handled(HostEvent::Destroy, now);
            let actions = host.actions(HostEvent::Destroy, now);
            &&& !after.running
            &&& after.state == host.state.session_flushed(now).save_forced(now)
            &&& actions.len() > 0
            &&& actions[0] matches HostAction::SendPositions(deadline) && deadline.nanos
                == now.nanos + 2_000_000_000
            &&& actions.contains(HostAction::ShutDownMedia)
            &&& actions.last() == HostAction::DropGpu
        }),
        host.handled(HostEvent::SaveState, now).state == host.state.session_flushed(
            now,
        ).save_forced(now),
        host.handled(HostEvent::SaveState, now).running == host.running,
{
    let pausing = host.actions(HostEvent::Pause, now);
    let ending = host.actions(HostEvent::Destroy, now);
    if host.focus.request_active {
        assert(pausing[0] == HostAction::AbandonFocus);
    }
    assert(ending[ending.len() - 3] == HostAction::ShutDownMedia);
}

/// In sight again, and whenever something about the window changes, it is drawn anew at once.
pub proof fn changed_windows_are_drawn_anew(host: Host, event: HostEvent, now: Instant)
    requires
        event is Resume || event is GainedFocus || event is LostFocus || event is WindowResized
            || event is RedrawNeeded || event is ContentRectChanged || event is InsetsChanged
            || event is ConfigChanged || event is Start,
    ensures
        host.handled(event, now).repaint.is_due(now),
        host.handled(event, now).state == host.state,
        event is Resume ==> host.handled(event, now).screen.foreground,
        event is GainedFocus ==> host.handled(event, now).focused,
        event is LostFocus ==> !host.handled(event, now).focused,
{
}

/// What the system says of the sound stops the video or has it go on.
pub proof fn video_follows_the_right_to_sound(host: Host, event: AndroidMediaEvent, now: Instant)
    ensures
        ({
            let after = host.sounded(seq![event], now);
            &&& host.focus.stops(event) ==> after.state == host.state.interrupted(now)
            &&& !host.focus.stops(event) && host.focus.resumes(event) ==> after.state
                == host.state.uninterrupted(now)
            &&& !host.focus.stops(event) && !host.focus.resumes(event) ==> after.state == host.state
            &&& after.focus == host.focus.informed(event, host.state.playback.wants_to_play())
            &&& host.sound_actions(seq![event], now).len() == if host.focus.gives_back(event) {
                1nat
            } else {
                0nat
            }
        }),
        host.sounded(Seq::empty(), now) == host,
{
    let events = seq![event];
    assert(events.drop_last() =~= Seq::<AndroidMediaEvent>::empty());
    assert(host.sounded(events.drop_last(), now) == host);
    assert(host.sound_actions(events.drop_last(), now) == Seq::<HostAction>::empty());
}

/// A command that starts sound is carried out if the right to it is there or is granted; all
/// others are in any case.
pub proof fn sound_starts_with_the_right_to_it(host: Host, command: AppCommand, granted: bool)
    ensures
        !host.needs_sound(command) ==> host.is_let_through(command, granted),
        host.needs_sound(command) && host.focus.request_active ==> host.is_let_through(
            command,
            granted,
        ) == host.focus.has_focus,
        host.needs_sound(command) && !host.focus.request_active ==> host.is_let_through(
            command,
            granted,
        ) == granted,
        host.needs_sound(AppCommand::Play) <==> host.state.playback.state() is Paused
            || host.state.playback.state() is Seeking,
        host.needs_sound(AppCommand::TogglePlayback) <==> host.state.playback.state() is Paused,
{
}

/// While something moves, it is waited for sixteen milliseconds at most.
pub proof fn animations_are_not_slept_through(host: Host, now: Instant)
    requires
        host.state.is_animated(),
    ensures
        host.state_timeout(now) matches Some(timeout) && timeout.nanos <= 16_000_000,
        host.settled(now).repaint.is_due(now),
{
}

/// Each update lets pass the time since the last one.
pub proof fn updates_let_time_pass(host: Host, now: Instant, events: Events)
    requires
        host.last_update.nanos <= now.nanos,
    ensures
        ({
            let after = host.updated(now, events);
            let elapsed = Duration { nanos: (now.nanos - host.last_update.nanos) as u128 };
            after.state == host.state.updated(elapsed, now, events) && after.last_update == now
        }),
{
}

} // verus!
