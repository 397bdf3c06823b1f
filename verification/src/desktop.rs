//! The player in a window on a desktop: when it is drawn, what its title says and how long
//! it can wait.

use crate::app::sessions::Kept;
use crate::app::state::{App, AppEffect, AppState};
use crate::app::update::{Events, UpdateEvents};
use crate::app::views;
use crate::input;
use crate::input::{command_for_key, KeyCode};
use crate::model::AppCommand;
use crate::persistence;
use crate::playback::decode_mode::DecodeMode;
use crate::playback::wake::{PendingPlaybackWakes, PlaybackWake, PlaybackWakeKind};
use crate::surface::RenderStatus;
use crate::time::{Duration, Instant};
use crate::video::{Video, VideoSource};
use vstd::prelude::*;

verus! {

/// What other threads tell the window.
#[derive(Clone, Copy, Debug, PartialEq, Eq, Structural)]
pub enum AppEvent {
    PlaybackWake,
}

/// The time between two frames of an animation: 16 ms.
pub const ANIMATION_FRAME_INTERVAL_NANOS: u128 = 16_000_000;

/// The time between two reports on rendering: one second.
pub const RENDER_DIAGNOSTIC_INTERVAL_NANOS: u128 = 1_000_000_000;

/// The time that is left to send the position once the window closes: two seconds.
pub const SHUTDOWN_POSITION_FLUSH_BUDGET_NANOS: u128 = 2_000_000_000;

/// How evenly frames are drawn, since the last report.
#[derive(Clone, Copy, Debug, PartialEq, Eq, Structural)]
pub struct RenderDiagnostics {
    pub last_redraw: Option<Instant>,
    pub last_report: Instant,
    pub redraws: u64,
    pub gaps_over_20ms: u64,
    pub gaps_over_33ms: u64,
    pub max_gap: Duration,
    pub redraw_work_total: Duration,
    pub max_redraw_work: Duration,
}

/// How evenly frames were drawn in the course of `interval`.
#[derive(Clone, Copy, Debug, PartialEq, Eq, Structural)]
pub struct RenderReport {
    pub interval: Duration,
    pub redraws: u64,
    pub gaps_over_20ms: u64,
    pub gaps_over_33ms: u64,
    pub max_gap: Duration,
    pub redraw_work_total: Duration,
    pub max_redraw_work: Duration,
}

/// One more, as far as 64 bits go.
pub open spec fn counted(n: u64) -> u64 {
    if n == u64::MAX { n } else { (n + 1) as u64 }
}

fn count(n: u64) -> (more: u64)
    ensures
        more == counted(n),
{
    if n == u64::MAX { n } else { n + 1 }
}

/// The longer of two spans.
pub open spec fn longer(a: Duration, b: Duration) -> Duration {
    if a.nanos < b.nanos { b } else { a }
}

fn longer_of(a: Duration, b: Duration) -> (l: Duration)
    ensures
        l == longer(a, b),
{
    if a.nanos < b.nanos { b } else { a }
}

impl RenderDiagnostics {
    /// Nothing drawn since a report at `now`.
    pub open spec fn empty(last_redraw: Option<Instant>, now: Instant) -> Self {
        RenderDiagnostics {
            last_redraw,
            last_report: now,
            redraws: 0,
            gaps_over_20ms: 0,
            gaps_over_33ms: 0,
            max_gap: Duration { nanos: 0 },
            redraw_work_total: Duration { nanos: 0 },
            max_redraw_work: Duration { nanos: 0 },
        }
    }

    /// A frame begun at `now`.
    pub open spec fn begun(self, now: Instant) -> Self {
        let counted_frame = RenderDiagnostics {
            last_redraw: Some(now),
            redraws: counted(self.redraws),
            ..self
        };
        match self.last_redraw {
            Some(last) => {
                let gap = now.since(last);
                RenderDiagnostics {
                    gaps_over_20ms: if gap.nanos > 20_000_000 {
                        counted(self.gaps_over_20ms)
                    } else {
                        self.gaps_over_20ms
                    },
                    gaps_over_33ms: if gap.nanos > 33_000_000 {
                        counted(self.gaps_over_33ms)
                    } else {
                        self.gaps_over_33ms
                    },
                    max_gap: longer(self.max_gap, gap),
                    ..counted_frame
                }
            },
            None => counted_frame,
        }
    }

    /// The work on a frame added to what was counted.
    pub open spec fn worked(self, started: Instant, finished: Instant) -> Self {
        RenderDiagnostics {
            redraw_work_total: self.redraw_work_total.plus(finished.since(started)),
            max_redraw_work: longer(self.max_redraw_work, finished.since(started)),
            ..self
        }
    }

    /// What is reported at `finished`: nothing within a second of the last report.
    pub open spec fn report(self, finished: Instant) -> Option<RenderReport> {
        let interval = finished.since(self.last_report);
        if interval.nanos < RENDER_DIAGNOSTIC_INTERVAL_NANOS {
            None
        } else {
            Some(
                RenderReport {
                    interval,
                    redraws: self.redraws,
                    gaps_over_20ms: self.gaps_over_20ms,
                    gaps_over_33ms: self.gaps_over_33ms,
                    max_gap: self.max_gap,
                    redraw_work_total: self.redraw_work_total,
                    max_redraw_work: self.max_redraw_work,
                },
            )
        }
    }

    pub fn new(now: Instant) -> (diagnostics: Self)
        ensures
            diagnostics == Self::empty(None, now),
    {
        RenderDiagnostics {
            last_redraw: None,
            last_report: now,
            redraws: 0,
            gaps_over_20ms: 0,
            gaps_over_33ms: 0,
            max_gap: Duration::zero(),
            redraw_work_total: Duration::zero(),
            max_redraw_work: Duration::zero(),
        }
    }

    pub fn begin_redraw(&mut self, now: Instant)
        ensures
            *final(self) == old(self).begun(now),
    {
        if let Some(last_redraw) = self.last_redraw {
            let gap = now.saturating_duration_since(last_redraw);
            if gap.nanos > 20_000_000 {
                self.gaps_over_20ms = count(self.gaps_over_20ms);
            }
            if gap.nanos > 33_000_000 {
                self.gaps_over_33ms = count(self.gaps_over_33ms);
            }
            self.max_gap = longer_of(self.max_gap, gap);
        }
        self.last_redraw = Some(now);
        self.redraws = count(self.redraws);
    }

    /// Counts the work on a frame, and reports what was counted once a second.
    pub fn finish_redraw(&mut self, started: Instant, finished: Instant) -> (report: Option<
        RenderReport,
    >)
        ensures
            report == old(self).worked(started, finished).report(finished),
            *final(self) == (if report is Some {
                Self::empty(old(self).last_redraw, finished)
            } else {
                old(self).worked(started, finished)
            }),
    {
        let redraw_work = finished.saturating_duration_since(started);
        self.redraw_work_total = self.redraw_work_total.saturating_add(redraw_work);
        self.max_redraw_work = longer_of(self.max_redraw_work, redraw_work);
        let interval = finished.saturating_duration_since(self.last_report);
        if interval.nanos < RENDER_DIAGNOSTIC_INTERVAL_NANOS {
            return None;
        }
        let report = RenderReport {
            interval,
            redraws: self.redraws,
            gaps_over_20ms: self.gaps_over_20ms,
            gaps_over_33ms: self.gaps_over_33ms,
            max_gap: self.max_gap,
            redraw_work_total: self.redraw_work_total,
            max_redraw_work: self.max_redraw_work,
        };
        let last_redraw = self.last_redraw;
        *self = RenderDiagnostics::new(finished);
        self.last_redraw = last_redraw;
        Some(report)
    }

    pub fn reset(&mut self, now: Instant)
        ensures
            *final(self) == Self::empty(None, now),
    {
        *self = RenderDiagnostics::new(now);
    }
}

/// Gaps over 33 ms are among the gaps over 20 ms, whatever is counted.
pub proof fn long_gaps_are_gaps(diagnostics: RenderDiagnostics, now: Instant)
    requires
        diagnostics.gaps_over_33ms <= diagnostics.gaps_over_20ms,
    ensures
        diagnostics.begun(now).gaps_over_33ms <= diagnostics.begun(now).gaps_over_20ms,
{
}

/// Two reports are at least a second apart.
pub proof fn reports_keep_their_distance(
    diagnostics: RenderDiagnostics,
    finished: Instant,
    later: Instant,
)
    requires
        diagnostics.report(finished) is Some,
        later.nanos < finished.nanos + RENDER_DIAGNOSTIC_INTERVAL_NANOS,
    ensures
        RenderDiagnostics::empty(diagnostics.last_redraw, finished).report(later) is None,
{
}

/// The earlier of two points in time.
pub open spec fn earlier(a: Option<Instant>, b: Option<Instant>) -> Option<Instant> {
    match (a, b) {
        (Some(a), Some(b)) => Some(if b.nanos < a.nanos { b } else { a }),
        (Some(a), None) => Some(a),
        (None, b) => b,
    }
}

fn earlier_of(a: Option<Instant>, b: Option<Instant>) -> (e: Option<Instant>)
    ensures
        e == earlier(a, b),
{
    match a {
        Some(at) => match b {
            Some(other) => Some(if other.nanos < at.nanos { other } else { at }),
            None => Some(at),
        },
        None => b,
    }
}

/// Whether a point in time has come.
pub open spec fn is_due(when: Option<Instant>, now: Instant) -> bool {
    when matches Some(when) && now.nanos >= when.nanos
}

fn due(when: Option<Instant>, now: Instant) -> (due: bool)
    ensures
        due == is_due(when, now),
{
    match when {
        Some(when) => now.nanos >= when.nanos,
        None => false,
    }
}

/// A point in time, if it is still to come.
pub open spec fn ahead(when: Option<Instant>, now: Instant) -> Option<Instant> {
    if is_due(when, now) { None } else { when }
}

/// What the event loop does next.
#[derive(Clone, Copy, Debug, PartialEq, Eq, Structural)]
pub enum ControlFlow {
    /// Draw the window, then look again at once.
    Redraw,
    WaitUntil(Instant),
    Wait,
}

/// What is to be done to the window.
#[derive(Debug)]
pub struct WindowUpdate {
    pub toggle_fullscreen: bool,
    pub title: Option<String>,
    pub redraw: bool,
}

/// What is to be done to the window, as values.
pub struct WindowChange {
    pub toggle_fullscreen: bool,
    pub title: Option<Seq<char>>,
    pub redraw: bool,
}

impl View for WindowUpdate {
    type V = WindowChange;

    open spec fn view(&self) -> WindowChange {
        WindowChange {
            toggle_fullscreen: self.toggle_fullscreen,
            title: match self.title {
                Some(title) => Some(title@),
                None => None,
            },
            redraw: self.redraw,
        }
    }
}

/// What happens to the window.
#[derive(Clone, Copy, Debug, PartialEq, Eq, Structural)]
pub enum WindowEvent {
    CloseRequested,
    Destroyed,
    Resized,
    RedrawRequested,
    /// A key, where it is one that has a place on the keyboard.
    Key { code: Option<KeyCode>, pressed: bool, repeat: bool },
    Other,
}

/// What is done about it.
#[derive(Clone, Copy, Debug, PartialEq, Eq, Structural)]
pub enum WindowAction {
    Shutdown,
    Resize,
    Render,
    Key(Option<KeyCode>),
    RequestRedraw,
}

/// What is done about an event that the widgets have seen, and may have used up.
pub open spec fn action(event: WindowEvent, consumed: bool) -> WindowAction {
    match event {
        WindowEvent::CloseRequested | WindowEvent::Destroyed => WindowAction::Shutdown,
        WindowEvent::Resized => WindowAction::Resize,
        WindowEvent::RedrawRequested => WindowAction::Render,
        WindowEvent::Key { code, pressed, repeat } => if !consumed && pressed && !repeat {
            WindowAction::Key(code)
        } else {
            WindowAction::RequestRedraw
        },
        WindowEvent::Other => WindowAction::RequestRedraw,
    }
}

pub fn window_action(event: WindowEvent, consumed: bool) -> (done: WindowAction)
    ensures
        done == action(event, consumed),
{
    match event {
        WindowEvent::CloseRequested | WindowEvent::Destroyed => WindowAction::Shutdown,
        WindowEvent::Resized => WindowAction::Resize,
        WindowEvent::RedrawRequested => WindowAction::Render,
        WindowEvent::Key { code, pressed, repeat } => if !consumed && pressed && !repeat {
            WindowAction::Key(code)
        } else {
            WindowAction::RequestRedraw
        },
        WindowEvent::Other => WindowAction::RequestRedraw,
    }
}

/// The player and its window.
pub struct SanctuaryPlayerApp {
    pub state: AppState,
    pub initial_video: Option<VideoSource>,
    pub initial_autoplay: bool,
    pub has_window: bool,
    pub last_update: Instant,
    pub next_animation_frame: Instant,
    pub next_egui_repaint: Option<Instant>,
    pub render_diagnostics: RenderDiagnostics,
    pub window_title: String,
}

/// The player and its window, as values.
pub struct Desktop {
    pub state: App,
    pub initial_video: Option<Video>,
    pub initial_autoplay: bool,
    pub has_window: bool,
    pub last_update: Instant,
    pub next_animation_frame: Instant,
    pub next_egui_repaint: Option<Instant>,
    pub render_diagnostics: RenderDiagnostics,
    pub window_title: Seq<char>,
}

/// The contents of a video source, if there is one.
pub open spec fn video_view(source: Option<VideoSource>) -> Option<Video> {
    match source {
        Some(source) => Some(source@),
        None => None,
    }
}

impl View for SanctuaryPlayerApp {
    type V = Desktop;

    open spec fn view(&self) -> Desktop {
        Desktop {
            state: self.state@,
            initial_video: video_view(self.initial_video),
            initial_autoplay: self.initial_autoplay,
            has_window: self.has_window,
            last_update: self.last_update,
            next_animation_frame: self.next_animation_frame,
            next_egui_repaint: self.next_egui_repaint,
            render_diagnostics: self.render_diagnostics,
            window_title: self.window_title@,
        }
    }
}

impl Desktop {
    /// Nothing loaded, and no window.
    pub open spec fn is_initial(self, decode_mode: DecodeMode, now: Instant) -> bool {
        &&& self.state.is_initial(decode_mode, now)
        &&& self.initial_video is None
        &&& !self.initial_autoplay
        &&& self.is_idle(now)
    }

    /// No window yet, and nothing drawn.
    pub open spec fn is_idle(self, now: Instant) -> bool {
        &&& !self.has_window
        &&& self.last_update == now
        &&& self.next_animation_frame == now
        &&& self.next_egui_repaint is None
        &&& self.render_diagnostics == RenderDiagnostics::empty(None, now)
        &&& self.window_title.len() == 0
    }

    /// What the title says.
    pub open spec fn title(self) -> Seq<char> {
        views::window_title_of(
            match self.state.metadata {
                Some(metadata) => Some(views::safe_title_of(metadata.title)),
                None => None,
            },
        )
    }

    /// The title that is to be set, if it is not the one that is.
    pub open spec fn new_title(self) -> Option<Seq<char>> {
        if self.title() == self.window_title { None } else { Some(self.title()) }
    }

    pub open spec fn titled(self) -> Self {
        Desktop { window_title: self.title(), ..self }
    }

    /// The session that was left, as a video that starts where it was left.
    pub open spec fn restored(self) -> Option<Video> {
        match self.state.sessions.startup {
            Some(session) => Some(
                Video {
                    start_time: if session.position.nanos == 0 {
                        None
                    } else {
                        Some(session.position)
                    },
                    ..session.source
                },
            ),
            None => None,
        }
    }

    /// The video to begin with, and whether it is played at once: one that was asked for
    /// goes before the session that was left, which is never played at once.
    pub open spec fn startup(self) -> Option<(Video, bool)> {
        match self.initial_video {
            Some(source) => Some((source, self.initial_autoplay)),
            None => match self.restored() {
                Some(source) => Some((source, false)),
                None => None,
            },
        }
    }

    /// Without a video to begin with.
    pub open spec fn started(self) -> Self {
        Desktop {
            initial_video: None,
            state: App {
                sessions: Kept { startup: None, ..self.state.sessions },
                ..self.state
            },
            ..self
        }
    }

    pub open spec fn updated(self, now: Instant, events: Events) -> Self {
        Desktop {
            state: self.state.updated(now.since(self.last_update), now, events),
            last_update: now,
            ..self
        }
    }

    pub open spec fn animation_due(self, now: Instant) -> bool {
        self.state.is_animated() && now.nanos >= self.next_animation_frame.nanos
    }

    /// Whether there is something to draw.
    pub open spec fn redraw_due(self, now: Instant) -> bool {
        ||| self.animation_due(now)
        ||| is_due(self.state.playback.wake_deadline(now), now)
        ||| is_due(self.state.saves.wake_deadline(now), now)
        ||| is_due(self.next_egui_repaint, now)
    }

    /// The state once what was due is taken care of.
    pub open spec fn waited(self, now: Instant) -> Self {
        Desktop {
            next_animation_frame: if self.animation_due(now) {
                now.plus(Duration { nanos: ANIMATION_FRAME_INTERVAL_NANOS })
            } else {
                self.next_animation_frame
            },
            next_egui_repaint: ahead(self.next_egui_repaint, now),
            ..self
        }
    }

    /// The next point at which something is due.
    pub open spec fn next_deadline(self, now: Instant) -> Option<Instant> {
        earlier(
            earlier(
                if self.state.is_animated() {
                    ahead(Some(self.next_animation_frame), now)
                } else {
                    None
                },
                ahead(self.state.playback.wake_deadline(now), now),
            ),
            earlier(
                ahead(self.state.saves.wake_deadline(now), now),
                self.next_egui_repaint,
            ),
        )
    }

    /// What the event loop does once every event is dealt with.
    pub open spec fn flow(self, now: Instant) -> ControlFlow {
        if self.redraw_due(now) && self.has_window {
            ControlFlow::Redraw
        } else {
            match self.waited(now).next_deadline(now) {
                Some(deadline) => ControlFlow::WaitUntil(deadline),
                None => ControlFlow::Wait,
            }
        }
    }

    /// Whether wake-ups of playback ask for a new frame.
    pub open spec fn wakes_redraw(self, pending: PendingPlaybackWakes, now: Instant) -> bool {
        pending.has(PlaybackWakeKind::Control) || (pending.has(PlaybackWakeKind::Video) && is_due(
            self.state.playback.wake_deadline(now),
            now,
        ))
    }

    /// When the widgets want to be drawn again after a frame.
    pub open spec fn repaint_at(repaint_after: Option<Duration>, now: Instant) -> Option<Instant> {
        match repaint_after {
            Some(delay) => if delay.nanos == 0 { None } else { Some(now.plus(delay)) },
            None => None,
        }
    }
}

/// The loop never sleeps past the point at which something is due, and never until a
/// point that is already past.
pub proof fn deadlines_are_met(desktop: Desktop, now: Instant, until: Instant)
    requires
        desktop.has_window,
        desktop.flow(now) == ControlFlow::WaitUntil(until),
    ensures
        until.nanos > now.nanos,
        desktop.state.is_animated() ==> until.nanos <= desktop.next_animation_frame.nanos,
        desktop.state.playback.wake_deadline(now) matches Some(deadline) ==> until.nanos
            <= deadline.nanos,
        desktop.state.saves.wake_deadline(now) matches Some(deadline) ==> until.nanos
            <= deadline.nanos,
        desktop.next_egui_repaint matches Some(deadline) ==> until.nanos <= deadline.nanos,
{
}

/// The loop waits without end only when nothing is due at any time.
pub proof fn endless_waits_are_idle(desktop: Desktop, now: Instant)
    requires
        desktop.has_window,
        desktop.flow(now) == ControlFlow::Wait,
    ensures
        !desktop.state.is_animated(),
        desktop.state.playback.wake_deadline(now) is None,
        desktop.state.saves.wake_deadline(now) is None,
        desktop.next_egui_repaint is None,
{
}

/// There is a video to begin with only once.
pub proof fn startup_happens_once(desktop: Desktop)
    ensures
        desktop.started().startup() is None,
{
}

/// A title is set once: after that there is none to set until it changes.
pub proof fn title_is_set_once(desktop: Desktop)
    ensures
        desktop.titled().new_title() is None,
{
}

impl Desktop {
    /// The state with a new window, in which nothing was drawn yet.
    pub open spec fn with_window(self, title: Seq<char>, now: Instant) -> Self {
        Desktop {
            last_update: now,
            next_animation_frame: now,
            next_egui_repaint: None,
            window_title: title,
            has_window: true,
            ..self
        }
    }

    /// The state that is to be played as soon as it is open, where that was asked for.
    pub open spec fn autoplaying(self, autoplay: bool) -> Self {
        Desktop {
            state: App { play_when_opened: autoplay || self.state.play_when_opened, ..self.state },
            ..self
        }
    }

    /// Whether `after` is the state, and `change` what is done to the window, once a command
    /// is carried out.
    pub open spec fn obeys(
        self,
        command: AppCommand,
        now: Instant,
        change: WindowChange,
        after: Desktop,
    ) -> bool {
        let applied = Desktop {
            state: self.state.applied(command, now, after.state.playback),
            ..self
        };
        &&& self.state.plays_on(command, now, after.state.playback)
        &&& after == applied.titled()
        &&& change == (WindowChange {
            toggle_fullscreen: command is ToggleFullscreen && !self.state.is_blocked(command),
            title: applied.new_title(),
            redraw: true,
        })
    }

    /// Whether `after` is the state, and `change` what is done to the window, once the window
    /// is there and the video to begin with, if there is one, is asked for.
    pub open spec fn begins(self, now: Instant, change: WindowChange, after: Desktop) -> bool {
        match self.startup() {
            Some((video, autoplay)) => exists|source: VideoSource|
                {
                    &&& source@ == video
                    &&& #[trigger] self.started().autoplaying(autoplay).obeys(
                        AppCommand::OpenVideo(source),
                        now,
                        change,
                        after,
                    )
                },
            None => {
                &&& after == self.started()
                &&& change == (WindowChange { toggle_fullscreen: false, title: None, redraw: true })
            },
        }
    }

    /// The state at the beginning of a frame.
    pub open spec fn frame_begun(self, now: Instant, events: Events) -> Self {
        Desktop {
            render_diagnostics: if self.state.has_video() {
                self.render_diagnostics.begun(now)
            } else {
                RenderDiagnostics::empty(None, now)
            },
            ..self.updated(now, events)
        }
    }
}

impl SanctuaryPlayerApp {
    pub open spec fn wf(self) -> bool {
        self.state.wf()
    }

    pub fn new(now: Instant) -> (app: Self)
        ensures
            app.wf(),
            app@.is_initial(DecodeMode::Auto, now),
    {
        SanctuaryPlayerApp::with_decode_mode(DecodeMode::platform_default(), now)
    }

    pub fn with_decode_mode(decode_mode: DecodeMode, now: Instant) -> (app: Self)
        ensures
            app.wf(),
            app@.is_initial(decode_mode, now),
    {
        SanctuaryPlayerApp {
            state: AppState::with_decode_mode(decode_mode, now),
            initial_video: None,
            initial_autoplay: false,
            has_window: false,
            last_update: now,
            next_animation_frame: now,
            next_egui_repaint: None,
            render_diagnostics: RenderDiagnostics::new(now),
            window_title: String::new(),
        }
    }

    pub fn with_initial_video(source: VideoSource, now: Instant) -> (app: Self)
        ensures
            app.wf(),
            app@.state.is_initial(DecodeMode::Auto, now),
            app@.initial_video == Some(source@),
            !app@.initial_autoplay,
            app@.is_idle(now),
    {
        SanctuaryPlayerApp::with_initial_video_options(source, false, now)
    }

    pub fn with_initial_video_options(source: VideoSource, autoplay: bool, now: Instant) -> (app: Self)
        ensures
            app.wf(),
            app@.state.is_initial(DecodeMode::Auto, now),
            app@.initial_video == Some(source@),
            app@.initial_autoplay == autoplay,
            app@.is_idle(now),
    {
        SanctuaryPlayerApp::with_initial_video_decode_options(
            source,
            autoplay,
            DecodeMode::platform_default(),
            now,
        )
    }

    pub fn with_initial_video_decode_options(
        source: VideoSource,
        autoplay: bool,
        decode_mode: DecodeMode,
        now: Instant,
    ) -> (app: Self)
        ensures
            app.wf(),
            app@.state.is_initial(decode_mode, now),
            app@.initial_video == Some(source@),
            app@.initial_autoplay == autoplay,
            app@.is_idle(now),
    {
        let mut app = SanctuaryPlayerApp::with_decode_mode(decode_mode, now);
        app.initial_video = Some(source);
        app.initial_autoplay = autoplay;
        app
    }

    /// Keeps the settings in a file, and takes over those that it holds.
    pub fn set_settings_path(&mut self, path: String, read: Result<Option<&str>, &str>) -> (loaded:
        Result<(), String>)
        ensures
            final(self)@ == (Desktop {
                state: old(self)@.state.with_settings(path@, persistence::read_view(read)),
                ..old(self)@
            }),
            match loaded {
                Ok(()) => crate::settings::stored_settings(path@, persistence::read_view(read)) is Ok,
                Err(message) => crate::settings::stored_settings(path@, persistence::read_view(read))
                    == Err::<crate::settings::SettingsView, Seq<char>>(message@),
            },
            old(self).wf() ==> final(self).wf(),
    {
        self.state.set_settings_path(path, read)
    }

    /// Keeps the session in a file, and comes back to the one that it holds.
    pub fn set_session_path(&mut self, path: String, read: Result<Option<&str>, &str>) -> (loaded:
        Result<(), String>)
        ensures
            final(self)@ == (Desktop {
                state: old(self)@.state.with_session(path@, persistence::read_view(read)),
                ..old(self)@
            }),
            match loaded {
                Ok(()) => crate::session::stored_session(path@, persistence::read_view(read)) is Ok,
                Err(message) => crate::session::stored_session(path@, persistence::read_view(read))
                    == Err::<Option<crate::session::Session>, Seq<char>>(message@),
            },
            old(self).wf() ==> final(self).wf(),
    {
        self.state.set_session_path(path, read)
    }

    pub fn set_muted(&mut self, muted: bool)
        ensures
            final(self)@ == (Desktop { state: App { muted, ..old(self)@.state }, ..old(self)@ }),
            old(self).wf() ==> final(self).wf(),
    {
        self.state.set_muted(muted);
    }

    /// Has playback wake the event loop.
    pub fn set_event_proxy(&mut self)
        ensures
            final(self)@ == (Desktop {
                state: App {
                    wake: PlaybackWake { pending: PendingPlaybackWakes::none(), notifies: true },
                    ..old(self)@.state
                },
                ..old(self)@
            }),
            old(self).wf() ==> final(self).wf(),
    {
        self.state.set_playback_wake(PlaybackWake::new());
    }

    /// Writes down what would be lost, and says until when positions may still be sent.
    pub fn flush_persistence_for_shutdown(&mut self, now: Instant) -> (deadline: Instant)
        ensures
            final(self)@ == (Desktop {
                state: old(self)@.state.session_flushed(now).save_forced(now),
                ..old(self)@
            }),
            deadline == now.plus(Duration { nanos: SHUTDOWN_POSITION_FLUSH_BUDGET_NANOS }),
            old(self).wf() ==> final(self).wf(),
    {
        self.state.flush_persistence_for_background(now);
        now.after(Duration { nanos: SHUTDOWN_POSITION_FLUSH_BUDGET_NANOS })
    }

    /// Takes the video to begin with.
    pub fn take_startup_video(&mut self) -> (startup: Option<(VideoSource, bool)>)
        ensures
            final(self)@ == old(self)@.started(),
            match startup {
                Some((source, autoplay)) => old(self)@.startup() == Some((source@, autoplay)),
                None => old(self)@.startup() is None,
            },
            old(self).wf() ==> final(self).wf(),
    {
        let restored = self.state.take_startup_session_source();
        let mut initial: Option<VideoSource> = None;
        std::mem::swap(&mut initial, &mut self.initial_video);
        match initial {
            Some(source) => Some((source, self.initial_autoplay)),
            None => match restored {
                Some(source) => Some((source, false)),
                None => None,
            },
        }
    }

    /// The title to set, where it is not the one that is set.
    pub fn sync_window_title(&mut self) -> (title: Option<String>)
        ensures
            final(self)@ == old(self)@.titled(),
            match title {
                Some(title) => old(self)@.new_title() == Some(title@),
                None => old(self)@.new_title() is None,
            },
            final(self).state == old(self).state,
    {
        let title = self.state.window_title();
        if title == self.window_title {
            None
        } else {
            self.window_title = title.clone();
            Some(title)
        }
    }

    /// Carries a command out.
    pub fn apply_command(&mut self, command: AppCommand, now: Instant) -> (update: WindowUpdate)
        ensures
            old(self)@.obeys(command, now, update@, final(self)@),
            old(self).wf() ==> final(self).wf(),
    {
        let effect = self.state.apply(command, now);
        let toggle_fullscreen: bool = matches!(effect, Some(AppEffect::ToggleFullscreen));
        let title = self.sync_window_title();
        WindowUpdate { toggle_fullscreen, title, redraw: true }
    }

    /// Begins in a window that was opened with `title`.
    pub fn resumed(&mut self, title: String, now: Instant) -> (update: WindowUpdate)
        ensures
            old(self)@.with_window(title@, now).begins(now, update@, final(self)@),
            old(self).wf() ==> final(self).wf(),
    {
        self.last_update = now;
        self.next_animation_frame = now;
        self.next_egui_repaint = None;
        self.window_title = title;
        self.has_window = true;
        let ghost ready = self@;
        match self.take_startup_video() {
            Some((source, autoplay)) => {
                if autoplay {
                    self.state.play_when_opened();
                }
                assert(self@ == ready.started().autoplaying(autoplay));
                self.apply_command(AppCommand::OpenVideo(source), now)
            },
            None => WindowUpdate { toggle_fullscreen: false, title: None, redraw: true },
        }
    }

    /// Lets the window go, and writes down what would be lost.
    pub fn suspended(&mut self, now: Instant)
        ensures
            final(self)@ == (Desktop {
                state: old(self)@.state.session_flushed(now).save_forced(now),
                has_window: false,
                ..old(self)@
            }),
            old(self).wf() ==> final(self).wf(),
    {
        self.state.flush_persistence_for_background(now);
        self.has_window = false;
    }

    /// Lets the window go for good.
    pub fn closed(&mut self)
        ensures
            final(self)@ == (Desktop {
                next_egui_repaint: None,
                has_window: false,
                ..old(self)@
            }),
    {
        self.next_egui_repaint = None;
        self.has_window = false;
    }

    /// Lets the time pass up to `now`.
    pub fn update_state_at(&mut self, now: Instant, events: UpdateEvents)
        requires
            old(self).wf(),
        ensures
            final(self)@ == old(self)@.updated(now, events@),
            final(self).wf(),
    {
        self.state.update(now.saturating_duration_since(self.last_update), now, events);
        self.last_update = now;
    }

    /// Takes the wake-ups of playback: those that there is a window to answer in.
    pub fn user_event(&mut self, event: AppEvent) -> (pending: Option<PendingPlaybackWakes>)
        ensures
            final(self)@ == (Desktop {
                state: App {
                    wake: PlaybackWake {
                        pending: PendingPlaybackWakes::none(),
                        ..old(self)@.state.wake
                    },
                    ..old(self)@.state
                },
                ..old(self)@
            }),
            pending == (if old(self)@.state.wake.pending != PendingPlaybackWakes::none() && old(
                self,
            )@.has_window {
                Some(old(self)@.state.wake.pending)
            } else {
                None
            }),
            old(self).wf() ==> final(self).wf(),
    {
        match event {
            AppEvent::PlaybackWake => {
                let pending = self.state.take_playback_wakes();
                if pending.is_empty() || !self.has_window { None } else { Some(pending) }
            },
        }
    }

    /// Answers the wake-ups of playback.
    pub fn woken(&mut self, pending: PendingPlaybackWakes, now: Instant, events: UpdateEvents) -> (update:
        WindowUpdate)
        requires
            old(self).wf(),
        ensures
            final(self)@ == old(self)@.updated(now, events@).titled(),
            update@ == (WindowChange {
                toggle_fullscreen: false,
                title: old(self)@.updated(now, events@).new_title(),
                redraw: old(self)@.updated(now, events@).wakes_redraw(pending, now),
            }),
            final(self).wf(),
    {
        self.update_state_at(now, events);
        let title = self.sync_window_title();
        let control: bool = pending.contains(PlaybackWakeKind::Control);
        let video_due: bool = pending.contains(PlaybackWakeKind::Video) && due(
            self.state.playback_wake_deadline(now),
            now,
        );
        WindowUpdate { toggle_fullscreen: false, title, redraw: control || video_due }
    }

    /// Decides what the event loop does once every event is dealt with.
    pub fn about_to_wait(&mut self, now: Instant) -> (flow: ControlFlow)
        ensures
            flow == old(self)@.flow(now),
            final(self)@ == old(self)@.waited(now),
            old(self).wf() ==> final(self).wf(),
    {
        let animated: bool = self.state.needs_animation();
        let mut requested_redraw: bool = false;
        if animated && now.nanos >= self.next_animation_frame.nanos {
            requested_redraw = true;
            self.next_animation_frame = now.after(
                Duration { nanos: ANIMATION_FRAME_INTERVAL_NANOS },
            );
        }
        let playback_deadline = self.state.playback_wake_deadline(now);
        if due(playback_deadline, now) {
            requested_redraw = true;
        }
        let persistence_deadline = self.state.persistence_wake_deadline(now);
        if due(persistence_deadline, now) {
            requested_redraw = true;
        }
        if due(self.next_egui_repaint, now) {
            requested_redraw = true;
            self.next_egui_repaint = None;
        }
        if requested_redraw && self.has_window {
            return ControlFlow::Redraw;
        }
        let animation_deadline: Option<Instant> = if animated && now.nanos
            < self.next_animation_frame.nanos {
            Some(self.next_animation_frame)
        } else {
            None
        };
        let playback_ahead = if due(playback_deadline, now) { None } else { playback_deadline };
        let persistence_ahead = if due(persistence_deadline, now) {
            None
        } else {
            persistence_deadline
        };
        let next_deadline = earlier_of(
            earlier_of(animation_deadline, playback_ahead),
            earlier_of(persistence_ahead, self.next_egui_repaint),
        );
        match next_deadline {
            Some(deadline) => ControlFlow::WaitUntil(deadline),
            None => ControlFlow::Wait,
        }
    }

    /// Begins a frame; whether it counts for the report on rendering, and the title to set.
    pub fn begin_frame(&mut self, now: Instant, events: UpdateEvents) -> (begun: (bool, Option<String>))
        requires
            old(self).wf(),
        ensures
            final(self)@ == old(self)@.frame_begun(now, events@).titled(),
            begun.0 == old(self)@.state.has_video(),
            match begun.1 {
                Some(title) => old(self)@.frame_begun(now, events@).new_title() == Some(title@),
                None => old(self)@.frame_begun(now, events@).new_title() is None,
            },
            final(self).wf(),
    {
        let diagnose_render = self.state.has_video();
        if diagnose_render {
            self.render_diagnostics.begin_redraw(now);
        } else {
            self.render_diagnostics.reset(now);
        }
        self.update_state_at(now, events);
        let title = self.sync_window_title();
        (diagnose_render, title)
    }

    /// Takes note of a frame that was rendered; whether the window is to be drawn again.
    pub fn frame_rendered(
        &mut self,
        status: RenderStatus,
        repaint_after: Option<Duration>,
        now: Instant,
    ) -> (redraw: bool)
        ensures
            final(self)@ == (Desktop {
                next_egui_repaint: Desktop::repaint_at(repaint_after, now),
                ..old(self)@
            }),
            redraw == (status == RenderStatus::Reconfigure || (repaint_after matches Some(delay)
                && delay.nanos == 0)),
            old(self).wf() ==> final(self).wf(),
    {
        let mut redraw: bool = status == RenderStatus::Reconfigure;
        match repaint_after {
            Some(delay) => {
                if delay.is_zero() {
                    redraw = true;
                    self.next_egui_repaint = None;
                } else {
                    self.next_egui_repaint = Some(now.after(delay));
                }
            },
            None => {
                self.next_egui_repaint = None;
            },
        }
        redraw
    }

    /// Ends a frame that counts for the report on rendering.
    pub fn finish_frame(&mut self, started: Instant, finished: Instant) -> (report: Option<
        RenderReport,
    >)
        ensures
            report == old(self)@.render_diagnostics.worked(started, finished).report(finished),
            final(self)@ == (Desktop {
                render_diagnostics: if report is Some {
                    RenderDiagnostics::empty(old(self)@.render_diagnostics.last_redraw, finished)
                } else {
                    old(self)@.render_diagnostics.worked(started, finished)
                },
                ..old(self)@
            }),
            old(self).wf() ==> final(self).wf(),
    {
        self.render_diagnostics.finish_redraw(started, finished)
    }

    /// Does what a key asks for, if it asks for anything.
    pub fn key_pressed(&mut self, code: Option<KeyCode>, now: Instant) -> (update: Option<WindowUpdate>)
        ensures
            ({
                let asked = match code {
                    Some(code) => input::key_command(
                        code,
                        old(self)@.state.playback.rates(),
                        old(self)@.state.playback.rate(),
                    ),
                    None => None,
                };
                match asked {
                    Some(command) => update matches Some(update) && old(self)@.obeys(
                        command,
                        now,
                        update@,
                        final(self)@,
                    ),
                    None => update is None && *final(self) == *old(self),
                }
            }),
            old(self).wf() ==> final(self).wf(),
    {
        match code {
            Some(code) => match command_for_key(code, &self.state) {
                Some(command) => Some(self.apply_command(command, now)),
                None => None,
            },
            None => None,
        }
    }
}

/// A video that was asked for is the one to begin with, whatever session was left.
pub proof fn explicit_video_wins(desktop: Desktop, source: Video)
    requires
        desktop.initial_video == Some(source),
    ensures
        desktop.startup() == Some((source, desktop.initial_autoplay)),
{
}

/// A session that was left is come back to where it was left, and not played.
pub proof fn restored_session_is_paused(desktop: Desktop)
    requires
        desktop.initial_video is None,
        desktop.state.sessions.startup is Some,
    ensures
        desktop.startup() matches Some((source, autoplay)) && !autoplay && source.id
            == desktop.state.sessions.startup.unwrap().source.id,
{
}

/// A session that is come back to starts where it was left, and from the beginning if that is
/// where it was.
pub proof fn restored_session_starts_where_it_was(
    desktop: Desktop,
    session: crate::session::Session,
)
    requires
        desktop.initial_video is None,
        desktop.state.sessions.startup == Some(session),
    ensures
        desktop.startup() matches Some((source, autoplay)) && {
            &&& !autoplay
            &&& source.id == session.source.id
            &&& source.platform == session.source.platform
            &&& session.position.nanos > 0 ==> source.start_time == Some(session.position)
            &&& session.position.nanos == 0 ==> source.start_time is None
        },
{
}

/// Nothing is opened at the start that was neither asked for nor kept.
pub proof fn nothing_starts_by_itself(desktop: Desktop)
    requires
        desktop.initial_video is None,
        desktop.state.sessions.startup is None,
    ensures
        desktop.startup() is None,
{
}

/// Each update lets pass the time since the last one.
pub proof fn updates_let_time_pass(desktop: Desktop, now: Instant, events: Events)
    requires
        desktop.last_update.nanos <= now.nanos,
    ensures
        ({
            let after = desktop.updated(now, events);
            let elapsed = Duration { nanos: (now.nanos - desktop.last_update.nanos) as u128 };
            &&& after.state == desktop.state.updated(elapsed, now, events)
            &&& after.last_update == now
            &&& after.window_title == desktop.window_title
        }),
{
}

/// While something moves, a frame is drawn every sixteen milliseconds.
pub proof fn animations_are_drawn_in_time(desktop: Desktop, now: Instant)
    requires
        desktop.state.is_animated(),
        now.nanos + 16_000_000 <= u128::MAX,
    ensures
        now.nanos >= desktop.next_animation_frame.nanos ==> desktop.redraw_due(now)
            && desktop.waited(now).next_animation_frame.nanos == now.nanos + 16_000_000,
        now.nanos < desktop.next_animation_frame.nanos ==> desktop.waited(now).next_animation_frame
            == desktop.next_animation_frame,
{
}

/// The window is drawn anew when something is due: a frame of an animation or of the video, a
/// position that waits to be sent, or what the interface asked for; and for nothing else.
pub proof fn window_is_drawn_when_something_is_due(desktop: Desktop, now: Instant)
    requires
        desktop.has_window,
    ensures
        desktop.flow(now) == ControlFlow::Redraw <==> {
            ||| desktop.state.is_animated() && now.nanos >= desktop.next_animation_frame.nanos
            ||| desktop.state.playback.wake_deadline(now) is Some && now.nanos
                >= desktop.state.playback.wake_deadline(now).unwrap().nanos
            ||| desktop.state.saves.wake_deadline(now) is Some && now.nanos
                >= desktop.state.saves.wake_deadline(now).unwrap().nanos
            ||| desktop.next_egui_repaint is Some && now.nanos
                >= desktop.next_egui_repaint.unwrap().nanos
        },
{
}

/// What the decoder sends has the window drawn anew if it is a message, or a frame and one is
/// due; sound alone does not.
pub proof fn frames_that_are_due_are_drawn(
    desktop: Desktop,
    pending: PendingPlaybackWakes,
    now: Instant,
)
    ensures
        pending.has(PlaybackWakeKind::Control) ==> desktop.wakes_redraw(pending, now),
        pending.has(PlaybackWakeKind::Video) && desktop.state.playback.wake_deadline(now) is Some
            && desktop.state.playback.wake_deadline(now).unwrap().nanos <= now.nanos
            ==> desktop.wakes_redraw(pending, now),
        !pending.has(PlaybackWakeKind::Control) && !pending.has(PlaybackWakeKind::Video)
            ==> !desktop.wakes_redraw(pending, now),
        !pending.has(PlaybackWakeKind::Control) && desktop.state.playback.wake_deadline(now) is None
            ==> !desktop.wakes_redraw(pending, now),
{
}

/// A key does something once, when it goes down, unless the interface has used it.
pub proof fn keys_count_when_they_go_down(code: Option<KeyCode>, pressed: bool, repeat: bool, consumed: bool)
    ensures
        ({
            let done = action(WindowEvent::Key { code, pressed, repeat }, consumed);
            &&& pressed && !repeat && !consumed ==> done == WindowAction::Key(code)
            &&& !pressed || repeat || consumed ==> done == WindowAction::RequestRedraw
        }),
        action(WindowEvent::CloseRequested, consumed) == WindowAction::Shutdown,
        action(WindowEvent::Destroyed, consumed) == WindowAction::Shutdown,
        action(WindowEvent::Resized, consumed) == WindowAction::Resize,
        action(WindowEvent::RedrawRequested, consumed) == WindowAction::Render,
{
}

/// What the interface asks to be drawn later is drawn that much later; what it asks for at
/// once is not put off.
pub proof fn repaints_come_when_asked_for(delay: Duration, now: Instant)
    requires
        now.nanos + delay.nanos <= u128::MAX,
    ensures
        delay.nanos > 0 ==> (Desktop::repaint_at(Some(delay), now) matches Some(at) && at.nanos
            == now.nanos + delay.nanos),
        delay.nanos == 0 ==> Desktop::repaint_at(Some(delay), now) is None,
        Desktop::repaint_at(None, now) is None,
{
}

/// Gaps between frames of more than twenty and of more than thirty-three milliseconds are
/// counted, and what was counted is reported once a second.
pub proof fn long_gaps_are_counted_and_reported(
    diagnostics: RenderDiagnostics,
    last: Instant,
    now: Instant,
)
    requires
        diagnostics.last_redraw == Some(last),
        last.nanos <= now.nanos,
        diagnostics.last_report.nanos <= now.nanos,
        diagnostics.redraws < u64::MAX,
        diagnostics.gaps_over_20ms < u64::MAX,
        diagnostics.gaps_over_33ms < u64::MAX,
    ensures
        ({
            let after = diagnostics.begun(now);
            let gap = now.nanos - last.nanos;
            &&& after.redraws == diagnostics.redraws + 1
            &&& after.last_redraw == Some(now)
            &&& after.gaps_over_20ms == diagnostics.gaps_over_20ms + if gap > 20_000_000 {
                1int
            } else {
                0int
            }
            &&& after.gaps_over_33ms == diagnostics.gaps_over_33ms + if gap > 33_000_000 {
                1int
            } else {
                0int
            }
            &&& after.max_gap.nanos >= gap && after.max_gap.nanos >= diagnostics.max_gap.nanos
            &&& after.max_gap.nanos == gap || after.max_gap == diagnostics.max_gap
        }),
        diagnostics.report(now) is Some <==> now.nanos - diagnostics.last_report.nanos
            >= 1_000_000_000,
        diagnostics.report(now) matches Some(report) ==> report.redraws == diagnostics.redraws
            && report.max_gap == diagnostics.max_gap && report.gaps_over_20ms
            == diagnostics.gaps_over_20ms && report.gaps_over_33ms == diagnostics.gaps_over_33ms,
{
}

/// A command that fills the screen does so unless the controls are locked; none other does.
pub proof fn only_one_command_fills_the_screen(
    desktop: Desktop,
    command: AppCommand,
    now: Instant,
    change: WindowChange,
    after: Desktop,
)
    requires
        desktop.obeys(command, now, change, after),
    ensures
        change.toggle_fullscreen <==> command is ToggleFullscreen
            && !desktop.state.ui.controls.locked,
        after.state == desktop.state.applied(command, now, after.state.playback),
        change.redraw,
        change.title matches Some(title) ==> after.window_title == title,
{
}

} // verus!
