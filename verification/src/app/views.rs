//! What the user interface reads of the state, and the menu and the dialogs it opens.

use crate::app::positions;
use crate::app::positions::Cached;
use crate::app::state::{App, AppState};
use crate::app::ui;
use crate::app::ui::{
    AndroidTextField, AndroidTextInputSnapshot, Controls, DialogState, Overlay, LOCK_SLIDER_END,
};
use crate::model::{PlaybackState, Quality};
use crate::playback::decode_mode::DecodeMode;
use crate::services;
use crate::services::{Saved, SavedPosition};
use crate::settings;
use crate::spoilers;
use crate::spoilers::sanitise_title;
use crate::text;
use crate::time::{Duration, Instant};
use crate::time_format;
use crate::time_format::format_friendly_time;
use crate::video::VideoSource;
use vstd::prelude::*;
use vstd::string::*;

verus! {

pub const DEFAULT_WINDOW_TITLE: &'static str = "Sanctuary Player";

/// A title without what it gives away.
pub open spec fn safe_title_of(title: Seq<char>) -> Seq<char> {
    spoilers::all_names_hidden(spoilers::without_game_numbers(title), 0)
}

/// The title of the window over a video with a safe title.
pub open spec fn window_title_of(title: Option<Seq<char>>) -> Seq<char> {
    match title {
        Some(title) => if settings::is_filled(title) {
            title + " - "@ + DEFAULT_WINDOW_TITLE@
        } else {
            DEFAULT_WINDOW_TITLE@
        },
        None => DEFAULT_WINDOW_TITLE@,
    }
}

/// The title of the window over a video with a safe title.
pub fn window_title_for(title: Option<String>) -> (window_title: String)
    ensures
        window_title@ == window_title_of(settings::optional_view(title)),
{
    match title {
        Some(title) => {
            let chars = text::chars_of(title.as_str());
            if text::trim(&chars).len() > 0 {
                let mut window_title = title;
                window_title.append(" - ");
                window_title.append(DEFAULT_WINDOW_TITLE);
                window_title
            } else {
                DEFAULT_WINDOW_TITLE.to_owned()
            }
        },
        None => DEFAULT_WINDOW_TITLE.to_owned(),
    }
}

/// The rate next to `rate`, above it or below; none at the ends, or where `rate` is not one
/// of those there are.
pub open spec fn adjacent_rate(rates: Seq<u32>, rate: u32, direction: i32) -> Option<u32> {
    if !rates.contains(rate) {
        None
    } else {
        let next = if direction > 0 { rates.index_of_first(rate).unwrap() + 1 } else {
            rates.index_of_first(rate).unwrap() - 1
        };
        if 0 <= next < rates.len() { Some(rates[next]) } else { None }
    }
}

/// Finds the rate next to `rate`.
pub fn find_adjacent_rate(rates: &Vec<u32>, rate: u32, direction: i32) -> (adjacent: Option<u32>)
    ensures
        adjacent == adjacent_rate(rates@, rate, direction),
{
    proof {
        rates@.index_of_first_ensures(rate);
    }
    let mut i: usize = 0;
    while i < rates.len()
        invariant
            i <= rates.len(),
            forall|k: int| 0 <= k < i ==> rates@[k] != rate,
        decreases rates.len() - i,
    {
        if rates[i] == rate {
            assert(rates@.contains(rate));
            proof {
                rates@.index_of_first_ensures(rate);
                assert(rates@.index_of_first(rate) == Some(i as int));
            }
            if direction > 0 {
                return if i + 1 < rates.len() { Some(rates[i + 1]) } else { None };
            } else {
                return if i > 0 { Some(rates[i - 1]) } else { None };
            }
        }
        i += 1;
    }
    None
}

impl App {
    /// The menu opened or closed. To open it stops playback and asks for the positions anew.
    pub open spec fn menu_toggled(self, now: Instant) -> Self {
        if self.ui.controls.locked {
            self
        } else {
            let open = !self.ui.controls.menu_open;
            let toggled = App {
                ui: self.ui.with_controls(Controls { menu_open: open, ..self.ui.controls }),
                ..self
            };
            if open {
                App {
                    cache: Cached {
                        refresh_requested: self.cache.refresh_requested || self.signed_in(),
                        ..self.cache
                    },
                    playback: if self.has_video() {
                        self.playback.paused(now)
                    } else {
                        self.playback
                    },
                    ..toggled
                }.noted()
            } else {
                toggled.noted()
            }
        }
    }

    pub open spec fn with_dialog(self, dialog: ui::Dialog, focus: bool) -> Self {
        App { ui: self.ui.with_dialog(dialog, focus), ..self }
    }

    /// The positions that are shown: none while no one is signed in.
    pub open spec fn shown_positions(self, now: Instant) -> Seq<Saved> {
        if self.signed_in() {
            positions::worth_showing(
                self.cache.positions,
                match self.playback.source() {
                    Some(source) => Some(source.id@),
                    None => None,
                },
                self.device_id,
                self.playback.position(now),
                self.cache.positions.len() as int,
            )
        } else {
            Seq::empty()
        }
    }

    /// Whether something changes by itself that is shown.
    pub open spec fn is_animated(self) -> bool {
        self.ui.controls.return_from is Some || self.pending_video_open is Some
            || self.cache.refresh_requested || self.cache.pending_fetch is Some
            || self.saves.pending is Some
    }
}

impl AppState {
    fn refresh_positions(&mut self)
        ensures
            final(self)@ == (App {
                cache: Cached {
                    refresh_requested: old(self)@.cache.refresh_requested || old(
                        self,
                    )@.signed_in(),
                    ..old(self)@.cache
                },
                ..old(self)@
            }),
    {
        if self.signed_in() {
            self.cache.refresh_requested = true;
        }
    }

    fn pause_video(&mut self, now: Instant)
        ensures
            final(self)@ == (App {
                playback: if old(self)@.has_video() {
                    old(self)@.playback.paused(now)
                } else {
                    old(self)@.playback
                },
                ..old(self)@
            }),
    {
        if self.has_video() {
            self.playback.pause(now);
        }
    }

    pub fn toggle_menu(&mut self, now: Instant)
        ensures
            final(self)@ == old(self)@.menu_toggled(now),
            old(self).wf() ==> final(self).wf(),
    {
        if self.ui.controls.locked {
            return;
        }
        let open: bool = !self.ui.controls.menu_open;
        if open {
            self.refresh_positions();
            self.pause_video(now);
        }
        self.ui.controls.menu_open = open;
        self.ui.controls.note_interaction();
    }

    pub fn close_menu(&mut self)
        ensures
            final(self)@ == (App {
                ui: old(self)@.ui.with_controls(
                    Controls { menu_open: false, ..old(self)@.ui.controls },
                ),
                ..old(self)@
            }),
            old(self).wf() ==> final(self).wf(),
    {
        self.ui.controls.menu_open = false;
    }

    pub fn toggle_controls_visibility(&mut self)
        ensures
            final(self)@ == (App {
                ui: old(self)@.ui.with_controls(old(self)@.ui.controls.visibility_toggled()),
                ..old(self)@
            }),
            old(self).wf() ==> final(self).wf(),
    {
        self.ui.controls.toggle_visibility();
    }

    pub fn open_change_video_dialog(&mut self)
        ensures
            final(self)@ == old(self)@.with_dialog(
                ui::Dialog::ChangeVideo { input: Seq::empty(), error: None },
                true,
            ),
            old(self).wf() ==> final(self).wf(),
    {
        self.ui.show(DialogState::ChangeVideo { input: String::new(), error: None }, true);
    }

    pub fn open_seek_dialog(&mut self, now: Instant)
        ensures
            final(self)@ == old(self)@.with_dialog(
                ui::Dialog::SeekTo {
                    input: time_format::friendly_text(
                        old(self)@.playback.position(now).secs() as nat,
                    ),
                    error: None,
                },
                true,
            ),
            old(self).wf() ==> final(self).wf(),
    {
        let position = self.playback.position(now);
        self.ui.show(
            DialogState::SeekTo { input: format_friendly_time(position), error: None },
            true,
        );
    }

    pub fn open_favourites_dialog(&mut self)
        ensures
            final(self)@ == old(self)@.with_dialog(
                ui::Dialog::FavouriteQualities { input: old(self)@.favourite_qualities },
                true,
            ),
            old(self).wf() ==> final(self).wf(),
    {
        let input = self.preferences.favourite_qualities.clone();
        self.ui.show(DialogState::FavouriteQualities { input }, true);
    }

    pub fn open_sign_in_dialog(&mut self)
        ensures
            final(self)@ == old(self)@.with_dialog(
                ui::Dialog::SignIn {
                    user_id: match old(self)@.user_id {
                        Some(user_id) => user_id,
                        None => Seq::empty(),
                    },
                    device_id: match old(self)@.device_id {
                        Some(device_id) => device_id,
                        None => "Device 1"@,
                    },
                },
                true,
            ),
            old(self).wf() ==> final(self).wf(),
    {
        let user_id = match &self.account.user_id {
            Some(user_id) => user_id.clone(),
            None => String::new(),
        };
        let device_id = match &self.account.device_id {
            Some(device_id) => device_id.clone(),
            None => "Device 1".to_owned(),
        };
        self.ui.show(DialogState::SignIn { user_id, device_id }, true);
    }

    pub fn open_sign_out_dialog(&mut self)
        ensures
            final(self)@ == old(self)@.with_dialog(ui::Dialog::ConfirmSignOut, false),
            old(self).wf() ==> final(self).wf(),
    {
        self.ui.show(DialogState::ConfirmSignOut, false);
    }

    pub fn close_dialog(&mut self)
        ensures
            final(self)@ == (App { ui: old(self)@.ui.closed(), ..old(self)@ }),
            old(self).wf() ==> final(self).wf(),
    {
        self.ui.close_dialog();
    }

    pub fn begin_lock_drag(&mut self)
        requires
            old(self).wf(),
        ensures
            final(self)@ == (App {
                ui: old(self)@.ui.with_controls(old(self)@.ui.controls.drag_begun()),
                ..old(self)@
            }),
            final(self).wf(),
    {
        self.ui.controls.begin_lock_drag();
    }

    /// Moves the slider by `delta` millionths from where it was taken.
    pub fn set_lock_drag_delta(&mut self, delta: i32)
        requires
            old(self).wf(),
        ensures
            final(self)@ == (App {
                ui: old(self)@.ui.with_controls(old(self)@.ui.controls.dragged(delta)),
                ..old(self)@
            }),
            final(self).wf(),
    {
        self.ui.controls.set_lock_drag_delta(delta);
    }

    /// Lets the slider go; whether it was all the way out.
    pub fn end_lock_drag(&mut self) -> (toggles_lock: bool)
        requires
            old(self).wf(),
        ensures
            final(self)@ == (App {
                ui: old(self)@.ui.with_controls(old(self)@.ui.controls.drag_ended()),
                ..old(self)@
            }),
            toggles_lock == (old(self)@.ui.controls.drag_fraction >= LOCK_SLIDER_END),
            final(self).wf(),
    {
        self.ui.controls.end_lock_drag()
    }

    pub fn begin_android_ui_frame(&mut self)
        ensures
            final(self)@ == (App {
                ui: Overlay { android_text_input: None, ..old(self)@.ui },
                ..old(self)@
            }),
            old(self).wf() ==> final(self).wf(),
    {
        self.ui.begin_android_ui_frame();
    }

    /// Takes note of a text field as it was drawn. Returns the selection that is to be set
    /// in it, if one was asked for.
    pub fn capture_android_text_edit(
        &mut self,
        field: AndroidTextField,
        text: &str,
        cursor: Option<(usize, usize)>,
        has_focus: bool,
        clicked: bool,
    ) -> (set: Option<(usize, usize)>)
        ensures
            old(self)@.ui.captured(field, text@, cursor, has_focus, clicked) == (
                set,
                final(self)@.ui,
            ),
            final(self)@ == (App { ui: final(self)@.ui, ..old(self)@ }),
            old(self).wf() ==> final(self).wf(),
    {
        self.ui.capture_android_text_edit(field, text, cursor, has_focus, clicked)
    }

    pub fn android_text_input(&self) -> (input: Option<&AndroidTextInputSnapshot>)
        ensures
            match input {
                Some(input) => self@.ui.android_text_input == Some(input@),
                None => self@.ui.android_text_input is None,
            },
    {
        self.ui.android_text_input.as_ref()
    }

    /// Takes over the text that the on-screen keyboard holds.
    pub fn apply_android_text_input_state(
        &mut self,
        text: String,
        selection_start: usize,
        selection_end: usize,
    )
        ensures
            final(self)@ == (App {
                ui: old(self)@.ui.with_text(text@, selection_start, selection_end),
                ..old(self)@
            }),
            old(self).wf() ==> final(self).wf(),
    {
        self.ui.apply_android_text_input_state(text, selection_start, selection_end);
    }

    pub fn decode_mode(&self) -> (mode: DecodeMode)
        ensures
            mode == self@.decode_mode,
    {
        self.decode_mode
    }

    pub fn debug_info_visible(&self) -> (visible: bool)
        ensures
            visible == self@.ui.debug_info,
    {
        self.ui.debug_info
    }

    pub fn source(&self) -> (source: Option<&VideoSource>)
        ensures
            match source {
                Some(source) => self@.playback.source() == Some(*source),
                None => self@.playback.source() is None,
            },
    {
        self.playback.source()
    }

    pub fn playback_state(&self) -> (state: PlaybackState)
        ensures
            state == self@.playback.state(),
    {
        self.playback.state()
    }

    pub fn position(&self, now: Instant) -> (position: Duration)
        ensures
            position == self@.playback.position(now),
    {
        self.playback.position(now)
    }

    pub fn duration(&self) -> (duration: Option<Duration>)
        ensures
            duration == self@.playback.duration(),
    {
        self.playback.duration()
    }

    pub fn playback_rate(&self) -> (rate: u32)
        ensures
            rate == self@.playback.rate(),
    {
        self.playback.playback_rate()
    }

    pub fn available_rates(&self) -> (rates: Vec<u32>)
        ensures
            rates@ == self@.playback.rates(),
    {
        self.playback.available_rates()
    }

    pub fn available_qualities(&self) -> (qualities: Vec<Quality>)
        ensures
            qualities@ == self@.playback.qualities(),
    {
        self.playback.available_qualities()
    }

    pub fn quality(&self) -> (quality: Option<Quality>)
        requires
            self.wf(),
        ensures
            quality == self@.playback.quality(),
    {
        self.playback.quality()
    }

    /// What the video is called, without what that gives away.
    pub fn safe_title(&self) -> (title: Option<String>)
        ensures
            settings::optional_view(title) == (match self@.metadata {
                Some(metadata) => Some(safe_title_of(metadata.title)),
                None => None,
            }),
    {
        match &self.metadata {
            Some(metadata) => Some(sanitise_title(metadata.title.as_str())),
            None => None,
        }
    }

    pub fn window_title(&self) -> (title: String)
        ensures
            title@ == window_title_of(
                match self@.metadata {
                    Some(metadata) => Some(safe_title_of(metadata.title)),
                    None => None,
                },
            ),
    {
        window_title_for(self.safe_title())
    }

    pub fn release_age(&self) -> (age: Option<Duration>)
        ensures
            age == (match self@.metadata {
                Some(metadata) => Some(metadata.release_age),
                None => None,
            }),
    {
        match &self.metadata {
            Some(metadata) => Some(metadata.release_age),
            None => None,
        }
    }

    pub fn user_id(&self) -> (user_id: Option<&String>)
        ensures
            match user_id {
                Some(user_id) => self@.user_id == Some(user_id@),
                None => self@.user_id is None,
            },
    {
        self.account.user_id.as_ref()
    }

    pub fn device_id(&self) -> (device_id: Option<&String>)
        ensures
            match device_id {
                Some(device_id) => self@.device_id == Some(device_id@),
                None => self@.device_id is None,
            },
    {
        self.account.device_id.as_ref()
    }

    pub fn favourite_qualities(&self) -> (qualities: &str)
        ensures
            qualities@ == self@.favourite_qualities,
    {
        self.preferences.favourite_qualities.as_str()
    }

    /// The positions that are worth showing.
    pub fn saved_positions(&self, now: Instant) -> (positions: Vec<SavedPosition>)
        ensures
            services::saved_view(positions@) == self@.shown_positions(now),
    {
        if !self.signed_in() {
            let none: Vec<SavedPosition> = Vec::new();
            assert(services::saved_view(none@) =~= Seq::<Saved>::empty());
            return none;
        }
        let current_id: Option<&str> = match self.playback.source() {
            Some(source) => Some(source.id.as_str()),
            None => None,
        };
        self.cache.visible(current_id, &self.account.device_id, self.playback.position(now))
    }

    pub fn saved_positions_loading(&self) -> (loading: bool)
        ensures
            loading == (self@.signed_in() && (self@.cache.refresh_requested
                || self@.cache.pending_fetch is Some)),
    {
        self.signed_in() && (self.cache.refresh_requested || self.cache.pending_fetch.is_some())
    }

    pub fn saved_positions_error(&self) -> (error: Option<&String>)
        ensures
            match error {
                Some(error) => self@.cache.error == Some(error@),
                None => self@.cache.error is None,
            },
    {
        self.cache.error.as_ref()
    }

    /// The rate above the one in use, or the one below.
    pub fn adjacent_playback_rate(&self, direction: i32) -> (rate: Option<u32>)
        ensures
            rate == adjacent_rate(self@.playback.rates(), self@.playback.rate(), direction),
    {
        let rates = self.playback.available_rates();
        find_adjacent_rate(&rates, self.playback.playback_rate(), direction)
    }

    /// Whether something changes by itself that is shown.
    pub fn needs_animation(&self) -> (animated: bool)
        ensures
            animated == self@.is_animated(),
    {
        self.ui.controls.return_from.is_some() || self.pending_video_open.is_some()
            || self.cache.refresh_requested || self.cache.pending_fetch.is_some()
            || self.saver.pending.is_some()
    }

    /// When playback wants to be looked at again.
    pub fn playback_wake_deadline(&self, now: Instant) -> (deadline: Option<Instant>)
        ensures
            deadline == self@.playback.wake_deadline(now),
    {
        self.playback.next_wake_deadline(now)
    }
}

/// Opening the menu stops the video and has the positions of who is signed in fetched;
/// closing it leaves both as they are. While the controls are locked it does neither.
pub proof fn menu_stops_the_video(app: App, now: Instant)
    ensures
        app.ui.controls.locked ==> app.menu_toggled(now) == app,
        !app.ui.controls.locked ==> {
            let toggled = app.menu_toggled(now);
            &&& toggled.ui.controls.menu_open == !app.ui.controls.menu_open
            &&& toggled.ui.controls.visible
            &&& app.ui.controls.menu_open ==> toggled.playback == app.playback && toggled.cache
                == app.cache
            &&& !app.ui.controls.menu_open && app.has_video() ==> toggled.playback
                == app.playback.paused(now)
            &&& !app.ui.controls.menu_open && app.user_id is Some && app.user_id.unwrap().len() > 0
                ==> toggled.cache.refresh_requested
            &&& !app.ui.controls.menu_open && app.user_id is None
                ==> toggled.cache.refresh_requested == app.cache.refresh_requested
            &&& toggled.cache.positions == app.cache.positions
            &&& toggled.saves == app.saves
            &&& toggled.requests == app.requests
        },
{
}

/// Positions show to who is signed in, and to nobody else.
pub proof fn positions_show_to_who_is_signed_in(app: App, now: Instant, user_id: Seq<char>)
    ensures
        app.user_id is None ==> app.shown_positions(now).len() == 0,
        app.user_id == Some(user_id) && user_id.len() > 0 && !app.has_video()
            ==> app.shown_positions(now) == app.cache.positions,
{
    if !app.has_video() {
        positions::all_positions_show_without_a_video(
            app.cache.positions,
            None,
            app.device_id,
            app.playback.position(now),
            app.cache.positions.len() as int,
        );
        assert(app.cache.positions.take(app.cache.positions.len() as int) =~= app.cache.positions);
    }
}

/// The next rate is the one behind, and the one before is the one in front; there is none
/// beyond either end.
pub proof fn rates_are_taken_in_order(rates: Seq<u32>, k: int)
    requires
        0 <= k < rates.len(),
        rates.no_duplicates(),
    ensures
        k + 1 < rates.len() ==> adjacent_rate(rates, rates[k], 1) == Some(rates[k + 1]),
        k > 0 ==> adjacent_rate(rates, rates[k], (-1) as i32) == Some(rates[k - 1]),
        adjacent_rate(rates, rates[rates.len() - 1], 1) is None,
        adjacent_rate(rates, rates[0], (-1) as i32) is None,
{
    rates.index_of_first_ensures(rates[k]);
    rates.index_of_first_ensures(rates[0]);
    rates.index_of_first_ensures(rates[rates.len() - 1]);
    assert(rates.contains(rates[k]) && rates.contains(rates[0]) && rates.contains(
        rates[rates.len() - 1],
    ));
}

/// The window is named after the video that is open, if its title says anything.
pub proof fn window_is_named_after_the_video(title: Seq<char>)
    ensures
        text::trimmed(title).len() > 0 ==> window_title_of(Some(title)) == title
            + " - Sanctuary Player"@,
        text::trimmed(title).len() == 0 ==> window_title_of(Some(title)) == "Sanctuary Player"@,
        window_title_of(None) == "Sanctuary Player"@,
{
    reveal_strlit(" - Sanctuary Player");
    reveal_strlit("Sanctuary Player");
    reveal_strlit(" - ");
    assert(" - "@ + "Sanctuary Player"@ =~= " - Sanctuary Player"@);
    assert(title + " - "@ + "Sanctuary Player"@ =~= title + (" - "@ + "Sanctuary Player"@));
}

/// The screen is drawn anew while something on it moves: the slider on its way back, or a
/// sign that something is under way.
pub proof fn screen_moves_while_something_is_under_way(app: App)
    ensures
        app.ui.controls.return_from is Some || app.pending_video_open is Some
            || app.cache.pending_fetch is Some || app.cache.refresh_requested
            || app.saves.pending is Some <==> app.is_animated(),
{
}

/// A title that is shown hides the numbers of games and the names of who plays; one without
/// either is shown as it is.
pub proof fn shown_titles_hide_games_and_names(title: Seq<char>)
    ensures
        ({
            let unnumbered = spoilers::replaced("(?i)Game\\s+\\d+"@, title, "Game _"@);
            &&& safe_title_of(title) == spoilers::all_names_hidden(unnumbered, 0)
            &&& spoilers::first_versus(unnumbered) is None ==> safe_title_of(title) == unnumbered
        }),
{
    let unnumbered = spoilers::replaced("(?i)Game\\s+\\d+"@, title, "Game _"@);
    assert(unnumbered.skip(0) =~= unnumbered);
}

} // verus!
