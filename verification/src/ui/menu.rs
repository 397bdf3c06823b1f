//! The list of saved positions in the menu.

use crate::model::AppCommand;
use crate::services;
use crate::services::{Saved, SavedPosition};
use crate::spoilers::sanitise_title;
use crate::app::views;
use crate::text;
use crate::time::Duration;
use crate::time_format;
use crate::time_format::{format_age, format_colon_time, format_relative_position};
use crate::ui::dialogs;
use crate::ui::dialogs::Asked;
use crate::video::Video;
use vstd::prelude::*;
use vstd::string::*;

verus! {

/// What a row shows, from left to right.
#[derive(Debug, PartialEq, Eq)]
pub struct PositionRow {
    pub last_watched: String,
    pub device: String,
    pub position: String,
    pub video: String,
    pub release_date: String,
}

/// What a row shows, as values.
pub struct RowText {
    pub last_watched: Seq<char>,
    pub device: Seq<char>,
    pub position: Seq<char>,
    pub video: Seq<char>,
    pub release_date: Seq<char>,
}

impl View for PositionRow {
    type V = RowText;

    open spec fn view(&self) -> RowText {
        RowText {
            last_watched: self.last_watched@,
            device: self.device@,
            position: self.position@,
            video: self.video@,
            release_date: self.release_date@,
        }
    }
}

/// Whether a position is of the video that plays.
pub open spec fn is_current(saved: Saved, current_id: Option<Seq<char>>) -> bool {
    Some(saved.source.id) == current_id
}

/// A position as it is shown: for the video that plays, also how far away it is.
pub open spec fn position_text(saved: Saved, current_id: Option<Seq<char>>, current: Duration) -> Seq<
    char,
> {
    let time = time_format::colon_text(saved.position.secs() as nat);
    if is_current(saved, current_id) {
        (time + " ("@ + time_format::relative_text(saved.position, current)).push(')')
    } else {
        time
    }
}

/// What the row of a position shows.
pub open spec fn row_text(saved: Saved, current_id: Option<Seq<char>>, current: Duration) -> RowText {
    RowText {
        last_watched: time_format::age_text(saved.modified_age.secs() as nat),
        device: saved.device_id,
        position: position_text(saved, current_id, current),
        video: match saved.title {
            Some(title) => views::safe_title_of(title),
            None => saved.source.id,
        },
        release_date: match saved.release_age {
            Some(age) => time_format::age_text(age.secs() as nat),
            None => "?"@,
        },
    }
}

fn plays(entry: &SavedPosition, current_id: Option<&str>) -> (current: bool)
    ensures
        current == is_current(
            entry@,
            match current_id {
                Some(id) => Some(id@),
                None => None,
            },
        ),
{
    match current_id {
        Some(id) => text::same(entry.source.id.as_str(), id),
        None => false,
    }
}

/// Writes the row of a position.
pub fn position_row(entry: &SavedPosition, current_id: Option<&str>, current: Duration) -> (row:
    PositionRow)
    ensures
        row@ == row_text(
            entry@,
            match current_id {
                Some(id) => Some(id@),
                None => None,
            },
            current,
        ),
{
    let mut position = format_colon_time(entry.position);
    if plays(entry, current_id) {
        position.append(" (");
        position.append(format_relative_position(entry.position, current).as_str());
        position.push(')');
    }
    let video = match &entry.title {
        Some(title) => sanitise_title(title.as_str()),
        None => entry.source.id.clone(),
    };
    let release_date = match entry.release_age {
        Some(age) => format_age(age),
        None => "?".to_owned(),
    };
    PositionRow {
        last_watched: format_age(entry.modified_age),
        device: entry.device_id.clone(),
        position,
        video,
        release_date,
    }
}

/// The row that stands out among the first `n`: of the video that plays, the furthest
/// position, and the last of several.
pub open spec fn highlighted(positions: Seq<Saved>, current_id: Option<Seq<char>>, n: int) -> Option<
    int,
>
    decreases n,
{
    if n <= 0 {
        None
    } else {
        let before = highlighted(positions, current_id, n - 1);
        if !is_current(positions[n - 1], current_id) {
            before
        } else {
            match before {
                Some(best) => if positions[n - 1].position.nanos < positions[best].position.nanos {
                    Some(best)
                } else {
                    Some(n - 1)
                },
                None => Some(n - 1),
            }
        }
    }
}

/// Finds the row that stands out.
pub fn highlight(positions: &Vec<SavedPosition>, current_id: Option<&str>) -> (index: Option<usize>)
    ensures
        match index {
            Some(index) => highlighted(
                services::saved_view(positions@),
                match current_id {
                    Some(id) => Some(id@),
                    None => None,
                },
                positions@.len() as int,
            ) == Some(index as int) && index < positions@.len(),
            None => highlighted(
                services::saved_view(positions@),
                match current_id {
                    Some(id) => Some(id@),
                    None => None,
                },
                positions@.len() as int,
            ) is None,
        },
{
    let ghost views = services::saved_view(positions@);
    let ghost id_view: Option<Seq<char>> = match current_id {
        Some(id) => Some(id@),
        None => None,
    };
    let mut best: Option<usize> = None;
    let mut i: usize = 0;
    while i < positions.len()
        invariant
            i <= positions@.len(),
            views == services::saved_view(positions@),
            id_view == (match current_id {
                Some(id) => Some(id@),
                None => None,
            }),
            match best {
                Some(best) => highlighted(views, id_view, i as int) == Some(best as int) && best
                    < positions@.len(),
                None => highlighted(views, id_view, i as int) is None,
            },
        decreases positions@.len() - i,
    {
        assert(views[i as int] == positions@[i as int]@);
        if plays(&positions[i], current_id) {
            best = match best {
                Some(found) => {
                    assert(views[found as int] == positions@[found as int]@);
                    if positions[i].position.nanos < positions[found].position.nanos {
                        Some(found)
                    } else {
                        Some(i)
                    }
                },
                None => Some(i),
            };
        }
        i += 1;
    }
    best
}

/// What a click on a row asks for: in the video that plays to go there, otherwise to open
/// the video from there.
pub fn row_command(entry: &SavedPosition, current_id: Option<&str>) -> (command: AppCommand)
    ensures
        dialogs::asked(Some(command)) == (if is_current(
            entry@,
            match current_id {
                Some(id) => Some(id@),
                None => None,
            },
        ) {
            Asked::SeekAbsolute(entry.position)
        } else {
            Asked::OpenVideo(Video { start_time: Some(entry.position), ..entry.source@ })
        }),
{
    if plays(entry, current_id) {
        return AppCommand::SeekAbsolute(entry.position);
    }
    let mut source = entry.source.clone();
    source.start_time = Some(entry.position);
    AppCommand::OpenVideo(source)
}

/// What is said over the list of positions.
#[derive(Debug, PartialEq, Eq)]
pub struct PositionNotices {
    pub sign_in: bool,
    pub loading: Option<&'static str>,
    pub error: Option<String>,
    pub nothing: bool,
}

/// Finds what is said over the list of positions.
pub fn position_notices(signed_in: bool, loading: bool, empty: bool, error: Option<&String>) -> (notices:
    PositionNotices)
    ensures
        notices.sign_in == !signed_in,
        match notices.loading {
            Some(label) => signed_in && loading && label@ == (if empty {
                "Loading saved positions…"@
            } else {
                "Refreshing saved positions…"@
            }),
            None => !signed_in || !loading,
        },
        match notices.error {
            Some(message) => signed_in && (error matches Some(error) && message@
                == "Unable to refresh saved positions: "@ + error@),
            None => !signed_in || error is None,
        },
        notices.nothing == (signed_in && empty && !loading),
{
    if !signed_in {
        return PositionNotices { sign_in: true, loading: None, error: None, nothing: false };
    }
    let label: Option<&'static str> = if !loading {
        None
    } else if empty {
        Some("Loading saved positions…")
    } else {
        Some("Refreshing saved positions…")
    };
    let message = match error {
        Some(error) => {
            let mut message = "Unable to refresh saved positions: ".to_owned();
            message.append(error.as_str());
            Some(message)
        },
        None => None,
    };
    PositionNotices { sign_in: false, loading: label, error: message, nothing: empty && !loading }
}

/// Says who would be signed out.
pub fn sign_out_label(account: &str) -> (label: String)
    ensures
        label@ == "Sign out ("@ + account@ + ")…"@,
{
    let mut label = "Sign out (".to_owned();
    label.append(account);
    label.append(")…");
    label
}

/// The row that stands out is of the video that plays, and none of that video is further.
pub proof fn highlighted_position_is_the_furthest(
    positions: Seq<Saved>,
    current_id: Option<Seq<char>>,
    n: int,
)
    requires
        0 <= n <= positions.len(),
    ensures
        match highlighted(positions, current_id, n) {
            Some(best) => {
                &&& 0 <= best < n
                &&& is_current(positions[best], current_id)
                &&& forall|k: int|
                    0 <= k < n && is_current(#[trigger] positions[k], current_id)
                        ==> positions[k].position.nanos <= positions[best].position.nanos
            },
            None => forall|k: int| 0 <= k < n ==> !is_current(#[trigger] positions[k], current_id),
        },
    decreases n,
{
    if n > 0 {
        highlighted_position_is_the_furthest(positions, current_id, n - 1);
    }
}

/// A row tells when it was last watched, on which device, where it stands, what it is and how
/// old that is; what is not known of it by its identifier and a question mark. Where it stands
/// in relation to playback is told of the same video only.
pub proof fn rows_tell_what_is_known(
    saved: Saved,
    current_id: Seq<char>,
    current: Duration,
    seconds: nat,
    age: nat,
)
    requires
        saved.position.nanos < 18_446_744_073_709_551_616_000_000_000,
        saved.modified_age.nanos < 18_446_744_073_709_551_616_000_000_000,
        seconds * 1_000_000_000 <= saved.position.nanos < (seconds + 1) * 1_000_000_000,
        age * 1_000_000_000 <= saved.modified_age.nanos < (age + 1) * 1_000_000_000,
    ensures
        ({
            let row = row_text(saved, Some(current_id), current);
            &&& row.device == saved.device_id
            &&& row.last_watched == time_format::age_text(age)
            &&& saved.source.id != current_id ==> row.position == time_format::colon_text(seconds)
            &&& saved.source.id == current_id ==> row.position == time_format::colon_text(seconds)
                + seq![' ', '('] + time_format::relative_text(saved.position, current) + seq![')']
            &&& saved.title is None ==> row.video == saved.source.id
            &&& saved.release_age is None ==> row.release_date == seq!['?']
        }),
        row_text(saved, None, current).position == time_format::colon_text(seconds),
{
    reveal_strlit(" (");
    reveal_strlit("?");
    assert("?"@ =~= seq!['?']);
    assert(" ("@ =~= seq![' ', '(']);
    let row = row_text(saved, Some(current_id), current);
    if saved.source.id == current_id {
        let text = time_format::colon_text(seconds) + seq![' ', '('] + time_format::relative_text(
            saved.position,
            current,
        );
        assert(text.push(')') =~= text + seq![')']);
    }
}

} // verus!
