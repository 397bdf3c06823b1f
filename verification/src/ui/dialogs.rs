//! What the buttons of a dialog do.

use crate::app::ui;
use crate::app::ui::{Dialog, DialogState};
use crate::model::AppCommand;
use crate::settings;
use crate::text;
use crate::time_format;
use crate::time_format::parse_friendly_time;
use crate::video;
use crate::video::{Video, VideoSource};
use vstd::prelude::*;
use vstd::string::*;

verus! {

/// What the user did with a dialog.
#[derive(Clone, Copy, Debug, PartialEq, Eq, Structural)]
pub enum DialogAction {
    /// Nothing, or nothing but writing.
    Nothing,
    /// The button that accepts, or the key for it.
    Accept,
    /// The button that cancels, or the key for it.
    Cancel,
}

/// What a dialog makes the application do, as values.
pub enum Asked {
    Nothing,
    OpenVideo(Video),
    SeekAbsolute(crate::time::Duration),
    SetFavouriteQualities(Seq<char>),
    SignIn { user_id: Seq<char>, device_id: Seq<char> },
    SignOut,
    /// What no dialog asks for.
    Other(AppCommand),
}

pub open spec fn asked(command: Option<AppCommand>) -> Asked {
    match command {
        Some(AppCommand::OpenVideo(source)) => Asked::OpenVideo(source@),
        Some(AppCommand::SeekAbsolute(position)) => Asked::SeekAbsolute(position),
        Some(AppCommand::SetFavouriteQualities(qualities)) => Asked::SetFavouriteQualities(
            qualities@,
        ),
        Some(AppCommand::SignIn { user_id, device_id }) => Asked::SignIn {
            user_id: user_id@,
            device_id: device_id@,
        },
        Some(AppCommand::SignOut) => Asked::SignOut,
        Some(command) => Asked::Other(command),
        None => Asked::Nothing,
    }
}

/// Whether both names that are signed in with are there.
pub open spec fn can_sign_in(user_id: Seq<char>, device_id: Seq<char>) -> bool {
    settings::is_filled(user_id) && settings::is_filled(device_id)
}

/// The dialog that is left once a dialog was accepted, and what is asked for.
pub open spec fn accepted(dialog: Dialog) -> (Option<Dialog>, Asked) {
    match dialog {
        Dialog::ChangeVideo { input, error } => match video::parsed_video(input) {
            Ok(source) => (None, Asked::OpenVideo(source)),
            Err(error) => (
                Some(Dialog::ChangeVideo { input, error: Some(error) }),
                Asked::Nothing,
            ),
        },
        Dialog::SeekTo { input, error } => match time_format::seconds_span(
            time_format::friendly_seconds(input),
        ) {
            Some(time) => (None, Asked::SeekAbsolute(time)),
            None => (
                Some(Dialog::SeekTo { input, error: Some("Invalid time"@) }),
                Asked::Nothing,
            ),
        },
        Dialog::FavouriteQualities { input } => (None, Asked::SetFavouriteQualities(input)),
        Dialog::SignIn { user_id, device_id } => if can_sign_in(user_id, device_id) {
            (
                None,
                Asked::SignIn {
                    user_id: text::trimmed(user_id),
                    device_id: text::trimmed(device_id),
                },
            )
        } else {
            (Some(dialog), Asked::Nothing)
        },
        Dialog::ConfirmSignOut => (None, Asked::SignOut),
        Dialog::TwitchResolving { video_id } => (Some(dialog), Asked::Nothing),
        Dialog::Message { title, message } => (None, Asked::Nothing),
    }
}

/// Whether a dialog has a button that cancels it.
pub open spec fn can_cancel(dialog: Dialog) -> bool {
    !(dialog is TwitchResolving) && !(dialog is Message)
}

/// The dialog that is left once the user has done something with it, and what is asked for.
pub open spec fn after_action(dialog: Dialog, action: DialogAction) -> (Option<Dialog>, Asked) {
    match action {
        DialogAction::Nothing => (Some(dialog), Asked::Nothing),
        DialogAction::Accept => accepted(dialog),
        DialogAction::Cancel => (
            if can_cancel(dialog) { None } else { Some(dialog) },
            Asked::Nothing,
        ),
    }
}

/// Whether both names that are signed in with are there.
pub fn sign_in_is_valid(user_id: &str, device_id: &str) -> (valid: bool)
    ensures
        valid == can_sign_in(user_id@, device_id@),
{
    text::trim(&text::chars_of(user_id)).len() > 0 && text::trim(&text::chars_of(device_id)).len()
        > 0
}

/// Opens the video that was written, or says why there is none.
pub fn submit_video(input: String) -> (left: (Option<DialogState>, Option<AppCommand>))
    ensures
        (ui::dialog_view(left.0), asked(left.1)) == accepted(
            Dialog::ChangeVideo { input: input@, error: None },
        ),
{
    match VideoSource::parse(input.as_str()) {
        Ok(source) => (None, Some(AppCommand::OpenVideo(source))),
        Err(error) => (Some(DialogState::ChangeVideo { input, error: Some(error) }), None),
    }
}

/// Goes to the time that was written, or says that it is none.
pub fn submit_time(input: String) -> (left: (Option<DialogState>, Option<AppCommand>))
    ensures
        (ui::dialog_view(left.0), asked(left.1)) == accepted(
            Dialog::SeekTo { input: input@, error: None },
        ),
{
    match parse_friendly_time(input.as_str()) {
        Some(time) => (None, Some(AppCommand::SeekAbsolute(time))),
        None => (
            Some(DialogState::SeekTo { input, error: Some("Invalid time".to_owned()) }),
            None,
        ),
    }
}

fn submit_sign_in(user_id: String, device_id: String) -> (left: (
    Option<DialogState>,
    Option<AppCommand>,
))
    ensures
        (ui::dialog_view(left.0), asked(left.1)) == accepted(
            Dialog::SignIn { user_id: user_id@, device_id: device_id@ },
        ),
{
    if !sign_in_is_valid(user_id.as_str(), device_id.as_str()) {
        return (Some(DialogState::SignIn { user_id, device_id }), None);
    }
    let user = text::trim(&text::chars_of(user_id.as_str()));
    let device = text::trim(&text::chars_of(device_id.as_str()));
    (
        None,
        Some(
            AppCommand::SignIn {
                user_id: text::string_of(&user),
                device_id: text::string_of(&device),
            },
        ),
    )
}

/// Does with a dialog what the user did.
pub fn act(dialog: DialogState, action: DialogAction) -> (left: (
    Option<DialogState>,
    Option<AppCommand>,
))
    ensures
        (ui::dialog_view(left.0), asked(left.1)) == after_action(dialog@, action),
{
    match action {
        DialogAction::Nothing => (Some(dialog), None),
        DialogAction::Cancel => match dialog {
            DialogState::TwitchResolving { video_id } => (
                Some(DialogState::TwitchResolving { video_id }),
                None,
            ),
            DialogState::Message { title, message } => (
                Some(DialogState::Message { title, message }),
                None,
            ),
            _ => (None, None),
        },
        DialogAction::Accept => match dialog {
            DialogState::ChangeVideo { input, error: _ } => submit_video(input),
            DialogState::SeekTo { input, error: _ } => submit_time(input),
            DialogState::FavouriteQualities { input } => (
                None,
                Some(AppCommand::SetFavouriteQualities(input)),
            ),
            DialogState::SignIn { user_id, device_id } => submit_sign_in(user_id, device_id),
            DialogState::ConfirmSignOut => (None, Some(AppCommand::SignOut)),
            DialogState::TwitchResolving { video_id } => (
                Some(DialogState::TwitchResolving { video_id }),
                None,
            ),
            DialogState::Message { .. } => (None, None),
        },
    }
}

/// Who is signed in, as it is shown.
pub open spec fn account_text(user_id: Option<Seq<char>>, device_id: Option<Seq<char>>) -> Seq<char> {
    (match user_id {
        Some(user_id) => user_id,
        None => "?"@,
    }) + "/"@ + (match device_id {
        Some(device_id) => device_id,
        None => "?"@,
    })
}

/// Says who is signed in.
pub fn account_label(user_id: Option<&String>, device_id: Option<&String>) -> (label: String)
    ensures
        label@ == account_text(
            match user_id {
                Some(user_id) => Some(user_id@),
                None => None,
            },
            match device_id {
                Some(device_id) => Some(device_id@),
                None => None,
            },
        ),
{
    let mut label = match user_id {
        Some(user_id) => user_id.clone(),
        None => "?".to_owned(),
    };
    label.append("/");
    match device_id {
        Some(device_id) => label.append(device_id.as_str()),
        None => label.append("?"),
    }
    label
}

/// Asks whether to sign out.
pub fn sign_out_question(account: &str) -> (question: String)
    ensures
        question@ == "Sign out from "@ + account@ + "?"@,
{
    let mut question = "Sign out from ".to_owned();
    question.append(account);
    question.append("?");
    question
}

/// Says that a recording is being looked for.
pub fn resolving_label(video_id: &str) -> (label: String)
    ensures
        label@ == "Resolving Twitch VOD "@ + video_id@ + "…"@,
{
    let mut label = "Resolving Twitch VOD ".to_owned();
    label.append(video_id);
    label.append("…");
    label
}

/// No command comes of a dialog while it stays: one that could not be accepted, or was not,
/// changes nothing but what it says.
pub proof fn open_dialogs_ask_for_nothing(
    dialog: Dialog,
    action: DialogAction,
    command: Option<AppCommand>,
)
    requires
        asked(command) == after_action(dialog, action).1,
    ensures
        after_action(dialog, action).0 is Some ==> command is None,
{
}

/// Whatever was cancelled, and whatever the user did nothing with, leaves no command.
pub proof fn only_accepted_dialogs_ask(
    dialog: Dialog,
    action: DialogAction,
    command: Option<AppCommand>,
)
    requires
        asked(command) == after_action(dialog, action).1,
        !(action is Accept),
    ensures
        command is None,
{
}

/// Whoever signs in by a dialog has a name, and so has the device.
pub proof fn dialogs_sign_in_with_names(dialog: Dialog, action: DialogAction)
    ensures
        after_action(dialog, action).1 matches Asked::SignIn { user_id, device_id } ==> {
            &&& user_id.len() > 0
            &&& device_id.len() > 0
        },
{
}

/// A dialog that is accepted asks for what was put in: the video, the time, the favourites,
/// or the names without the white space round them. What cannot be understood stays, with what
/// is wrong with it.
pub proof fn accepted_dialogs_ask_for_what_was_put_in(
    input: Seq<char>,
    other: Seq<char>,
    error: Option<Seq<char>>,
    source: Video,
    time: crate::time::Duration,
)
    ensures
        video::parsed_video(input) == Ok::<Video, Seq<char>>(source) ==> after_action(
            Dialog::ChangeVideo { input, error },
            DialogAction::Accept,
        ) == (None::<Dialog>, Asked::OpenVideo(source)),
        video::parsed_video(input) is Err ==> (after_action(
            Dialog::ChangeVideo { input, error },
            DialogAction::Accept,
        ).0 matches Some(Dialog::ChangeVideo { input: kept, error: told }) && kept == input
            && told is Some),
        time_format::seconds_span(time_format::friendly_seconds(input)) == Some(time)
            ==> after_action(Dialog::SeekTo { input, error }, DialogAction::Accept) == (
            None::<Dialog>,
            Asked::SeekAbsolute(time),
        ),
        time_format::seconds_span(time_format::friendly_seconds(input)) is None ==> (after_action(
            Dialog::SeekTo { input, error },
            DialogAction::Accept,
        ).0 matches Some(Dialog::SeekTo { input: kept, error: told }) && kept == input
            && told is Some),
        after_action(Dialog::FavouriteQualities { input }, DialogAction::Accept) == (
            None::<Dialog>,
            Asked::SetFavouriteQualities(input),
        ),
        text::trimmed(input).len() > 0 && text::trimmed(other).len() > 0 ==> after_action(
            Dialog::SignIn { user_id: input, device_id: other },
            DialogAction::Accept,
        ) == (
            None::<Dialog>,
            Asked::SignIn { user_id: text::trimmed(input), device_id: text::trimmed(other) },
        ),
        text::trimmed(input).len() == 0 || text::trimmed(other).len() == 0 ==> after_action(
            Dialog::SignIn { user_id: input, device_id: other },
            DialogAction::Accept,
        ) == (Some(Dialog::SignIn { user_id: input, device_id: other }), Asked::Nothing),
        after_action(Dialog::ConfirmSignOut, DialogAction::Accept) == (
            None::<Dialog>,
            Asked::SignOut,
        ),
{
}

/// A dialog that is cancelled is gone; one that only tells something is gone when it is
/// accepted, and one that waits for something stays.
pub proof fn cancelled_dialogs_are_gone(dialog: Dialog)
    ensures
        !(dialog is TwitchResolving) && !(dialog is Message) ==> after_action(
            dialog,
            DialogAction::Cancel,
        ) == (None::<Dialog>, Asked::Nothing),
        dialog is Message ==> after_action(dialog, DialogAction::Accept) == (
            None::<Dialog>,
            Asked::Nothing,
        ),
        dialog is TwitchResolving || dialog is Message ==> after_action(
            dialog,
            DialogAction::Cancel,
        ) == (Some(dialog), Asked::Nothing),
        dialog is TwitchResolving ==> after_action(dialog, DialogAction::Accept) == (
            Some(dialog),
            Asked::Nothing,
        ),
        after_action(dialog, DialogAction::Nothing) == (Some(dialog), Asked::Nothing),
{
}

} // verus!
