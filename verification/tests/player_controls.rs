//! What the controls over the video show and ask for.

use sanctuary_player::app::ui::DialogState;
use sanctuary_player::model::{AppCommand, DebugGraphLane, DebugNode, PlaybackState};
use sanctuary_player::services::SavedPosition;
use sanctuary_player::time::Duration;
use sanctuary_player::ui::dialogs::{
    account_label, act, resolving_label, sign_in_is_valid, sign_out_question, DialogAction,
};
use sanctuary_player::ui::menu::{
    highlight, position_notices, position_row, row_command, sign_out_label,
};
use sanctuary_player::ui::player::{
    bottom_control_row_origins, bottom_control_top, lane_nodes, playback_status_label,
    primary_playback_control, PlayerIcon,
};
use sanctuary_player::video::VideoSource;

#[test]
fn error_state_uses_shared_refresh_control() {
    let (icon, command) =
        primary_playback_control(&PlaybackState::Error("network failed".to_string()), false);
    assert_eq!(icon, PlayerIcon::Refresh);
    assert_eq!(command, Some(AppCommand::RefreshPlayback));
}

#[test]
fn ended_state_keeps_disabled_play_control_and_status_text() {
    let (icon, command) = primary_playback_control(&PlaybackState::Ended, false);
    assert_eq!(icon, PlayerIcon::Play);
    assert_eq!(command, None);
    assert_eq!(playback_status_label(&PlaybackState::Ended), Some("Ended"));
}

#[test]
fn seeking_control_reflects_and_toggles_resume_intent() {
    let (icon, command) = primary_playback_control(&PlaybackState::Seeking, true);
    assert_eq!(icon, PlayerIcon::Pause);
    assert_eq!(command, Some(AppCommand::TogglePlayback));

    let (icon, command) = primary_playback_control(&PlaybackState::Seeking, false);
    assert_eq!(icon, PlayerIcon::Play);
    assert_eq!(command, Some(AppCommand::TogglePlayback));
}

#[test]
fn centre_status_hides_obvious_states_and_labels_transitional_states() {
    assert_eq!(playback_status_label(&PlaybackState::Playing), None);
    assert_eq!(playback_status_label(&PlaybackState::Paused), None);
    assert_eq!(playback_status_label(&PlaybackState::Buffering), Some("Buffering…"));
    assert_eq!(playback_status_label(&PlaybackState::Seeking), Some("Seeking…"));
    assert_eq!(playback_status_label(&PlaybackState::Ended), Some("Ended"));
    assert_eq!(
        playback_status_label(&PlaybackState::Error("failed".to_string())),
        Some("Error")
    );
}

#[test]
fn bottom_middle_controls_stay_centred_with_asymmetric_seek_widths() {
    let centre_x: i64 = 59_100_000;
    let middle_width: i64 = 14_400_000;
    let gap: i64 = 720_000;
    let left_widths: Vec<i64> = vec![8_469_250, 6_441_125, 4_875_500];

    let origins = bottom_control_row_origins(centre_x, middle_width, gap, &left_widths);
    assert_eq!(origins.middle + middle_width / 2, centre_x);

    let left_end = origins.left + left_widths.iter().sum::<i64>() + gap * 2;
    assert_eq!(origins.middle - left_end, gap);
    assert_eq!(origins.right - (origins.middle + middle_width), gap);
}

#[test]
fn bottom_middle_uses_safe_content_centre_not_viewport_centre() {
    let viewport_centre_x: i64 = 60_000_000;
    let content_centre_x: i64 = 64_000_000;
    let middle_width: i64 = 14_400_000;
    let left_widths: Vec<i64> = vec![8_469_250, 6_441_125, 4_875_500];
    let origins =
        bottom_control_row_origins(content_centre_x, middle_width, 720_000, &left_widths);
    assert_eq!(origins.middle + middle_width / 2, content_centre_x);
    assert_ne!(origins.middle + middle_width / 2, viewport_centre_x);
}

#[test]
fn seek_and_time_controls_share_bottom_edge() {
    let bottom: i64 = 34_000_000;
    for height in [2_800_000, 3_250_000, 4_100_000] {
        let top = bottom_control_top(bottom, height);
        assert_eq!(top + height, bottom);
    }
}

#[test]
fn nodes_of_a_lane_are_in_the_order_of_their_columns() {
    let node = |id: &str, lane: DebugGraphLane, column: u8| {
        DebugNode::new(id, "", "", lane, column, vec![])
    };
    let nodes = vec![
        node("late", DebugGraphLane::Video, 4),
        node("sound", DebugGraphLane::Audio, 1),
        node("early", DebugGraphLane::Video, 2),
        node("also-early", DebugGraphLane::Video, 2),
    ];
    assert_eq!(lane_nodes(&nodes, DebugGraphLane::Video), vec![2, 3, 0]);
    assert_eq!(lane_nodes(&nodes, DebugGraphLane::Audio), vec![1]);
}

fn saved(device: &str, seconds: u64) -> SavedPosition {
    SavedPosition {
        source: VideoSource::parse("2386400830").unwrap(),
        device_id: device.to_string(),
        position: Duration::from_secs(seconds),
        modified_age: Duration::from_secs(3_600),
        title: Some("HLE vs CFO - Game 5".to_string()),
        release_age: None,
    }
}

#[test]
fn saved_position_of_the_open_video_is_told_apart_by_its_distance() {
    let row = position_row(&saved("Phone", 90), Some("2386400830"), Duration::from_secs(30));
    assert_eq!(row.device, "Phone");
    assert!(row.video.contains("_ vs _"));
    let other = position_row(&saved("Phone", 90), Some("2859508682"), Duration::from_secs(30));
    assert_ne!(row.position, other.position);
}

#[test]
fn furthest_position_of_the_open_video_is_highlighted() {
    let positions = vec![saved("Phone", 90), saved("Tablet", 120), saved("Desktop", 100)];
    assert_eq!(highlight(&positions, Some("2386400830")), Some(1));
    assert_eq!(highlight(&positions, Some("2859508682")), None);
    assert_eq!(highlight(&positions, None), None);
}

#[test]
fn saved_position_seeks_in_the_open_video_and_opens_another() {
    assert_eq!(
        row_command(&saved("Phone", 90), Some("2386400830")),
        AppCommand::SeekAbsolute(Duration::from_secs(90))
    );
    match row_command(&saved("Phone", 90), None) {
        AppCommand::OpenVideo(source) => {
            assert_eq!(source.id, "2386400830");
            assert_eq!(source.start_time, Some(Duration::from_secs(90)));
        }
        _ => panic!("the video is opened"),
    }
}

#[test]
fn notices_say_why_there_are_no_positions() {
    assert!(position_notices(false, false, true, None).sign_in);
    let error = "offline".to_string();
    let notices = position_notices(true, false, true, Some(&error));
    assert!(!notices.sign_in);
    assert!(notices.error.unwrap().contains("offline"));
    assert!(position_notices(true, true, true, None).loading.is_some());
    assert!(position_notices(true, false, true, None).nothing);
}

#[test]
fn dialog_for_a_video_keeps_what_is_no_video() {
    let dialog = DialogState::ChangeVideo { input: "nothing".to_string(), error: None };
    let (left, command) = act(dialog, DialogAction::Accept);
    assert_eq!(command, None);
    match left {
        Some(DialogState::ChangeVideo { input, error }) => {
            assert_eq!(input, "nothing");
            assert!(error.is_some());
        }
        _ => panic!("the dialog stays"),
    }
    let dialog = DialogState::ChangeVideo { input: "2386400830".to_string(), error: None };
    assert_eq!(
        act(dialog, DialogAction::Accept),
        (None, Some(AppCommand::OpenVideo(VideoSource::parse("2386400830").unwrap())))
    );
}

#[test]
fn dialog_for_a_time_asks_for_a_seek() {
    let dialog = DialogState::SeekTo { input: "1h2m3s".to_string(), error: None };
    assert_eq!(
        act(dialog, DialogAction::Accept),
        (None, Some(AppCommand::SeekAbsolute(Duration::from_secs(3_723))))
    );
    let dialog = DialogState::SeekTo { input: "soon".to_string(), error: None };
    let (left, command) = act(dialog, DialogAction::Accept);
    assert_eq!(command, None);
    assert!(matches!(left, Some(DialogState::SeekTo { error: Some(_), .. })));
}

#[test]
fn dialogs_that_are_left_ask_for_nothing() {
    let dialog = DialogState::ConfirmSignOut;
    assert_eq!(act(dialog, DialogAction::Cancel), (None, None));
    let dialog = DialogState::ConfirmSignOut;
    assert_eq!(
        act(dialog, DialogAction::Nothing),
        (Some(DialogState::ConfirmSignOut), None)
    );
    let dialog = DialogState::ConfirmSignOut;
    assert_eq!(act(dialog, DialogAction::Accept), (None, Some(AppCommand::SignOut)));
}

#[test]
fn nobody_signs_in_without_a_name() {
    assert!(sign_in_is_valid("user", "device"));
    assert!(!sign_in_is_valid("  ", "device"));
    assert!(!sign_in_is_valid("user", ""));
    let dialog =
        DialogState::SignIn { user_id: " user ".to_string(), device_id: "device".to_string() };
    assert_eq!(
        act(dialog, DialogAction::Accept),
        (
            None,
            Some(AppCommand::SignIn {
                user_id: "user".to_string(),
                device_id: "device".to_string()
            })
        )
    );
}

#[test]
fn labels_name_what_they_are_about() {
    let user = "user".to_string();
    let device = "device".to_string();
    let account = account_label(Some(&user), Some(&device));
    assert!(account.contains("user") && account.contains("device"));
    assert!(sign_out_question(&account).contains(&account));
    assert!(sign_out_label(&account).contains(&account));
    assert!(resolving_label("2386400830").contains("2386400830"));
}

#[test]
fn only_an_accepted_dialog_asks_for_something() {
    let dialogs = || {
        vec![
            DialogState::ChangeVideo { input: "2386400830".to_string(), error: None },
            DialogState::SeekTo { input: "1m".to_string(), error: None },
            DialogState::FavouriteQualities { input: "720p".to_string() },
            DialogState::SignIn { user_id: "u".to_string(), device_id: "d".to_string() },
            DialogState::ConfirmSignOut,
            DialogState::TwitchResolving { video_id: "1".to_string() },
            DialogState::Message { title: "t".to_string(), message: "m".to_string() },
        ]
    };
    for (index, dialog) in dialogs().into_iter().enumerate() {
        let (left, command) = act(dialog, DialogAction::Cancel);
        assert_eq!(command, None);
        assert_eq!(left.is_some(), index >= 5);
    }
    for dialog in dialogs() {
        let (left, command) = act(dialog, DialogAction::Nothing);
        assert_eq!(command, None);
        assert!(left.is_some());
    }
    for (index, dialog) in dialogs().into_iter().enumerate() {
        assert_eq!(act(dialog, DialogAction::Accept).1.is_some(), index < 5);
    }
}
