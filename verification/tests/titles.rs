use sanctuary_player::spoilers::sanitise_title;

#[test]
fn hides_game_number() {
    assert_eq!(sanitise_title("Quarterfinal Game 5"), "Quarterfinal Game _");
}

#[test]
fn hides_team_names_around_versus_markers() {
    let cases = [
        ("GAM vs. DRX | Worlds Game 3", "_ vs. _ | Worlds Game _"),
        ("Team 1 vs. Team 2", "_ vs. _"),
        ("BAG v TAG", "_ v _"),
        ("Today | A A vs B B | Now", "Today | _ vs _ | Now"),
        ("This is a game between A vs B", "This is a _ vs _"),
    ];
    for (input, expected) in cases {
        assert_eq!(sanitise_title(input), expected, "{input}");
    }
}

#[test]
fn handles_multiple_matches() {
    assert_eq!(
        sanitise_title("aaaaa vs bbbbbb | cddddd vs dddddd | eeeeee vs ffffff"),
        "_ vs _ | _ vs _ | _ vs _"
    );
}

#[test]
fn leaves_unrelated_text_unchanged() {
    assert_eq!(sanitise_title("Nothing to see here!"), "Nothing to see here!");
    assert_eq!(
        sanitise_title("Not gonna match chavs is it"),
        "Not gonna match chavs is it"
    );
}

#[test]
fn hidden_titles_are_never_longer() {
    for title in ["A vs B", "Game 12 of 13", "Team Liquid vs. G2 Esports | Game 1", "vs"] {
        assert!(sanitise_title(title).chars().count() <= title.chars().count(), "{title}");
    }
}

#[test]
fn game_numbers_are_hidden_in_any_case() {
    assert_eq!(sanitise_title("Final gAmE  12 of 13"), "Final Game _ of 13");
    assert_eq!(sanitise_title("Game5 and Game V"), "Game5 and Game V");
    assert_eq!(sanitise_title("red V. blue"), "_ V. _");
}
