//! The settings that are kept from one start of the player to the next.

use crate::json;
use crate::json::{JsonNode, JsonView};
use crate::persistence;
use crate::text;
use vstd::prelude::*;
use vstd::string::*;

verus! {

/// Who is signed in on which device, and which qualities are preferred.
#[derive(Debug, PartialEq, Eq)]
pub struct Settings {
    pub user_id: Option<String>,
    pub device_id: Option<String>,
    pub favourite_qualities: String,
}

/// Settings as values.
pub struct SettingsView {
    pub user_id: Option<Seq<char>>,
    pub device_id: Option<Seq<char>>,
    pub favourite_qualities: Seq<char>,
}

/// An optional text as a value.
pub open spec fn optional_view(text: Option<String>) -> Option<Seq<char>> {
    match text {
        Some(text) => Some(text@),
        None => None,
    }
}

/// A copy of an optional text.
pub fn copy_optional(text: &Option<String>) -> (copy: Option<String>)
    ensures
        copy == *text,
{
    match text {
        Some(text) => Some(text.clone()),
        None => None,
    }
}

impl View for Settings {
    type V = SettingsView;

    open spec fn view(&self) -> SettingsView {
        SettingsView {
            user_id: optional_view(self.user_id),
            device_id: optional_view(self.device_id),
            favourite_qualities: self.favourite_qualities@,
        }
    }
}

impl Clone for Settings {
    fn clone(&self) -> (settings: Self)
        ensures
            settings == *self,
    {
        Settings {
            user_id: copy_optional(&self.user_id),
            device_id: copy_optional(&self.device_id),
            favourite_qualities: self.favourite_qualities.clone(),
        }
    }
}

impl Default for Settings {
    fn default() -> (settings: Self)
        ensures
            settings@ == (SettingsView {
                user_id: None,
                device_id: None,
                favourite_qualities: Seq::empty(),
            }),
    {
        Settings { user_id: None, device_id: None, favourite_qualities: String::new() }
    }
}

/// Whether a text holds more than white space.
pub open spec fn is_filled(s: Seq<char>) -> bool {
    text::trimmed(s).len() > 0
}

/// The text that a value is; none if there is no value; or what is wrong with it.
pub open spec fn optional_text(node: Option<JsonView>, field: Seq<char>) -> Result<
    Option<Seq<char>>,
    Seq<char>,
> {
    match node {
        None | Some(JsonView::Null) => Ok(None),
        Some(JsonView::Text(text)) => if is_filled(text) {
            Ok(Some(text))
        } else {
            Err(field + " was empty"@)
        },
        Some(_) => Err(field + " was not a string"@),
    }
}

/// The settings that the values of a document make up, or what is wrong with them.
pub open spec fn settings_of(
    root: Option<JsonView>,
    user_id: Option<JsonView>,
    device_id: Option<JsonView>,
    favourite_qualities: Option<JsonView>,
) -> Result<SettingsView, Seq<char>> {
    if root != Some(JsonView::Object) {
        Err("settings root was not an object"@)
    } else {
        match (optional_text(user_id, "user_id"@), optional_text(device_id, "device_id"@)) {
            (Err(error), _) => Err(error),
            (Ok(_), Err(error)) => Err(error),
            (Ok(user), Ok(device)) => if (user is Some) != (device is Some) {
                Err("user_id and device_id must either both be present or both be absent"@)
            } else {
                match favourite_qualities {
                    None | Some(JsonView::Null) => Ok(
                        SettingsView {
                            user_id: user,
                            device_id: device,
                            favourite_qualities: Seq::empty(),
                        },
                    ),
                    Some(JsonView::Text(text)) => Ok(
                        SettingsView {
                            user_id: user,
                            device_id: device,
                            favourite_qualities: text,
                        },
                    ),
                    Some(_) => Err("favourite_qualities was not a string"@),
                }
            },
        }
    }
}

/// The text that a value is; none if there is no value; or what is wrong with it.
pub fn optional_nonempty_string(node: Option<JsonNode>, field: &str) -> (text: Result<
    Option<String>,
    String,
>)
    ensures
        match text {
            Ok(text) => optional_text(json::node_view(node), field@) == Ok::<
                Option<Seq<char>>,
                Seq<char>,
            >(optional_view(text)),
            Err(error) => optional_text(json::node_view(node), field@) == Err::<
                Option<Seq<char>>,
                Seq<char>,
            >(error@),
        },
{
    match node {
        None | Some(JsonNode::Null) => Ok(None),
        Some(JsonNode::Text(text)) => {
            let chars = text::chars_of(text.as_str());
            if text::trim(&chars).len() > 0 {
                Ok(Some(text))
            } else {
                let mut error = field.to_owned();
                error.append(" was empty");
                Err(error)
            }
        },
        Some(_) => {
            let mut error = field.to_owned();
            error.append(" was not a string");
            Err(error)
        },
    }
}

/// Makes up the settings from the values of a document.
pub fn read_settings(
    root: Option<JsonNode>,
    user_id: Option<JsonNode>,
    device_id: Option<JsonNode>,
    favourite_qualities: Option<JsonNode>,
) -> (settings: Result<Settings, String>)
    ensures
        ({
            let expected = settings_of(
                json::node_view(root),
                json::node_view(user_id),
                json::node_view(device_id),
                json::node_view(favourite_qualities),
            );
            match settings {
                Ok(settings) => expected == Ok::<SettingsView, Seq<char>>(settings@),
                Err(error) => expected == Err::<SettingsView, Seq<char>>(error@),
            }
        }),
{
    match root {
        Some(JsonNode::Object) => {},
        _ => {
            return Err("settings root was not an object".to_owned());
        },
    }
    let user_id = match optional_nonempty_string(user_id, "user_id") {
        Ok(text) => text,
        Err(error) => {
            return Err(error);
        },
    };
    let device_id = match optional_nonempty_string(device_id, "device_id") {
        Ok(text) => text,
        Err(error) => {
            return Err(error);
        },
    };
    if user_id.is_some() != device_id.is_some() {
        return Err(
            "user_id and device_id must either both be present or both be absent".to_owned(),
        );
    }
    let favourite_qualities = match favourite_qualities {
        None | Some(JsonNode::Null) => String::new(),
        Some(JsonNode::Text(text)) => text,
        Some(_) => {
            return Err("favourite_qualities was not a string".to_owned());
        },
    };
    Ok(Settings { user_id, device_id, favourite_qualities })
}

/// The settings that a document holds, or what is wrong with it.
pub open spec fn settings_in(document: Seq<char>) -> Result<SettingsView, Seq<char>> {
    match json::json_node_at(document, Seq::empty()) {
        Err(error) => Err(error),
        Ok(root) => settings_of(
            root,
            json::found(document, "/user_id"@),
            json::found(document, "/device_id"@),
            json::found(document, "/favourite_qualities"@),
        ),
    }
}

/// Reads the settings that a document holds.
pub fn parse_settings(document: &str) -> (settings: Result<Settings, String>)
    ensures
        match settings {
            Ok(settings) => settings_in(document@) == Ok::<SettingsView, Seq<char>>(settings@),
            Err(error) => settings_in(document@) == Err::<SettingsView, Seq<char>>(error@),
        },
{
    match json::root(document) {
        Err(error) => Err(error),
        Ok(root) => read_settings(
            root,
            json::find(document, "/user_id"),
            json::find(document, "/device_id"),
            json::find(document, "/favourite_qualities"),
        ),
    }
}

/// An optional text as a value of a document.
pub open spec fn optional_node(text: Option<Seq<char>>) -> JsonView {
    match text {
        Some(text) => JsonView::Text(text),
        None => JsonView::Null,
    }
}

/// The members of the document that settings are kept as.
pub open spec fn settings_members(settings: SettingsView) -> Seq<(Seq<char>, JsonView)> {
    seq![
        ("user_id"@, optional_node(settings.user_id)),
        ("device_id"@, optional_node(settings.device_id)),
        ("favourite_qualities"@, JsonView::Text(settings.favourite_qualities)),
    ]
}

/// A member with an optional text.
fn optional_member(key: &str, text: &Option<String>) -> (member: (String, JsonNode))
    ensures
        member.0@ == key@,
        member.1@ == optional_node(optional_view(*text)),
{
    match text {
        Some(text) => json::text_member(key, text.as_str()),
        None => (key.to_owned(), JsonNode::Null),
    }
}

/// Writes the document that settings are kept as.
pub fn settings_text(settings: &Settings) -> (document: String)
    ensures
        document@ == json::json_pretty(settings_members(settings@)).push('\n'),
        json::reads_back(document@, settings_members(settings@)),
{
    let mut members: Vec<(String, JsonNode)> = Vec::new();
    members.push(optional_member("user_id", &settings.user_id));
    members.push(optional_member("device_id", &settings.device_id));
    members.push(
        json::text_member("favourite_qualities", settings.favourite_qualities.as_str()),
    );
    assert(json::members_view(members@) =~= settings_members(settings@));
    let mut document = json::json_object_text(&members);
    document.push('\n');
    document
}

/// Whether settings name both a user and a device, or neither, and neither name is blank.
pub open spec fn is_consistent(settings: SettingsView) -> bool {
    &&& (settings.user_id is Some) == (settings.device_id is Some)
    &&& settings.user_id matches Some(user) ==> is_filled(user)
    &&& settings.device_id matches Some(device) ==> is_filled(device)
}

/// What a document reads as that was written for settings: the same settings, as long as
/// they are consistent.
pub proof fn written_settings_read_back(settings: SettingsView, document: Seq<char>)
    requires
        json::reads_back(document, settings_members(settings)),
        is_consistent(settings),
    ensures
        settings_in(document) == Ok::<SettingsView, Seq<char>>(settings),
{
    let members = settings_members(settings);
    reveal_strlit("user_id");
    reveal_strlit("device_id");
    reveal_strlit("favourite_qualities");
    reveal_strlit("/user_id");
    reveal_strlit("/device_id");
    reveal_strlit("/favourite_qualities");
    assert("user_id"@.len() == 7 && "device_id"@.len() == 9 && "favourite_qualities"@.len() == 19);
    assert(members[0].0 == "user_id"@ && members[1].0 == "device_id"@ && members[2].0
        == "favourite_qualities"@);
    assert(seq!['/'] + "user_id"@ =~= "/user_id"@);
    assert(seq!['/'] + "device_id"@ =~= "/device_id"@);
    assert(seq!['/'] + "favourite_qualities"@ =~= "/favourite_qualities"@);
    assert(json::is_plain_key("user_id"@));
    assert(json::is_plain_key("device_id"@));
    assert(json::is_plain_key("favourite_qualities"@));
    assert(json::found(document, "/user_id"@) == Some(members[0].1));
    assert(json::found(document, "/device_id"@) == Some(members[1].1));
    assert(json::found(document, "/favourite_qualities"@) == Some(members[2].1));
}

/// Settings that a document reads as are consistent.
pub proof fn read_settings_are_consistent(document: Seq<char>)
    ensures
        settings_in(document) matches Ok(settings) ==> is_consistent(settings),
{
}

/// Where the settings are kept.
#[derive(Debug, PartialEq, Eq)]
pub struct SettingsStore {
    path: String,
}

/// The path of a store, where there is one.
pub open spec fn store_path(store: Option<SettingsStore>) -> Option<Seq<char>> {
    match store {
        Some(store) => Some(store.location()),
        None => None,
    }
}

/// The settings in what was read of the file at `path`, or what is wrong with it.
pub open spec fn stored_settings(
    path: Seq<char>,
    read: Result<Option<Seq<char>>, Seq<char>>,
) -> Result<SettingsView, Seq<char>> {
    match read {
        Ok(None) => Ok(
            SettingsView { user_id: None, device_id: None, favourite_qualities: Seq::empty() },
        ),
        Ok(Some(document)) => match settings_in(document) {
            Ok(settings) => Ok(settings),
            Err(error) => Err("parse settings "@ + path + ": "@ + error),
        },
        Err(error) => Err("read settings "@ + path + ": "@ + error),
    }
}

impl SettingsStore {
    pub closed spec fn location(self) -> Seq<char> {
        self.path@
    }

    pub fn new(path: String) -> (store: Self)
        ensures
            store.location() == path@,
    {
        SettingsStore { path }
    }

    pub fn path(&self) -> (path: &str)
        ensures
            path@ == self.location(),
    {
        self.path.as_str()
    }

    /// The settings in what was read from the store's file: the default ones if there was
    /// no file.
    pub fn load(&self, read: Result<Option<&str>, &str>) -> (settings: Result<Settings, String>)
        ensures
            match settings {
                Ok(settings) => stored_settings(self.location(), persistence::read_view(read))
                    == Ok::<SettingsView, Seq<char>>(settings@),
                Err(message) => stored_settings(self.location(), persistence::read_view(read))
                    == Err::<SettingsView, Seq<char>>(message@),
            },
    {
        let (failed, error) = match read {
            Ok(None) => {
                return Ok(Settings::default());
            },
            Ok(Some(document)) => match parse_settings(document) {
                Ok(settings) => {
                    return Ok(settings);
                },
                Err(error) => ("parse settings ", error),
            },
            Err(error) => ("read settings ", error.to_owned()),
        };
        let mut message = failed.to_owned();
        message.append(self.path.as_str());
        message.append(": ");
        message.append(error.as_str());
        Err(message)
    }
}

/// Settings are found under their names: who is signed in, on which device, and the
/// favourites, of which there may be none.
pub proof fn settings_stand_under_their_names(
    document: Seq<char>,
    user_id: Seq<char>,
    device_id: Seq<char>,
    favourites: Seq<char>,
)
    requires
        json::json_node_at(document, Seq::empty()) == Ok::<Option<JsonView>, Seq<char>>(
            Some(JsonView::Object),
        ),
    ensures
        json::found(document, "/user_id"@) == Some(JsonView::Text(user_id)) && json::found(
            document,
            "/device_id"@,
        ) == Some(JsonView::Text(device_id)) && json::found(document, "/favourite_qualities"@)
            == Some(JsonView::Text(favourites)) && text::trimmed(user_id).len() > 0
            && text::trimmed(device_id).len() > 0 ==> settings_in(document) == Ok::<
            SettingsView,
            Seq<char>,
        >(
            SettingsView {
                user_id: Some(user_id),
                device_id: Some(device_id),
                favourite_qualities: favourites,
            },
        ),
        json::found(document, "/user_id"@) is None && json::found(document, "/device_id"@) is None
            && json::found(document, "/favourite_qualities"@) is None ==> settings_in(document)
            == Ok::<SettingsView, Seq<char>>(
            SettingsView { user_id: None, device_id: None, favourite_qualities: Seq::empty() },
        ),
        json::found(document, "/user_id"@) is None && json::found(document, "/device_id"@) == Some(
            JsonView::Text(device_id),
        ) ==> settings_in(document) is Err,
        json::found(document, "/device_id"@) is None && json::found(document, "/user_id"@) == Some(
            JsonView::Text(user_id),
        ) ==> settings_in(document) is Err,
{
}

/// Settings are written under the names that they are read from.
pub proof fn settings_are_written_under_their_names(settings: SettingsView)
    requires
        settings.user_id is Some,
        settings.device_id is Some,
    ensures
        settings_members(settings).contains(
            ("user_id"@, JsonView::Text(settings.user_id.unwrap())),
        ),
        settings_members(settings).contains(
            ("device_id"@, JsonView::Text(settings.device_id.unwrap())),
        ),
        settings_members(settings).contains(
            ("favourite_qualities"@, JsonView::Text(settings.favourite_qualities)),
        ),
{
    let members = settings_members(settings);
    assert(members[0] == ("user_id"@, JsonView::Text(settings.user_id.unwrap())));
    assert(members[1] == ("device_id"@, JsonView::Text(settings.device_id.unwrap())));
    assert(members[2] == ("favourite_qualities"@, JsonView::Text(settings.favourite_qualities)));
}

/// Without a file there are no settings; with one, they are those in it, and what cannot be
/// read is told.
pub proof fn stored_settings_are_those_in_the_file(
    path: Seq<char>,
    document: Seq<char>,
    error: Seq<char>,
)
    ensures
        stored_settings(path, Ok(None)) matches Ok(settings) && settings.user_id is None
            && settings.device_id is None && settings.favourite_qualities.len() == 0,
        settings_in(document) is Ok ==> stored_settings(path, Ok(Some(document))) == settings_in(
            document,
        ),
        settings_in(document) is Err ==> stored_settings(path, Ok(Some(document))) is Err,
        stored_settings(path, Err(error)) is Err,
{
}

} // verus!
