//! The notification payload, its JSON projection and its wire text.

use crate::json::{members_view, push_member, tree_text, JsonTree, JsonValue};
use vstd::prelude::*;
use vstd::utf8::encode_utf8;

verus! {

/// Each remote notification includes a payload. The payload says how the
/// system should alert the user.
#[derive(Debug, PartialEq, Eq)]
pub struct Payload {
    pub aps: APS,
}

/// The notification body. Each field that is there asks for one way of
/// notifying the user: an alert to display, a number to badge the app icon
/// with, a sound to play.
#[derive(Debug, PartialEq, Eq)]
pub struct APS {
    /// If this is there, the system displays a standard alert or a banner,
    /// based on the user's setting.
    pub alert: Option<APSAlert>,
    /// The number to display as the badge of the app icon.
    pub badge: Option<u32>,
    /// The name of a sound file in the app bundle or in the Library/Sounds
    /// folder of the app's data container.
    pub sound: Option<String>,
    /// Provide this key with a value of 1 to indicate that new content is
    /// available.
    pub content_available: Option<u32>,
    /// The identifier of the category whose actions the notification
    /// offers.
    pub category: Option<String>,
}

/// What the notification shows: a string or a dictionary.
#[derive(Debug, PartialEq, Eq)]
pub enum APSAlert {
    Plain(String),
    Localized(APSLocalizedAlert),
}

/// An alert with a title, a body and what localizes them.
#[derive(Debug, PartialEq, Eq)]
pub struct APSLocalizedAlert {
    /// A short string describing the purpose of the notification.
    pub title: String,
    /// The text of the alert message.
    pub body: String,
    /// The key to a title string in the Localizable.strings file for the
    /// current localization.
    pub title_loc_key: Option<String>,
    /// Variable string values to appear in place of the format specifiers in
    /// title-loc-key.
    pub title_loc_args: Option<Vec<String>>,
    /// If a string is specified, the system displays an alert that includes
    /// the Close and View buttons.
    pub action_loc_key: Option<String>,
    /// A key to an alert-message string in a Localizable.strings file for
    /// the current localization.
    pub loc_key: Option<String>,
    /// Variable string values to appear in place of the format specifiers in
    /// loc-key.
    pub loc_args: Option<Vec<String>>,
    /// The filename of an image file in the app bundle, used as the launch
    /// image when users tap the action button or move the action slider.
    pub launch_image: Option<String>,
}

/// The characters of each string of a list.
pub open spec fn texts_of(list: Seq<String>) -> Seq<Seq<char>> {
    list.map_values(|s: String| s@)
}

/// The characters of an optional string.
pub open spec fn text_view(text: Option<String>) -> Option<Seq<char>> {
    match text {
        Some(s) => Some(s@),
        None => None,
    }
}

/// The strings of an optional list.
pub open spec fn list_view(list: Option<Vec<String>>) -> Option<Seq<Seq<char>>> {
    match list {
        Some(v) => Some(texts_of(v@)),
        None => None,
    }
}

/// A localized alert as a mathematical value.
pub struct LocalizedAlertView {
    pub title: Seq<char>,
    pub body: Seq<char>,
    pub title_loc_key: Option<Seq<char>>,
    pub title_loc_args: Option<Seq<Seq<char>>>,
    pub action_loc_key: Option<Seq<char>>,
    pub loc_key: Option<Seq<char>>,
    pub loc_args: Option<Seq<Seq<char>>>,
    pub launch_image: Option<Seq<char>>,
}

/// An alert as a mathematical value.
pub enum AlertView {
    Plain(Seq<char>),
    Localized(LocalizedAlertView),
}

/// A notification body as a mathematical value.
pub struct ApsView {
    pub alert: Option<AlertView>,
    pub badge: Option<u32>,
    pub sound: Option<Seq<char>>,
    pub content_available: Option<u32>,
    pub category: Option<Seq<char>>,
}

/// A payload as a mathematical value.
pub struct PayloadView {
    pub aps: ApsView,
}

impl View for APSLocalizedAlert {
    type V = LocalizedAlertView;

    open spec fn view(&self) -> LocalizedAlertView {
        LocalizedAlertView {
            title: self.title@,
            body: self.body@,
            title_loc_key: text_view(self.title_loc_key),
            title_loc_args: list_view(self.title_loc_args),
            action_loc_key: text_view(self.action_loc_key),
            loc_key: text_view(self.loc_key),
            loc_args: list_view(self.loc_args),
            launch_image: text_view(self.launch_image),
        }
    }
}

impl View for APSAlert {
    type V = AlertView;

    open spec fn view(&self) -> AlertView {
        match self {
            APSAlert::Plain(s) => AlertView::Plain(s@),
            APSAlert::Localized(l) => AlertView::Localized(l@),
        }
    }
}

/// The model of an optional alert.
pub open spec fn alert_view(alert: Option<APSAlert>) -> Option<AlertView> {
    match alert {
        Some(a) => Some(a@),
        None => None,
    }
}

impl View for APS {
    type V = ApsView;

    open spec fn view(&self) -> ApsView {
        ApsView {
            alert: alert_view(self.alert),
            badge: self.badge,
            sound: text_view(self.sound),
            content_available: self.content_available,
            category: text_view(self.category),
        }
    }
}

impl View for Payload {
    type V = PayloadView;

    open spec fn view(&self) -> PayloadView {
        PayloadView { aps: self.aps@ }
    }
}

/// The JSON string for a text that is there, `null` for one that is absent.
pub open spec fn text_or_null(text: Option<Seq<char>>) -> JsonTree {
    match text {
        Some(s) => JsonTree::Text(s),
        None => JsonTree::Null,
    }
}

/// The JSON array of the strings of a list that is there, `null` for one
/// that is absent.
pub open spec fn list_or_null(list: Option<Seq<Seq<char>>>) -> JsonTree {
    match list {
        Some(l) => JsonTree::Array(l.map_values(|s: Seq<char>| JsonTree::Text(s))),
        None => JsonTree::Null,
    }
}

/// One member under `key` where a value is there, no member where it is
/// absent.
pub open spec fn member_if_present(key: Seq<char>, value: Option<JsonTree>) -> Seq<
    (Seq<char>, JsonTree),
> {
    match value {
        Some(v) => seq![(key, v)],
        None => Seq::empty(),
    }
}

/// The JSON string of an optional text.
pub open spec fn text_tree(text: Option<Seq<char>>) -> Option<JsonTree> {
    match text {
        Some(s) => Some(JsonTree::Text(s)),
        None => None,
    }
}

/// The JSON number of an optional count.
pub open spec fn number_tree(n: Option<u32>) -> Option<JsonTree> {
    match n {
        Some(n) => Some(JsonTree::Number(n as nat)),
        None => None,
    }
}

impl LocalizedAlertView {
    /// The members of the alert dictionary. `title` and `body` are always
    /// there; the five localization members are there too, as `null` where
    /// they are absent; `launch-image` is there only where it is set.
    pub open spec fn members(self) -> Seq<(Seq<char>, JsonTree)> {
        seq![
            ("title"@, JsonTree::Text(self.title)),
            ("body"@, JsonTree::Text(self.body)),
            ("title-loc-key"@, text_or_null(self.title_loc_key)),
            ("title-loc-args"@, list_or_null(self.title_loc_args)),
            ("action-loc-key"@, text_or_null(self.action_loc_key)),
            ("loc-key"@, text_or_null(self.loc_key)),
            ("loc-args"@, list_or_null(self.loc_args)),
        ] + member_if_present("launch-image"@, text_tree(self.launch_image))
    }

    /// The alert dictionary.
    pub open spec fn json(self) -> JsonTree {
        JsonTree::Object(self.members())
    }
}

impl AlertView {
    /// The value of the `alert` member: a bare string for a plain alert,
    /// the alert dictionary for a localized one.
    pub open spec fn json(self) -> JsonTree {
        match self {
            AlertView::Plain(s) => JsonTree::Text(s),
            AlertView::Localized(l) => l.json(),
        }
    }
}

/// The value of the `alert` member where an alert is there.
pub open spec fn alert_tree(alert: Option<AlertView>) -> Option<JsonTree> {
    match alert {
        Some(a) => Some(a.json()),
        None => None,
    }
}

impl ApsView {
    /// The members of the notification body: one for each field that is
    /// there, none for one that is absent.
    pub open spec fn members(self) -> Seq<(Seq<char>, JsonTree)> {
        member_if_present("alert"@, alert_tree(self.alert)) + member_if_present(
            "badge"@,
            number_tree(self.badge),
        ) + member_if_present("sound"@, text_tree(self.sound)) + member_if_present(
            "content-available"@,
            number_tree(self.content_available),
        ) + member_if_present("category"@, text_tree(self.category))
    }

    /// The notification body as a JSON object.
    pub open spec fn json(self) -> JsonTree {
        JsonTree::Object(self.members())
    }
}

impl PayloadView {
    /// A standard notification: alert, badge and sound are there, the
    /// category is as given, the content flag is absent.
    pub open spec fn standard(
        alert: AlertView,
        badge: u32,
        sound: Seq<char>,
        category: Option<Seq<char>>,
    ) -> PayloadView {
        PayloadView {
            aps: ApsView {
                alert: Some(alert),
                badge: Some(badge),
                sound: Some(sound),
                content_available: None,
                category: category,
            },
        }
    }

    /// An action notification: alert, sound and category are there, the
    /// badge is as given, the content flag is absent.
    pub open spec fn action(
        alert: AlertView,
        badge: Option<u32>,
        sound: Seq<char>,
        category: Seq<char>,
    ) -> PayloadView {
        PayloadView {
            aps: ApsView {
                alert: Some(alert),
                badge: badge,
                sound: Some(sound),
                content_available: None,
                category: Some(category),
            },
        }
    }

    /// A silent notification: only the content flag is there, and it is 1.
    pub open spec fn silent() -> PayloadView {
        PayloadView {
            aps: ApsView {
                alert: None,
                badge: None,
                sound: None,
                content_available: Some(1u32),
                category: None,
            },
        }
    }

    /// The payload as a JSON object: one member, `aps`, the notification
    /// body.
    pub open spec fn json(self) -> JsonTree {
        JsonTree::Object(seq![("aps"@, self.aps.json())])
    }

    /// The wire text of the payload.
    pub open spec fn text(self) -> Seq<char> {
        tree_text(self.json())
    }
}

/// The number of bytes that a text takes in UTF-8.
pub open spec fn byte_length(text: Seq<char>) -> nat {
    encode_utf8(text).len()
}

/// A JSON string with a copy of `text`.
fn text_value(text: &String) -> (json: JsonValue)
    ensures
        json@ == JsonTree::Text(text@),
{
    JsonValue::Text(text.clone())
}

/// A JSON string for a text that is there, `null` for one that is absent.
fn text_value_or_null(text: &Option<String>) -> (json: JsonValue)
    ensures
        json@ == text_or_null(text_view(*text)),
{
    match text {
        Some(s) => text_value(s),
        None => JsonValue::Null,
    }
}

/// A JSON array of strings for a list that is there, `null` for one that
/// is absent.
fn list_value_or_null(list: &Option<Vec<String>>) -> (json: JsonValue)
    ensures
        json@ == list_or_null(list_view(*list)),
{
    match list {
        Some(v) => {
            let mut items: Vec<JsonValue> = Vec::new();
            let mut i: usize = 0;
            while i < v.len()
                invariant
                    i <= v.len(),
                    items.len() == i,
                    forall|j: int| 0 <= j < i ==> (#[trigger] items[j])@ == JsonTree::Text(v[j]@),
                decreases v.len() - i,
            {
                items.push(text_value(&v[i]));
                i += 1;
            }
            let json = JsonValue::Array(items);
            assert(json@->Array_0 =~= texts_of(v@).map_values(|s: Seq<char>| JsonTree::Text(s)));
            json
        },
        None => JsonValue::Null,
    }
}

impl APSLocalizedAlert {
    /// The alert dictionary of this alert.
    pub fn to_json(&self) -> (json: JsonValue)
        ensures
            json@ == self@.json(),
    {
        let mut members: Vec<(String, JsonValue)> = Vec::new();
        push_member(&mut members, "title", text_value(&self.title));
        push_member(&mut members, "body", text_value(&self.body));
        push_member(&mut members, "title-loc-key", text_value_or_null(&self.title_loc_key));
        push_member(&mut members, "title-loc-args", list_value_or_null(&self.title_loc_args));
        push_member(&mut members, "action-loc-key", text_value_or_null(&self.action_loc_key));
        push_member(&mut members, "loc-key", text_value_or_null(&self.loc_key));
        push_member(&mut members, "loc-args", list_value_or_null(&self.loc_args));
        if let Some(image) = &self.launch_image {
            push_member(&mut members, "launch-image", text_value(image));
        }
        assert(members_view(members) =~= self@.members());
        JsonValue::Object(members)
    }
}

impl APSAlert {
    /// The value of the `alert` member for this alert.
    pub fn to_json(&self) -> (json: JsonValue)
        ensures
            json@ == self@.json(),
    {
        match self {
            APSAlert::Plain(s) => text_value(s),
            APSAlert::Localized(l) => l.to_json(),
        }
    }
}

impl APS {
    /// The notification body as a JSON object.
    pub fn to_json(&self) -> (json: JsonValue)
        ensures
            json@ == self@.json(),
    {
        let mut members: Vec<(String, JsonValue)> = Vec::new();
        if let Some(alert) = &self.alert {
            push_member(&mut members, "alert", alert.to_json());
        }
        if let Some(badge) = self.badge {
            push_member(&mut members, "badge", JsonValue::Number(badge as u64));
        }
        if let Some(sound) = &self.sound {
            push_member(&mut members, "sound", text_value(sound));
        }
        if let Some(content_available) = self.content_available {
            push_member(
                &mut members,
                "content-available",
                JsonValue::Number(content_available as u64),
            );
        }
        if let Some(category) = &self.category {
            push_member(&mut members, "category", text_value(category));
        }
        assert(members_view(members) =~= self@.members());
        JsonValue::Object(members)
    }
}

impl Payload {
    /// A standard notification.
    pub fn new(alert: APSAlert, badge: u32, sound: &str, category: Option<String>) -> (payload:
        Payload)
        ensures
            payload@ == PayloadView::standard(alert@, badge, sound@, text_view(category)),
    {
        Payload {
            aps: APS {
                alert: Some(alert),
                badge: Some(badge),
                sound: Some(sound.to_owned()),
                content_available: None,
                category: category,
            },
        }
    }

    /// A notification that offers the actions of a category.
    pub fn new_action_notification(
        alert: APSAlert,
        badge: Option<u32>,
        sound: &str,
        category: &str,
    ) -> (payload: Payload)
        ensures
            payload@ == PayloadView::action(alert@, badge, sound@, category@),
    {
        Payload {
            aps: APS {
                alert: Some(alert),
                badge: badge,
                sound: Some(sound.to_owned()),
                content_available: None,
                category: Some(category.to_owned()),
            },
        }
    }

    /// A notification that shows nothing and wakes the app for new content.
    pub fn new_silent_notification() -> (payload: Payload)
        ensures
            payload@ == PayloadView::silent(),
    {
        Payload {
            aps: APS {
                alert: None,
                badge: None,
                sound: None,
                content_available: Some(1),
                category: None,
            },
        }
    }

    /// The payload as a JSON object.
    pub fn to_json(&self) -> (json: JsonValue)
        ensures
            json@ == self@.json(),
    {
        let mut members: Vec<(String, JsonValue)> = Vec::new();
        push_member(&mut members, "aps", self.aps.to_json());
        assert(members_view(members) =~= seq![("aps"@, self.aps@.json())]);
        JsonValue::Object(members)
    }

    /// The wire text of the payload.
    pub fn to_string(&self) -> (text: String)
        ensures
            text@ == self@.text(),
    {
        self.to_json().to_string()
    }

    /// The length of the wire text in bytes.
    pub fn len(&self) -> (n: usize)
        ensures
            n == byte_length(self@.text()),
    {
        self.to_string().as_str().as_bytes().len()
    }
}

} // verus!
