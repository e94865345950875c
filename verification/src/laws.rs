//! What holds of every payload, proved from the models.

use crate::json::{
    decimal_text, has_key, has_member, is_plain, keys_of, member_text, members_text, quoted,
    string_text, tree_text, JsonTree,
};
use crate::payload::{
    alert_tree, byte_length, list_or_null, member_if_present, number_tree, text_or_null,
    text_tree, AlertView, ApsView, LocalizedAlertView, PayloadView,
};
use vstd::prelude::*;

verus! {

/// After any opening, the first member of an object with a plain key is
/// the key written in place and then the value.
proof fn first_member(
    members: Seq<(Seq<char>, JsonTree)>,
    opening: Seq<char>,
    prefix: Seq<char>,
)
    requires
        0 < members.len(),
        is_plain(members[0].0),
        prefix == opening + quoted(members[0].0) + ":"@,
    ensures
        opening + members_text(members, 1) == prefix + tree_text(members[0].1),
{
    let member = member_text(members[0].0, members[0].1);
    assert(member == string_text(members[0].0) + ":"@ + tree_text(members[0].1));
    assert(opening + member =~= prefix + tree_text(members[0].1));
}

/// One more member with a plain key adds, to the text so far, the key
/// written in place after a comma and then the value.
proof fn next_member(
    members: Seq<(Seq<char>, JsonTree)>,
    n: nat,
    opening: Seq<char>,
    head: Seq<char>,
    prefix: Seq<char>,
)
    requires
        0 < n < members.len(),
        is_plain(members[n as int].0),
        prefix == ","@ + quoted(members[n as int].0) + ":"@,
        head == opening + members_text(members, n),
    ensures
        opening + members_text(members, n + 1) == head + prefix + tree_text(
            members[n as int].1,
        ),
{
    let member = member_text(members[n as int].0, members[n as int].1);
    assert(member == string_text(members[n as int].0) + ":"@ + tree_text(members[n as int].1));
    assert(members_text(members, n + 1) == members_text(members, n) + ","@ + member);
    assert(opening + (members_text(members, n) + ","@ + member) =~= head + prefix + tree_text(
        members[n as int].1,
    ));
}

/// How the `alert` member begins the body of a payload.
proof fn alert_prefix()
    ensures
        is_plain("alert"@),
        "{\"aps\":{\"alert\":"@ == "{\"aps\":{"@ + quoted("alert"@) + ":"@,
{
    reveal_strlit("alert");
    reveal_strlit("\"");
    reveal_strlit(":");
    reveal_strlit("{\"aps\":{");
    reveal_strlit("{\"aps\":{\"alert\":");
    assert("{\"aps\":{\"alert\":"@ =~= "{\"aps\":{"@ + quoted("alert"@) + ":"@);
}

/// How the `badge` member begins after another.
proof fn badge_prefix()
    ensures
        is_plain("badge"@),
        ",\"badge\":"@ == ","@ + quoted("badge"@) + ":"@,
{
    reveal_strlit("badge");
    reveal_strlit("\"");
    reveal_strlit(":");
    reveal_strlit(",");
    reveal_strlit(",\"badge\":");
    assert(",\"badge\":"@ =~= ","@ + quoted("badge"@) + ":"@);
}

/// How the `sound` member begins after another.
proof fn sound_prefix()
    ensures
        is_plain("sound"@),
        ",\"sound\":"@ == ","@ + quoted("sound"@) + ":"@,
{
    reveal_strlit("sound");
    reveal_strlit("\"");
    reveal_strlit(":");
    reveal_strlit(",");
    reveal_strlit(",\"sound\":");
    assert(",\"sound\":"@ =~= ","@ + quoted("sound"@) + ":"@);
}

/// How the `category` member begins after another.
proof fn category_prefix()
    ensures
        is_plain("category"@),
        ",\"category\":"@ == ","@ + quoted("category"@) + ":"@,
{
    reveal_strlit("category");
    reveal_strlit("\"");
    reveal_strlit(":");
    reveal_strlit(",");
    reveal_strlit(",\"category\":");
    assert(",\"category\":"@ =~= ","@ + quoted("category"@) + ":"@);
}

/// Every payload is an object with the one member `aps`, the notification
/// body: its text is `{"aps":{`, the members of the body, and `}}`.
pub proof fn payload_text_frame(payload: PayloadView)
    ensures
        payload.json() == JsonTree::Object(
            seq![("aps"@, JsonTree::Object(payload.aps.members()))],
        ),
        payload.text() == "{\"aps\":{"@ + members_text(
            payload.aps.members(),
            payload.aps.members().len(),
        ) + "}}"@,
{
    reveal_strlit("aps");
    reveal_strlit("\"");
    reveal_strlit(":");
    reveal_strlit("{");
    reveal_strlit("}");
    reveal_strlit("{\"aps\":{");
    reveal_strlit("}}");
    let inner = members_text(payload.aps.members(), payload.aps.members().len());
    let outer = seq![("aps"@, payload.aps.json())];
    assert(is_plain("aps"@));
    assert(members_text(outer, 1) == member_text("aps"@, payload.aps.json()));
    assert(member_text("aps"@, payload.aps.json()) == quoted("aps"@) + ":"@ + ("{"@ + inner
        + "}"@));
    assert(payload.text() =~= "{\"aps\":{"@ + inner + "}}"@);
}

/// A key is among the members of two runs put together exactly where it is
/// among those of one of them, and so is a member.
proof fn members_of_concat(
    first: Seq<(Seq<char>, JsonTree)>,
    second: Seq<(Seq<char>, JsonTree)>,
    key: Seq<char>,
    value: JsonTree,
)
    ensures
        has_key(first + second, key) <==> has_key(first, key) || has_key(second, key),
        has_member(first + second, key, value) <==> has_member(first, key, value) || has_member(
            second,
            key,
            value,
        ),
{
    let both = first + second;
    if has_key(first, key) {
        let i = choose|i: int| 0 <= i < first.len() && (#[trigger] first[i]).0 == key;
        assert(both[i] == first[i]);
    }
    if has_key(second, key) {
        let i = choose|i: int| 0 <= i < second.len() && (#[trigger] second[i]).0 == key;
        assert(both[first.len() + i] == second[i]);
    }
    if has_key(both, key) {
        let i = choose|i: int| 0 <= i < both.len() && (#[trigger] both[i]).0 == key;
        if i < first.len() {
            assert(first[i] == both[i]);
        } else {
            assert(second[i - first.len()] == both[i]);
        }
    }
    if has_member(first, key, value) {
        let i = choose|i: int| 0 <= i < first.len() && first[i] == (key, value);
        assert(both[i] == first[i]);
    }
    if has_member(second, key, value) {
        let i = choose|i: int| 0 <= i < second.len() && second[i] == (key, value);
        assert(both[first.len() + i] == second[i]);
    }
    if has_member(both, key, value) {
        let i = choose|i: int| 0 <= i < both.len() && both[i] == (key, value);
        if i < first.len() {
            assert(first[i] == both[i]);
        } else {
            assert(second[i - first.len()] == both[i]);
        }
    }
}

/// An optional member is there under its own key, with its own value, and
/// only where its value is there.
proof fn members_of_optional(
    name: Seq<char>,
    present: Option<JsonTree>,
    key: Seq<char>,
    value: JsonTree,
)
    ensures
        has_key(member_if_present(name, present), key) <==> present is Some && name == key,
        has_member(member_if_present(name, present), key, value) <==> present == Some(value)
            && name == key,
{
    let members = member_if_present(name, present);
    if present is Some {
        assert(members[0] == (name, present->0));
    }
}

/// Where a key and a member stand among the members of a notification
/// body: in the run of the field that they belong to.
proof fn body_member_origin(body: ApsView, key: Seq<char>, value: JsonTree)
    ensures
        has_key(body.members(), key) <==> (body.alert is Some && key == "alert"@) || (body.badge
            is Some && key == "badge"@) || (body.sound is Some && key == "sound"@) || (
        body.content_available is Some && key == "content-available"@) || (body.category is Some
            && key == "category"@),
        has_member(body.members(), key, value) <==> (alert_tree(body.alert) == Some(value) && key
            == "alert"@) || (number_tree(body.badge) == Some(value) && key == "badge"@) || (
        text_tree(body.sound) == Some(value) && key == "sound"@) || (number_tree(
            body.content_available,
        ) == Some(value) && key == "content-available"@) || (text_tree(body.category) == Some(
            value,
        ) && key == "category"@),
{
    let alert = member_if_present("alert"@, alert_tree(body.alert));
    let badge = member_if_present("badge"@, number_tree(body.badge));
    let sound = member_if_present("sound"@, text_tree(body.sound));
    let content = member_if_present("content-available"@, number_tree(body.content_available));
    let category = member_if_present("category"@, text_tree(body.category));
    members_of_concat(alert, badge, key, value);
    members_of_concat(alert + badge, sound, key, value);
    members_of_concat(alert + badge + sound, content, key, value);
    members_of_concat(alert + badge + sound + content, category, key, value);
    members_of_optional("alert"@, alert_tree(body.alert), key, value);
    members_of_optional("badge"@, number_tree(body.badge), key, value);
    members_of_optional("sound"@, text_tree(body.sound), key, value);
    members_of_optional("content-available"@, number_tree(body.content_available), key, value);
    members_of_optional("category"@, text_tree(body.category), key, value);
}

/// The five keys of the notification body differ from one another.
proof fn body_keys_differ()
    ensures
        "alert"@ != "badge"@,
        "alert"@ != "sound"@,
        "alert"@ != "content-available"@,
        "alert"@ != "category"@,
        "badge"@ != "sound"@,
        "badge"@ != "content-available"@,
        "badge"@ != "category"@,
        "sound"@ != "content-available"@,
        "sound"@ != "category"@,
        "content-available"@ != "category"@,
{
    reveal_strlit("alert");
    reveal_strlit("badge");
    reveal_strlit("sound");
    reveal_strlit("content-available");
    reveal_strlit("category");
    assert("alert"@[0] != "badge"@[0]);
    assert("alert"@[0] != "sound"@[0]);
    assert("badge"@[0] != "sound"@[0]);
    assert("alert"@.len() == 5 && "badge"@.len() == 5 && "sound"@.len() == 5);
    assert("category"@.len() == 8);
    assert("content-available"@.len() == 17);
}

/// The notification body has a member for each field that is there, with
/// the value of the field, and none for a field that is absent.
pub proof fn body_members_follow_presence(body: ApsView)
    ensures
        has_key(body.members(), "alert"@) <==> body.alert is Some,
        has_key(body.members(), "badge"@) <==> body.badge is Some,
        has_key(body.members(), "sound"@) <==> body.sound is Some,
        has_key(body.members(), "content-available"@) <==> body.content_available is Some,
        has_key(body.members(), "category"@) <==> body.category is Some,
        body.alert matches Some(alert) ==> has_member(body.members(), "alert"@, alert.json()),
        body.badge matches Some(n) ==> has_member(
            body.members(),
            "badge"@,
            JsonTree::Number(n as nat),
        ),
        body.sound matches Some(s) ==> has_member(body.members(), "sound"@, JsonTree::Text(s)),
        body.content_available matches Some(n) ==> has_member(
            body.members(),
            "content-available"@,
            JsonTree::Number(n as nat),
        ),
        body.category matches Some(c) ==> has_member(
            body.members(),
            "category"@,
            JsonTree::Text(c),
        ),
{
    body_keys_differ();
    let any = JsonTree::Null;
    body_member_origin(
        body,
        "alert"@,
        match body.alert {
            Some(alert) => alert.json(),
            None => any,
        },
    );
    body_member_origin(
        body,
        "badge"@,
        match body.badge {
            Some(n) => JsonTree::Number(n as nat),
            None => any,
        },
    );
    body_member_origin(
        body,
        "sound"@,
        match body.sound {
            Some(s) => JsonTree::Text(s),
            None => any,
        },
    );
    body_member_origin(
        body,
        "content-available"@,
        match body.content_available {
            Some(n) => JsonTree::Number(n as nat),
            None => any,
        },
    );
    body_member_origin(
        body,
        "category"@,
        match body.category {
            Some(c) => JsonTree::Text(c),
            None => any,
        },
    );
}

/// A standard notification has the members `alert`, `badge` and `sound`, in
/// this order, then `category` if and only if a category was given, and no
/// others: it never has `content-available`.
pub proof fn standard_notification_keys(
    alert: AlertView,
    badge: u32,
    sound: Seq<char>,
    category: Option<Seq<char>>,
)
    ensures
        ({
            let payload = PayloadView::standard(alert, badge, sound, category);
            let members = payload.aps.members();
            &&& payload.json() == JsonTree::Object(seq![("aps"@, JsonTree::Object(members))])
            &&& category is Some ==> keys_of(members) == seq![
                "alert"@,
                "badge"@,
                "sound"@,
                "category"@,
            ]
            &&& category is None ==> keys_of(members) == seq!["alert"@, "badge"@, "sound"@]
            &&& has_key(members, "category"@) <==> category is Some
            &&& !has_key(members, "content-available"@)
        }),
{
    reveal_strlit("alert");
    reveal_strlit("badge");
    reveal_strlit("sound");
    reveal_strlit("category");
    reveal_strlit("content-available");
    let members = PayloadView::standard(alert, badge, sound, category).aps.members();
    let keys = keys_of(members);
    if category is Some {
        assert(keys =~= seq!["alert"@, "badge"@, "sound"@, "category"@]);
        assert(members[3].0 == "category"@);
    } else {
        assert(keys =~= seq!["alert"@, "badge"@, "sound"@]);
    }
    assert forall|i: int| 0 <= i < members.len() implies (#[trigger] members[i]).0
        != "content-available"@ by {
        assert(members[i].0 == keys[i]);
        assert(keys[i].len() < 17);
    }
    if category is None {
        assert forall|i: int| 0 <= i < members.len() implies (#[trigger] members[i]).0
            != "category"@ by {
            assert(members[i].0 == keys[i]);
            assert(keys[i].len() == 5);
        }
    }
}

/// The wire text of a standard notification, written out: the body holds
/// `alert`, `badge` and `sound`, then `category` where one was given.
pub proof fn standard_notification_text(
    alert: AlertView,
    badge: u32,
    sound: Seq<char>,
    category: Option<Seq<char>>,
)
    ensures
        PayloadView::standard(alert, badge, sound, category).text() == "{\"aps\":{\"alert\":"@
            + tree_text(alert.json()) + ",\"badge\":"@ + decimal_text(badge as nat)
            + ",\"sound\":"@ + string_text(sound) + (match category {
            Some(c) => ",\"category\":"@ + string_text(c),
            None => Seq::empty(),
        }) + "}}"@,
{
    let payload = PayloadView::standard(alert, badge, sound, category);
    let members = payload.aps.members();
    let opening = "{\"aps\":{"@;
    assert(members[0] == ("alert"@, alert.json()));
    assert(members[1] == ("badge"@, JsonTree::Number(badge as nat)));
    assert(members[2] == ("sound"@, JsonTree::Text(sound)));
    alert_prefix();
    badge_prefix();
    sound_prefix();
    category_prefix();
    let h1 = "{\"aps\":{\"alert\":"@ + tree_text(alert.json());
    first_member(members, opening, "{\"aps\":{\"alert\":"@);
    let h2 = h1 + ",\"badge\":"@ + decimal_text(badge as nat);
    next_member(members, 1, opening, h1, ",\"badge\":"@);
    let h3 = h2 + ",\"sound\":"@ + string_text(sound);
    next_member(members, 2, opening, h2, ",\"sound\":"@);
    let tail = match category {
        Some(c) => ",\"category\":"@ + string_text(c),
        None => Seq::empty(),
    };
    assert(opening + members_text(members, members.len()) == h3 + tail) by {
        match category {
            Some(c) => {
                assert(members.len() == 4);
                assert(members[3] == ("category"@, JsonTree::Text(c)));
                next_member(members, 3, opening, h3, ",\"category\":"@);
                assert(h3 + ",\"category\":"@ + string_text(c) =~= h3 + tail);
            },
            None => {
                assert(members.len() == 3);
                assert(h3 =~= h3 + tail);
            },
        }
    }
    payload_text_frame(payload);
}

/// An action notification has the members `alert`, then `badge` if and
/// only if a badge was given, then `sound` and `category`, and no others.
pub proof fn action_notification_keys(
    alert: AlertView,
    badge: Option<u32>,
    sound: Seq<char>,
    category: Seq<char>,
)
    ensures
        ({
            let members = PayloadView::action(alert, badge, sound, category).aps.members();
            &&& badge is Some ==> keys_of(members) == seq![
                "alert"@,
                "badge"@,
                "sound"@,
                "category"@,
            ]
            &&& badge is None ==> keys_of(members) == seq!["alert"@, "sound"@, "category"@]
            &&& !has_key(members, "content-available"@)
        }),
{
    reveal_strlit("alert");
    reveal_strlit("badge");
    reveal_strlit("sound");
    reveal_strlit("category");
    reveal_strlit("content-available");
    let members = PayloadView::action(alert, badge, sound, category).aps.members();
    let keys = keys_of(members);
    if badge is Some {
        assert(keys =~= seq!["alert"@, "badge"@, "sound"@, "category"@]);
    } else {
        assert(keys =~= seq!["alert"@, "sound"@, "category"@]);
    }
    assert forall|i: int| 0 <= i < members.len() implies (#[trigger] members[i]).0
        != "content-available"@ by {
        assert(members[i].0 == keys[i]);
        assert(keys[i].len() < 17);
    }
}

/// The wire text of an action notification, written out: the body holds
/// `alert`, then `badge` where one was given, then `sound` and `category`.
pub proof fn action_notification_text(
    alert: AlertView,
    badge: Option<u32>,
    sound: Seq<char>,
    category: Seq<char>,
)
    ensures
        PayloadView::action(alert, badge, sound, category).text() == "{\"aps\":{\"alert\":"@
            + tree_text(alert.json()) + (match badge {
            Some(b) => ",\"badge\":"@ + decimal_text(b as nat),
            None => Seq::empty(),
        }) + ",\"sound\":"@ + string_text(sound) + ",\"category\":"@ + string_text(category)
            + "}}"@,
{
    let payload = PayloadView::action(alert, badge, sound, category);
    let members = payload.aps.members();
    let opening = "{\"aps\":{"@;
    assert(members[0] == ("alert"@, alert.json()));
    alert_prefix();
    badge_prefix();
    sound_prefix();
    category_prefix();
    let h1 = "{\"aps\":{\"alert\":"@ + tree_text(alert.json());
    first_member(members, opening, "{\"aps\":{\"alert\":"@);
    let middle = match badge {
        Some(b) => ",\"badge\":"@ + decimal_text(b as nat),
        None => Seq::empty(),
    };
    let h2 = h1 + middle;
    let h3 = h2 + ",\"sound\":"@ + string_text(sound);
    let h4 = h3 + ",\"category\":"@ + string_text(category);
    assert(opening + members_text(members, members.len()) == h4) by {
        match badge {
            Some(b) => {
                assert(members.len() == 4);
                assert(members[1] == ("badge"@, JsonTree::Number(b as nat)));
                assert(members[2] == ("sound"@, JsonTree::Text(sound)));
                assert(members[3] == ("category"@, JsonTree::Text(category)));
                next_member(members, 1, opening, h1, ",\"badge\":"@);
                assert(h1 + ",\"badge\":"@ + decimal_text(b as nat) =~= h2);
                next_member(members, 2, opening, h2, ",\"sound\":"@);
                next_member(members, 3, opening, h3, ",\"category\":"@);
            },
            None => {
                assert(members.len() == 3);
                assert(members[1] == ("sound"@, JsonTree::Text(sound)));
                assert(members[2] == ("category"@, JsonTree::Text(category)));
                assert(h1 =~= h2);
                next_member(members, 1, opening, h2, ",\"sound\":"@);
                next_member(members, 2, opening, h3, ",\"category\":"@);
            },
        }
    }
    payload_text_frame(payload);
}

/// The text of a silent notification is always the same.
pub proof fn silent_notification_text()
    ensures
        PayloadView::silent().text() == "{\"aps\":{\"content-available\":1}}"@,
{
    let payload = PayloadView::silent();
    let members = payload.aps.members();
    assert(members =~= seq![("content-available"@, JsonTree::Number(1))]);
    payload_text_frame(payload);
    assert("{\"aps\":{"@ + members_text(members, 1) + "}}"@
        == "{\"aps\":{\"content-available\":1}}"@) by {
        reveal_strlit("content-available");
        reveal_strlit("\"");
        reveal_strlit(":");
        reveal_strlit("{\"aps\":{");
        reveal_strlit("}}");
        reveal_strlit("{\"aps\":{\"content-available\":");
        reveal_strlit("{\"aps\":{\"content-available\":1}}");
        let prefix = "{\"aps\":{\"content-available\":"@;
        assert(prefix =~= "{\"aps\":{"@ + quoted("content-available"@) + ":"@);
        first_member(members, "{\"aps\":{"@, prefix);
        assert(decimal_text(1) =~= seq!['1']);
        assert(prefix + decimal_text(1) + "}}"@ =~= "{\"aps\":{\"content-available\":1}}"@);
    }
}

/// Any two texts written for one payload are the same, character for
/// character and byte for byte.
pub proof fn rendering_is_deterministic(payload: PayloadView, first: Seq<char>, second: Seq<char>)
    requires
        first == payload.text(),
        second == payload.text(),
    ensures
        first == second,
        byte_length(first) == byte_length(second),
{
}

/// The alert dictionary has `title`, `body` and the five localization
/// members, in this order, whether or not the latter are set: each holds
/// its value where it is set and `null` where it is absent. `launch-image`
/// follows only where it is set.
pub proof fn localized_alert_members(alert: LocalizedAlertView)
    ensures
        ({
            let members = alert.members();
            let always = seq![
                "title"@,
                "body"@,
                "title-loc-key"@,
                "title-loc-args"@,
                "action-loc-key"@,
                "loc-key"@,
                "loc-args"@,
            ];
            &&& alert.launch_image is None ==> keys_of(members) == always
            &&& alert.launch_image is Some ==> keys_of(members) == always.push("launch-image"@)
            &&& has_member(members, "title-loc-key"@, text_or_null(alert.title_loc_key))
            &&& has_member(members, "title-loc-args"@, list_or_null(alert.title_loc_args))
            &&& has_member(members, "action-loc-key"@, text_or_null(alert.action_loc_key))
            &&& has_member(members, "loc-key"@, text_or_null(alert.loc_key))
            &&& has_member(members, "loc-args"@, list_or_null(alert.loc_args))
            &&& has_key(members, "launch-image"@) <==> alert.launch_image is Some
        }),
        text_or_null(None) == JsonTree::Null,
        list_or_null(None) == JsonTree::Null,
        tree_text(JsonTree::Null) == "null"@,
{
    reveal_strlit("title");
    reveal_strlit("body");
    reveal_strlit("title-loc-key");
    reveal_strlit("title-loc-args");
    reveal_strlit("action-loc-key");
    reveal_strlit("loc-key");
    reveal_strlit("loc-args");
    reveal_strlit("launch-image");
    let members = alert.members();
    let keys = keys_of(members);
    let always = seq![
        "title"@,
        "body"@,
        "title-loc-key"@,
        "title-loc-args"@,
        "action-loc-key"@,
        "loc-key"@,
        "loc-args"@,
    ];
    assert(members[2] == ("title-loc-key"@, text_or_null(alert.title_loc_key)));
    assert(members[3] == ("title-loc-args"@, list_or_null(alert.title_loc_args)));
    assert(members[4] == ("action-loc-key"@, text_or_null(alert.action_loc_key)));
    assert(members[5] == ("loc-key"@, text_or_null(alert.loc_key)));
    assert(members[6] == ("loc-args"@, list_or_null(alert.loc_args)));
    if alert.launch_image is Some {
        assert(keys =~= always.push("launch-image"@));
        assert(members[7].0 == "launch-image"@);
    } else {
        assert(keys =~= always);
        assert forall|i: int| 0 <= i < members.len() implies (#[trigger] members[i]).0
            != "launch-image"@ by {
            assert(members[i].0.len() != 12);
        }
    }
}

/// The text of the alert dictionary, written out. A localization member
/// that is absent stands there as `null`; `launch-image` stands there only
/// where it is set.
pub proof fn localized_alert_text(alert: LocalizedAlertView)
    ensures
        tree_text(alert.json()) == "{\"title\":"@ + string_text(alert.title) + ",\"body\":"@
            + string_text(alert.body) + ",\"title-loc-key\":"@ + tree_text(
            text_or_null(alert.title_loc_key),
        ) + ",\"title-loc-args\":"@ + tree_text(list_or_null(alert.title_loc_args))
            + ",\"action-loc-key\":"@ + tree_text(text_or_null(alert.action_loc_key))
            + ",\"loc-key\":"@ + tree_text(text_or_null(alert.loc_key)) + ",\"loc-args\":"@
            + tree_text(list_or_null(alert.loc_args)) + (match alert.launch_image {
            Some(image) => ",\"launch-image\":"@ + string_text(image),
            None => Seq::empty(),
        }) + "}"@,
        tree_text(text_or_null(None)) == "null"@,
        tree_text(list_or_null(None)) == "null"@,
{
    let members = alert.members();
    assert(members[0] == ("title"@, JsonTree::Text(alert.title)));
    assert(members[1] == ("body"@, JsonTree::Text(alert.body)));
    assert(members[2] == ("title-loc-key"@, text_or_null(alert.title_loc_key)));
    assert(members[3] == ("title-loc-args"@, list_or_null(alert.title_loc_args)));
    assert(members[4] == ("action-loc-key"@, text_or_null(alert.action_loc_key)));
    assert(members[5] == ("loc-key"@, text_or_null(alert.loc_key)));
    assert(members[6] == ("loc-args"@, list_or_null(alert.loc_args)));
    let h1 = "{\"title\":"@ + string_text(alert.title);
    assert("{"@ + members_text(members, 1) == h1) by {
        reveal_strlit("title");
        reveal_strlit("\"");
        reveal_strlit(":");
        reveal_strlit("{");
        reveal_strlit("{\"title\":");
        assert("{\"title\":"@ =~= "{"@ + quoted("title"@) + ":"@);
        first_member(members, "{"@, "{\"title\":"@);
    }
    let h2 = h1 + ",\"body\":"@ + string_text(alert.body);
    assert("{"@ + members_text(members, 2) == h2) by {
        reveal_strlit("body");
        reveal_strlit("\"");
        reveal_strlit(":");
        reveal_strlit(",");
        reveal_strlit(",\"body\":");
        assert(",\"body\":"@ =~= ","@ + quoted("body"@) + ":"@);
        next_member(members, 1, "{"@, h1, ",\"body\":"@);
    }
    let h3 = h2 + ",\"title-loc-key\":"@ + tree_text(text_or_null(alert.title_loc_key));
    assert("{"@ + members_text(members, 3) == h3) by {
        reveal_strlit("title-loc-key");
        reveal_strlit("\"");
        reveal_strlit(":");
        reveal_strlit(",");
        reveal_strlit(",\"title-loc-key\":");
        assert(",\"title-loc-key\":"@ =~= ","@ + quoted("title-loc-key"@) + ":"@);
        next_member(members, 2, "{"@, h2, ",\"title-loc-key\":"@);
    }
    let h4 = h3 + ",\"title-loc-args\":"@ + tree_text(list_or_null(alert.title_loc_args));
    assert("{"@ + members_text(members, 4) == h4) by {
        reveal_strlit("title-loc-args");
        reveal_strlit("\"");
        reveal_strlit(":");
        reveal_strlit(",");
        reveal_strlit(",\"title-loc-args\":");
        assert(",\"title-loc-args\":"@ =~= ","@ + quoted("title-loc-args"@) + ":"@);
        next_member(members, 3, "{"@, h3, ",\"title-loc-args\":"@);
    }
    let h5 = h4 + ",\"action-loc-key\":"@ + tree_text(text_or_null(alert.action_loc_key));
    assert("{"@ + members_text(members, 5) == h5) by {
        reveal_strlit("action-loc-key");
        reveal_strlit("\"");
        reveal_strlit(":");
        reveal_strlit(",");
        reveal_strlit(",\"action-loc-key\":");
        assert(",\"action-loc-key\":"@ =~= ","@ + quoted("action-loc-key"@) + ":"@);
        next_member(members, 4, "{"@, h4, ",\"action-loc-key\":"@);
    }
    let h6 = h5 + ",\"loc-key\":"@ + tree_text(text_or_null(alert.loc_key));
    assert("{"@ + members_text(members, 6) == h6) by {
        reveal_strlit("loc-key");
        reveal_strlit("\"");
        reveal_strlit(":");
        reveal_strlit(",");
        reveal_strlit(",\"loc-key\":");
        assert(",\"loc-key\":"@ =~= ","@ + quoted("loc-key"@) + ":"@);
        next_member(members, 5, "{"@, h5, ",\"loc-key\":"@);
    }
    let h7 = h6 + ",\"loc-args\":"@ + tree_text(list_or_null(alert.loc_args));
    assert("{"@ + members_text(members, 7) == h7) by {
        reveal_strlit("loc-args");
        reveal_strlit("\"");
        reveal_strlit(":");
        reveal_strlit(",");
        reveal_strlit(",\"loc-args\":");
        assert(",\"loc-args\":"@ =~= ","@ + quoted("loc-args"@) + ":"@);
        next_member(members, 6, "{"@, h6, ",\"loc-args\":"@);
    }
    match alert.launch_image {
        Some(image) => {
            assert(members.len() == 8);
            assert(members[7] == ("launch-image"@, JsonTree::Text(image)));
            let h8 = h7 + ",\"launch-image\":"@ + string_text(image);
            assert("{"@ + members_text(members, 8) == h8) by {
                reveal_strlit("launch-image");
                reveal_strlit("\"");
                reveal_strlit(":");
                reveal_strlit(",");
                reveal_strlit(",\"launch-image\":");
                assert(",\"launch-image\":"@ =~= ","@ + quoted("launch-image"@) + ":"@);
                next_member(members, 7, "{"@, h7, ",\"launch-image\":"@);
            }
            assert(h8 =~= h7 + (",\"launch-image\":"@ + string_text(image)));
        },
        None => {
            assert(members.len() == 7);
            assert(h7 =~= h7 + Seq::<char>::empty());
        },
    }
}

/// A plain alert is written as a bare JSON string, never as an object: the
/// `alert` member of the notification body holds the text itself.
pub proof fn plain_alert_is_a_string(body: ApsView, text: Seq<char>)
    requires
        body.alert == Some(AlertView::Plain(text)),
    ensures
        AlertView::Plain(text).json() == JsonTree::Text(text),
        !(AlertView::Plain(text).json() is Object),
        tree_text(AlertView::Plain(text).json()) == string_text(text),
        body.members()[0] == ("alert"@, JsonTree::Text(text)),
{
}

} // verus!
