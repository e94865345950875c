//! JSON documents: a mathematical model, an executable tree and its text.
//!
//! Numbers and strings are written by `rustc_serialize`; the framing of
//! arrays and objects, which fixes the order of the members, is this
//! module's own.

use rustc_serialize::json::Json;
use vstd::prelude::*;

verus! {

/// A JSON document as a mathematical value. The members of an object keep
/// the order in which they were given.
pub enum JsonTree {
    Null,
    Number(nat),
    Text(Seq<char>),
    Array(Seq<JsonTree>),
    Object(Seq<(Seq<char>, JsonTree)>),
}

/// The character that stands for a decimal digit.
pub open spec fn digit_char(d: nat) -> char {
    if d == 0 {
        '0'
    } else if d == 1 {
        '1'
    } else if d == 2 {
        '2'
    } else if d == 3 {
        '3'
    } else if d == 4 {
        '4'
    } else if d == 5 {
        '5'
    } else if d == 6 {
        '6'
    } else if d == 7 {
        '7'
    } else if d == 8 {
        '8'
    } else {
        '9'
    }
}

/// The decimal notation of `n`, without sign or leading zeros.
pub open spec fn decimal_text(n: nat) -> Seq<char>
    decreases n,
{
    if n < 10 {
        seq![digit_char(n)]
    } else {
        decimal_text(n / 10).push(digit_char(n % 10))
    }
}

/// Whether a character goes into a JSON string as it is: anything but the
/// double quote, the backslash, the controls below the space, and DEL.
pub open spec fn is_plain_char(c: char) -> bool {
    c != '"' && c != '\\' && c != '\u{7f}' && c as u32 >= 0x20
}

/// Whether every character of `s` is plain.
pub open spec fn is_plain(s: Seq<char>) -> bool {
    forall|i: int| 0 <= i < s.len() ==> is_plain_char(#[trigger] s[i])
}

/// `s` between double quotes.
pub open spec fn quoted(s: Seq<char>) -> Seq<char> {
    "\""@ + s + "\""@
}

/// The JSON string that `rustc_serialize` writes for a text which holds a
/// character that is not plain.
pub uninterp spec fn escaped_text(s: Seq<char>) -> Seq<char>;

/// The JSON string for `s`: quoted as it is where every character is plain,
/// with the encoder's escapes otherwise.
pub open spec fn string_text(s: Seq<char>) -> Seq<char> {
    if is_plain(s) {
        quoted(s)
    } else {
        escaped_text(s)
    }
}

/// The text of a JSON document: compact, members and items in their order.
pub open spec fn tree_text(t: JsonTree) -> Seq<char>
    decreases t, 0nat,
{
    match t {
        JsonTree::Null => "null"@,
        JsonTree::Number(n) => decimal_text(n),
        JsonTree::Text(s) => string_text(s),
        JsonTree::Array(items) => "["@ + items_text(items, items.len()) + "]"@,
        JsonTree::Object(members) => "{"@ + members_text(members, members.len()) + "}"@,
    }
}

/// The texts of the first `n` items, separated by commas.
pub open spec fn items_text(items: Seq<JsonTree>, n: nat) -> Seq<char>
    decreases items, n,
{
    if n == 0 || n > items.len() {
        Seq::empty()
    } else if n == 1 {
        tree_text(items[0])
    } else {
        items_text(items, (n - 1) as nat) + ","@ + tree_text(items[n - 1])
    }
}

/// The text of one member: its key as a JSON string, a colon, its value.
pub open spec fn member_text(key: Seq<char>, value: JsonTree) -> Seq<char>
    decreases value, 1nat,
{
    string_text(key) + ":"@ + tree_text(value)
}

/// The texts of the first `n` members, separated by commas.
pub open spec fn members_text(members: Seq<(Seq<char>, JsonTree)>, n: nat) -> Seq<char>
    decreases members, n,
{
    if n == 0 || n > members.len() {
        Seq::empty()
    } else if n == 1 {
        member_text(members[0].0, members[0].1)
    } else {
        members_text(members, (n - 1) as nat) + ","@ + member_text(
            members[n - 1].0,
            members[n - 1].1,
        )
    }
}

/// Whether `members` holds a member with this key.
pub open spec fn has_key(members: Seq<(Seq<char>, JsonTree)>, key: Seq<char>) -> bool {
    exists|i: int| 0 <= i < members.len() && (#[trigger] members[i]).0 == key
}

/// Whether `members` holds a member with this key and this value.
pub open spec fn has_member(
    members: Seq<(Seq<char>, JsonTree)>,
    key: Seq<char>,
    value: JsonTree,
) -> bool {
    members.contains((key, value))
}

/// The keys of `members`, in their order.
pub open spec fn keys_of(members: Seq<(Seq<char>, JsonTree)>) -> Seq<Seq<char>> {
    members.map_values(|m: (Seq<char>, JsonTree)| m.0)
}

/// A JSON document held in memory.
#[derive(Debug, PartialEq, Eq)]
pub enum JsonValue {
    Null,
    Number(u64),
    Text(String),
    Array(Vec<JsonValue>),
    Object(Vec<(String, JsonValue)>),
}

/// The document that a tree in memory stands for.
// The closures test the index only so that the recursion is seen to end.
pub open spec fn tree_of(v: JsonValue) -> JsonTree
    decreases v,
{
    match v {
        JsonValue::Null => JsonTree::Null,
        JsonValue::Number(n) => JsonTree::Number(n as nat),
        JsonValue::Text(s) => JsonTree::Text(s@),
        JsonValue::Array(items) => JsonTree::Array(
            Seq::new(
                items.len() as nat,
                |i: int|
                    if 0 <= i < items.len() {
                        tree_of(items[i])
                    } else {
                        JsonTree::Null
                    },
            ),
        ),
        JsonValue::Object(members) => JsonTree::Object(
            Seq::new(
                members.len() as nat,
                |i: int|
                    if 0 <= i < members.len() {
                        (members[i].0@, tree_of(members[i].1))
                    } else {
                        (Seq::empty(), JsonTree::Null)
                    },
            ),
        ),
    }
}

impl View for JsonValue {
    type V = JsonTree;

    open spec fn view(&self) -> JsonTree {
        tree_of(*self)
    }
}

/// The documents that a vector of trees stands for.
pub open spec fn items_view(items: Vec<JsonValue>) -> Seq<JsonTree> {
    JsonValue::Array(items)@->Array_0
}

/// The members that a vector of keys and trees stands for.
pub open spec fn members_view(members: Vec<(String, JsonValue)>) -> Seq<(Seq<char>, JsonTree)> {
    JsonValue::Object(members)@->Object_0
}

/// Calls `to_string` of `rustc_serialize::json::Json` on a `Json::U64`.
/// Trusted, not proved: the encoder formats the number with `{}`, which
/// gives its decimal digits.
#[verifier::external_body]
fn encode_number(n: u64) -> (text: String)
    ensures
        text@ == decimal_text(n as nat),
{
    Json::U64(n).to_string()
}

/// Calls `to_string` of `rustc_serialize::json::Json` on a `Json::String`.
/// Trusted, not proved: the encoder writes a double quote, the text, and a
/// double quote; in the text it replaces the double quote, the backslash,
/// the bytes below 0x20 and 0x7f by escapes and copies every other byte.
/// Which escapes it writes is left to `escaped_text`.
#[verifier::external_body]
fn encode_string(s: &str) -> (text: String)
    ensures
        is_plain(s@) ==> text@ == quoted(s@),
        !is_plain(s@) ==> text@ == escaped_text(s@),
{
    Json::String(s.to_string()).to_string()
}

/// Appends one member to the members of an object under construction.
pub fn push_member(members: &mut Vec<(String, JsonValue)>, key: &str, value: JsonValue)
    ensures
        members_view(*final(members)) == members_view(*old(members)).push((key@, value@)),
{
    members.push((key.to_owned(), value));
    assert(members_view(*members) =~= members_view(*old(members)).push((key@, value@)));
}

impl JsonValue {
    /// Writes the document out as compact JSON text.
    pub fn to_string(&self) -> (text: String)
        ensures
            text@ == tree_text(self@),
        decreases self, 0nat,
    {
        match self {
            JsonValue::Null => "null".to_owned(),
            JsonValue::Number(n) => encode_number(*n),
            JsonValue::Text(s) => encode_string(s.as_str()),
            JsonValue::Array(items) => {
                let mut text = "[".to_owned();
                let inner = Self::items_to_string(items);
                text.append(inner.as_str());
                text.append("]");
                text
            },
            JsonValue::Object(members) => {
                let mut text = "{".to_owned();
                let inner = Self::members_to_string(members);
                text.append(inner.as_str());
                text.append("}");
                text
            },
        }
    }

    /// The texts of the items, separated by commas.
    fn items_to_string(items: &Vec<JsonValue>) -> (text: String)
        ensures
            text@ == items_text(items_view(*items), items.len() as nat),
        decreases items, 1nat,
    {
        let mut text = String::new();
        let mut i: usize = 0;
        while i < items.len()
            invariant
                i <= items.len(),
                text@ == items_text(items_view(*items), i as nat),
            decreases items.len() - i,
        {
            if i > 0 {
                text.append(",");
            }
            let item = items[i].to_string();
            text.append(item.as_str());
            proof {
                assert(items_view(*items)[i as int] == items[i as int]@);
                assert(text@ =~= items_text(items_view(*items), (i + 1) as nat));
            }
            i += 1;
        }
        text
    }

    /// The texts of the members, separated by commas.
    fn members_to_string(members: &Vec<(String, JsonValue)>) -> (text: String)
        ensures
            text@ == members_text(members_view(*members), members.len() as nat),
        decreases members, 1nat,
    {
        let mut text = String::new();
        let mut i: usize = 0;
        while i < members.len()
            invariant
                i <= members.len(),
                text@ == members_text(members_view(*members), i as nat),
            decreases members.len() - i,
        {
            if i > 0 {
                text.append(",");
            }
            let key = encode_string(members[i].0.as_str());
            text.append(key.as_str());
            text.append(":");
            let value = members[i].1.to_string();
            text.append(value.as_str());
            proof {
                let member = members_view(*members)[i as int];
                assert(member == (members[i as int].0@, members[i as int].1@));
                assert(member_text(member.0, member.1) == key@ + ":"@ + value@);
                assert(text@ =~= members_text(members_view(*members), (i + 1) as nat));
            }
            i += 1;
        }
        text
    }
}

} // verus!
