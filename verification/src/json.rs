//! JSON documents as plain values.

use vstd::prelude::*;
use crate::text::same_text;

verus! {

/// A JSON number: an unsigned 64-bit integer, or any other number in its
/// printed form.
#[derive(Debug)]
pub enum JsonNumber {
    Unsigned(u64),
    Other(String),
}

/// A JSON document.
#[derive(Debug)]
pub enum JsonValue {
    Null,
    Bool(bool),
    Number(JsonNumber),
    Text(String),
    Array(Vec<JsonValue>),
    Object(Vec<(String, JsonValue)>),
}

/// What a JSON document holds.
pub enum JsonView {
    Null,
    Bool(bool),
    Unsigned(u64),
    OtherNumber(Seq<char>),
    Text(Seq<char>),
    Array(Seq<JsonView>),
    Object(Seq<(Seq<char>, JsonView)>),
}

/// What a document holds.
pub open spec fn json_view(value: JsonValue) -> JsonView
    decreases value,
{
    match value {
        JsonValue::Null => JsonView::Null,
        JsonValue::Bool(b) => JsonView::Bool(b),
        JsonValue::Number(JsonNumber::Unsigned(n)) => JsonView::Unsigned(n),
        JsonValue::Number(JsonNumber::Other(t)) => JsonView::OtherNumber(t@),
        JsonValue::Text(t) => JsonView::Text(t@),
        JsonValue::Array(items) => JsonView::Array(
            Seq::new(
                items@.len(),
                |i: int|
                    if 0 <= i < items@.len() {
                        json_view(items@[i])
                    } else {
                        JsonView::Null
                    },
            ),
        ),
        JsonValue::Object(members) => JsonView::Object(
            Seq::new(
                members@.len(),
                |i: int|
                    if 0 <= i < members@.len() {
                        (members@[i].0@, json_view(members@[i].1))
                    } else {
                        (Seq::empty(), JsonView::Null)
                    },
            ),
        ),
    }
}

impl View for JsonValue {
    type V = JsonView;

    open spec fn view(&self) -> JsonView {
        json_view(*self)
    }
}

/// The views of a vector of documents.
pub open spec fn json_views(list: Seq<JsonValue>) -> Seq<JsonView> {
    list.map_values(|v: JsonValue| v@)
}

impl JsonView {
    /// The text of a JSON string.
    pub open spec fn text(self) -> Option<Seq<char>> {
        match self {
            JsonView::Text(t) => Some(t),
            _ => None,
        }
    }

    /// The value of an unsigned number.
    pub open spec fn unsigned(self) -> Option<u64> {
        match self {
            JsonView::Unsigned(n) => Some(n),
            _ => None,
        }
    }

    /// The items of an array, none for any other document.
    pub open spec fn items(self) -> Seq<JsonView> {
        match self {
            JsonView::Array(items) => items,
            _ => Seq::empty(),
        }
    }

    /// The members of an object, none for any other document.
    pub open spec fn members(self) -> Seq<(Seq<char>, JsonView)> {
        match self {
            JsonView::Object(members) => members,
            _ => Seq::empty(),
        }
    }

    /// The value of the first member with the given name, or null.
    pub open spec fn member(self, name: Seq<char>) -> JsonView {
        first_member(self.members(), name)
    }
}

/// The value of the first member with the given name, or null.
pub open spec fn first_member(members: Seq<(Seq<char>, JsonView)>, name: Seq<char>) -> JsonView
    decreases members.len(),
{
    if members.len() == 0 {
        JsonView::Null
    } else if members[0].0 == name {
        members[0].1
    } else {
        first_member(members.skip(1), name)
    }
}

impl JsonValue {
    /// The text of a JSON string.
    pub fn as_str(&self) -> (out: Option<String>)
        ensures
            crate::text::opt_text(out) == self@.text(),
    {
        match self {
            JsonValue::Text(t) => Some(t.clone()),
            _ => None,
        }
    }

    /// The value of an unsigned number.
    pub fn as_u64(&self) -> (out: Option<u64>)
        ensures
            out == self@.unsigned(),
    {
        match self {
            JsonValue::Number(JsonNumber::Unsigned(n)) => Some(*n),
            _ => None,
        }
    }

    /// The value of the member with the given name; nothing where the document
    /// is no object or has no such member.
    pub fn get(&self, name: &str) -> (out: Option<&JsonValue>)
        ensures
            match out {
                Some(v) => v@ == self@.member(name@),
                None => self@.member(name@) == JsonView::Null,
            },
    {
        match self {
            JsonValue::Object(members) => {
                let ghost all = self@.members();
                let mut i: usize = 0;
                assert(all.skip(0) =~= all);
                while i < members.len()
                    invariant
                        i <= members.len(),
                        all == self@.members(),
                        all == JsonValue::Object(*members)@.members(),
                        first_member(all.skip(i as int), name@) == first_member(all, name@),
                    decreases members.len() - i,
                {
                    assert(all.skip(i as int)[0] == (members@[i as int].0@, members@[i as int].1@));
                    assert(all.skip(i as int).skip(1) =~= all.skip(i + 1));
                    if same_text(members[i].0.as_str(), name) {
                        return Some(&members[i].1);
                    }
                    i += 1;
                }
                assert(all.skip(i as int).len() == 0);
                None
            },
            _ => None,
        }
    }

    /// A document that holds the same.
    pub fn copy(&self) -> (out: JsonValue)
        ensures
            out@ == self@,
        decreases self,
    {
        match self {
            JsonValue::Null => JsonValue::Null,
            JsonValue::Bool(b) => JsonValue::Bool(*b),
            JsonValue::Number(JsonNumber::Unsigned(n)) => JsonValue::Number(
                JsonNumber::Unsigned(*n),
            ),
            JsonValue::Number(JsonNumber::Other(t)) => JsonValue::Number(
                JsonNumber::Other(t.clone()),
            ),
            JsonValue::Text(t) => JsonValue::Text(t.clone()),
            JsonValue::Array(items) => {
                let mut out: Vec<JsonValue> = Vec::new();
                for i in 0..items.len()
                    invariant
                        self == JsonValue::Array(*items),
                        out@.len() == i,
                        forall|j: int| 0 <= j < i ==> (#[trigger] out@[j])@ == items@[j]@,
                {
                    proof {
                        assert(decreases_to!(*self => self->Array_0));
                        assert(decreases_to!(*items => items@));
                        assert(decreases_to!(items@ => items@[i as int]));
                    }
                    out.push(items[i].copy());
                }
                let out: JsonValue = JsonValue::Array(out);
                assert(out@.items() =~= self@.items());
                out
            },
            JsonValue::Object(members) => {
                let mut out: Vec<(String, JsonValue)> = Vec::new();
                for i in 0..members.len()
                    invariant
                        self == JsonValue::Object(*members),
                        out@.len() == i,
                        forall|j: int|
                            0 <= j < i ==> (#[trigger] out@[j]).0@ == members@[j].0@ && out@[j].1@
                                == members@[j].1@,
                {
                    proof {
                        assert(decreases_to!(*self => self->Object_0));
                        assert(decreases_to!(*members => members@));
                        assert(decreases_to!(members@ => members@[i as int]));
                        assert(decreases_to!(members@[i as int] => members@[i as int].1));
                    }
                    out.push((members[i].0.clone(), members[i].1.copy()));
                }
                let out: JsonValue = JsonValue::Object(out);
                assert(out@.members() =~= self@.members());
                out
            },
        }
    }

    /// The text of the member with the given name.
    pub fn text_member(&self, name: &str) -> (out: Option<String>)
        ensures
            crate::text::opt_text(out) == self@.member(name@).text(),
    {
        match self.get(name) {
            Some(v) => v.as_str(),
            None => None,
        }
    }

    /// The unsigned number in the member with the given name.
    pub fn u64_member(&self, name: &str) -> (out: Option<u64>)
        ensures
            out == self@.member(name@).unsigned(),
    {
        match self.get(name) {
            Some(v) => v.as_u64(),
            None => None,
        }
    }
}

/// A member is found under its name behind members of other names, whatever
/// follows it.
pub proof fn members_are_found_by_name(
    before: Seq<(Seq<char>, JsonView)>,
    name: Seq<char>,
    value: JsonView,
    after: Seq<(Seq<char>, JsonView)>,
)
    requires
        forall|i: int| 0 <= i < before.len() ==> (#[trigger] before[i]).0 != name,
    ensures
        JsonView::Object(before + seq![(name, value)] + after).member(name) == value,
    decreases before.len(),
{
    let all = before + seq![(name, value)] + after;
    if before.len() == 0 {
        assert(all[0] == (name, value));
    } else {
        assert(all[0] == before[0]);
        let rest = before.skip(1);
        assert forall|i: int| 0 <= i < rest.len() implies (#[trigger] rest[i]).0 != name by {
            assert(rest[i] == before[i + 1]);
        }
        members_are_found_by_name(rest, name, value, after);
        assert(all.skip(1) =~= rest + seq![(name, value)] + after);
    }
}

/// A name that no member has, and any name in a document that is no object, leads
/// to null.
pub proof fn missing_members_are_null(document: JsonView, name: Seq<char>)
    requires
        document matches JsonView::Object(members) ==> forall|i: int|
            0 <= i < members.len() ==> (#[trigger] members[i]).0 != name,
    ensures
        document.member(name) == JsonView::Null,
    decreases document.members().len(),
{
    let members = document.members();
    if members.len() > 0 {
        let rest = members.skip(1);
        assert(members[0].0 != name);
        assert forall|i: int| 0 <= i < rest.len() implies (#[trigger] rest[i]).0 != name by {
            assert(rest[i] == members[i + 1]);
        }
        missing_members_are_null(JsonView::Object(rest), name);
        assert(JsonView::Object(rest).members() == rest);
    }
}

/// A string has a text and nothing else has one; an unsigned number has a value
/// and nothing else has one; an array has its items and nothing else has any.
pub proof fn documents_are_told_apart(
    words: Seq<char>,
    n: u64,
    items: Seq<JsonView>,
    members: Seq<(Seq<char>, JsonView)>,
    truth: bool,
)
    ensures
        JsonView::Text(words).text() == Some(words),
        JsonView::Unsigned(n).unsigned() == Some(n),
        JsonView::Array(items).items() == items,
        JsonView::Null.text() is None && JsonView::Null.unsigned() is None,
        JsonView::Bool(truth).text() is None && JsonView::Bool(truth).unsigned() is None,
        JsonView::Unsigned(n).text() is None && JsonView::Text(words).unsigned() is None,
        JsonView::OtherNumber(words).text() is None && JsonView::OtherNumber(words).unsigned()
            is None,
        JsonView::Array(items).text() is None && JsonView::Array(items).unsigned() is None,
        JsonView::Object(members).text() is None && JsonView::Object(members).unsigned() is None,
        JsonView::Object(members).items().len() == 0,
        JsonView::Text(words).items().len() == 0,
        JsonView::Null.items().len() == 0,
{
}

/// A document shows what it holds: its values as they are, its items and members
/// in their order.
pub proof fn documents_show_what_they_hold(value: JsonValue)
    ensures
        match value {
            JsonValue::Null => value@ is Null,
            JsonValue::Bool(b) => value@ == JsonView::Bool(b),
            JsonValue::Number(JsonNumber::Unsigned(n)) => value@ == JsonView::Unsigned(n),
            JsonValue::Number(JsonNumber::Other(t)) => value@ == JsonView::OtherNumber(t@),
            JsonValue::Text(t) => value@ == JsonView::Text(t@),
            JsonValue::Array(items) => value@ matches JsonView::Array(shown) && shown.len()
                == items@.len() && forall|i: int|
                0 <= i < items@.len() ==> #[trigger] shown[i] == items@[i]@,
            JsonValue::Object(members) => value@ matches JsonView::Object(shown) && shown.len()
                == members@.len() && forall|i: int|
                0 <= i < members@.len() ==> (#[trigger] shown[i]).0 == members@[i].0@ && shown[i].1
                    == members@[i].1@,
        },
{
}

} // verus!
