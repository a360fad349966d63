use vstd::prelude::*;

verus! {

/// A JSON document held as plain values.
///
/// Numbers keep the text that the JSON reader produced for them, so that
/// they are written back exactly as they were read.  Object members keep
/// the order in which they were given.
#[derive(Debug, PartialEq)]
pub enum JsonValue {
    Null,
    Bool(bool),
    Number(String),
    Str(String),
    Array(Vec<JsonValue>),
    Object(Vec<(String, JsonValue)>),
}

impl JsonValue {
    /// The text of a JSON string value, and nothing for any other value.
    pub open spec fn spec_as_str(self) -> Option<Seq<char>> {
        match self {
            JsonValue::Str(s) => Some(s@),
            _ => None,
        }
    }

    /// The text of a JSON string value, and nothing for any other value.
    pub fn as_str(&self) -> (text: Option<&str>)
        ensures
            match text {
                Some(t) => self.spec_as_str() == Some(t@),
                None => self.spec_as_str() is None,
            },
    {
        match self {
            JsonValue::Str(s) => Some(s.as_str()),
            _ => None,
        }
    }
}

/// A JSON value as a mathematical value: strings as character sequences,
/// arrays and objects as sequences.
pub enum JsonModel {
    Null,
    Bool(bool),
    Number(Seq<char>),
    Str(Seq<char>),
    Array(Seq<JsonModel>),
    Object(Seq<(Seq<char>, JsonModel)>),
}

/// The mathematical value of a JSON value.
pub open spec fn json_model(value: JsonValue) -> JsonModel
    decreases value,
{
    match value {
        JsonValue::Null => JsonModel::Null,
        JsonValue::Bool(b) => JsonModel::Bool(b),
        JsonValue::Number(text) => JsonModel::Number(text@),
        JsonValue::Str(s) => JsonModel::Str(s@),
        JsonValue::Array(items) => JsonModel::Array(
            Seq::new(
                items@.len(),
                |i: int|
                    if 0 <= i < items@.len() {
                        json_model(items@[i])
                    } else {
                        JsonModel::Null
                    },
            ),
        ),
        JsonValue::Object(members) => JsonModel::Object(
            Seq::new(
                members@.len(),
                |i: int|
                    if 0 <= i < members@.len() {
                        (members@[i].0@, json_model(members@[i].1))
                    } else {
                        (Seq::empty(), JsonModel::Null)
                    },
            ),
        ),
    }
}

/// A copy of a sequence of values.
fn clone_values(items: &Vec<JsonValue>) -> (copy: Vec<JsonValue>)
    ensures
        copy@.len() == items@.len(),
        forall|k: int| 0 <= k < items@.len() ==> json_model(#[trigger] copy@[k]) == json_model(items@[k]),
    decreases items@, 0nat,
{
    let mut copy: Vec<JsonValue> = Vec::new();
    let mut i: usize = 0;
    while i < items.len()
        invariant
            i <= items.len(),
            copy@.len() == i,
            forall|k: int| 0 <= k < i ==> json_model(#[trigger] copy@[k]) == json_model(items@[k]),
        decreases items.len() - i,
    {
        assert(decreases_to!(items@ => items@[i as int]));
        let item = items[i].duplicate();
        copy.push(item);
        i = i + 1;
    }
    copy
}

/// A copy of a sequence of object members.
fn clone_members(members: &Vec<(String, JsonValue)>) -> (copy: Vec<(String, JsonValue)>)
    ensures
        copy@.len() == members@.len(),
        forall|k: int| 0 <= k < members@.len() ==> (#[trigger] copy@[k]).0@ == members@[k].0@
            && json_model(copy@[k].1) == json_model(members@[k].1),
    decreases members@, 0nat,
{
    let mut copy: Vec<(String, JsonValue)> = Vec::new();
    let mut i: usize = 0;
    while i < members.len()
        invariant
            i <= members.len(),
            copy@.len() == i,
            forall|k: int| 0 <= k < i ==> (#[trigger] copy@[k]).0@ == members@[k].0@
                && json_model(copy@[k].1) == json_model(members@[k].1),
        decreases members.len() - i,
    {
        assert(decreases_to!(members@ => members@[i as int]));
        assert(decreases_to!(members@[i as int] => members@[i as int].1));
        let key = members[i].0.clone();
        let value = members[i].1.duplicate();
        copy.push((key, value));
        i = i + 1;
    }
    copy
}

impl Clone for JsonValue {
    /// A copy with the same mathematical value.
    fn clone(&self) -> (copy: Self)
        ensures
            json_model(copy) == json_model(*self),
    {
        self.duplicate()
    }
}

impl JsonValue {
    /// A copy of this value.
    fn duplicate(&self) -> (copy: JsonValue)
        ensures
            json_model(copy) == json_model(*self),
        decreases *self, 1nat,
    {
        match self {
            JsonValue::Null => JsonValue::Null,
            JsonValue::Bool(b) => JsonValue::Bool(*b),
            JsonValue::Number(text) => JsonValue::Number(text.clone()),
            JsonValue::Str(s) => JsonValue::Str(s.clone()),
            JsonValue::Array(items) => {
                let copy = clone_values(items);
                assert(json_model(JsonValue::Array(copy)) == json_model(*self)) by {
                    if let JsonModel::Array(a) = json_model(JsonValue::Array(copy)) {
                        if let JsonModel::Array(b) = json_model(*self) {
                            assert(a =~= b);
                        }
                    }
                }
                JsonValue::Array(copy)
            },
            JsonValue::Object(members) => {
                let copy = clone_members(members);
                assert(json_model(JsonValue::Object(copy)) == json_model(*self)) by {
                    if let JsonModel::Object(a) = json_model(JsonValue::Object(copy)) {
                        if let JsonModel::Object(b) = json_model(*self) {
                            assert(a =~= b);
                        }
                    }
                }
                JsonValue::Object(copy)
            },
        }
    }
}

} // verus!
