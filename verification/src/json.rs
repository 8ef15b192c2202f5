//! JSON documents as plain trees, and the parser that reads them.

use vstd::prelude::*;

verus! {

broadcast use vstd::std_specs::vec::axiom_vec_index_decreases;

/// A JSON value.
#[derive(Debug, PartialEq, Eq)]
pub enum Json {
    Null,
    Bool(bool),
    /// A number, by its text.
    Number(String),
    Text(String),
    Array(Vec<Json>),
    /// An object, by its members.
    Object(Vec<(String, Json)>),
}

/// What a `Json` is in contracts.
pub enum JsonView {
    Null,
    Bool(bool),
    Number(Seq<char>),
    Text(Seq<char>),
    Array(Seq<JsonView>),
    Object(Seq<(Seq<char>, JsonView)>),
}

/// The tree that `value` stands for.
pub open spec fn json_view(value: Json) -> JsonView
    decreases value,
{
    match value {
        Json::Null => JsonView::Null,
        Json::Bool(b) => JsonView::Bool(b),
        Json::Number(n) => JsonView::Number(n@),
        Json::Text(t) => JsonView::Text(t@),
        Json::Array(items) => JsonView::Array(
            Seq::new(
                items@.len(),
                |i: int|
                    if 0 <= i < items@.len() {
                        json_view(items@[i])
                    } else {
                        JsonView::Null
                    },
            ),
        ),
        Json::Object(members) => JsonView::Object(
            Seq::new(
                members@.len(),
                |i: int|
                    if 0 <= i < members@.len() {
                        (members@[i].0@, json_view(members@[i].1))
                    } else {
                        (Seq::empty(), JsonView::Null)
                    },
            ),
        ),
    }
}

impl View for Json {
    type V = JsonView;

    open spec fn view(&self) -> JsonView {
        json_view(*self)
    }
}

/// `serde_json::Error`, the error of `serde_json::from_str`: carried, never
/// looked into.
#[verifier::external_type_specification]
#[verifier::external_body]
pub struct ExJsonError(serde_json::Error);

/// `serde_json::Value`, the tree that `serde_json::from_str` builds: nothing
/// is claimed of it until it is copied into a `Json`.
#[verifier::external_type_specification]
#[verifier::external_body]
pub struct ExJsonValue(serde_json::Value);

/// The tree that `serde_json` reads from `text`, or `None` where it reports
/// an error.
pub uninterp spec fn parsed_json(text: Seq<char>) -> Option<JsonView>;

/// Copies a `serde_json::Value` into a `Json`, variant by variant: a number by
/// its text, an object by its members in the order `serde_json::Map` walks them.
#[verifier::external_body]
fn json_from_value(value: &serde_json::Value) -> Json {
    match value {
        serde_json::Value::Null => Json::Null,
        serde_json::Value::Bool(b) => Json::Bool(*b),
        serde_json::Value::Number(n) => Json::Number(n.to_string()),
        serde_json::Value::String(s) => Json::Text(s.clone()),
        serde_json::Value::Array(items) => Json::Array(items.iter().map(json_from_value).collect()),
        serde_json::Value::Object(members) => Json::Object(
            members.iter().map(|(k, v)| (k.clone(), json_from_value(v))).collect(),
        ),
    }
}

/// Calls `serde_json::from_str` for a `serde_json::Value`. The contract names
/// the tree it reads: the same text always gives the same tree, and an error
/// is returned exactly where there is none.
#[verifier::external_body]
pub(crate) fn parse_json(text: &str) -> (res: Result<Json, serde_json::Error>)
    ensures
        res is Ok <==> parsed_json(text@) is Some,
        res matches Ok(tree) ==> parsed_json(text@) == Some(tree@),
{
    serde_json::from_str::<serde_json::Value>(text).map(|value| json_from_value(&value))
}

/// The value of the first member of `members` whose key is `key`.
pub open spec fn find_member(members: Seq<(Seq<char>, JsonView)>, key: Seq<char>) -> Option<
    JsonView,
>
    decreases members.len(),
{
    if members.len() == 0 {
        None
    } else if members[0].0 == key {
        Some(members[0].1)
    } else {
        find_member(members.drop_first(), key)
    }
}

/// The member `key` of `value`, if `value` is an object that has one.
pub open spec fn member(value: JsonView, key: Seq<char>) -> Option<JsonView> {
    match value {
        JsonView::Object(members) => find_member(members, key),
        _ => None,
    }
}

/// What indexing `value` by `key` gives: the member, or null where `value` is
/// no object or has no such member.
pub open spec fn member_or_null(value: JsonView, key: Seq<char>) -> JsonView {
    match member(value, key) {
        Some(found) => found,
        None => JsonView::Null,
    }
}

impl Json {
    /// Looks up the member `key` of an object.
    pub fn get(&self, key: &str) -> (res: Option<&Json>)
        ensures
            match res {
                Some(found) => member(self@, key@) == Some(found@),
                None => member(self@, key@) is None,
            },
    {
        match self {
            Json::Object(members) => {
                let wanted: String = key.to_owned();
                let ghost views = self@->Object_0;
                let mut i: usize = 0;
                assert(views.subrange(0, views.len() as int) =~= views);
                while i < members.len()
                    invariant
                        i <= members.len(),
                        wanted@ == key@,
                        self@ == JsonView::Object(views),
                        views.len() == members@.len(),
                        forall|j: int|
                            0 <= j < views.len() ==> #[trigger] views[j] == (
                                members@[j].0@,
                                members@[j].1@,
                            ),
                        find_member(views, key@) == find_member(
                            views.subrange(i as int, views.len() as int),
                            key@,
                        ),
                    decreases members.len() - i,
                {
                    let ghost rest = views.subrange(i as int, views.len() as int);
                    assert(rest.drop_first() =~= views.subrange(i as int + 1, views.len() as int));
                    if members[i].0 == wanted {
                        return Some(&members[i].1);
                    }
                    i = i + 1;
                }
                None
            },
            _ => None,
        }
    }

    /// Whether this is the null value.
    pub fn is_null(&self) -> (res: bool)
        ensures
            res == (self@ is Null),
    {
        match self {
            Json::Null => true,
            _ => false,
        }
    }
}

} // verus!
