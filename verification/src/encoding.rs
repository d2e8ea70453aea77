//! JSON values of the `json` crate, as far as a document is built from them.
//!
//! A `JsonValue` is opaque to the verifier. What it holds is named by
//! [`json_tree`], and what it prints as by [`json_text`]. The functions at the
//! end of this file make the calls into the crate; their contracts say over
//! those two names what each call does, and are taken on trust.

use vstd::prelude::*;

verus! {

#[verifier::external_type_specification]
#[verifier::external_body]
pub struct ExJsonValue(json::JsonValue);

#[verifier::external_type_specification]
#[verifier::external_body]
pub struct ExJsonError(json::Error);

/// The content of a JSON value. Members of an object stand in the order in
/// which their names were first set.
pub enum JsonTree {
    /// A string.
    Text(Seq<char>),
    /// An array and its items.
    Array(Seq<JsonTree>),
    /// An object and its members, each a name and a value.
    Object(Seq<(Seq<char>, JsonTree)>),
    /// Null, a boolean or a number.
    Scalar,
}

impl JsonTree {
    /// The members of an object; no members for any other value.
    pub open spec fn members(self) -> Seq<(Seq<char>, JsonTree)> {
        match self {
            JsonTree::Object(members) => members,
            _ => Seq::empty(),
        }
    }

    /// The items of an array; no items for any other value.
    pub open spec fn items(self) -> Seq<JsonTree> {
        match self {
            JsonTree::Array(items) => items,
            _ => Seq::empty(),
        }
    }

    /// Whether the value is made of strings, arrays and objects alone.
    pub open spec fn is_textual(self) -> bool
        decreases self,
    {
        match self {
            JsonTree::Text(_) => true,
            JsonTree::Array(items) => forall|i: int|
                0 <= i < items.len() ==> (#[trigger] items[i]).is_textual(),
            JsonTree::Object(members) => forall|i: int|
                0 <= i < members.len() ==> (#[trigger] members[i]).1.is_textual(),
            JsonTree::Scalar => false,
        }
    }
}

/// What a `JsonValue` holds. A short string and a heap string of the same
/// text are the same content.
pub uninterp spec fn json_tree(value: json::JsonValue) -> JsonTree;

/// The compact JSON text that `JsonValue::dump` prints for a value with the
/// given content. It is meant for textual content only: [`JsonTree::Scalar`]
/// does not tell null, booleans and numbers apart, so nothing is said of the
/// text of a value that holds one.
pub uninterp spec fn json_text(tree: JsonTree) -> Seq<char>;

/// The members of an object after `name` is set to `value`: a member of that
/// name is overwritten in place, a new name goes to the end.
pub open spec fn with_member(
    members: Seq<(Seq<char>, JsonTree)>,
    name: Seq<char>,
    value: JsonTree,
) -> Seq<(Seq<char>, JsonTree)>
    decreases members.len(),
{
    if members.len() == 0 {
        seq![(name, value)]
    } else if members[0].0 == name {
        seq![(name, value)] + members.skip(1)
    } else {
        seq![members[0]] + with_member(members.skip(1), name, value)
    }
}

/// Setting a name that no member carries yet adds the member at the end.
pub proof fn lemma_with_member_fresh(
    members: Seq<(Seq<char>, JsonTree)>,
    name: Seq<char>,
    value: JsonTree,
)
    requires
        forall|i: int| 0 <= i < members.len() ==> (#[trigger] members[i]).0 != name,
    ensures
        with_member(members, name, value) == members.push((name, value)),
    decreases members.len(),
{
    if members.len() > 0 {
        let rest = members.skip(1);
        assert forall|i: int| 0 <= i < rest.len() implies (#[trigger] rest[i]).0 != name by {
            assert(rest[i] == members[i + 1]);
        }
        lemma_with_member_fresh(rest, name, value);
    }
}

/// The value that the first member named `name` carries, if there is one.
pub open spec fn member_of(members: Seq<(Seq<char>, JsonTree)>, name: Seq<char>) -> Option<
    JsonTree,
>
    decreases members.len(),
{
    if members.len() == 0 {
        None
    } else if members[0].0 == name {
        Some(members[0].1)
    } else {
        member_of(members.skip(1), name)
    }
}

/// The text of the string member `name` of an object, if it has one.
pub open spec fn text_member(tree: JsonTree, name: Seq<char>) -> Option<Seq<char>> {
    match member_of(tree.members(), name) {
        Some(JsonTree::Text(text)) => Some(text),
        _ => None,
    }
}

/// Calls `JsonValue::new_object`, which returns an object without members.
#[verifier::external_body]
pub(crate) fn new_object() -> (value: json::JsonValue)
    ensures
        json_tree(value) == JsonTree::Object(Seq::empty()),
{
    json::JsonValue::new_object()
}

/// Calls `JsonValue::new_array`, which returns an array without items.
#[verifier::external_body]
pub(crate) fn new_array() -> (value: json::JsonValue)
    ensures
        json_tree(value) == JsonTree::Array(Seq::empty()),
{
    json::JsonValue::new_array()
}

/// Calls `JsonValue::from` on a `String`, which wraps the string as it is.
#[verifier::external_body]
pub(crate) fn text_value(text: String) -> (value: json::JsonValue)
    ensures
        json_tree(value) == JsonTree::Text(text@),
{
    json::JsonValue::from(text)
}

/// Assigns through `JsonValue`'s `IndexMut<&str>`. On an object this sets the
/// member `name` to `value`: a member of that name keeps its place and takes
/// the new value, a new name is added behind the others. A target that is no
/// object is first replaced by an empty one.
#[verifier::external_body]
pub(crate) fn set_member(target: &mut json::JsonValue, name: &str, value: json::JsonValue)
    ensures
        json_tree(*final(target)) == JsonTree::Object(
            with_member(json_tree(*old(target)).members(), name@, json_tree(value)),
        ),
{
    target[name] = value;
}

/// Calls `JsonValue::push`. On an array it appends `value` and returns
/// `Ok`; on any other target it returns `Err` and changes nothing.
#[verifier::external_body]
pub(crate) fn push_item(target: &mut json::JsonValue, value: json::JsonValue) -> (result: Result<
    (),
    json::Error,
>)
    ensures
        result is Ok <==> json_tree(*old(target)) is Array,
        result is Ok ==> json_tree(*final(target)) == JsonTree::Array(
            json_tree(*old(target)).items().push(json_tree(value)),
        ),
        result is Err ==> json_tree(*final(target)) == json_tree(*old(target)),
{
    target.push(value)
}

/// Calls `JsonValue::dump`, which prints the value as compact JSON. The text
/// depends on the content alone.
#[verifier::external_body]
pub(crate) fn dump(value: &json::JsonValue) -> (text: String)
    requires
        json_tree(*value).is_textual(),
    ensures
        text@ == json_text(json_tree(*value)),
{
    value.dump()
}

} // verus!
