//! What the library reads of a JSON text: the values found along given paths.

use serde_json::Value;
use vstd::prelude::*;

verus! {

/// One step into a JSON value.
#[derive(Debug, Clone, Copy, PartialEq, Eq)]
pub enum JsonKey<'a> {
    /// Into an object, by the name of a member.
    Name(&'a str),
    /// Into an array, by position.
    Index(usize),
}

/// What is read of the value at the end of a path. A path that leads nowhere
/// ends in `null`, of which all three are `None`.
#[derive(Debug, Clone, PartialEq, Eq)]
pub struct JsonLeaf {
    /// The value where it is a string.
    pub text: Option<String>,
    /// The value where it is an integer that an `i64` holds.
    pub signed: Option<i64>,
    /// The value where it is an integer that a `u64` holds.
    pub unsigned: Option<u64>,
}

/// The mathematical value of a [`JsonKey`].
pub enum JsonKeyView {
    Name(Seq<char>),
    Index(nat),
}

/// The mathematical value of a [`JsonLeaf`].
pub struct JsonLeafView {
    pub text: Option<Seq<char>>,
    pub signed: Option<i64>,
    pub unsigned: Option<u64>,
}

impl<'a> DeepView for JsonKey<'a> {
    type V = JsonKeyView;

    open spec fn deep_view(&self) -> JsonKeyView {
        match self {
            JsonKey::Name(name) => JsonKeyView::Name(name@),
            JsonKey::Index(index) => JsonKeyView::Index(*index as nat),
        }
    }
}

impl DeepView for JsonLeaf {
    type V = JsonLeafView;

    open spec fn deep_view(&self) -> JsonLeafView {
        JsonLeafView { text: self.text.deep_view(), signed: self.signed, unsigned: self.unsigned }
    }
}

/// What `serde_json` reads in `text` along each of `paths`; `None` where
/// `text` is not one JSON value.
pub uninterp spec fn json_leaves(text: Seq<char>, paths: Seq<Seq<JsonKeyView>>) -> Option<
    Seq<JsonLeafView>,
>;

/// Parses `text` with `serde_json::from_str` into a `serde_json::Value`,
/// follows each path from it with `Value`'s indexing by `&str` and by `usize`,
/// and keeps of the value reached what `Value::as_str`, `Value::as_i64` and
/// `Value::as_u64` give.
///
/// Trusted: the result depends on the arguments alone, it is `None` exactly
/// where the parser refuses `text`, and it holds one leaf for each path.
#[verifier::external_body]
pub(crate) fn read_json(text: &str, paths: &Vec<Vec<JsonKey>>) -> (leaves: Option<Vec<JsonLeaf>>)
    ensures
        leaves.deep_view() == json_leaves(text@, paths.deep_view()),
        leaves matches Some(found) ==> found@.len() == paths@.len(),
{
    let value: Value = serde_json::from_str(text).ok()?;
    let follow = |path: &Vec<JsonKey>| path.iter().fold(&value, |v, key| match key {
        JsonKey::Name(name) => &v[*name],
        JsonKey::Index(index) => &v[*index],
    });
    let read = |leaf: &Value| JsonLeaf {
        text: leaf.as_str().map(String::from),
        signed: leaf.as_i64(),
        unsigned: leaf.as_u64(),
    };
    Some(paths.iter().map(|path| read(follow(path))).collect())
}

} // verus!
