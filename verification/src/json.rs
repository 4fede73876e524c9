//! A JSON value as far as this crate reads and writes one.
//!
//! The transport hands a decoded value in and takes one back; this module is
//! the plain data in between. An object keeps its members in order, and a
//! lookup finds the first member with the wanted key.

use vstd::prelude::*;

verus! {

/// A JSON value. Numbers are kept only where they are 64-bit signed integers.
#[derive(Debug, PartialEq)]
pub enum Json {
    Null,
    Bool(bool),
    Int(i64),
    /// A number that is no 64-bit signed integer; its value is not kept.
    Real,
    Str(String),
    Array(Vec<Json>),
    Object(Vec<Member>),
}

/// One member of an object: a key and the value under it.
#[derive(Debug, PartialEq)]
pub struct Member {
    pub key: String,
    pub value: Json,
}

/// The mathematical value that a [`Json`] stands for.
pub enum JsonView {
    Null,
    Bool(bool),
    Int(int),
    Real,
    Str(Seq<char>),
    Array(Seq<JsonView>),
    Object(Seq<MemberView>),
}

/// The mathematical value that a [`Member`] stands for.
pub struct MemberView {
    pub key: Seq<char>,
    pub value: JsonView,
}

impl DeepView for Json {
    type V = JsonView;

    open spec fn deep_view(&self) -> JsonView
        decreases self,
    {
        match self {
            Json::Null => JsonView::Null,
            Json::Bool(b) => JsonView::Bool(*b),
            Json::Int(n) => JsonView::Int(*n as int),
            Json::Real => JsonView::Real,
            Json::Str(s) => JsonView::Str(s@),
            Json::Array(items) => JsonView::Array(
                Seq::new(
                    items@.len(),
                    |i: int|
                        if 0 <= i < items@.len() {
                            items@[i].deep_view()
                        } else {
                            JsonView::Null
                        },
                ),
            ),
            Json::Object(members) => JsonView::Object(
                Seq::new(
                    members@.len(),
                    |i: int|
                        if 0 <= i < members@.len() {
                            MemberView {
                                key: members@[i].key@,
                                value: members@[i].value.deep_view(),
                            }
                        } else {
                            MemberView { key: Seq::empty(), value: JsonView::Null }
                        },
                ),
            ),
        }
    }
}

impl DeepView for Member {
    type V = MemberView;

    open spec fn deep_view(&self) -> MemberView {
        MemberView { key: self.key@, value: self.value.deep_view() }
    }
}

/// The value of the first member of `members` whose key is `key`.
pub open spec fn find(members: Seq<MemberView>, key: Seq<char>) -> Option<JsonView>
    decreases members.len(),
{
    if members.len() == 0 {
        None
    } else if members[0].key == key {
        Some(members[0].value)
    } else {
        find(members.drop_first(), key)
    }
}

impl JsonView {
    /// The member `key` of an object; `None` for a missing member and for a
    /// value that is no object.
    pub open spec fn get(self, key: Seq<char>) -> Option<JsonView> {
        match self {
            JsonView::Object(members) => find(members, key),
            _ => None,
        }
    }

    /// Whether the value is an object with a member `key`, whatever it holds.
    pub open spec fn has(self, key: Seq<char>) -> bool {
        self.get(key) is Some
    }

    /// The member `key` where it is a string.
    pub open spec fn text(self, key: Seq<char>) -> Option<Seq<char>> {
        match self.get(key) {
            Some(JsonView::Str(s)) => Some(s),
            _ => None,
        }
    }

    /// The member `key` where it may be left out: a missing member and `null`
    /// both read as `Some(None)`, a string as `Some(Some(..))`, and anything
    /// else is malformed, `None`.
    pub open spec fn optional_text(self, key: Seq<char>) -> Option<Option<Seq<char>>> {
        match self.get(key) {
            None => Some(None),
            Some(JsonView::Null) => Some(None),
            Some(JsonView::Str(s)) => Some(Some(s)),
            Some(_) => None,
        }
    }

    /// The member `key` where it is an integer.
    pub open spec fn integer(self, key: Seq<char>) -> Option<int> {
        match self.get(key) {
            Some(JsonView::Int(n)) => Some(n),
            _ => None,
        }
    }

    /// The member `key` where it is an array.
    pub open spec fn list(self, key: Seq<char>) -> Option<Seq<JsonView>> {
        match self.get(key) {
            Some(JsonView::Array(items)) => Some(items),
            _ => None,
        }
    }
}

/// An array's view is the sequence of its items' views.
pub proof fn lemma_array_view(items: Vec<Json>)
    ensures
        Json::Array(items).deep_view() == JsonView::Array(items.deep_view()),
{
    assert(Json::Array(items).deep_view()->Array_0 =~= items.deep_view());
}

/// An object's view is the sequence of its members' views.
pub proof fn lemma_object_view(members: Vec<Member>)
    ensures
        Json::Object(members).deep_view() == JsonView::Object(members.deep_view()),
{
    let direct = Json::Object(members).deep_view()->Object_0;
    let mapped = members.deep_view();
    assert(direct =~= mapped);
}

/// `find` skips a first member with another key.
pub proof fn lemma_find_skip(members: Seq<MemberView>, key: Seq<char>, i: int)
    requires
        0 <= i < members.len(),
        members[i].key != key,
    ensures
        find(members.skip(i), key) == find(members.skip(i + 1), key),
{
    assert(members.skip(i).drop_first() =~= members.skip(i + 1));
}

impl Json {
    /// Looks a member up by its key.
    pub fn get(&self, key: &str) -> (found: Option<&Json>)
        ensures
            found.deep_view() == self.deep_view().get(key@),
    {
        match self {
            Json::Object(members) => {
                let wanted = key.to_owned();
                let ghost all = members.deep_view();
                let mut i: usize = 0;
                proof {
                    lemma_object_view(*members);
                    assert(all.skip(0) =~= all);
                }
                while i < members.len()
                    invariant
                        i <= members.len(),
                        wanted@ == key@,
                        all == members.deep_view(),
                        self.deep_view() == JsonView::Object(all),
                        find(all, key@) == find(all.skip(i as int), key@),
                    decreases members.len() - i,
                {
                    if members[i].key == wanted {
                        assert(all.skip(i as int)[0] == members@[i as int].deep_view());
                        return Some(&members[i].value);
                    }
                    proof {
                        lemma_find_skip(all, key@, i as int);
                    }
                    i += 1;
                }
                None
            },
            _ => None,
        }
    }

    /// Whether there is a member with this key.
    pub fn has(&self, key: &str) -> (found: bool)
        ensures
            found == self.deep_view().has(key@),
    {
        self.get(key).is_some()
    }

    /// Reads a member that has to be a string.
    pub fn text(&self, key: &str) -> (found: Option<String>)
        ensures
            found.deep_view() == self.deep_view().text(key@),
    {
        match self.get(key) {
            Some(Json::Str(s)) => Some(s.clone()),
            _ => None,
        }
    }

    /// Reads a string member that may be left out or `null`.
    pub fn optional_text(&self, key: &str) -> (found: Option<Option<String>>)
        ensures
            found.deep_view() == self.deep_view().optional_text(key@),
    {
        match self.get(key) {
            None => Some(None),
            Some(Json::Null) => Some(None),
            Some(Json::Str(s)) => Some(Some(s.clone())),
            Some(_) => None,
        }
    }

    /// Reads a member that has to be an integer.
    pub fn integer(&self, key: &str) -> (found: Option<i64>)
        ensures
            match found {
                Some(n) => self.deep_view().integer(key@) == Some(n as int),
                None => self.deep_view().integer(key@) is None,
            },
    {
        match self.get(key) {
            Some(Json::Int(n)) => Some(*n),
            _ => None,
        }
    }

    /// Reads a member that has to be an array.
    pub fn list(&self, key: &str) -> (found: Option<&Vec<Json>>)
        ensures
            found.deep_view() == self.deep_view().list(key@),
    {
        match self.get(key) {
            Some(Json::Array(items)) => {
                proof {
                    lemma_array_view(*items);
                }
                Some(items)
            },
            _ => None,
        }
    }
}

} // verus!
