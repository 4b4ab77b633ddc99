//! What is said in JSON, as a tree of plain values. Turning the tree into text is left to the
//! program that prints it, which has the floating-point numbers that its decimals print as.

use crate::text::same;
use vstd::prelude::*;

verus! {

/// A JSON value.
pub enum Json {
    /// `null`.
    Null,
    /// `true` or `false`.
    Bool(bool),
    /// A whole number.
    Number(i128),
    /// A decimal fraction: so many units of the given number of decimal places.
    Decimal {
        /// How many units.
        units: i64,
        /// How many decimal places.
        places: u32,
    },
    /// A string.
    Text(String),
    /// An array.
    List(Vec<Json>),
    /// An object: its members in the order in which they were put in.
    Object(Vec<Member>),
}

/// A member of an object.
pub struct Member {
    /// Its name.
    pub key: String,
    /// Its value.
    pub value: Json,
}

/// What a `Json` says.
pub enum Tree {
    /// `null`.
    Null,
    /// `true` or `false`.
    Bool(bool),
    /// A whole number.
    Number(int),
    /// A decimal fraction: units, and decimal places.
    Decimal(int, nat),
    /// A string.
    Text(Seq<char>),
    /// An array.
    List(Seq<Tree>),
    /// An object.
    Object(Seq<(Seq<char>, Tree)>),
}

impl Json {
    /// What it says.
    pub open spec fn tree(self) -> Tree
        decreases self,
    {
        match self {
            Json::Null => Tree::Null,
            Json::Bool(b) => Tree::Bool(b),
            Json::Number(n) => Tree::Number(n as int),
            Json::Decimal { units, places } => Tree::Decimal(units as int, places as nat),
            Json::Text(s) => Tree::Text(s@),
            Json::List(v) => Tree::List(
                Seq::new(
                    v@.len(),
                    |i: int|
                        if 0 <= i < v@.len() {
                            v@[i].tree()
                        } else {
                            Tree::Null
                        },
                ),
            ),
            Json::Object(v) => Tree::Object(
                Seq::new(
                    v@.len(),
                    |i: int|
                        if 0 <= i < v@.len() {
                            (v@[i].key@, v@[i].value.tree())
                        } else {
                            (Seq::empty(), Tree::Null)
                        },
                ),
            ),
        }
    }

    /// The string `s`.
    pub fn text(s: &str) -> (j: Json)
        ensures
            j.tree() == Tree::Text(s@),
    {
        Json::Text(s.to_owned())
    }

    /// The string in `s`, or `null`.
    pub fn text_or_null(s: &Option<String>) -> (j: Json)
        ensures
            j.tree() == text_or_null(*s),
    {
        match s {
            Some(s) => Json::text(s.as_str()),
            None => Json::Null,
        }
    }

    /// The number `n`.
    pub fn number(n: u64) -> (j: Json)
        ensures
            j.tree() == Tree::Number(n as int),
    {
        Json::Number(n as i128)
    }

    /// The number in `n`, or `null`.
    pub fn number_or_null(n: Option<u64>) -> (j: Json)
        ensures
            j.tree() == number_or_null(
                match n {
                    Some(n) => Some(n as int),
                    None => None,
                },
            ),
    {
        match n {
            Some(n) => Json::number(n),
            None => Json::Null,
        }
    }

    /// The array of `v`.
    pub fn list(v: Vec<Json>) -> (j: Json)
        ensures
            j.tree() == Tree::List(trees(v@)),
    {
        let j: Json = Json::List(v);
        assert(j.tree()->List_0 =~= trees(v@));
        j
    }

    /// The object with the members of `v`.
    pub fn object(v: Vec<Member>) -> (j: Json)
        ensures
            j.tree() == Tree::Object(members(v@)),
    {
        let j: Json = Json::Object(v);
        assert(j.tree()->Object_0 =~= members(v@));
        j
    }

    /// The value of the first member `key`, where this is an object that has one.
    pub fn get(&self, key: &str) -> (r: Option<&Json>)
        ensures
            match r {
                Some(j) => self is Object && exists|i: int|
                    0 <= i < self->Object_0@.len() && (#[trigger] self->Object_0@[i]).key@ == key@
                        && self->Object_0@[i].value == *j && forall|k: int|
                        0 <= k < i ==> (#[trigger] self->Object_0@[k]).key@ != key@,
                None => self is Object ==> forall|k: int|
                    0 <= k < self->Object_0@.len() ==> (#[trigger] self->Object_0@[k]).key@ != key@,
            },
    {
        match self {
            Json::Object(v) => {
                let mut i: usize = 0;
                while i < v.len()
                    invariant
                        i <= v.len(),
                        *self == Json::Object(*v),
                        forall|k: int| 0 <= k < i ==> (#[trigger] v@[k]).key@ != key@,
                    decreases v.len() - i,
                {
                    if same(v[i].key.as_str(), key) {
                        assert(v@[i as int].key@ == key@);
                        return Some(&v[i].value);
                    }
                    i = i + 1;
                }
                None
            },
            _ => None,
        }
    }
}

/// The string in `s`, or `null`.
pub open spec fn text_or_null(s: Option<String>) -> Tree {
    match s {
        Some(s) => Tree::Text(s@),
        None => Tree::Null,
    }
}

/// The number in `n`, or `null`.
pub open spec fn number_or_null(n: Option<int>) -> Tree {
    match n {
        Some(n) => Tree::Number(n),
        None => Tree::Null,
    }
}

/// The trees of a list of values.
pub open spec fn trees(v: Seq<Json>) -> Seq<Tree> {
    v.map_values(|j: Json| j.tree())
}

/// The members of an object, with what they say.
pub open spec fn members(v: Seq<Member>) -> Seq<(Seq<char>, Tree)> {
    v.map_values(|m: Member| (m.key@, m.value.tree()))
}

/// Adds a member at the end.
pub fn put(v: &mut Vec<Member>, key: &str, value: Json)
    ensures
        members(final(v)@) == members(old(v)@).push((key@, value.tree())),
{
    let ghost before = v@;
    v.push(Member { key: key.to_owned(), value });
    assert(members(v@) =~= members(before).push((key@, value.tree())));
}

/// An object without members yet.
pub fn no_members() -> (v: Vec<Member>)
    ensures
        members(v@) == Seq::<(Seq<char>, Tree)>::empty(),
{
    let v: Vec<Member> = Vec::new();
    assert(members(v@) =~= Seq::<(Seq<char>, Tree)>::empty());
    v
}

/// A number and a text stand for themselves, and what is not there is null.
pub proof fn law_what_is_not_there_is_null(
    n: u64,
    t: String,
    text: &Option<String>,
    none: &Option<String>,
    a: Json,
    b: Json,
    c: Json,
    d: Json,
)
    requires
        *text == Some(t),
        *none == None::<String>,
        call_ensures(Json::number_or_null, (Some(n),), a),
        call_ensures(Json::number_or_null, (None::<u64>,), b),
        call_ensures(Json::text_or_null, (text,), c),
        call_ensures(Json::text_or_null, (none,), d),
    ensures
        a.tree() == Tree::Number(n as int),
        b.tree() == Tree::Null,
        c.tree() == Tree::Text(t@),
        d.tree() == Tree::Null,
{
}

/// A list says its values and an object its members, each in the order in which they were put in.
pub proof fn law_the_order_is_kept(v: Vec<Json>, m: Vec<Member>, list: Json, object: Json, i: int, k: int)
    requires
        call_ensures(Json::list, (v,), list),
        call_ensures(Json::object, (m,), object),
        0 <= i < v@.len(),
        0 <= k < m@.len(),
    ensures
        list.tree() is List && (list.tree()->List_0).len() == v@.len(),
        (list.tree()->List_0)[i] == v@[i].tree(),
        object.tree() is Object && (object.tree()->Object_0).len() == m@.len(),
        (object.tree()->Object_0)[k] == (m@[k].key@, m@[k].value.tree()),
{
}

} // verus!
