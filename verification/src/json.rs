//! A JSON document model that the verified logic reads and builds.
//! Objects keep their members in a list; a lookup returns the first member
//! with the key, which for well-formed documents is the only one.

use vstd::prelude::*;
use crate::text::{str_eq, copy_text};

verus! {

/// A JSON number: integers exactly, anything else by its textual form.
#[derive(Debug)]
pub enum JsonNumber {
    Unsigned(u64),
    Signed(i64),
    Decimal(String),
}

/// A JSON value.
#[derive(Debug)]
pub enum JsonValue {
    Null,
    Bool(bool),
    Number(JsonNumber),
    Str(String),
    Array(Vec<JsonValue>),
    Object(Vec<(String, JsonValue)>),
}

/// Two numbers denote the same JSON number text.
pub open spec fn number_same(a: JsonNumber, b: JsonNumber) -> bool {
    match (a, b) {
        (JsonNumber::Unsigned(x), JsonNumber::Unsigned(y)) => x == y,
        (JsonNumber::Signed(x), JsonNumber::Signed(y)) => x == y,
        (JsonNumber::Decimal(x), JsonNumber::Decimal(y)) => x@ == y@,
        _ => false,
    }
}

/// Two values are the same document.
pub open spec fn json_same(a: JsonValue, b: JsonValue) -> bool
    decreases a,
{
    match a {
        JsonValue::Null => b is Null,
        JsonValue::Bool(x) => b matches JsonValue::Bool(y) && x == y,
        JsonValue::Number(x) => b matches JsonValue::Number(y) && number_same(x, y),
        JsonValue::Str(x) => b matches JsonValue::Str(y) && x@ == y@,
        JsonValue::Array(xs) => b matches JsonValue::Array(ys) && xs@.len() == ys@.len()
            && forall|i: int| 0 <= i < xs@.len() ==> json_same(#[trigger] xs@[i], ys@[i]),
        JsonValue::Object(xs) => b matches JsonValue::Object(ys) && xs@.len() == ys@.len()
            && forall|i: int|
            0 <= i < xs@.len() ==> (#[trigger] xs@[i]).0@ == ys@[i].0@ && json_same(xs@[i].1, ys@[i].1),
    }
}

impl JsonNumber {
    /// A copy of this number.
    pub fn copy(&self) -> (r: JsonNumber)
        ensures
            number_same(*self, r),
    {
        match self {
            JsonNumber::Unsigned(x) => JsonNumber::Unsigned(*x),
            JsonNumber::Signed(x) => JsonNumber::Signed(*x),
            JsonNumber::Decimal(x) => JsonNumber::Decimal(x.clone()),
        }
    }
}

impl JsonValue {
    /// A copy of this document.
    pub fn copy(&self) -> (r: JsonValue)
        ensures
            json_same(*self, r),
            r@ == self@,
        decreases *self,
    {
        match self {
            JsonValue::Null => JsonValue::Null,
            JsonValue::Bool(x) => JsonValue::Bool(*x),
            JsonValue::Number(x) => JsonValue::Number(x.copy()),
            JsonValue::Str(x) => JsonValue::Str(x.clone()),
            JsonValue::Array(xs) => {
                let mut out: Vec<JsonValue> = Vec::new();
                let mut i: usize = 0;
                while i < xs.len()
                    invariant
                        i <= xs@.len(),
                        *self == JsonValue::Array(*xs),
                        out@.len() == i,
                        forall|j: int| 0 <= j < i ==> json_same(#[trigger] xs@[j], out@[j]),
                        items_view(out@) == items_view(xs@.subrange(0, i as int)),
                    decreases xs@.len() - i,
                {
                    proof {
                        assert(decreases_to!(*self => (*self)->Array_0));
                        assert(decreases_to!(*xs => xs[i as int]));
                        assert(decreases_to!(*self => xs@[i as int]));
                    }
                    let c = xs[i].copy();
                    let ghost before = out@;
                    out.push(c);
                    proof {
                        assert(out@.drop_last() == before);
                        assert(xs@.subrange(0, i + 1).drop_last() =~= xs@.subrange(0, i as int));
                    }
                    i = i + 1;
                }
                assert(xs@.subrange(0, i as int) =~= xs@);
                JsonValue::Array(out)
            },
            JsonValue::Object(xs) => {
                let mut out: Vec<(String, JsonValue)> = Vec::new();
                let mut i: usize = 0;
                while i < xs.len()
                    invariant
                        i <= xs@.len(),
                        *self == JsonValue::Object(*xs),
                        out@.len() == i,
                        forall|j: int|
                            0 <= j < i ==> (#[trigger] xs@[j]).0@ == out@[j].0@ && json_same(
                                xs@[j].1,
                                out@[j].1,
                            ),
                        members_view(out@) == members_view(xs@.subrange(0, i as int)),
                    decreases xs@.len() - i,
                {
                    proof {
                        assert(decreases_to!(*self => (*self)->Object_0));
                        assert(decreases_to!(*xs => xs[i as int]));
                        assert(decreases_to!(xs[i as int] => xs[i as int].1));
                        assert(decreases_to!(*self => xs@[i as int].1));
                    }
                    let c = xs[i].1.copy();
                    let ghost before = out@;
                    out.push((xs[i].0.clone(), c));
                    proof {
                        assert(out@.drop_last() == before);
                        assert(xs@.subrange(0, i + 1).drop_last() =~= xs@.subrange(0, i as int));
                    }
                    i = i + 1;
                }
                assert(xs@.subrange(0, i as int) =~= xs@);
                JsonValue::Object(out)
            },
        }
    }
}

/// The first member of `members` named `key`.
pub open spec fn member(members: Seq<(String, JsonValue)>, key: Seq<char>) -> Option<JsonValue>
    decreases members.len(),
{
    if members.len() == 0 {
        None
    } else if members[0].0@ == key {
        Some(members[0].1)
    } else {
        member(members.drop_first(), key)
    }
}

/// `v[key]`: the member named `key` when `v` is an object.
pub open spec fn field(v: JsonValue, key: Seq<char>) -> Option<JsonValue> {
    match v {
        JsonValue::Object(m) => member(m@, key),
        _ => None,
    }
}

/// The text of a string value.
pub open spec fn as_text(v: Option<JsonValue>) -> Option<Seq<char>> {
    match v {
        Some(JsonValue::Str(s)) => Some(s@),
        _ => None,
    }
}

/// The flag of a boolean value.
pub open spec fn as_flag(v: Option<JsonValue>) -> Option<bool> {
    match v {
        Some(JsonValue::Bool(b)) => Some(b),
        _ => None,
    }
}

/// The value of a non-negative integer.
pub open spec fn as_unsigned(v: Option<JsonValue>) -> Option<u64> {
    match v {
        Some(JsonValue::Number(JsonNumber::Unsigned(n))) => Some(n),
        Some(JsonValue::Number(JsonNumber::Signed(n))) => if n >= 0 {
            Some(n as u64)
        } else {
            None
        },
        _ => None,
    }
}

/// `field(v, k)` as text.
pub open spec fn field_text(v: JsonValue, key: Seq<char>) -> Option<Seq<char>> {
    as_text(field(v, key))
}

pub open spec fn opt_text(r: Option<&str>) -> Option<Seq<char>> {
    match r {
        Some(s) => Some(s@),
        None => None,
    }
}

pub open spec fn opt_string(r: Option<String>) -> Option<Seq<char>> {
    match r {
        Some(s) => Some(s@),
        None => None,
    }
}

proof fn lemma_member_skip(members: Seq<(String, JsonValue)>, key: Seq<char>, i: int)
    requires
        0 <= i < members.len(),
        members[i].0@ != key,
    ensures
        member(members.skip(i), key) == member(members.skip(i + 1), key),
{
    assert(members.skip(i).drop_first() =~= members.skip(i + 1));
}

proof fn lemma_member_update(
    members: Seq<(String, JsonValue)>,
    p: int,
    entry: (String, JsonValue),
    k: Seq<char>,
)
    requires
        0 <= p < members.len(),
        entry.0@ == members[p].0@,
        forall|j: int| 0 <= j < p ==> members[j].0@ != members[p].0@,
    ensures
        k == entry.0@ ==> member(members.update(p, entry), k) == Some(entry.1),
        k != entry.0@ ==> member(members.update(p, entry), k) == member(members, k),
    decreases p,
{
    if p > 0 {
        assert(members.update(p, entry).drop_first() =~= members.drop_first().update(p - 1, entry));
        lemma_member_update(members.drop_first(), p - 1, entry, k);
    } else {
        assert(members.update(0, entry).drop_first() =~= members.drop_first());
    }
}

proof fn lemma_member_push(members: Seq<(String, JsonValue)>, entry: (String, JsonValue), k: Seq<char>)
    ensures
        member(members.push(entry), k) == (if member(members, k) is Some {
            member(members, k)
        } else if entry.0@ == k {
            Some(entry.1)
        } else {
            None
        }),
    decreases members.len(),
{
    reveal_with_fuel(member, 2);
    assert(members.push(entry)[0] == (if members.len() > 0 { members[0] } else { entry }));
    if members.len() > 0 {
        assert(members.push(entry).drop_first() =~= members.drop_first().push(entry));
        lemma_member_push(members.drop_first(), entry, k);
    } else {
        assert(members.push(entry).drop_first() =~= Seq::<(String, JsonValue)>::empty());
    }
}

/// `members` with the first member named `key` given `value`, or with such a member appended
/// when there is none.
pub open spec fn set_member(members: Seq<(Seq<char>, JsonView)>, key: Seq<char>, value: JsonView) -> Seq<(Seq<char>, JsonView)> {
    if exists|i: int| 0 <= i < members.len() && #[trigger] members[i].0 == key {
        let i = choose|i: int| 0 <= i < members.len() && #[trigger] members[i].0 == key
            && forall|j: int| 0 <= j < i ==> members[j].0 != key;
        members.update(i, (key, value))
    } else {
        members.push((key, value))
    }
}

proof fn lemma_members_view_index(ms: Seq<(String, JsonValue)>)
    ensures
        members_view(ms).len() == ms.len(),
        forall|i: int| 0 <= i < ms.len() ==> #[trigger] members_view(ms)[i] == (ms[i].0@, json_view(ms[i].1)),
    decreases ms.len(),
{
    if ms.len() > 0 {
        lemma_members_view_index(ms.drop_last());
    }
}

proof fn lemma_member_none(ms: Seq<(String, JsonValue)>, key: Seq<char>)
    requires
        member(ms, key) is None,
    ensures
        forall|j: int| 0 <= j < ms.len() ==> (#[trigger] ms[j]).0@ != key,
    decreases ms.len(),
{
    if ms.len() > 0 {
        lemma_member_none(ms.drop_first(), key);
        assert forall|j: int| 0 <= j < ms.len() implies (#[trigger] ms[j]).0@ != key by {
            if j > 0 {
                assert(ms[j] == ms.drop_first()[j - 1]);
            }
        }
    }
}

impl JsonValue {
    /// The position of the first member named `key`, when this is an object that has one.
    pub fn member_index(&self, key: &str) -> (r: Option<usize>)
        ensures
            match r {
                Some(i) => self matches JsonValue::Object(m) && i < m@.len() && m@[i as int].0@ == key@
                    && field(*self, key@) == Some(m@[i as int].1)
                    && forall|j: int| 0 <= j < i ==> m@[j].0@ != key@,
                None => field(*self, key@) is None,
            },
    {
        match self {
            JsonValue::Object(m) => {
                let mut i: usize = 0;
                assert(m@.skip(0) =~= m@);
                while i < m.len()
                    invariant
                        i <= m@.len(),
                        *self == JsonValue::Object(*m),
                        member(m@, key@) == member(m@.skip(i as int), key@),
                        forall|j: int| 0 <= j < i ==> m@[j].0@ != key@,
                    decreases m@.len() - i,
                {
                    if str_eq(m[i].0.as_str(), key) {
                        assert(m@.skip(i as int)[0] == m@[i as int]);
                        return Some(i);
                    }
                    proof {
                        lemma_member_skip(m@, key@, i as int);
                    }
                    i = i + 1;
                }
                None
            },
            _ => None,
        }
    }

    /// `self[key]`.
    pub fn get(&self, key: &str) -> (r: Option<&JsonValue>)
        ensures
            match r {
                Some(v) => field(*self, key@) == Some(*v),
                None => field(*self, key@) is None,
            },
    {
        match self.member_index(key) {
            Some(i) => match self {
                JsonValue::Object(m) => Some(&m[i].1),
                _ => None,
            },
            None => None,
        }
    }

    /// `self[key]` as text.
    pub fn get_str(&self, key: &str) -> (r: Option<&str>)
        ensures
            opt_text(r) == field_text(*self, key@),
    {
        match self.get(key) {
            Some(JsonValue::Str(s)) => Some(s.as_str()),
            _ => None,
        }
    }

    /// `self[key]` as text, copied.
    pub fn get_string(&self, key: &str) -> (r: Option<String>)
        ensures
            opt_string(r) == field_text(*self, key@),
    {
        match self.get_str(key) {
            Some(s) => Some(copy_text(s)),
            None => None,
        }
    }

    /// `self[key]` as a flag.
    pub fn get_bool(&self, key: &str) -> (r: Option<bool>)
        ensures
            r == as_flag(field(*self, key@)),
    {
        match self.get(key) {
            Some(JsonValue::Bool(b)) => Some(*b),
            _ => None,
        }
    }

    /// `self[key]` as a non-negative integer.
    pub fn get_u64(&self, key: &str) -> (r: Option<u64>)
        ensures
            r == as_unsigned(field(*self, key@)),
    {
        match self.get(key) {
            Some(JsonValue::Number(JsonNumber::Unsigned(n))) => Some(*n),
            Some(JsonValue::Number(JsonNumber::Signed(n))) => if *n >= 0 {
                Some(*n as u64)
            } else {
                None
            },
            _ => None,
        }
    }

    /// A string value.
    pub fn text(s: &str) -> (r: JsonValue)
        ensures
            r matches JsonValue::Str(t) && t@ == s@,
    {
        JsonValue::Str(copy_text(s))
    }

    /// `self[key] = value` on an object: replaces the member named `key`, or appends one.
    pub fn set(&mut self, key: &str, value: JsonValue)
        requires
            *old(self) is Object,
        ensures
            *final(self) is Object,
            field(*final(self), key@) == Some(value),
            forall|k: Seq<char>| k != key@ ==> field(*final(self), k) == field(*old(self), k),
            old(self)@ matches JsonView::Object(ms) && final(self)@ == JsonView::Object(set_member(ms, key@, value@)),
    {
        let idx = self.member_index(key);
        match self {
            JsonValue::Object(m) => {
                let ghost before = m@;
                match idx {
                    Some(i) => {
                        let entry = (copy_text(key), value);
                        m.set(i, entry);
                        proof {
                            assert(m@ == before.update(i as int, entry));
                            assert forall|k: Seq<char>| k != key@ implies member(m@, k) == member(before, k) by {
                                lemma_member_update(before, i as int, entry, k);
                            }
                            lemma_member_update(before, i as int, entry, key@);
                            lemma_members_view_index(before);
                            lemma_members_view_index(m@);
                            let vs = members_view(before);
                            assert(vs[i as int].0 == key@);
                            let c = choose|c: int| 0 <= c < vs.len() && #[trigger] vs[c].0 == key@
                                && forall|j: int| 0 <= j < c ==> vs[j].0 != key@;
                            assert(c == i as int) by {
                                if c < i {
                                    assert(vs[c] == (before[c].0@, json_view(before[c].1)));
                                } else if c > i {
                                }
                            }
                            assert(members_view(m@) =~= vs.update(i as int, (key@, value@)));
                        }
                    },
                    None => {
                        let entry = (copy_text(key), value);
                        m.push(entry);
                        proof {
                            assert forall|k: Seq<char>| k != key@ implies member(m@, k) == member(before, k) by {
                                lemma_member_push(before, entry, k);
                            }
                            lemma_member_push(before, entry, key@);
                            lemma_members_view_index(before);
                            lemma_member_none(before, key@);
                            let vs = members_view(before);
                            assert forall|c: int| 0 <= c < vs.len() implies #[trigger] vs[c].0 != key@ by {
                                assert(vs[c] == (before[c].0@, json_view(before[c].1)));
                            }
                            assert(m@.drop_last() =~= before);
                            assert(members_view(m@) =~= vs.push((key@, value@)));
                        }
                    },
                }
            },
            _ => {},
        }
    }
}

/// An object holding `members`.
pub fn object(members: Vec<(String, JsonValue)>) -> (r: JsonValue)
    ensures
        r == JsonValue::Object(members),
{
    JsonValue::Object(members)
}

} // verus!
verus! {

/// A JSON document as a mathematical value.
pub enum JsonView {
    Null,
    Bool(bool),
    Unsigned(u64),
    Signed(i64),
    Decimal(Seq<char>),
    Str(Seq<char>),
    Array(Seq<JsonView>),
    Object(Seq<(Seq<char>, JsonView)>),
}

impl View for JsonValue {
    type V = JsonView;

    open spec fn view(&self) -> JsonView {
        json_view(*self)
    }
}

/// The mathematical value of a document.
pub open spec fn json_view(v: JsonValue) -> JsonView
    decreases v, 1int,
{
    match v {
        JsonValue::Null => JsonView::Null,
        JsonValue::Bool(b) => JsonView::Bool(b),
        JsonValue::Number(JsonNumber::Unsigned(n)) => JsonView::Unsigned(n),
        JsonValue::Number(JsonNumber::Signed(n)) => JsonView::Signed(n),
        JsonValue::Number(JsonNumber::Decimal(s)) => JsonView::Decimal(s@),
        JsonValue::Str(s) => JsonView::Str(s@),
        JsonValue::Array(xs) => {
            proof {
                assert(decreases_to!(v => xs));
                assert(decreases_to!(xs => xs@));
            }
            JsonView::Array(items_view(xs@))
        },
        JsonValue::Object(ms) => {
            proof {
                assert(decreases_to!(v => ms));
                assert(decreases_to!(ms => ms@));
            }
            JsonView::Object(members_view(ms@))
        },
    }
}

/// The values of a sequence of documents.
pub open spec fn items_view(xs: Seq<JsonValue>) -> Seq<JsonView>
    decreases xs, 0int,
{
    if xs.len() == 0 {
        Seq::empty()
    } else {
        proof {
            assert(decreases_to!(xs => xs.drop_last()));
            assert(decreases_to!(xs => xs[xs.len() - 1]));
        }
        items_view(xs.drop_last()).push(json_view(xs.last()))
    }
}

/// The names and values of a sequence of members.
pub open spec fn members_view(ms: Seq<(String, JsonValue)>) -> Seq<(Seq<char>, JsonView)>
    decreases ms, 0int,
{
    if ms.len() == 0 {
        Seq::empty()
    } else {
        proof {
            assert(decreases_to!(ms => ms.drop_last()));
            assert(decreases_to!(ms => ms[ms.len() - 1]));
            assert(decreases_to!(ms[ms.len() - 1] => ms[ms.len() - 1].1));
        }
        members_view(ms.drop_last()).push((ms.last().0@, json_view(ms.last().1)))
    }
}

} // verus!
