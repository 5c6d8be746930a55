//! JSON as the library reads and writes it: a plain tree with a mathematical
//! view. Parsing and printing are `serde_json`'s; the items that call it are at
//! the end of this file.

use vstd::prelude::*;

use crate::text::{opt_str_view, same};

verus! {

/// What a JSON document is: the mathematical tree.
pub enum JsonView {
    Null,
    Bool(bool),
    /// An integer literal between `i64::MIN` and `u64::MAX`.
    Int(int),
    /// Any other number; carried along, never looked into.
    Float(serde_json::Number),
    Str(Seq<char>),
    Arr(Seq<JsonView>),
    Obj(Map<Seq<char>, JsonView>),
}

impl JsonView {
    /// The member `key` of an object; `None` for a missing member or a non-object.
    pub open spec fn get(self, key: Seq<char>) -> Option<JsonView> {
        match self {
            JsonView::Obj(m) => if m.dom().contains(key) {
                Some(m[key])
            } else {
                None
            },
            _ => None,
        }
    }

    /// Indexing by a key: the member, or `Null` when there is none.
    pub open spec fn at(self, key: Seq<char>) -> JsonView {
        match self.get(key) {
            Some(v) => v,
            None => JsonView::Null,
        }
    }

    pub open spec fn as_str(self) -> Option<Seq<char>> {
        match self {
            JsonView::Str(s) => Some(s),
            _ => None,
        }
    }

    pub open spec fn as_arr(self) -> Option<Seq<JsonView>> {
        match self {
            JsonView::Arr(a) => Some(a),
            _ => None,
        }
    }

    pub open spec fn as_bool(self) -> Option<bool> {
        match self {
            JsonView::Bool(b) => Some(b),
            _ => None,
        }
    }

    pub open spec fn as_u64(self) -> Option<int> {
        match self {
            JsonView::Int(i) => if 0 <= i <= u64::MAX {
                Some(i)
            } else {
                None
            },
            _ => None,
        }
    }

    pub open spec fn as_i64(self) -> Option<int> {
        match self {
            JsonView::Int(i) => if i64::MIN <= i <= i64::MAX {
                Some(i)
            } else {
                None
            },
            _ => None,
        }
    }

    /// The string member `key`.
    pub open spec fn str_at(self, key: Seq<char>) -> Option<Seq<char>> {
        self.at(key).as_str()
    }
}

/// A number that is no integer of 64 bits. Only a document that was read has one.
#[derive(Debug, PartialEq)]
pub struct Fraction {
    value: serde_json::Value,
}

impl Fraction {
    #[verifier::type_invariant]
    spec fn is_fraction(self) -> bool {
        value_tree(self.value) is Float
    }
}

impl View for Fraction {
    type V = serde_json::Number;

    closed spec fn view(&self) -> serde_json::Number {
        value_tree(self.value)->Float_0
    }
}

impl Clone for Fraction {
    fn clone(&self) -> (r: Self)
        ensures
            r@ == self@,
    {
        proof {
            use_type_invariant(self);
        }
        Fraction { value: value_copy(&self.value) }
    }
}

/// One member of an object.
#[derive(Debug, PartialEq)]
pub struct JsonEntry {
    pub key: String,
    pub value: Json,
}

/// A JSON document. A repeated key of an object means the last entry.
#[derive(Debug, PartialEq)]
pub enum Json {
    Null,
    Bool(bool),
    Uint(u64),
    Int(i64),
    Float(Fraction),
    Str(String),
    Arr(Vec<Json>),
    Obj(Vec<JsonEntry>),
}

pub open spec fn json_view(j: Json) -> JsonView
    decreases j,
{
    match j {
        Json::Null => JsonView::Null,
        Json::Bool(b) => JsonView::Bool(b),
        Json::Uint(u) => JsonView::Int(u as int),
        Json::Int(i) => JsonView::Int(i as int),
        Json::Float(n) => JsonView::Float(n@),
        Json::Str(s) => JsonView::Str(s@),
        Json::Arr(items) => JsonView::Arr(items_view(items@)),
        Json::Obj(entries) => JsonView::Obj(entries_view(entries@)),
    }
}

/// The trees of a list of documents, in order.
pub open spec fn items_view(items: Seq<Json>) -> Seq<JsonView>
    decreases items,
{
    if items.len() == 0 {
        seq![]
    } else {
        items_view(items.drop_last()).push(json_view(items.last()))
    }
}

/// The members of an object, entered one after the other.
pub open spec fn entries_view(entries: Seq<JsonEntry>) -> Map<Seq<char>, JsonView>
    decreases entries,
{
    if entries.len() == 0 {
        map![]
    } else {
        entries_view(entries.drop_last()).insert(
            entries.last().key@,
            json_view(entries.last().value),
        )
    }
}

impl View for Json {
    type V = JsonView;

    open spec fn view(&self) -> JsonView {
        json_view(*self)
    }
}

/// Each tree of the list is that of the document at the same place.
pub broadcast proof fn lemma_items_view(items: Seq<Json>)
    ensures
        (#[trigger] items_view(items)).len() == items.len(),
        forall|i: int|
            0 <= i < items.len() ==> (#[trigger] items_view(items)[i]) == json_view(items[i]),
    decreases items.len(),
{
    if items.len() > 0 {
        lemma_items_view(items.drop_last());
        assert forall|i: int| 0 <= i < items.len() implies (#[trigger] items_view(items)[i])
            == json_view(items[i]) by {
            if i < items.len() - 1 {
                assert(items.drop_last()[i] == items[i]);
            }
        }
    }
}

impl Json {
    /// The member `key` of an object.
    pub fn get<'a>(&'a self, key: &str) -> (r: Option<&'a Json>)
        ensures
            match r {
                Some(v) => self@.get(key@) == Some(v@),
                None => self@.get(key@) is None,
            },
    {
        match self {
            Json::Obj(entries) => {
                let mut i: usize = entries.len();
                assert(entries@.take(i as int) =~= entries@);
                while i > 0
                    invariant
                        i <= entries.len(),
                        self@ == JsonView::Obj(entries_view(entries@)),
                        self@.get(key@) == JsonView::Obj(
                            entries_view(entries@.take(i as int)),
                        ).get(key@),
                    decreases i,
                {
                    i = i - 1;
                    assert(entries@.take(i + 1).drop_last() =~= entries@.take(i as int));
                    assert(entries@.take(i + 1).last() == entries@[i as int]);
                    if same(entries[i].key.as_str(), key) {
                        return Some(&entries[i].value);
                    }
                }
                None
            },
            _ => None,
        }
    }

    /// The text of a string.
    pub fn as_str<'a>(&'a self) -> (r: Option<&'a str>)
        ensures
            opt_str_view(r) == self@.as_str(),
    {
        match self {
            Json::Str(s) => Some(s.as_str()),
            _ => None,
        }
    }

    /// The text of the string member `key`.
    pub fn str_at<'a>(&'a self, key: &str) -> (r: Option<&'a str>)
        ensures
            opt_str_view(r) == self@.str_at(key@),
    {
        match self.get(key) {
            Some(v) => v.as_str(),
            None => None,
        }
    }

    /// The member `inner` of the object member `outer`.
    pub fn get2<'a>(&'a self, outer: &str, inner: &str) -> (r: Option<&'a Json>)
        ensures
            match r {
                Some(v) => self@.at(outer@).get(inner@) == Some(v@),
                None => self@.at(outer@).get(inner@) is None,
            },
    {
        match self.get(outer) {
            Some(v) => v.get(inner),
            None => None,
        }
    }

    /// The text of the string member `inner` of the object member `outer`.
    pub fn str_at2<'a>(&'a self, outer: &str, inner: &str) -> (r: Option<&'a str>)
        ensures
            opt_str_view(r) == self@.at(outer@).str_at(inner@),
    {
        match self.get(outer) {
            Some(v) => v.str_at(inner),
            None => None,
        }
    }

    /// The items of an array.
    pub fn as_arr<'a>(&'a self) -> (r: Option<&'a Vec<Json>>)
        ensures
            match r {
                Some(a) => self@.as_arr() == Some(items_view(a@)),
                None => self@.as_arr() is None,
            },
    {
        match self {
            Json::Arr(a) => Some(a),
            _ => None,
        }
    }

    /// The items of the array member `key`.
    pub fn arr_at<'a>(&'a self, key: &str) -> (r: Option<&'a Vec<Json>>)
        ensures
            match r {
                Some(a) => self@.at(key@).as_arr() == Some(items_view(a@)),
                None => self@.at(key@).as_arr() is None,
            },
    {
        match self.get(key) {
            Some(v) => v.as_arr(),
            None => None,
        }
    }

    pub fn as_bool(&self) -> (r: Option<bool>)
        ensures
            r == self@.as_bool(),
    {
        match self {
            Json::Bool(b) => Some(*b),
            _ => None,
        }
    }

    pub fn as_u64(&self) -> (r: Option<u64>)
        ensures
            match r {
                Some(u) => self@.as_u64() == Some(u as int),
                None => self@.as_u64() is None,
            },
    {
        match self {
            Json::Uint(u) => Some(*u),
            Json::Int(i) => if *i >= 0 {
                Some(*i as u64)
            } else {
                None
            },
            _ => None,
        }
    }

    pub fn as_i64(&self) -> (r: Option<i64>)
        ensures
            match r {
                Some(i) => self@.as_i64() == Some(i as int),
                None => self@.as_i64() is None,
            },
    {
        match self {
            Json::Uint(u) => if *u <= i64::MAX as u64 {
                Some(*u as i64)
            } else {
                None
            },
            Json::Int(i) => Some(*i),
            _ => None,
        }
    }

    /// A copy of the document.
    pub fn copy(&self) -> (r: Json)
        ensures
            r@ == self@,
        decreases self,
    {
        match self {
            Json::Null => Json::Null,
            Json::Bool(b) => Json::Bool(*b),
            Json::Uint(u) => Json::Uint(*u),
            Json::Int(i) => Json::Int(*i),
            Json::Float(n) => Json::Float(n.clone()),
            Json::Str(s) => Json::Str(s.clone()),
            Json::Arr(items) => {
                let mut out: Vec<Json> = Vec::new();
                let mut i: usize = 0;
                while i < items.len()
                    invariant
                        i <= items.len(),
                        *self == Json::Arr(*items),
                        items_view(out@) == items_view(items@.take(i as int)),
                    decreases items.len() - i,
                {
                    assert(decreases_to!(*self => self->Arr_0));
                    assert(decreases_to!(*items => items@));
                    assert(decreases_to!(items@ => items@[i as int]));
                    let c = items[i].copy();
                    proof {
                        assert(items@.take(i + 1).drop_last() =~= items@.take(i as int));
                        assert(out@.push(c).drop_last() =~= out@);
                    }
                    out.push(c);
                    i = i + 1;
                }
                assert(items@.take(items.len() as int) =~= items@);
                Json::Arr(out)
            },
            Json::Obj(entries) => {
                let mut out: Vec<JsonEntry> = Vec::new();
                let mut i: usize = 0;
                while i < entries.len()
                    invariant
                        i <= entries.len(),
                        *self == Json::Obj(*entries),
                        entries_view(out@) == entries_view(entries@.take(i as int)),
                    decreases entries.len() - i,
                {
                    assert(decreases_to!(*self => self->Obj_0));
                    assert(decreases_to!(*entries => entries@));
                    assert(decreases_to!(entries@ => entries@[i as int]));
                    assert(decreases_to!(entries@[i as int] => entries@[i as int].value));
                    let c = JsonEntry {
                        key: entries[i].key.clone(),
                        value: entries[i].value.copy(),
                    };
                    proof {
                        assert(entries@.take(i + 1).drop_last() =~= entries@.take(i as int));
                        assert(out@.push(c).drop_last() =~= out@);
                    }
                    out.push(c);
                    i = i + 1;
                }
                assert(entries@.take(entries.len() as int) =~= entries@);
                Json::Obj(out)
            },
        }
    }

    /// The document that `text` holds; `None` where it is not one JSON document.
    pub fn parse(text: &str) -> (r: Option<Json>)
        ensures
            match r {
                Some(j) => parsed(text@) == Some(j@),
                None => parsed(text@) is None,
            },
    {
        match parse_value(text) {
            Some(v) => Some(read_value(&v)),
            None => None,
        }
    }

    /// The first of the documents that stand one after the other in `text`;
    /// `None` where there is none or the text breaks off inside it.
    pub fn parse_first(text: &str) -> (r: Option<Json>)
        ensures
            match r {
                Some(j) => first_parsed(text@) == Some(j@),
                None => first_parsed(text@) is None,
            },
    {
        match parse_first_value(text) {
            Some(v) => Some(read_value(&v)),
            None => None,
        }
    }

    /// The document as compact JSON text.
    pub fn print(&self) -> (r: String)
        ensures
            r@ == json_text(self@),
            survives_print(self@, 127) ==> parsed(r@) == Some(self@),
    {
        let v = build_value(self);
        value_text(&v)
    }
}

impl Clone for Json {
    fn clone(&self) -> (r: Self)
        ensures
            r@ == self@,
    {
        self.copy()
    }
}

impl Clone for JsonEntry {
    fn clone(&self) -> (r: Self)
        ensures
            r.key@ == self.key@,
            r.value@ == self.value@,
    {
        JsonEntry { key: self.key.clone(), value: self.value.copy() }
    }
}

/// Enter one member into an object.
pub fn put(entries: &mut Vec<JsonEntry>, key: &str, value: Json)
    ensures
        entries_view(final(entries)@) == entries_view(old(entries)@).insert(key@, value@),
{
    let ghost before = entries@;
    entries.push(JsonEntry { key: key.to_owned(), value });
    assert(entries@.drop_last() =~= before);
}

/// The string documents of a list of texts.
pub open spec fn str_items(texts: Seq<Seq<char>>) -> Seq<JsonView> {
    texts.map_values(|t: Seq<char>| JsonView::Str(t))
}

/// An array of strings.
pub fn string_array(texts: &Vec<String>) -> (r: Json)
    ensures
        r@ == JsonView::Arr(str_items(crate::text::texts_view(texts@))),
{
    let mut out: Vec<Json> = Vec::new();
    let mut i: usize = 0;
    while i < texts.len()
        invariant
            i <= texts.len(),
            items_view(out@) == str_items(crate::text::texts_view(texts@.take(i as int))),
        decreases texts.len() - i,
    {
        let item = Json::Str(texts[i].clone());
        proof {
            assert(out@.push(item).drop_last() =~= out@);
            assert(str_items(crate::text::texts_view(texts@.take(i + 1))) =~= str_items(
                crate::text::texts_view(texts@.take(i as int)),
            ).push(item@));
        }
        out.push(item);
        i = i + 1;
    }
    assert(texts@.take(texts@.len() as int) =~= texts@);
    Json::Arr(out)
}

/// The document in `serde_json`'s own value, as a tree of the library.
fn read_value(v: &serde_json::Value) -> (r: Json)
    ensures
        r@ == value_tree(*v),
    decreases value_tree(*v),
{
    match shape(v) {
        Shape::Null => Json::Null,
        Shape::Bool(b) => Json::Bool(b),
        Shape::Uint(u) => Json::Uint(u),
        Shape::Int(i) => Json::Int(i),
        Shape::Float(_) => Json::Float(Fraction { value: value_copy(v) }),
        Shape::Str(s) => Json::Str(s.clone()),
        Shape::Arr(items) => {
            let mut out: Vec<Json> = Vec::new();
            let mut i: usize = 0;
            while i < items.len()
                invariant
                    i <= items.len(),
                    value_tree(*v) == JsonView::Arr(values_view(items@)),
                    items_view(out@) == values_view(items@.take(i as int)),
                decreases items.len() - i,
            {
                proof {
                    lemma_values_view(items@);
                    assert(values_view(items@)[i as int] == value_tree(items@[i as int]));
                    assert(decreases_to!(value_tree(*v) => value_tree(*v)->Arr_0));
                    assert(decreases_to!(values_view(items@) => values_view(items@)[i as int]));
                }
                let c = read_value(&items[i]);
                proof {
                    assert(items@.take(i + 1).drop_last() =~= items@.take(i as int));
                    assert(out@.push(c).drop_last() =~= out@);
                }
                out.push(c);
                i = i + 1;
            }
            assert(items@.take(items.len() as int) =~= items@);
            Json::Arr(out)
        },
        Shape::Obj(members) => {
            let mut out: Vec<JsonEntry> = Vec::new();
            let mut i: usize = 0;
            while i < members.len()
                invariant
                    i <= members.len(),
                    value_tree(*v) == JsonView::Obj(members_view(members@)),
                    keys_distinct(members@),
                    entries_view(out@) == members_view(members@.take(i as int)),
                decreases members.len() - i,
            {
                proof {
                    lemma_members_view(members@, i as int);
                    lemma_members_finite(members@);
                    let m = members_view(members@);
                    assert(decreases_to!(value_tree(*v) => value_tree(*v)->Obj_0));
                    assert(decreases_to!(m => m[members@[i as int].0@]));
                }
                let c = JsonEntry {
                    key: members[i].0.clone(),
                    value: read_value(members[i].1),
                };
                proof {
                    assert(members@.take(i + 1).drop_last() =~= members@.take(i as int));
                    assert(out@.push(c).drop_last() =~= out@);
                }
                out.push(c);
                i = i + 1;
            }
            assert(members@.take(members.len() as int) =~= members@);
            Json::Obj(out)
        },
    }
}

/// A tree of the library as `serde_json`'s own value.
fn build_value(j: &Json) -> (r: serde_json::Value)
    ensures
        value_tree(r) == j@,
    decreases j,
{
    match j {
        Json::Null => assemble(Parts::Null),
        Json::Bool(b) => assemble(Parts::Bool(*b)),
        Json::Uint(u) => assemble(Parts::Uint(*u)),
        Json::Int(i) => assemble(Parts::Int(*i)),
        Json::Float(n) => {
            proof {
                use_type_invariant(n);
            }
            value_copy(&n.value)
        },
        Json::Str(s) => assemble(Parts::Str(s.clone())),
        Json::Arr(items) => {
            let mut out: Vec<serde_json::Value> = Vec::new();
            let mut i: usize = 0;
            while i < items.len()
                invariant
                    i <= items.len(),
                    *j == Json::Arr(*items),
                    values_view(out@) == items_view(items@.take(i as int)),
                decreases items.len() - i,
            {
                assert(decreases_to!(*j => j->Arr_0));
                assert(decreases_to!(*items => items@));
                assert(decreases_to!(items@ => items@[i as int]));
                let c = build_value(&items[i]);
                proof {
                    assert(items@.take(i + 1).drop_last() =~= items@.take(i as int));
                    assert(out@.push(c).drop_last() =~= out@);
                }
                out.push(c);
                i = i + 1;
            }
            assert(items@.take(items.len() as int) =~= items@);
            assemble(Parts::Arr(out))
        },
        Json::Obj(entries) => {
            let mut out = map_new();
            let mut i: usize = 0;
            while i < entries.len()
                invariant
                    i <= entries.len(),
                    *j == Json::Obj(*entries),
                    map_tree(out) == entries_view(entries@.take(i as int)),
                decreases entries.len() - i,
            {
                assert(decreases_to!(*j => j->Obj_0));
                assert(decreases_to!(*entries => entries@));
                assert(decreases_to!(entries@ => entries@[i as int]));
                assert(decreases_to!(entries@[i as int] => entries@[i as int].value));
                let c = build_value(&entries[i].value);
                assert(entries@.take(i + 1).drop_last() =~= entries@.take(i as int));
                map_insert(&mut out, entries[i].key.clone(), c);
                i = i + 1;
            }
            assert(entries@.take(entries.len() as int) =~= entries@);
            assemble(Parts::Obj(out))
        },
    }
}

/// The trees of a list of values, in order.
pub open spec fn values_view(items: Seq<serde_json::Value>) -> Seq<JsonView>
    decreases items.len(),
{
    if items.len() == 0 {
        seq![]
    } else {
        values_view(items.drop_last()).push(value_tree(items.last()))
    }
}

/// The members of an object as a map.
pub open spec fn members_view(members: Seq<(&String, &serde_json::Value)>) -> Map<
    Seq<char>,
    JsonView,
>
    decreases members.len(),
{
    if members.len() == 0 {
        map![]
    } else {
        members_view(members.drop_last()).insert(members.last().0@, value_tree(*members.last().1))
    }
}

/// No key stands twice.
pub open spec fn keys_distinct(members: Seq<(&String, &serde_json::Value)>) -> bool {
    forall|i: int, j: int|
        0 <= i < j < members.len() ==> (#[trigger] members[i]).0@ != (#[trigger] members[j]).0@
}

proof fn lemma_values_view(items: Seq<serde_json::Value>)
    ensures
        values_view(items).len() == items.len(),
        forall|i: int|
            0 <= i < items.len() ==> (#[trigger] values_view(items)[i]) == value_tree(items[i]),
    decreases items.len(),
{
    if items.len() > 0 {
        lemma_values_view(items.drop_last());
        assert forall|i: int| 0 <= i < items.len() implies (#[trigger] values_view(items)[i])
            == value_tree(items[i]) by {
            if i < items.len() - 1 {
                assert(items.drop_last()[i] == items[i]);
            }
        }
    }
}

proof fn lemma_members_finite(members: Seq<(&String, &serde_json::Value)>)
    ensures
        members_view(members).dom().finite(),
    decreases members.len(),
{
    if members.len() > 0 {
        lemma_members_finite(members.drop_last());
    }
}

proof fn lemma_members_view(members: Seq<(&String, &serde_json::Value)>, i: int)
    requires
        keys_distinct(members),
        0 <= i < members.len(),
    ensures
        members_view(members).dom().contains(members[i].0@),
        members_view(members)[members[i].0@] == value_tree(*members[i].1),
    decreases members.len(),
{
    if i < members.len() - 1 {
        assert(members.drop_last()[i] == members[i]);
        assert forall|a: int, b: int| 0 <= a < b < members.drop_last().len() implies (
        #[trigger] members.drop_last()[a]).0@ != (#[trigger] members.drop_last()[b]).0@ by {
            assert(members.drop_last()[a] == members[a]);
            assert(members.drop_last()[b] == members[b]);
        }
        lemma_members_view(members.drop_last(), i);
        assert(members[i].0@ != members[members.len() - 1].0@);
    }
}

/// A key under which `serde_json` hides a value of its own: an object that begins
/// with it may be read as something else.
pub open spec fn reserved_key(key: Seq<char>) -> bool {
    key == "$serde_json::private::RawValue"@ || key == "$serde_json::private::Number"@
}

/// A short key is none of those.
pub proof fn lemma_short_key(key: Seq<char>)
    requires
        key.len() < 28,
    ensures
        !reserved_key(key),
{
    reveal_strlit("$serde_json::private::RawValue");
    reveal_strlit("$serde_json::private::Number");
    assert("$serde_json::private::RawValue"@.len() == 30);
    assert("$serde_json::private::Number"@.len() == 28);
}

/// Nothing in the tree is a float, no object has a reserved key, and it nests at most
/// `depth` levels deep: what the printer writes of such a tree, the parser reads back
/// unchanged.
pub open spec fn survives_print(tree: JsonView, depth: nat) -> bool
    decreases depth,
{
    match tree {
        JsonView::Float(_) => false,
        JsonView::Int(i) => i64::MIN <= i <= u64::MAX,
        JsonView::Arr(items) => depth > 0 && forall|i: int|
            0 <= i < items.len() ==> survives_print(#[trigger] items[i], (depth - 1) as nat),
        JsonView::Obj(m) => depth > 0 && forall|k: Seq<char>|
            #![trigger m[k]]
            m.dom().contains(k) ==> !reserved_key(k) && survives_print(m[k], (depth - 1) as nat),
        _ => true,
    }
}

/// One level of a borrowed value.
pub(crate) enum Shape<'a> {
    Null,
    Bool(bool),
    Uint(u64),
    Int(i64),
    Float(&'a serde_json::Number),
    Str(&'a String),
    Arr(&'a Vec<serde_json::Value>),
    Obj(Vec<(&'a String, &'a serde_json::Value)>),
}

/// One level of a value to be put together.
pub(crate) enum Parts {
    Null,
    Bool(bool),
    Uint(u64),
    Int(i64),
    Str(String),
    Arr(Vec<serde_json::Value>),
    Obj(serde_json::Map<String, serde_json::Value>),
}

/// `serde_json::Value`: any JSON document.
#[verifier::external_type_specification]
#[verifier::external_body]
pub struct ExValue(serde_json::Value);

/// `serde_json::Number`: an integer or a finite float.
#[verifier::external_type_specification]
#[verifier::external_body]
pub struct ExNumber(serde_json::Number);

/// `serde_json::Map`: the members of an object.
#[verifier::external_type_specification]
#[verifier::external_body]
#[verifier::reject_recursive_types(K)]
#[verifier::reject_recursive_types(V)]
pub struct ExMap<K, V>(serde_json::Map<K, V>);

/// The tree that a `serde_json::Value` holds.
pub uninterp spec fn value_tree(v: serde_json::Value) -> JsonView;

/// The members that a `serde_json::Map` holds.
pub uninterp spec fn map_tree(m: serde_json::Map<String, serde_json::Value>) -> Map<
    Seq<char>,
    JsonView,
>;

/// What `serde_json::from_str::<Value>` makes of a text: the document, or
/// nothing where it reports an error.
pub uninterp spec fn parsed(text: Seq<char>) -> Option<JsonView>;

/// What the first step of `serde_json`'s stream of documents makes of a text.
pub uninterp spec fn first_parsed(text: Seq<char>) -> Option<JsonView>;

/// What `serde_json::from_str::<Vec<String>>` makes of a text: the strings of the
/// array that it holds, or nothing where it reports an error.
pub uninterp spec fn names_parsed(text: Seq<char>) -> Option<Seq<Seq<char>>>;

/// The compact text that `serde_json` prints for a tree.
pub uninterp spec fn json_text(tree: JsonView) -> Seq<char>;

/// `serde_json::from_str::<Value>`: its result, the error dropped, is the named
/// one and depends on the text alone.
#[verifier::external_body]
fn parse_value(text: &str) -> (r: Option<serde_json::Value>)
    ensures
        match r {
            Some(v) => parsed(text@) == Some(value_tree(v)),
            None => parsed(text@) is None,
        },
{
    serde_json::from_str::<serde_json::Value>(text).ok()
}

/// `serde_json::Deserializer::from_str(..).into_iter::<Value>().next()`: the first
/// document of the stream, the error dropped; it depends on the text alone.
#[verifier::external_body]
fn parse_first_value(text: &str) -> (r: Option<serde_json::Value>)
    ensures
        match r {
            Some(v) => first_parsed(text@) == Some(value_tree(v)),
            None => first_parsed(text@) is None,
        },
{
    match serde_json::Deserializer::from_str(text).into_iter::<serde_json::Value>().next() {
        Some(Ok(v)) => Some(v),
        Some(Err(_)) => None,
        None => None,
    }
}

/// `serde_json::from_str::<Vec<String>>`: its result, the error dropped, is the named
/// one and depends on the text alone.
#[verifier::external_body]
pub(crate) fn parse_names(text: &str) -> (r: Option<Vec<String>>)
    ensures
        match r {
            Some(names) => names_parsed(text@) == Some(crate::text::texts_view(names@)),
            None => names_parsed(text@) is None,
        },
{
    serde_json::from_str::<Vec<String>>(text).ok()
}

/// The variants of `serde_json::Value`, with `Number::as_u64` and
/// `Number::as_i64` to tell the integers from the floats. The members of an
/// object come out of its map once each.
#[verifier::external_body]
fn shape(v: &serde_json::Value) -> (r: Shape<'_>)
    ensures
        match r {
            Shape::Null => value_tree(*v) == JsonView::Null,
            Shape::Bool(b) => value_tree(*v) == JsonView::Bool(b),
            Shape::Uint(u) => value_tree(*v) == JsonView::Int(u as int),
            Shape::Int(i) => value_tree(*v) == JsonView::Int(i as int),
            Shape::Float(n) => value_tree(*v) == JsonView::Float(*n),
            Shape::Str(s) => value_tree(*v) == JsonView::Str(s@),
            Shape::Arr(items) => value_tree(*v) == JsonView::Arr(values_view(items@)),
            Shape::Obj(members) => value_tree(*v) == JsonView::Obj(members_view(members@))
                && keys_distinct(members@),
        },
{
    match v {
        serde_json::Value::Null => Shape::Null,
        serde_json::Value::Bool(b) => Shape::Bool(*b),
        serde_json::Value::Number(n) => match (n.as_u64(), n.as_i64()) {
            (Some(u), _) => Shape::Uint(u),
            (None, Some(i)) => Shape::Int(i),
            (None, None) => Shape::Float(n),
        },
        serde_json::Value::String(s) => Shape::Str(s),
        serde_json::Value::Array(items) => Shape::Arr(items),
        serde_json::Value::Object(members) => Shape::Obj(members.iter().collect()),
    }
}

/// The constructors of `serde_json::Value`, with `Value::from` for the integers.
#[verifier::external_body]
fn assemble(p: Parts) -> (r: serde_json::Value)
    ensures
        match p {
            Parts::Null => value_tree(r) == JsonView::Null,
            Parts::Bool(b) => value_tree(r) == JsonView::Bool(b),
            Parts::Uint(u) => value_tree(r) == JsonView::Int(u as int),
            Parts::Int(i) => value_tree(r) == JsonView::Int(i as int),
            Parts::Str(s) => value_tree(r) == JsonView::Str(s@),
            Parts::Arr(items) => value_tree(r) == JsonView::Arr(values_view(items@)),
            Parts::Obj(members) => value_tree(r) == JsonView::Obj(map_tree(members)),
        },
{
    match p {
        Parts::Null => serde_json::Value::Null,
        Parts::Bool(b) => serde_json::Value::Bool(b),
        Parts::Uint(u) => serde_json::Value::from(u),
        Parts::Int(i) => serde_json::Value::from(i),
        Parts::Str(s) => serde_json::Value::String(s),
        Parts::Arr(items) => serde_json::Value::Array(items),
        Parts::Obj(members) => serde_json::Value::Object(members),
    }
}

/// `serde_json::Map::new`: an object without members.
#[verifier::external_body]
fn map_new() -> (r: serde_json::Map<String, serde_json::Value>)
    ensures
        map_tree(r) =~= map![],
{
    serde_json::Map::new()
}

/// `serde_json::Map::insert`: the key now has the value, whatever it had before.
#[verifier::external_body]
fn map_insert(
    m: &mut serde_json::Map<String, serde_json::Value>,
    key: String,
    value: serde_json::Value,
)
    ensures
        map_tree(*final(m)) == map_tree(*old(m)).insert(key@, value_tree(value)),
{
    m.insert(key, value);
}

/// `serde_json::Value`'s `clone`: a value with the same tree.
#[verifier::external_body]
fn value_copy(v: &serde_json::Value) -> (r: serde_json::Value)
    ensures
        value_tree(r) == value_tree(*v),
{
    v.clone()
}

/// `serde_json::Value`'s `to_string`: the compact text, which depends on the tree
/// alone. Of a tree without floats and reserved keys that nests no deeper than the
/// parser's limit, the text parses back to the tree; a float may come back rounded,
/// an object with a reserved key may be taken for another value or refused, and
/// deeper text is refused.
#[verifier::external_body]
fn value_text(v: &serde_json::Value) -> (r: String)
    ensures
        r@ == json_text(value_tree(*v)),
        survives_print(value_tree(*v), 127) ==> parsed(r@) == Some(value_tree(*v)),
{
    v.to_string()
}

} // verus!
