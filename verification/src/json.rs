//! JSON documents: their mathematical model and the operations on them.
use crate::text::same;
use vstd::prelude::*;

verus! {

/// A JSON number. Integers keep their value; every other number keeps the
/// decimal text by which it is written.
#[derive(Debug, PartialEq)]
pub enum Number {
    Unsigned(u64),
    Negative(i64),
    Decimal(String),
}

/// A JSON document. An object lists its fields in order; where a name occurs
/// twice, the first field of that name is the one that is read.
#[derive(Debug, PartialEq)]
pub enum Json {
    Null,
    Bool(bool),
    Number(Number),
    Text(String),
    Array(Vec<Json>),
    Object(Vec<(String, Json)>),
}

/// What a [`Number`] stands for.
pub enum NumberView {
    Unsigned(u64),
    Negative(i64),
    Decimal(Seq<char>),
}

/// What a [`Json`] document stands for.
pub enum JsonView {
    Null,
    Bool(bool),
    Number(NumberView),
    Text(Seq<char>),
    Array(Seq<JsonView>),
    Object(Seq<(Seq<char>, JsonView)>),
}

impl View for Number {
    type V = NumberView;

    open spec fn view(&self) -> NumberView {
        match self {
            Number::Unsigned(n) => NumberView::Unsigned(*n),
            Number::Negative(n) => NumberView::Negative(*n),
            Number::Decimal(s) => NumberView::Decimal(s@),
        }
    }
}

/// The model of `json`, field by field and element by element.
pub open spec fn json_view(json: Json) -> JsonView
    decreases json,
{
    match json {
        Json::Null => JsonView::Null,
        Json::Bool(b) => JsonView::Bool(b),
        Json::Number(n) => JsonView::Number(n@),
        Json::Text(s) => JsonView::Text(s@),
        Json::Array(items) => JsonView::Array(
            Seq::new(
                items@.len(),
                |i: int|
                    if 0 <= i < items@.len() {
                        json_view(items@[i])
                    } else {
                        JsonView::Null
                    },
            ),
        ),
        Json::Object(fields) => JsonView::Object(
            Seq::new(
                fields@.len(),
                |i: int|
                    if 0 <= i < fields@.len() {
                        (fields@[i].0@, json_view(fields@[i].1))
                    } else {
                        (Seq::empty(), JsonView::Null)
                    },
            ),
        ),
    }
}

impl View for Json {
    type V = JsonView;

    open spec fn view(&self) -> JsonView {
        json_view(*self)
    }
}

/// `key` names field `i` of `fields` and no field before it.
pub open spec fn first_named(fields: Seq<(Seq<char>, JsonView)>, key: Seq<char>, i: int) -> bool {
    &&& 0 <= i < fields.len()
    &&& fields[i].0 == key
    &&& forall|j: int| 0 <= j < i ==> (#[trigger] fields[j]).0 != key
}

/// Some field is named `key`.
pub open spec fn named(fields: Seq<(Seq<char>, JsonView)>, key: Seq<char>) -> bool {
    exists|i: int| first_named(fields, key, i)
}

/// The index of the first field that is named `key`.
pub open spec fn index_named(fields: Seq<(Seq<char>, JsonView)>, key: Seq<char>) -> int {
    choose|i: int| first_named(fields, key, i)
}

/// The object without fields.
pub open spec fn object() -> JsonView {
    JsonView::Object(Seq::empty())
}

/// The array without elements.
pub open spec fn list() -> JsonView {
    JsonView::Array(Seq::empty())
}

impl JsonView {
    /// The field `key` of an object.
    pub open spec fn get(self, key: Seq<char>) -> Option<JsonView> {
        match self {
            JsonView::Object(fields) if named(fields, key) => Some(
                fields[index_named(fields, key)].1,
            ),
            _ => None,
        }
    }

    /// The field `key`, or null where there is none.
    pub open spec fn field(self, key: Seq<char>) -> JsonView {
        match self.get(key) {
            Some(value) => value,
            None => JsonView::Null,
        }
    }

    /// The document with its field `key` set. Null becomes an object; a
    /// document that is neither null nor an object stays as it is.
    pub open spec fn with(self, key: Seq<char>, value: JsonView) -> JsonView {
        match self {
            JsonView::Object(fields) => if named(fields, key) {
                JsonView::Object(fields.update(index_named(fields, key), (key, value)))
            } else {
                JsonView::Object(fields.push((key, value)))
            },
            JsonView::Null => JsonView::Object(seq![(key, value)]),
            _ => self,
        }
    }

    /// The object with one more field behind those that it has.
    pub open spec fn entry(self, key: Seq<char>, value: JsonView) -> JsonView {
        match self {
            JsonView::Object(fields) => JsonView::Object(fields.push((key, value))),
            _ => self,
        }
    }

    /// The array with one more element behind those that it has.
    pub open spec fn item(self, value: JsonView) -> JsonView {
        match self {
            JsonView::Array(items) => JsonView::Array(items.push(value)),
            _ => self,
        }
    }

    /// The document without its field `key`.
    pub open spec fn without(self, key: Seq<char>) -> JsonView {
        match self {
            JsonView::Object(fields) if named(fields, key) => JsonView::Object(
                fields.remove(index_named(fields, key)),
            ),
            _ => self,
        }
    }

    /// The unsigned integer that the document is.
    pub open spec fn unsigned(self) -> Option<u64> {
        match self {
            JsonView::Number(NumberView::Unsigned(n)) => Some(n),
            _ => None,
        }
    }

    /// The signed integer that the document is.
    pub open spec fn signed(self) -> Option<i64> {
        match self {
            JsonView::Number(NumberView::Unsigned(n)) if n <= i64::MAX => Some(n as i64),
            JsonView::Number(NumberView::Negative(n)) => Some(n),
            _ => None,
        }
    }

    /// The text that the document is.
    pub open spec fn text(self) -> Option<Seq<char>> {
        match self {
            JsonView::Text(s) => Some(s),
            _ => None,
        }
    }

    /// The elements of an array; none of any other document.
    pub open spec fn elements(self) -> Seq<JsonView> {
        match self {
            JsonView::Array(items) => items,
            _ => Seq::empty(),
        }
    }
}

/// The document that stands for a text or its absence.
pub open spec fn optional_text(value: Option<Seq<char>>) -> JsonView {
    match value {
        Some(s) => JsonView::Text(s),
        None => JsonView::Null,
    }
}

/// The document that stands for a signed integer.
pub open spec fn signed_number(n: int) -> JsonView {
    if n >= 0 {
        JsonView::Number(NumberView::Unsigned(n as u64))
    } else {
        JsonView::Number(NumberView::Negative(n as i64))
    }
}

/// The first field of a name is unique.
pub proof fn lemma_first_named(fields: Seq<(Seq<char>, JsonView)>, key: Seq<char>, i: int)
    requires
        first_named(fields, key, i),
    ensures
        named(fields, key),
        index_named(fields, key) == i,
{
    let k = index_named(fields, key);
    assert(first_named(fields, key, k));
    if k < i {
        assert(fields[k].0 != key);
    } else if i < k {
        assert(fields[i].0 != key);
    }
}

/// A name that some field has is the name of a first such field.
pub proof fn lemma_named(fields: Seq<(Seq<char>, JsonView)>, key: Seq<char>, i: int)
    requires
        0 <= i < fields.len(),
        fields[i].0 == key,
    ensures
        named(fields, key),
    decreases i,
{
    if exists|j: int| 0 <= j < i && (#[trigger] fields[j]).0 == key {
        let j = choose|j: int| 0 <= j < i && (#[trigger] fields[j]).0 == key;
        lemma_named(fields, key, j);
    } else {
        assert(first_named(fields, key, i));
    }
}

/// To take a field out leaves every other field as it was.
pub proof fn lemma_without_get(json: JsonView, key: Seq<char>, other: Seq<char>)
    requires
        key != other,
    ensures
        json.without(key).get(other) == json.get(other),
{
    match json {
        JsonView::Object(fields) => {
            if named(fields, key) {
                let k = index_named(fields, key);
                let after = fields.remove(k);
                assert(first_named(fields, key, k));
                assert forall|j: int| 0 <= j < after.len() implies #[trigger] after[j] == if j < k {
                    fields[j]
                } else {
                    fields[j + 1]
                } by {}
                if named(fields, other) {
                    let i = index_named(fields, other);
                    assert(first_named(fields, other, i));
                    let at = if i < k {
                        i
                    } else {
                        i - 1
                    };
                    assert(first_named(after, other, at));
                    lemma_first_named(after, other, at);
                } else if named(after, other) {
                    let j = index_named(after, other);
                    assert(first_named(after, other, j));
                    let i = if j < k {
                        j
                    } else {
                        j + 1
                    };
                    lemma_named(fields, other, i);
                }
            }
        },
        _ => {},
    }
}

/// What is read of an object is what was last written to it, and a write of
/// one field leaves every other field as it was.
pub broadcast proof fn lemma_with_get(json: JsonView, key: Seq<char>, value: JsonView, other: Seq<char>)
    requires
        json is Object,
    ensures
        #[trigger] json.with(key, value).get(other) == if other == key {
            Some(value)
        } else {
            json.get(other)
        },
{
    let fields = json->Object_0;
    let after = json.with(key, value)->Object_0;
    if named(fields, key) {
        let k = index_named(fields, key);
        assert(first_named(fields, key, k));
        if other == key {
            assert(first_named(after, key, k));
            lemma_first_named(after, key, k);
        } else if named(fields, other) {
            let i = index_named(fields, other);
            assert(first_named(fields, other, i));
            assert(first_named(after, other, i));
            lemma_first_named(after, other, i);
        } else if named(after, other) {
            let i = index_named(after, other);
            assert(first_named(after, other, i));
            assert(fields[i].0 == other);
            lemma_named(fields, other, i);
        }
    } else {
        if other == key {
            assert forall|j: int| 0 <= j < fields.len() implies (#[trigger] after[j]).0 != key by {
                if fields[j].0 == key {
                    lemma_named(fields, key, j);
                }
            }
            assert(first_named(after, key, fields.len() as int));
            lemma_first_named(after, key, fields.len() as int);
        } else if named(fields, other) {
            let i = index_named(fields, other);
            assert(first_named(fields, other, i));
            assert(first_named(after, other, i));
            lemma_first_named(after, other, i);
        } else if named(after, other) {
            let i = index_named(after, other);
            assert(first_named(after, other, i));
            assert(fields[i].0 == other);
            lemma_named(fields, other, i);
        }
    }
}

/// The object without fields has no field of any name.
pub broadcast proof fn lemma_object_get(key: Seq<char>)
    ensures
        #[trigger] object().get(key) is None,
{
    if named(Seq::empty(), key) {
        assert(first_named(Seq::empty(), key, index_named(Seq::empty(), key)));
    }
}

/// What is read of an object with one more field: the new field where there was
/// none of its name, and what was read before under every other name.
pub broadcast proof fn lemma_entry_get(json: JsonView, key: Seq<char>, value: JsonView, other: Seq<char>)
    requires
        json is Object,
    ensures
        #[trigger] json.entry(key, value).get(other) == match json.get(other) {
            Some(found) => Some(found),
            None => if other == key {
                Some(value)
            } else {
                None
            },
        },
{
    let fields = json->Object_0;
    let after = json.entry(key, value)->Object_0;
    if named(fields, other) {
        let i = index_named(fields, other);
        assert(first_named(fields, other, i));
        assert(first_named(after, other, i));
        lemma_first_named(after, other, i);
    } else if other == key {
        let n = fields.len() as int;
        assert forall|j: int| 0 <= j < n implies (#[trigger] after[j]).0 != key by {
            if fields[j].0 == key {
                lemma_named(fields, key, j);
            }
        }
        assert(first_named(after, key, n));
        lemma_first_named(after, key, n);
    } else if named(after, other) {
        let i = index_named(after, other);
        assert(first_named(after, other, i));
        assert(fields[i].0 == other);
        lemma_named(fields, other, i);
    }
}

/// One more field leaves an object.
pub broadcast proof fn lemma_entry_object(json: JsonView, key: Seq<char>, value: JsonView)
    requires
        json is Object,
    ensures
        #[trigger] json.entry(key, value) is Object,
{
}

/// How objects are read.
pub broadcast group group_object_reads {
    lemma_object_get,
    lemma_entry_get,
    lemma_entry_object,
    lemma_with_get,
    lemma_with_object,
}

/// Setting a field of an object leaves an object.
pub broadcast proof fn lemma_with_object(json: JsonView, key: Seq<char>, value: JsonView)
    requires
        json is Object,
    ensures
        #[trigger] json.with(key, value) is Object,
{
}

/// The index of the first of `fields` that is named `key`.
fn find(fields: &Vec<(String, Json)>, key: &str) -> (found: Option<usize>)
    ensures
        match found {
            Some(i) => i < fields@.len() && first_named(
                json_view(Json::Object(*fields))->Object_0,
                key@,
                i as int,
            ),
            None => !named(json_view(Json::Object(*fields))->Object_0, key@),
        },
{
    let ghost model = json_view(Json::Object(*fields))->Object_0;
    let mut i: usize = 0;
    while i < fields.len()
        invariant
            i <= fields@.len(),
            model == json_view(Json::Object(*fields))->Object_0,
            forall|j: int| 0 <= j < i ==> (#[trigger] model[j]).0 != key@,
        decreases fields@.len() - i,
    {
        assert(model[i as int] == (fields@[i as int].0@, json_view(fields@[i as int].1)));
        if same(fields[i].0.as_str(), key) {
            return Some(i);
        }
        i += 1;
    }
    proof {
        if named(model, key@) {
            assert(first_named(model, key@, index_named(model, key@)));
        }
    }
    None
}

impl Json {
    /// The field `key` of an object.
    pub fn get<'a>(&'a self, key: &str) -> (value: Option<&'a Json>)
        ensures
            match value {
                Some(v) => self@.get(key@) == Some(v@),
                None => self@.get(key@) is None,
            },
    {
        match self {
            Json::Object(fields) => match find(fields, key) {
                Some(i) => {
                    proof {
                        lemma_first_named(self@->Object_0, key@, i as int);
                    }
                    Some(&fields[i].1)
                },
                None => None,
            },
            _ => None,
        }
    }

    /// The field `key`, or null where there is none.
    pub fn field<'a>(&'a self, key: &str) -> (value: &'a Json)
        ensures
            value@ == self@.field(key@),
    {
        match self.get(key) {
            Some(value) => value,
            None => &Json::Null,
        }
    }

    /// Set the field `key`. Null becomes an object; a document that is neither
    /// null nor an object stays as it is.
    pub fn set(&mut self, key: &str, value: Json)
        ensures
            final(self)@ == old(self)@.with(key@, value@),
    {
        let ghost before = self@;
        match self {
            Json::Object(fields) => {
                let ghost model = before->Object_0;
                match find(fields, key) {
                    Some(i) => {
                        proof {
                            lemma_first_named(model, key@, i as int);
                        }
                        fields.set(i, (key.to_owned(), value));
                        assert(json_view(Json::Object(*fields))->Object_0 =~= model.update(
                            i as int,
                            (key@, value@),
                        ));
                    },
                    None => {
                        fields.push((key.to_owned(), value));
                        assert(json_view(Json::Object(*fields))->Object_0 =~= model.push(
                            (key@, value@),
                        ));
                    },
                }
            },
            Json::Null => {
                let fields: Vec<(String, Json)> = vec![(key.to_owned(), value)];
                assert(json_view(Json::Object(fields))->Object_0 =~= seq![(key@, value@)]);
                *self = Json::Object(fields);
            },
            _ => {},
        }
    }

    /// Remove the field `key`.
    pub fn remove(&mut self, key: &str)
        ensures
            final(self)@ == old(self)@.without(key@),
    {
        let ghost before = self@;
        match self {
            Json::Object(fields) => {
                let ghost model = before->Object_0;
                match find(fields, key) {
                    Some(i) => {
                        proof {
                            lemma_first_named(model, key@, i as int);
                        }
                        let _ = fields.remove(i);
                        assert(json_view(Json::Object(*fields))->Object_0 =~= model.remove(i as int));
                    },
                    None => {},
                }
            },
            _ => {},
        }
    }

    /// The text that the document is.
    pub fn as_text<'a>(&'a self) -> (value: Option<&'a String>)
        ensures
            match value {
                Some(s) => self@.text() == Some(s@),
                None => self@.text() is None,
            },
    {
        match self {
            Json::Text(s) => Some(s),
            _ => None,
        }
    }

    /// Whether the document is the text `expected`.
    pub fn is_text(&self, expected: &str) -> (result: bool)
        ensures
            result == (self@ == JsonView::Text(expected@)),
    {
        match self {
            Json::Text(s) => same(s.as_str(), expected),
            _ => false,
        }
    }

    /// Whether the document is null.
    pub fn is_null(&self) -> (result: bool)
        ensures
            result == (self@ == JsonView::Null),
    {
        match self {
            Json::Null => true,
            _ => false,
        }
    }

    /// Whether the document is false.
    pub fn is_false(&self) -> (result: bool)
        ensures
            result == (self@ == JsonView::Bool(false)),
    {
        match self {
            Json::Bool(b) => !*b,
            _ => false,
        }
    }

    /// The unsigned integer that the document is.
    pub fn as_unsigned(&self) -> (value: Option<u64>)
        ensures
            value == self@.unsigned(),
    {
        match self {
            Json::Number(Number::Unsigned(n)) => Some(*n),
            _ => None,
        }
    }

    /// The signed integer that the document is.
    pub fn as_signed(&self) -> (value: Option<i64>)
        ensures
            value == self@.signed(),
    {
        match self {
            Json::Number(Number::Unsigned(n)) => if *n <= i64::MAX as u64 {
                Some(*n as i64)
            } else {
                None
            },
            Json::Number(Number::Negative(n)) => Some(*n),
            _ => None,
        }
    }

    /// The document `value` as a number.
    pub fn unsigned(value: u64) -> (json: Json)
        ensures
            json@ == JsonView::Number(NumberView::Unsigned(value)),
    {
        Json::Number(Number::Unsigned(value))
    }

    /// The document `value` as a number.
    pub fn signed(value: i64) -> (json: Json)
        ensures
            json@ == signed_number(value as int),
    {
        if value >= 0 {
            Json::Number(Number::Unsigned(value as u64))
        } else {
            Json::Number(Number::Negative(value))
        }
    }

    /// The document that is the text `value`.
    pub fn string(value: &str) -> (json: Json)
        ensures
            json@ == JsonView::Text(value@),
    {
        Json::Text(value.to_owned())
    }

    /// The document that stands for a text or its absence.
    pub fn optional(value: &Option<String>) -> (json: Json)
        ensures
            json@ == optional_text(match *value {
                Some(s) => Some(s@),
                None => None,
            }),
    {
        match value {
            Some(s) => Json::string(s.as_str()),
            None => Json::Null,
        }
    }

    /// The array of `items`.
    pub fn array(items: Vec<Json>) -> (json: Json)
        ensures
            json@ == JsonView::Array(items@.map_values(|item: Json| item@)),
    {
        let json = Json::Array(items);
        assert(json@->Array_0 =~= items@.map_values(|item: Json| item@));
        json
    }

    /// The object without fields.
    pub fn object() -> (json: Json)
        ensures
            json@ == object(),
    {
        let json = Json::Object(Vec::new());
        assert(json@->Object_0 =~= Seq::empty());
        json
    }

    /// The object with one more field behind those that it has.
    pub fn entry(self, key: &str, value: Json) -> (json: Json)
        ensures
            json@ == self@.entry(key@, value@),
    {
        match self {
            Json::Object(fields) => {
                let ghost model = self@->Object_0;
                let mut fields = fields;
                fields.push((key.to_owned(), value));
                let json = Json::Object(fields);
                assert(json@->Object_0 =~= model.push((key@, value@)));
                json
            },
            other => other,
        }
    }

    /// The array without elements.
    pub fn list() -> (json: Json)
        ensures
            json@ == list(),
    {
        let json = Json::Array(Vec::new());
        assert(json@->Array_0 =~= Seq::empty());
        json
    }

    /// The array with one more element behind those that it has.
    pub fn item(self, value: Json) -> (json: Json)
        ensures
            json@ == self@.item(value@),
    {
        match self {
            Json::Array(items) => {
                let ghost model = self@->Array_0;
                let mut items = items;
                items.push(value);
                let json = Json::Array(items);
                assert(json@->Array_0 =~= model.push(value@));
                json
            },
            other => other,
        }
    }

    /// An equal document.
    pub fn copy(&self) -> (json: Json)
        ensures
            json@ == self@,
        decreases self,
    {
        match self {
            Json::Null => Json::Null,
            Json::Bool(b) => Json::Bool(*b),
            Json::Number(n) => Json::Number(
                match n {
                    Number::Unsigned(n) => Number::Unsigned(*n),
                    Number::Negative(n) => Number::Negative(*n),
                    Number::Decimal(s) => Number::Decimal(s.clone()),
                },
            ),
            Json::Text(s) => Json::Text(s.clone()),
            Json::Array(items) => {
                let mut copies: Vec<Json> = Vec::new();
                let mut i: usize = 0;
                while i < items.len()
                    invariant
                        *self == Json::Array(*items),
                        i == copies@.len(),
                        i <= items@.len(),
                        forall|j: int|
                            0 <= j < i ==> json_view(#[trigger] copies@[j]) == json_view(items@[j]),
                    decreases items@.len() - i,
                {
                    assert(decreases_to!(*self => self->Array_0));
                    assert(decreases_to!(*items => items@));
                    assert(decreases_to!(items@ => items@[i as int]));
                    let item = items[i].copy();
                    copies.push(item);
                    i += 1;
                }
                let json = Json::Array(copies);
                assert(json@->Array_0 =~= self@->Array_0);
                json
            },
            Json::Object(fields) => {
                let mut copies: Vec<(String, Json)> = Vec::new();
                let mut i: usize = 0;
                while i < fields.len()
                    invariant
                        *self == Json::Object(*fields),
                        i == copies@.len(),
                        i <= fields@.len(),
                        forall|j: int|
                            0 <= j < i ==> (#[trigger] copies@[j]).0@ == fields@[j].0@ && json_view(
                                copies@[j].1,
                            ) == json_view(fields@[j].1),
                    decreases fields@.len() - i,
                {
                    assert(decreases_to!(*self => self->Object_0));
                    assert(decreases_to!(*fields => fields@));
                    assert(decreases_to!(fields@ => fields@[i as int]));
                    assert(decreases_to!(fields@[i as int] => fields@[i as int].1));
                    let value = fields[i].1.copy();
                    copies.push((fields[i].0.clone(), value));
                    i += 1;
                }
                let json = Json::Object(copies);
                assert(json@->Object_0 =~= self@->Object_0);
                json
            },
        }
    }
}

} // verus!
