//! JSON documents as plain data, and the calls into `serde_json` that read and
//! write them.

use crate::text::{chars_of, decimal_text, same_text, signed_decimal, signed_decimal_text};
use vstd::prelude::*;

verus! {

/// A JSON number, as far as this library reads one.
#[derive(Debug)]
pub struct JsonNumber {
    /// The number as it is written down.
    pub text: String,
    /// The number as a `u64`: itself where it is one, otherwise cut off towards
    /// zero and brought into range.
    pub whole: Option<u64>,
}

/// A JSON document. Where an object names a field twice, the first one counts.
#[derive(Debug)]
pub enum Json {
    Null,
    Bool(bool),
    Number(JsonNumber),
    Str(String),
    Array(Vec<Json>),
    Object(Vec<(String, Json)>),
}

/// What a [`JsonNumber`] says.
pub ghost struct NumberView {
    pub text: Seq<char>,
    pub whole: Option<u64>,
}

/// What a [`Json`] says: an object is a map from names to values, in no order.
pub ghost enum JsonView {
    Null,
    Bool(bool),
    Number(NumberView),
    Str(Seq<char>),
    Array(Seq<JsonView>),
    Object(Map<Seq<char>, JsonView>),
}

pub open spec fn number_view(n: JsonNumber) -> NumberView {
    NumberView { text: n.text@, whole: n.whole }
}

pub open spec fn json_view(j: Json) -> JsonView
    decreases j,
{
    match j {
        Json::Null => JsonView::Null,
        Json::Bool(b) => JsonView::Bool(b),
        Json::Number(n) => JsonView::Number(number_view(n)),
        Json::Str(s) => JsonView::Str(s@),
        Json::Array(items) => JsonView::Array(array_view(items@)),
        Json::Object(fields) => JsonView::Object(fields_view(fields@)),
    }
}

pub open spec fn array_view(items: Seq<Json>) -> Seq<JsonView>
    decreases items,
{
    Seq::new(
        items.len(),
        |i: int|
            if 0 <= i < items.len() {
                json_view(items[i])
            } else {
                JsonView::Null
            },
    )
}

pub open spec fn fields_view(fields: Seq<(String, Json)>) -> Map<Seq<char>, JsonView>
    decreases fields,
{
    if fields.len() == 0 {
        Map::empty()
    } else {
        fields_view(fields.subrange(1, fields.len() as int)).insert(
            fields[0].0@,
            json_view(fields[0].1),
        )
    }
}

impl View for Json {
    type V = JsonView;

    open spec fn view(&self) -> JsonView {
        json_view(*self)
    }
}

impl JsonView {
    /// The value of the field `key`, where this is an object that has it.
    pub open spec fn field(self, key: Seq<char>) -> Option<JsonView> {
        match self {
            JsonView::Object(fields) => if fields.dom().contains(key) {
                Some(fields[key])
            } else {
                None
            },
            _ => None,
        }
    }

    /// The characters, where this is a string.
    pub open spec fn text(self) -> Option<Seq<char>> {
        match self {
            JsonView::Str(s) => Some(s),
            _ => None,
        }
    }

    /// The elements, where this is an array.
    pub open spec fn items(self) -> Option<Seq<JsonView>> {
        match self {
            JsonView::Array(items) => Some(items),
            _ => None,
        }
    }

    /// The truth value, where this is one.
    pub open spec fn flag(self) -> Option<bool> {
        match self {
            JsonView::Bool(b) => Some(b),
            _ => None,
        }
    }

    /// The number as a `u64`, where this is a number.
    pub open spec fn whole(self) -> Option<u64> {
        match self {
            JsonView::Number(n) => n.whole,
            _ => None,
        }
    }

    /// Whether this is a number above zero: written neither as zero nor with a sign.
    pub open spec fn above_zero(self) -> bool {
        match self {
            JsonView::Number(n) => n.text.len() > 0 && n.text[0] != '-' && n.text != "0"@ && n.text
                != "0.0"@,
            _ => false,
        }
    }

    /// The characters of the field `key`, where this is an object with such a
    /// string field.
    pub open spec fn field_text(self, key: Seq<char>) -> Option<Seq<char>> {
        match self.field(key) {
            Some(v) => v.text(),
            None => None,
        }
    }

    /// The elements of the field `key`, where this is an object with such an
    /// array field.
    pub open spec fn field_items(self, key: Seq<char>) -> Option<Seq<JsonView>> {
        match self.field(key) {
            Some(v) => v.items(),
            None => None,
        }
    }

    /// The truth value of the field `key`, where this is an object with such a
    /// field.
    pub open spec fn field_flag(self, key: Seq<char>) -> Option<bool> {
        match self.field(key) {
            Some(v) => v.flag(),
            None => None,
        }
    }
}

/// Whether `key` stands first at position `i` of `fields`.
pub open spec fn first_field(fields: Seq<(String, Json)>, key: Seq<char>, i: int) -> bool {
    &&& 0 <= i < fields.len()
    &&& fields[i].0@ == key
    &&& forall|j: int| 0 <= j < i ==> (#[trigger] fields[j]).0@ != key
}

/// The first field of a name is the one that counts.
pub proof fn lemma_first_field(fields: Seq<(String, Json)>, key: Seq<char>, i: int)
    requires
        first_field(fields, key, i),
    ensures
        fields_view(fields).dom().contains(key),
        fields_view(fields)[key] == fields[i].1@,
    decreases fields.len(),
{
    if i > 0 {
        let rest = fields.subrange(1, fields.len() as int);
        assert(rest[i - 1] == fields[i]);
        assert forall|j: int| 0 <= j < i - 1 implies (#[trigger] rest[j]).0@ != key by {
            assert(rest[j] == fields[j + 1]);
        }
        lemma_first_field(rest, key, i - 1);
        assert(fields[0].0@ != key);
    }
}

/// A name that no field has is not in the object.
pub proof fn lemma_no_field(fields: Seq<(String, Json)>, key: Seq<char>)
    requires
        forall|j: int| 0 <= j < fields.len() ==> (#[trigger] fields[j]).0@ != key,
    ensures
        !fields_view(fields).dom().contains(key),
    decreases fields.len(),
{
    if fields.len() > 0 {
        let rest = fields.subrange(1, fields.len() as int);
        assert forall|j: int| 0 <= j < rest.len() implies (#[trigger] rest[j]).0@ != key by {
            assert(rest[j] == fields[j + 1]);
        }
        lemma_no_field(rest, key);
        assert(fields[0].0@ != key);
    }
}

/// Taking fields out by their names takes those names out of the object.
pub proof fn lemma_fields_without(
    fields: Seq<(String, Json)>,
    names: Set<Seq<char>>,
    keep: spec_fn((String, Json)) -> bool,
)
    requires
        forall|f: (String, Json)| keep(f) == !names.contains(f.0@),
    ensures
        fields_view(fields.filter(keep)) == fields_view(fields).remove_keys(names),
    decreases fields.len(),
{
    if fields.len() == 0 {
        reveal(Seq::filter);
        assert(fields.filter(keep) =~= Seq::empty());
        assert(fields_view(fields).remove_keys(names) =~= Map::empty());
    } else {
        let first = fields[0];
        let rest = fields.subrange(1, fields.len() as int);
        assert(fields =~= seq![first] + rest);
        rest.lemma_filter_prepend(first, keep);
        lemma_fields_without(rest, names, keep);
        fields_view(rest).lemma_map_remove_keys_insert(names, first.0@, first.1@);
        let kept = fields.filter(keep);
        if keep(first) {
            assert(kept.subrange(1, kept.len() as int) =~= rest.filter(keep));
        } else {
            assert(kept =~= rest.filter(keep));
        }
    }
}

/// A further field under a new name adds that name to the object.
pub proof fn lemma_fields_push(fields: Seq<(String, Json)>, name: String, value: Json)
    requires
        !fields_view(fields).dom().contains(name@),
    ensures
        fields_view(fields.push((name, value))) == fields_view(fields).insert(name@, value@),
    decreases fields.len(),
{
    let longer = fields.push((name, value));
    if fields.len() == 0 {
        assert(longer.subrange(1, longer.len() as int) =~= Seq::empty());
        assert(fields_view(longer.subrange(1, longer.len() as int)) == Map::<
            Seq<char>,
            JsonView,
        >::empty());
    } else {
        let rest = fields.subrange(1, fields.len() as int);
        assert(longer.subrange(1, longer.len() as int) =~= rest.push((name, value)));
        lemma_fields_push(rest, name, value);
        assert(fields_view(longer) =~= fields_view(fields).insert(name@, value@));
    }
}

/// A further field under a name that is taken changes nothing.
pub proof fn lemma_fields_push_taken(fields: Seq<(String, Json)>, name: String, value: Json)
    requires
        fields_view(fields).dom().contains(name@),
    ensures
        fields_view(fields.push((name, value))) == fields_view(fields),
    decreases fields.len(),
{
    let longer = fields.push((name, value));
    if fields.len() > 0 {
        let rest = fields.subrange(1, fields.len() as int);
        assert(longer.subrange(1, longer.len() as int) =~= rest.push((name, value)));
        if fields_view(rest).dom().contains(name@) {
            lemma_fields_push_taken(rest, name, value);
        } else {
            lemma_fields_push(rest, name, value);
        }
        assert(fields_view(longer) =~= fields_view(fields));
    }
}

/// Another value for the first field of a name replaces that name's value.
pub proof fn lemma_fields_update(fields: Seq<(String, Json)>, i: int, name: String, value: Json)
    requires
        first_field(fields, name@, i),
    ensures
        fields_view(fields.update(i, (name, value))) == fields_view(fields).insert(name@, value@),
    decreases fields.len(),
{
    let changed = fields.update(i, (name, value));
    let rest = fields.subrange(1, fields.len() as int);
    if i == 0 {
        assert(changed.subrange(1, changed.len() as int) =~= rest);
        assert(fields_view(changed) =~= fields_view(fields).insert(name@, value@));
    } else {
        assert(changed.subrange(1, changed.len() as int) =~= rest.update(i - 1, (name, value)));
        assert(rest[i - 1] == fields[i]);
        assert forall|j: int| 0 <= j < i - 1 implies (#[trigger] rest[j]).0@ != name@ by {
            assert(rest[j] == fields[j + 1]);
        }
        lemma_fields_update(rest, i - 1, name, value);
        assert(fields[0].0@ != name@);
        assert(fields_view(changed) =~= fields_view(fields).insert(name@, value@));
    }
}

/// Where the field `name` stands first among `fields`.
pub fn position_of(fields: &Vec<(String, Json)>, name: &str) -> (out: Option<usize>)
    ensures
        match out {
            Some(i) => first_field(fields@, name@, i as int),
            None => !fields_view(fields@).dom().contains(name@),
        },
{
    let mut i: usize = 0;
    while i < fields.len()
        invariant
            i <= fields@.len(),
            forall|j: int| 0 <= j < i ==> (#[trigger] fields@[j]).0@ != name@,
        decreases fields.len() - i,
    {
        if same_text(fields[i].0.as_str(), name) {
            return Some(i);
        }
        i = i + 1;
    }
    proof {
        lemma_no_field(fields@, name@);
    }
    None
}

/// The value of the field `name` among `fields`.
pub fn field_of<'a>(fields: &'a Vec<(String, Json)>, name: &str) -> (out: Option<&'a Json>)
    ensures
        match out {
            Some(v) => JsonView::Object(fields_view(fields@)).field(name@) == Some(v@),
            None => JsonView::Object(fields_view(fields@)).field(name@) is None,
        },
{
    match position_of(fields, name) {
        Some(i) => {
            proof {
                lemma_first_field(fields@, name@, i as int);
            }
            Some(&fields[i].1)
        },
        None => None,
    }
}

/// Sets the field `name` of an object.
pub fn set_field(fields: &mut Vec<(String, Json)>, name: &str, value: Json)
    ensures
        fields_view(final(fields)@) == fields_view(old(fields)@).insert(name@, value@),
{
    let owned = name.to_owned();
    match position_of(fields, name) {
        Some(i) => {
            proof {
                lemma_fields_update(fields@, i as int, owned, value);
            }
            fields.set(i, (owned, value));
        },
        None => {
            proof {
                lemma_fields_push(fields@, owned, value);
            }
            fields.push((owned, value));
        },
    }
}

/// Sets all the fields in `over` of an object.
pub fn set_fields(fields: &mut Vec<(String, Json)>, over: &Vec<(String, Json)>)
    ensures
        fields_view(final(fields)@) == fields_view(old(fields)@).union_prefer_right(
            fields_view(over@),
        ),
{
    let ghost base = fields_view(fields@);
    let ghost n = over@.len() as int;
    let mut i: usize = over.len();
    proof {
        assert(over@.subrange(n, n) =~= Seq::empty());
        assert(base.union_prefer_right(fields_view(over@.subrange(n, n))) =~= base);
    }
    while i > 0
        invariant
            i <= over@.len() == n,
            fields_view(fields@) == base.union_prefer_right(
                fields_view(over@.subrange(i as int, n)),
            ),
        decreases i,
    {
        i = i - 1;
        let ghost before = fields_view(over@.subrange(i + 1, n));
        let value = over[i].1.copy();
        set_field(fields, over[i].0.as_str(), value);
        proof {
            let now = over@.subrange(i as int, n);
            assert(now.subrange(1, now.len() as int) =~= over@.subrange(i + 1, n));
            assert(fields_view(fields@) =~= base.union_prefer_right(fields_view(now)));
        }
    }
    proof {
        assert(over@.subrange(0, n) =~= over@);
    }
}

impl Json {
    /// The value of the field `key`, where this is an object that has it.
    pub fn get(&self, key: &str) -> (out: Option<&Json>)
        ensures
            match out {
                Some(v) => self@.field(key@) == Some(v@),
                None => self@.field(key@) is None,
            },
    {
        match self {
            Json::Object(fields) => field_of(fields, key),
            _ => None,
        }
    }

    /// The characters, where this is a string.
    pub fn as_str(&self) -> (out: Option<&str>)
        ensures
            match out {
                Some(s) => self@.text() == Some(s@),
                None => self@.text() is None,
            },
    {
        match self {
            Json::Str(s) => Some(s.as_str()),
            _ => None,
        }
    }

    /// The elements, where this is an array.
    pub fn as_array(&self) -> (out: Option<&Vec<Json>>)
        ensures
            match out {
                Some(items) => self@.items() == Some(array_view(items@)),
                None => self@.items() is None,
            },
    {
        match self {
            Json::Array(items) => Some(items),
            _ => None,
        }
    }

    /// The truth value, where this is one.
    pub fn as_bool(&self) -> (out: Option<bool>)
        ensures
            out == self@.flag(),
    {
        match self {
            Json::Bool(b) => Some(*b),
            _ => None,
        }
    }

    /// The number as a `u64`, where this is a number.
    pub fn as_whole(&self) -> (out: Option<u64>)
        ensures
            out == self@.whole(),
    {
        match self {
            Json::Number(n) => n.whole,
            _ => None,
        }
    }

    /// Whether this is a number above zero.
    pub fn is_above_zero(&self) -> (out: bool)
        ensures
            out == self@.above_zero(),
    {
        match self {
            Json::Number(n) => {
                let chars = chars_of(n.text.as_str());
                chars.len() > 0 && chars[0] != '-' && !same_text(n.text.as_str(), "0")
                    && !same_text(n.text.as_str(), "0.0")
            },
            _ => false,
        }
    }

    /// Whether this is `null`.
    pub fn is_null(&self) -> (out: bool)
        ensures
            out == (self@ is Null),
    {
        match self {
            Json::Null => true,
            _ => false,
        }
    }

    /// Whether this is an object.
    pub fn is_object(&self) -> (out: bool)
        ensures
            out == (self@ is Object),
    {
        match self {
            Json::Object(_) => true,
            _ => false,
        }
    }

    /// The characters of the field `key`, where this is an object with such a
    /// string field.
    pub fn get_str(&self, key: &str) -> (out: Option<&str>)
        ensures
            match out {
                Some(s) => self@.field_text(key@) == Some(s@),
                None => self@.field_text(key@) is None,
            },
    {
        match self.get(key) {
            Some(v) => v.as_str(),
            None => None,
        }
    }

    /// The elements of the field `key`, where this is an object with such an
    /// array field.
    pub fn get_array(&self, key: &str) -> (out: Option<&Vec<Json>>)
        ensures
            match out {
                Some(items) => self@.field_items(key@) == Some(array_view(items@)),
                None => self@.field_items(key@) is None,
            },
    {
        match self.get(key) {
            Some(v) => v.as_array(),
            None => None,
        }
    }

    /// The truth value of the field `key`, where this is an object with such a
    /// field.
    pub fn get_bool(&self, key: &str) -> (out: Option<bool>)
        ensures
            out == self@.field_flag(key@),
    {
        match self.get(key) {
            Some(v) => v.as_bool(),
            None => None,
        }
    }

    /// A copy that says the same.
    pub fn copy(&self) -> (out: Json)
        ensures
            out@ == self@,
        decreases self,
    {
        match self {
            Json::Null => Json::Null,
            Json::Bool(b) => Json::Bool(*b),
            Json::Number(n) => Json::Number(
                JsonNumber { text: n.text.clone(), whole: n.whole },
            ),
            Json::Str(s) => Json::Str(s.clone()),
            Json::Array(items) => Json::Array(copy_items(items)),
            Json::Object(fields) => Json::Object(copy_fields(fields)),
        }
    }

    /// Whether both say the same.
    pub fn same(&self, other: &Json) -> (out: bool)
        ensures
            out == (self@ == other@),
        decreases self,
    {
        match (self, other) {
            (Json::Null, Json::Null) => true,
            (Json::Bool(a), Json::Bool(b)) => *a == *b,
            (Json::Number(a), Json::Number(b)) => {
                let whole = match (a.whole, b.whole) {
                    (Some(x), Some(y)) => x == y,
                    (None, None) => true,
                    _ => false,
                };
                whole && same_text(a.text.as_str(), b.text.as_str())
            },
            (Json::Str(a), Json::Str(b)) => same_text(a.as_str(), b.as_str()),
            (Json::Array(a), Json::Array(b)) => same_items(a, b),
            (Json::Object(a), Json::Object(b)) => same_fields(a, b),
            _ => false,
        }
    }
}

impl PartialEq for Json {
    fn eq(&self, other: &Self) -> (out: bool) {
        self.same(other)
    }
}

impl vstd::std_specs::cmp::PartialEqSpecImpl for Json {
    open spec fn obeys_eq_spec() -> bool {
        true
    }

    open spec fn eq_spec(&self, other: &Self) -> bool {
        self@ == other@
    }
}

impl Eq for Json {

}

fn same_items(a: &Vec<Json>, b: &Vec<Json>) -> (out: bool)
    ensures
        out == (array_view(a@) == array_view(b@)),
    decreases a,
{
    if a.len() != b.len() {
        proof {
            assert(array_view(a@).len() != array_view(b@).len());
        }
        return false;
    }
    let mut i: usize = 0;
    while i < a.len()
        invariant
            i <= a@.len(),
            a@.len() == b@.len(),
            forall|j: int| 0 <= j < i ==> (#[trigger] a@[j])@ == b@[j]@,
        decreases a.len() - i,
    {
        if !a[i].same(&b[i]) {
            proof {
                assert(array_view(a@)[i as int] != array_view(b@)[i as int]);
            }
            return false;
        }
        i = i + 1;
    }
    proof {
        assert(array_view(a@) =~= array_view(b@));
    }
    true
}

/// Whether both objects say the same: every name stands for the same value in the
/// one as in the other.
pub(crate) fn same_fields(a: &Vec<(String, Json)>, b: &Vec<(String, Json)>) -> (out: bool)
    ensures
        out == (fields_view(a@) == fields_view(b@)),
    decreases a,
{
    let ghost va = fields_view(a@);
    let ghost vb = fields_view(b@);
    let mut i: usize = 0;
    while i < a.len()
        invariant
            i <= a@.len(),
            va == fields_view(a@),
            vb == fields_view(b@),
            forall|j: int|
                #![trigger a@[j]]
                0 <= j < i ==> vb.dom().contains(a@[j].0@) && vb[a@[j].0@] == va[a@[j].0@],
        decreases a.len() - i,
    {
        let at = position_of(a, a[i].0.as_str());
        let there = position_of(b, a[i].0.as_str());
        match (at, there) {
            (Some(p), Some(q)) => {
                proof {
                    lemma_first_field(a@, a@[i as int].0@, p as int);
                    lemma_first_field(b@, a@[i as int].0@, q as int);
                }
                if !a[p].1.same(&b[q].1) {
                    return false;
                }
            },
            _ => {
                proof {
                    lemma_named(a@, i as int);
                }
                return false;
            },
        }
        i = i + 1;
    }
    let mut k: usize = 0;
    while k < b.len()
        invariant
            k <= b@.len(),
            va == fields_view(a@),
            vb == fields_view(b@),
            forall|j: int| 0 <= j < k ==> va.dom().contains((#[trigger] b@[j]).0@),
        decreases b.len() - k,
    {
        match position_of(a, b[k].0.as_str()) {
            Some(p) => {
                proof {
                    lemma_first_field(a@, b@[k as int].0@, p as int);
                }
            },
            None => {
                proof {
                    lemma_named(b@, k as int);
                }
                return false;
            },
        }
        k = k + 1;
    }
    proof {
        assert forall|key: Seq<char>| va.dom().contains(key) <==> vb.dom().contains(key) by {
            lemma_names(a@, key);
            lemma_names(b@, key);
        }
        assert forall|key: Seq<char>| va.dom().contains(key) implies va[key] == vb[key] by {
            lemma_names(a@, key);
        }
        assert(va =~= vb);
    }
    true
}

/// The name of every field is in the object.
proof fn lemma_named(fields: Seq<(String, Json)>, i: int)
    requires
        0 <= i < fields.len(),
    ensures
        fields_view(fields).dom().contains(fields[i].0@),
    decreases i,
{
    let rest = fields.subrange(1, fields.len() as int);
    if i > 0 {
        assert(rest[i - 1] == fields[i]);
        lemma_named(rest, i - 1);
    }
}

/// Every name in the object is that of a field.
proof fn lemma_names(fields: Seq<(String, Json)>, key: Seq<char>)
    ensures
        fields_view(fields).dom().contains(key) ==> exists|j: int|
            0 <= j < fields.len() && (#[trigger] fields[j]).0@ == key,
{
    if forall|j: int| 0 <= j < fields.len() ==> (#[trigger] fields[j]).0@ != key {
        lemma_no_field(fields, key);
    }
}

fn copy_items(items: &Vec<Json>) -> (out: Vec<Json>)
    ensures
        array_view(out@) == array_view(items@),
    decreases items,
{
    let mut out: Vec<Json> = Vec::new();
    let mut i: usize = 0;
    while i < items.len()
        invariant
            i <= items@.len(),
            out@.len() == i,
            forall|j: int| 0 <= j < i ==> (#[trigger] out@[j])@ == items@[j]@,
        decreases items.len() - i,
    {
        let item = items[i].copy();
        out.push(item);
        i = i + 1;
    }
    proof {
        assert(array_view(out@) =~= array_view(items@));
    }
    out
}

fn copy_fields(fields: &Vec<(String, Json)>) -> (out: Vec<(String, Json)>)
    ensures
        fields_view(out@) == fields_view(fields@),
    decreases fields,
{
    let mut out: Vec<(String, Json)> = Vec::new();
    let mut i: usize = 0;
    while i < fields.len()
        invariant
            i <= fields@.len(),
            out@.len() == i,
            forall|j: int|
                0 <= j < i ==> (#[trigger] out@[j]).0@ == fields@[j].0@ && out@[j].1@
                    == fields@[j].1@,
        decreases fields.len() - i,
    {
        let value = fields[i].1.copy();
        out.push((fields[i].0.clone(), value));
        i = i + 1;
    }
    proof {
        lemma_same_fields(out@, fields@);
    }
    out
}

proof fn lemma_same_fields(a: Seq<(String, Json)>, b: Seq<(String, Json)>)
    requires
        a.len() == b.len(),
        forall|j: int| 0 <= j < a.len() ==> (#[trigger] a[j]).0@ == b[j].0@ && a[j].1@ == b[j].1@,
    ensures
        fields_view(a) == fields_view(b),
    decreases a.len(),
{
    if a.len() > 0 {
        let ra = a.subrange(1, a.len() as int);
        let rb = b.subrange(1, b.len() as int);
        assert forall|j: int| 0 <= j < ra.len() implies (#[trigger] ra[j]).0@ == rb[j].0@ && ra[j].1@
            == rb[j].1@ by {
            assert(ra[j] == a[j + 1]);
        }
        lemma_same_fields(ra, rb);
        assert(a[0].0@ == b[0].0@);
    }
}

// ---------------------------------------------------------------------------
// Building documents.
// ---------------------------------------------------------------------------

/// The fields of an object written out in order; the first of a name counts.
pub open spec fn object_map(fields: Seq<(Seq<char>, JsonView)>) -> Map<Seq<char>, JsonView>
    decreases fields.len(),
{
    if fields.len() == 0 {
        Map::empty()
    } else {
        object_map(fields.subrange(1, fields.len() as int)).insert(fields[0].0, fields[0].1)
    }
}

/// The object with these fields.
pub open spec fn object_of(fields: Seq<(Seq<char>, JsonView)>) -> JsonView {
    JsonView::Object(object_map(fields))
}

/// What each of `fields` says.
pub open spec fn pairs(fields: Seq<(String, Json)>) -> Seq<(Seq<char>, JsonView)> {
    Seq::new(fields.len(), |i: int| (fields[i].0@, fields[i].1@))
}

/// The fields of an object are those it was written out with.
pub proof fn lemma_fields_are_pairs(fields: Seq<(String, Json)>)
    ensures
        fields_view(fields) == object_map(pairs(fields)),
    decreases fields.len(),
{
    if fields.len() > 0 {
        let rest = fields.subrange(1, fields.len() as int);
        lemma_fields_are_pairs(rest);
        assert(pairs(rest) =~= pairs(fields).subrange(1, fields.len() as int));
    }
}

/// The value that an object written out as `fields` has for the name at `i`,
/// where no field before it has that name.
pub proof fn lemma_object_field(fields: Seq<(Seq<char>, JsonView)>, i: int)
    requires
        0 <= i < fields.len(),
        forall|j: int| 0 <= j < i ==> (#[trigger] fields[j]).0 != fields[i].0,
    ensures
        object_of(fields).field(fields[i].0) == Some(fields[i].1),
    decreases fields.len(),
{
    if i > 0 {
        let rest = fields.subrange(1, fields.len() as int);
        assert(rest[i - 1] == fields[i]);
        assert forall|j: int| 0 <= j < i - 1 implies (#[trigger] rest[j]).0 != rest[i - 1].0 by {
            assert(rest[j] == fields[j + 1]);
        }
        lemma_object_field(rest, i - 1);
        assert(fields[0].0 != fields[i].0);
    }
}

/// An object has no field of a name that it was not written out with.
pub proof fn lemma_object_no_field(fields: Seq<(Seq<char>, JsonView)>, name: Seq<char>)
    requires
        forall|j: int| 0 <= j < fields.len() ==> (#[trigger] fields[j]).0 != name,
    ensures
        object_of(fields).field(name) is None,
    decreases fields.len(),
{
    if fields.len() > 0 {
        let rest = fields.subrange(1, fields.len() as int);
        assert forall|j: int| 0 <= j < rest.len() implies (#[trigger] rest[j]).0 != name by {
            assert(rest[j] == fields[j + 1]);
        }
        lemma_object_no_field(rest, name);
        assert(fields[0].0 != name);
    }
}

/// The object with these fields.
pub fn object(fields: Vec<(String, Json)>) -> (out: Json)
    ensures
        out@ == object_of(pairs(fields@)),
{
    proof {
        lemma_fields_are_pairs(fields@);
    }
    Json::Object(fields)
}

/// The string `s`.
pub fn text(s: &str) -> (out: Json)
    ensures
        out@ == JsonView::Str(s@),
{
    Json::Str(s.to_owned())
}

/// What the number `n` says.
pub open spec fn number_of(n: int) -> JsonView {
    JsonView::Number(
        NumberView {
            text: signed_decimal(n),
            whole: Some(
                if n < 0 {
                    0
                } else {
                    n as u64
                },
            ),
        },
    )
}

/// The number `n`.
pub fn number(n: u64) -> (out: Json)
    ensures
        out@ == number_of(n as int),
{
    Json::Number(JsonNumber { text: decimal_text(n), whole: Some(n) })
}

/// The number `n`.
pub fn signed_number(n: i64) -> (out: Json)
    ensures
        out@ == number_of(n as int),
{
    let whole: u64 = if n < 0 {
        0
    } else {
        n as u64
    };
    Json::Number(JsonNumber { text: signed_decimal_text(n), whole: Some(whole) })
}

/// What an optional string says: `null` where there is none.
pub open spec fn optional_text_of(s: Option<Seq<char>>) -> JsonView {
    match s {
        Some(x) => JsonView::Str(x),
        None => JsonView::Null,
    }
}

/// What a list of strings says.
pub open spec fn texts_of(s: Seq<Seq<char>>) -> JsonView {
    JsonView::Array(Seq::new(s.len(), |i: int| JsonView::Str(s[i])))
}

/// The string `s`, or `null`.
pub fn optional_text_json(s: &Option<String>) -> (out: Json)
    ensures
        out@ == optional_text_of(crate::text::optional_text(*s)),
{
    match s {
        Some(x) => text(x.as_str()),
        None => Json::Null,
    }
}

/// The strings `s`.
pub fn texts_json(s: &Vec<String>) -> (out: Json)
    ensures
        out@ == texts_of(crate::text::texts(s@)),
{
    let mut items: Vec<Json> = Vec::new();
    let mut i: usize = 0;
    while i < s.len()
        invariant
            i <= s@.len(),
            items@.len() == i,
            forall|j: int| 0 <= j < i ==> (#[trigger] items@[j])@ == JsonView::Str(s@[j]@),
        decreases s.len() - i,
    {
        items.push(text(s[i].as_str()));
        i = i + 1;
    }
    proof {
        assert(array_view(items@) =~= Seq::new(
            s@.len(),
            |j: int| JsonView::Str(crate::text::texts(s@)[j]),
        ));
    }
    Json::Array(items)
}

// ---------------------------------------------------------------------------
// The calls into `serde_json`.
// ---------------------------------------------------------------------------

/// The values of `serde_json`, which pass through here on their way to and
/// from [`Json`].
#[verifier::external_type_specification]
#[verifier::external_body]
pub struct ExValue(serde_json::Value);

/// Moves a `serde_json::Value` into a [`Json`], variant by variant. Nothing is
/// claimed of it here: [`read_text`] and [`read_bytes`] say what comes out.
#[verifier::external_body]
fn json_of(value: serde_json::Value) -> Json {
    match value {
        serde_json::Value::Null => Json::Null,
        serde_json::Value::Bool(b) => Json::Bool(b),
        serde_json::Value::Number(n) => Json::Number(JsonNumber {
            text: n.to_string(),
            whole: n.as_u64().or_else(|| n.as_f64().map(|f| f as u64)),
        }),
        serde_json::Value::String(s) => Json::Str(s),
        serde_json::Value::Array(a) => Json::Array(a.into_iter().map(json_of).collect()),
        serde_json::Value::Object(m) => Json::Object(m.into_iter().map(|(k, v)| (k, json_of(v))).collect()),
    }
}

/// Moves a [`Json`] into a `serde_json::Value`, variant by variant. Nothing is
/// claimed of it here: [`write_compact`] and [`write_pretty`] say what comes out.
#[verifier::external_body]
fn value_of(json: &Json) -> serde_json::Value {
    match json {
        Json::Null => serde_json::Value::Null,
        Json::Bool(b) => serde_json::Value::Bool(*b),
        Json::Number(n) => n.text.parse().map_or(serde_json::Value::Null, serde_json::Value::Number),
        Json::Str(s) => serde_json::Value::String(s.clone()),
        Json::Array(a) => serde_json::Value::Array(a.iter().map(value_of).collect()),
        Json::Object(m) => serde_json::Value::Object(m.iter().rev().map(|(k, v)| (k.clone(), value_of(v))).collect()),
    }
}

/// What `serde_json::from_str` makes of `text`: the document, or nothing where
/// `text` is not one.
pub uninterp spec fn parsed_text(text: Seq<char>) -> Option<JsonView>;

/// Calls `serde_json::from_str` for a `serde_json::Value`. Claimed of it: what it
/// makes of a text depends on the text alone, and no document is empty. Which other
/// texts are documents, and which document each is, is left unsaid.
#[verifier::external_body]
fn read_text(text: &str) -> (out: Option<Json>)
    ensures
        text@.len() == 0 ==> out is None,
        match out {
            Some(v) => parsed_text(text@) == Some(v@),
            None => parsed_text(text@) is None,
        },
{
    serde_json::from_str::<serde_json::Value>(text).ok().map(json_of)
}

/// What `serde_json::from_slice` makes of `bytes`: the document, or nothing where
/// they are not one.
pub uninterp spec fn parsed_bytes(bytes: Seq<u8>) -> Option<JsonView>;

/// Calls `serde_json::from_slice` for a `serde_json::Value`. Claimed of it: what
/// it makes of some bytes depends on them alone. Which bytes are documents, and
/// which document they are, is left unsaid.
#[verifier::external_body]
fn read_bytes(bytes: &[u8]) -> (out: Option<Json>)
    ensures
        match out {
            Some(v) => parsed_bytes(bytes@) == Some(v@),
            None => parsed_bytes(bytes@) is None,
        },
{
    serde_json::from_slice::<serde_json::Value>(bytes).ok().map(json_of)
}

/// Whether `n` reads back as it is written: any integer that fits in a `u64` or an
/// `i64`, in its usual decimal form, and any other number that is the document of
/// its own text.
pub open spec fn plain_number(n: NumberView) -> bool {
    ||| parsed_text(n.text) == Some(JsonView::Number(n))
    ||| exists|i: int|
        #![trigger number_of(i)]
        i64::MIN <= i <= u64::MAX && number_of(i) == JsonView::Number(n)
}

/// The name by which `serde_json` knows a text that it is to take as a document: an
/// object that begins with it is not read as an object.
pub open spec fn raw_key() -> Seq<char> {
    "$serde_json::private::RawValue"@
}

/// How the name for raw texts differs from the names in this library.
pub proof fn lemma_raw_key()
    ensures
        raw_key().len() == 30,
{
    reveal_strlit("$serde_json::private::RawValue");
}

/// Whether `v` reads back as it is written: its numbers are all [`plain_number`]s, no
/// object in it has the name for raw texts, and its arrays and objects nest at most
/// `depth` deep.
pub open spec fn plain(v: JsonView, depth: nat) -> bool
    decreases depth,
{
    &&& v is Number ==> plain_number(v->Number_0)
    &&& v is Object ==> !v->Object_0.dom().contains(raw_key())
    &&& v is Array || v is Object ==> depth > 0
    &&& v is Array && depth > 0 ==> forall|i: int|
        0 <= i < v->Array_0.len() ==> plain(#[trigger] v->Array_0[i], (depth - 1) as nat)
    &&& v is Object && depth > 0 ==> forall|k: Seq<char>|
        v->Object_0.dom().contains(k) ==> plain(#[trigger] v->Object_0[k], (depth - 1) as nat)
}

/// An object is plain where the values of its fields are, and none has the name for
/// raw texts.
pub proof fn lemma_plain_fields(fields: Seq<(Seq<char>, JsonView)>, depth: nat)
    requires
        forall|i: int| 0 <= i < fields.len() ==> (#[trigger] fields[i]).0 != raw_key(),
        forall|i: int| 0 <= i < fields.len() ==> plain((#[trigger] fields[i]).1, depth),
    ensures
        plain(object_of(fields), depth + 1),
    decreases fields.len(),
{
    if fields.len() > 0 {
        let rest = fields.subrange(1, fields.len() as int);
        assert forall|i: int| 0 <= i < rest.len() implies plain((#[trigger] rest[i]).1, depth)
            && rest[i].0 != raw_key() by {
            assert(rest[i] == fields[i + 1]);
        }
        lemma_plain_fields(rest, depth);
        assert(plain(fields[0].1, depth) && fields[0].0 != raw_key());
        assert(plain(object_of(rest), depth + 1));
        let all = object_map(fields);
        assert forall|k: Seq<char>| all.dom().contains(k) implies plain(#[trigger] all[k], depth) by {
            if k != fields[0].0 {
                let kept = object_of(rest);
                assert(plain(kept, depth + 1));
                assert(plain(kept->Object_0[k], depth));
            }
        }
    }
}

/// A list of strings is plain.
pub proof fn lemma_texts_are_plain(s: Seq<Seq<char>>, depth: nat)
    requires
        depth > 0,
    ensures
        plain(texts_of(s), depth),
{
    let v = texts_of(s);
    assert forall|i: int| 0 <= i < v->Array_0.len() implies plain(
        #[trigger] v->Array_0[i],
        (depth - 1) as nat,
    ) by {
        assert(v->Array_0[i] == JsonView::Str(s[i]));
    }
}

/// How deep arrays and objects may nest for `serde_json` to read them.
pub const DEPTH_LIMIT: usize = 127;

/// The text that `serde_json::to_string` writes for a document.
pub uninterp spec fn compact_text(v: JsonView) -> Seq<char>;

/// Calls `serde_json::to_string`. Claimed of it: the text depends on what the
/// document says alone; and where no number in it changes by being written and read,
/// no object has the name for raw texts, and it nests no deeper than `serde_json`
/// reads, reading the text gives the document back.
#[verifier::external_body]
fn write_compact(json: &Json) -> (out: String)
    ensures
        out@ == compact_text(json@),
        plain(json@, DEPTH_LIMIT as nat) ==> parsed_text(out@) == Some(json@),
{
    serde_json::to_string(&value_of(json)).unwrap_or_default()
}

/// The text that `serde_json::to_string_pretty` writes for a document.
pub uninterp spec fn pretty_text(v: JsonView) -> Seq<char>;

/// Calls `serde_json::to_string_pretty`. Claimed of it: the text depends on what
/// the document says alone; for an object it begins with a brace; and where no number
/// in it changes by being written and read, no object has the name for raw texts, and
/// it nests no deeper than `serde_json` reads, reading the text gives the document
/// back.
#[verifier::external_body]
fn write_pretty(json: &Json) -> (out: String)
    ensures
        out@ == pretty_text(json@),
        json@ is Object ==> out@.len() > 0 && out@[0] == '{',
        plain(json@, DEPTH_LIMIT as nat) ==> parsed_text(out@) == Some(json@),
{
    serde_json::to_string_pretty(&value_of(json)).unwrap_or_default()
}

/// Reads a document.
pub fn parse(text: &str) -> (out: Option<Json>)
    ensures
        text@.len() == 0 ==> out is None,
        match out {
            Some(v) => parsed_text(text@) == Some(v@),
            None => parsed_text(text@) is None,
        },
{
    read_text(text)
}

/// Reads a document from bytes.
pub fn parse_bytes(bytes: &[u8]) -> (out: Option<Json>)
    ensures
        match out {
            Some(v) => parsed_bytes(bytes@) == Some(v@),
            None => parsed_bytes(bytes@) is None,
        },
{
    read_bytes(bytes)
}

/// Writes a document on one line.
pub fn compact(json: &Json) -> (out: String)
    ensures
        out@ == compact_text(json@),
        plain(json@, DEPTH_LIMIT as nat) ==> parsed_text(out@) == Some(json@),
{
    write_compact(json)
}

/// Writes a document indented, one field or element a line.
pub fn pretty(json: &Json) -> (out: String)
    ensures
        out@ == pretty_text(json@),
        json@ is Object ==> out@.len() > 0 && out@[0] == '{',
        plain(json@, DEPTH_LIMIT as nat) ==> parsed_text(out@) == Some(json@),
{
    write_pretty(json)
}

} // verus!
