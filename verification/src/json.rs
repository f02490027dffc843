//! JSON values as plain data.

use crate::text::{digit, same};
use vstd::prelude::*;
use vstd::string::*;

verus! {

/// A JSON value. A number is held as its text, in the one way in which a number of
/// that value is written: digits for an integer, and with a point or an exponent
/// for a fraction.
#[derive(Debug, PartialEq, Eq)]
pub enum Json {
    Null,
    Bool(bool),
    Number(String),
    Text(String),
    Array(Vec<Json>),
    Object(Object),
}

/// A JSON object: its entries in the order in which they are listed. Every list of
/// entries is an object. Of several entries with one key the first counts.
#[derive(Debug, PartialEq, Eq)]
pub struct Object {
    pub entries: Vec<Entry>,
}

/// One entry of a JSON object.
#[derive(Debug, PartialEq, Eq)]
pub struct Entry {
    pub key: String,
    pub value: Json,
}

/// What a JSON value is, apart from its representation in memory.
#[verifier::ext_equal]
pub enum JsonView {
    Null,
    Bool(bool),
    Number(Seq<char>),
    Text(Seq<char>),
    Array(Seq<JsonView>),
    Object(ObjectView),
}

/// The entries of a JSON object.
pub type ObjectView = Seq<(Seq<char>, JsonView)>;

impl Json {
    pub open spec fn model(self) -> JsonView
        decreases self,
    {
        match self {
            Json::Null => JsonView::Null,
            Json::Bool(b) => JsonView::Bool(b),
            Json::Number(s) => JsonView::Number(s@),
            Json::Text(s) => JsonView::Text(s@),
            Json::Array(v) => JsonView::Array(array_model(v@)),
            Json::Object(o) => JsonView::Object(entries_model(o.entries@)),
        }
    }
}

pub open spec fn array_model(s: Seq<Json>) -> Seq<JsonView>
    decreases s,
{
    Seq::new(s.len(), |i: int| if 0 <= i < s.len() { s[i].model() } else { JsonView::Null })
}

pub open spec fn entries_model(s: Seq<Entry>) -> ObjectView
    decreases s,
{
    Seq::new(
        s.len(),
        |i: int|
            if 0 <= i < s.len() {
                (s[i].key@, s[i].value.model())
            } else {
                (Seq::empty(), JsonView::Null)
            },
    )
}

impl View for Json {
    type V = JsonView;

    open spec fn view(&self) -> JsonView {
        self.model()
    }
}

impl DeepView for Json {
    type V = JsonView;

    open spec fn deep_view(&self) -> JsonView {
        self.model()
    }
}

impl View for Object {
    type V = ObjectView;

    open spec fn view(&self) -> ObjectView {
        entries_model(self.entries@)
    }
}

impl DeepView for Object {
    type V = ObjectView;

    open spec fn deep_view(&self) -> ObjectView {
        self@
    }
}

/// The value under `key`: that of the first entry with this key.
pub open spec fn lookup(o: ObjectView, key: Seq<char>) -> Option<JsonView>
    decreases o.len(),
{
    if o.len() == 0 {
        None
    } else if o[0].0 == key {
        Some(o[0].1)
    } else {
        lookup(o.drop_first(), key)
    }
}

impl Object {
    /// The value under `key`.
    pub fn get<'a>(&'a self, key: &str) -> (r: Option<&'a Json>)
        ensures
            r.deep_view() == lookup(self@, key@),
    {
        let mut i: usize = 0;
        assert(self@.skip(0) =~= self@);
        while i < self.entries.len()
            invariant
                i <= self.entries.len(),
                lookup(self@, key@) == lookup(self@.skip(i as int), key@),
            decreases self.entries.len() - i,
        {
            if same(self.entries[i].key.as_str(), key) {
                return Some(&self.entries[i].value);
            }
            assert(self@.skip(i as int).drop_first() =~= self@.skip(i + 1));
            i = i + 1;
        }
        None
    }
}

/// `o` with `value` under `key`: in place of the first entry with this key, or
/// as a new entry at the end.
pub open spec fn put(o: ObjectView, key: Seq<char>, value: JsonView) -> ObjectView
    decreases o.len(),
{
    if o.len() == 0 {
        seq![(key, value)]
    } else if o[0].0 == key {
        o.update(0, (key, value))
    } else {
        seq![o[0]] + put(o.drop_first(), key, value)
    }
}

/// `o` with every entry of `extra` put into it, in order.
pub open spec fn extended(o: ObjectView, extra: ObjectView) -> ObjectView
    decreases extra.len(),
{
    if extra.len() == 0 {
        o
    } else {
        put(extended(o, extra.drop_last()), extra.last().0, extra.last().1)
    }
}

/// The value as a string.
pub open spec fn as_text(j: Option<JsonView>) -> Option<Seq<char>> {
    match j {
        Some(JsonView::Text(s)) => Some(s),
        _ => None,
    }
}

/// The value as a truth value.
pub open spec fn as_truth(j: Option<JsonView>) -> Option<bool> {
    match j {
        Some(JsonView::Bool(b)) => Some(b),
        _ => None,
    }
}

/// The value as an object.
pub open spec fn as_entries(j: Option<JsonView>) -> Option<ObjectView> {
    match j {
        Some(JsonView::Object(o)) => Some(o),
        _ => None,
    }
}

/// The value under `key`, where `j` is an object that has one.
pub open spec fn member(j: JsonView, key: Seq<char>) -> Option<JsonView> {
    match j {
        JsonView::Object(o) => lookup(o, key),
        _ => None,
    }
}

/// The number of elements of an array, 0 for any other value.
pub open spec fn array_len(j: JsonView) -> nat {
    match j {
        JsonView::Array(a) => a.len(),
        _ => 0,
    }
}

/// Whether a text is that of a zero with a fraction, which may have a sign.
pub open spec fn zero_fraction(s: Seq<char>) -> bool {
    s == "0.0"@ || s == "-0.0"@
}

/// Whether two texts are those of the same number. The sign of a zero makes no
/// difference.
pub open spec fn same_number(a: Seq<char>, b: Seq<char>) -> bool {
    a == b || zero_fraction(a) && zero_fraction(b)
}

/// Whether the entry at `i` is the first with its key.
pub open spec fn counts(o: ObjectView, i: int) -> bool {
    forall|k: int| 0 <= k < i ==> (#[trigger] o[k]).0 != o[i].0
}

/// Whether two values are the same: the same truth value, number or string, arrays of
/// the same values in the same order, or objects with the same keys and the same
/// value under each, in whatever order.
pub open spec fn alike(a: JsonView, b: JsonView) -> bool
    decreases a,
{
    match (a, b) {
        (JsonView::Null, JsonView::Null) => true,
        (JsonView::Bool(x), JsonView::Bool(y)) => x == y,
        (JsonView::Number(x), JsonView::Number(y)) => same_number(x, y),
        (JsonView::Text(x), JsonView::Text(y)) => x == y,
        (JsonView::Array(x), JsonView::Array(y)) => items_alike(x, y),
        (JsonView::Object(x), JsonView::Object(y)) => entries_alike(x, y),
        _ => false,
    }
}

/// Whether two arrays have the same values.
pub open spec fn items_alike(a: Seq<JsonView>, b: Seq<JsonView>) -> bool
    decreases a,
{
    a.len() == b.len() && forall|i: int|
        0 <= i < a.len() ==> alike(#[trigger] a[i], b[i])
}

/// Whether two objects have the same keys and the same value under each.
pub open spec fn entries_alike(a: ObjectView, b: ObjectView) -> bool
    decreases a,
{
    &&& forall|i: int|
        #![trigger a[i]]
        0 <= i < a.len() && counts(a, i) ==> (lookup(b, a[i].0) matches Some(v) && alike(
            a[i].1,
            v,
        ))
    &&& forall|i: int| 0 <= i < b.len() ==> lookup(a, (#[trigger] b[i]).0) is Some
}

proof fn array_decreases(j: Json, i: int)
    requires
        j is Array,
        0 <= i < j->Array_0.len(),
    ensures
        decreases_to!(j => j->Array_0@[i]),
{
    let v = j->Array_0;
    assert(decreases_to!(j => j->Array_0));
    assert(decreases_to!(v => v@));
    assert(decreases_to!(v@ => v@[i]));
}

proof fn object_decreases(j: Json, i: int)
    requires
        j is Object,
        0 <= i < j->Object_0.entries.len(),
    ensures
        decreases_to!(j => j->Object_0.entries@[i].value),
{
    let o = j->Object_0;
    let v = o.entries;
    let e = v@[i];
    assert(decreases_to!(j => j->Object_0));
    assert(decreases_to!(o => o.entries));
    assert(decreases_to!(v => v@));
    assert(decreases_to!(v@ => v@[i]));
    assert(decreases_to!(e => e.value));
}

/// Whether two texts are those of the same number.
fn is_same_number(a: &str, b: &str) -> (r: bool)
    ensures
        r == same_number(a@, b@),
{
    same(a, b) || (same(a, "0.0") || same(a, "-0.0")) && (same(b, "0.0") || same(b, "-0.0"))
}

impl Object {
    /// Whether the entry at `i` is the first with its key.
    fn is_first(&self, i: usize) -> (r: bool)
        requires
            i < self.entries.len(),
        ensures
            r == counts(self@, i as int),
    {
        let ghost all = self@;
        let mut k: usize = 0;
        while k < i
            invariant
                k <= i < self.entries.len(),
                all == self@,
                forall|j: int| 0 <= j < k ==> (#[trigger] all[j]).0 != all[i as int].0,
            decreases i - k,
        {
            assert(all[k as int].0 == self.entries@[k as int].key@);
            assert(all[i as int].0 == self.entries@[i as int].key@);
            if same(self.entries[k].key.as_str(), self.entries[i].key.as_str()) {
                return false;
            }
            k = k + 1;
        }
        true
    }
}

impl Json {
    /// A copy.
    pub fn copy(&self) -> (r: Json)
        ensures
            r@ == self@,
        decreases self,
    {
        match self {
            Json::Null => Json::Null,
            Json::Bool(b) => Json::Bool(*b),
            Json::Number(s) => Json::Number(s.clone()),
            Json::Text(s) => Json::Text(s.clone()),
            Json::Array(v) => {
                let mut out: Vec<Json> = Vec::new();
                let mut i: usize = 0;
                while i < v.len()
                    invariant
                        i <= v.len(),
                        *self == Json::Array(*v),
                        out.len() == i,
                        forall|k: int| 0 <= k < i ==> #[trigger] out@[k]@ == v@[k]@,
                    decreases v.len() - i,
                {
                    proof {
                        array_decreases(*self, i as int);
                    }
                    out.push(v[i].copy());
                    i = i + 1;
                }
                assert forall|k: int| 0 <= k < out.len() implies array_model(out@)[k] == array_model(
                    v@,
                )[k] by {
                    assert(out@[k]@ == v@[k]@);
                }
                assert(array_model(out@) =~= array_model(v@));
                Json::Array(out)
            },
            Json::Object(o) => {
                let mut out: Vec<Entry> = Vec::new();
                let mut i: usize = 0;
                while i < o.entries.len()
                    invariant
                        i <= o.entries.len(),
                        *self == Json::Object(*o),
                        out.len() == i,
                        forall|k: int|
                            0 <= k < i ==> (#[trigger] out@[k]).key@ == o.entries@[k].key@ && out@[k].value@
                                == o.entries@[k].value@,
                    decreases o.entries.len() - i,
                {
                    proof {
                        object_decreases(*self, i as int);
                    }
                    out.push(
                        Entry {
                            key: o.entries[i].key.clone(),
                            value: o.entries[i].value.copy(),
                        },
                    );
                    i = i + 1;
                }
                assert(entries_model(out@) =~= entries_model(o.entries@));
                Json::Object(Object { entries: out })
            },
        }
    }

    /// Whether the two are the same value.
    pub fn is(&self, other: &Json) -> (r: bool)
        ensures
            r == alike(self@, other@),
        decreases self,
    {
        match (self, other) {
            (Json::Null, Json::Null) => true,
            (Json::Bool(a), Json::Bool(b)) => *a == *b,
            (Json::Number(a), Json::Number(b)) => is_same_number(a.as_str(), b.as_str()),
            (Json::Text(a), Json::Text(b)) => same(a.as_str(), b.as_str()),
            (Json::Array(a), Json::Array(b)) => {
                if a.len() != b.len() {
                    return false;
                }
                let ghost x = array_model(a@);
                let ghost y = array_model(b@);
                let mut i: usize = 0;
                while i < a.len()
                    invariant
                        i <= a.len() == b.len(),
                        *self == Json::Array(*a),
                        *other == Json::Array(*b),
                        x == array_model(a@),
                        y == array_model(b@),
                        forall|k: int| 0 <= k < i ==> alike(#[trigger] x[k], y[k]),
                    decreases a.len() - i,
                {
                    proof {
                        array_decreases(*self, i as int);
                    }
                    if !a[i].is(&b[i]) {
                        assert(!alike(x[i as int], y[i as int]));
                        return false;
                    }
                    i = i + 1;
                }
                true
            },
            (Json::Object(a), Json::Object(b)) => {
                let ghost x = a@;
                let ghost y = b@;
                let mut i: usize = 0;
                while i < a.entries.len()
                    invariant
                        i <= a.entries.len(),
                        *self == Json::Object(*a),
                        *other == Json::Object(*b),
                        x == a@,
                        y == b@,
                        forall|k: int|
                            #![trigger x[k]]
                            0 <= k < i && counts(x, k) ==> (lookup(y, x[k].0) matches Some(v)
                                && alike(x[k].1, v)),
                    decreases a.entries.len() - i,
                {
                    proof {
                        object_decreases(*self, i as int);
                    }
                    let entry = &a.entries[i];
                    assert(x[i as int] == (entry.key@, entry.value@));
                    if a.is_first(i) {
                        let found = match b.get(entry.key.as_str()) {
                            Some(v) => entry.value.is(v),
                            None => false,
                        };
                        if !found {
                            assert(!entries_alike(x, y));
                            return false;
                        }
                    }
                    i = i + 1;
                }
                let mut i: usize = 0;
                while i < b.entries.len()
                    invariant
                        i <= b.entries.len(),
                        *self == Json::Object(*a),
                        *other == Json::Object(*b),
                        x == a@,
                        y == b@,
                        forall|k: int| 0 <= k < i ==> lookup(x, (#[trigger] y[k]).0) is Some,
                    decreases b.entries.len() - i,
                {
                    assert(y[i as int].0 == b.entries@[i as int].key@);
                    if a.get(b.entries[i].key.as_str()).is_none() {
                        assert(!entries_alike(x, y));
                        return false;
                    }
                    i = i + 1;
                }
                true
            },
            _ => false,
        }
    }

    /// The value under `key`, where this is an object that has one.
    pub fn get<'a>(&'a self, key: &str) -> (r: Option<&'a Json>)
        ensures
            r.deep_view() == member(self@, key@),
    {
        match self {
            Json::Object(o) => o.get(key),
            _ => None,
        }
    }

    /// The string that the value is.
    pub fn as_str<'a>(&'a self) -> (r: Option<&'a str>)
        ensures
            r.deep_view() == as_text(Some(self@)),
    {
        match self {
            Json::Text(s) => Some(s.as_str()),
            _ => None,
        }
    }

    /// The truth value that the value is.
    pub fn as_bool(&self) -> (r: Option<bool>)
        ensures
            r == as_truth(Some(self@)),
    {
        match self {
            Json::Bool(b) => Some(*b),
            _ => None,
        }
    }

    /// The object that the value is.
    pub fn as_object<'a>(&'a self) -> (r: Option<&'a Object>)
        ensures
            r.deep_view() == as_entries(Some(self@)),
    {
        match self {
            Json::Object(o) => Some(o),
            _ => None,
        }
    }

    /// The number of elements of an array, 0 for any other value.
    pub fn elements(&self) -> (r: usize)
        ensures
            r == array_len(self@),
    {
        match self {
            Json::Array(v) => v.len(),
            _ => 0,
        }
    }

    /// A string value.
    pub fn text(s: &str) -> (r: Json)
        ensures
            r@ == JsonView::Text(s@),
    {
        Json::Text(s.to_owned())
    }

    /// An array of strings.
    pub fn texts(items: &Vec<String>) -> (r: Json)
        ensures
            r@ == texts_model(items.deep_view()),
    {
        let mut out: Vec<Json> = Vec::new();
        let mut i: usize = 0;
        while i < items.len()
            invariant
                i <= items.len(),
                out.len() == i,
                forall|k: int| 0 <= k < i ==> #[trigger] out@[k]@ == JsonView::Text(items@[k]@),
            decreases items.len() - i,
        {
            out.push(Json::text(items[i].as_str()));
            i = i + 1;
        }
        let ghost wanted = items.deep_view().map_values(|s: Seq<char>| JsonView::Text(s));
        assert(items.deep_view().len() == items@.len());
        assert forall|k: int| 0 <= k < out.len() implies array_model(out@)[k] == wanted[k] by {
            assert(out@[k]@ == JsonView::Text(items@[k]@));
            assert(items.deep_view()[k] == items@[k]@);
        }
        assert(array_model(out@) =~= wanted);
        Json::Array(out)
    }
}

/// An array of the strings `items`.
pub open spec fn texts_model(items: Seq<Seq<char>>) -> JsonView {
    JsonView::Array(items.map_values(|s: Seq<char>| JsonView::Text(s)))
}

impl Object {
    /// The object without entries.
    pub fn new() -> (r: Object)
        ensures
            r@ == ObjectView::empty(),
    {
        let r = Object { entries: Vec::new() };
        assert(r@ =~= ObjectView::empty());
        r
    }

    /// A copy.
    pub fn copy(&self) -> (r: Object)
        ensures
            r@ == self@,
    {
        let mut out = Object::new();
        let mut i: usize = 0;
        assert(out@ =~= self@.take(0));
        while i < self.entries.len()
            invariant
                i <= self.entries.len(),
                out@ == self@.take(i as int),
            decreases self.entries.len() - i,
        {
            out = out.with(self.entries[i].key.as_str(), self.entries[i].value.copy());
            i = i + 1;
            assert(out@ =~= self@.take(i as int));
        }
        assert(self@.take(i as int) =~= self@);
        out
    }

    /// The object with one entry more at its end.
    pub fn with(self, key: &str, value: Json) -> (r: Object)
        ensures
            r@ == self@.push((key@, value@)),
    {
        let ghost before = self;
        let mut r = self;
        r.entries.push(Entry { key: key.to_owned(), value });
        assert(r@ =~= before@.push((key@, value@)));
        r
    }

    /// The object with one string entry more at its end.
    pub fn with_text(self, key: &str, value: &str) -> (r: Object)
        ensures
            r@ == self@.push((key@, JsonView::Text(value@))),
    {
        self.with(key, Json::text(value))
    }

    /// The object with `value` put under `key`.
    pub fn put(self, key: &str, value: Json) -> (r: Object)
        ensures
            r@ == put(self@, key@, value@),
    {
        let ghost all = self@;
        let ghost new = put(all, key@, value@);
        let mut r = self;
        let mut i: usize = 0;
        assert(all.skip(0) =~= all);
        assert(all.take(0) + put(all.skip(0), key@, value@) =~= new);
        while i < r.entries.len()
            invariant
                i <= r.entries.len(),
                all == self@,
                r@ == all,
                new == put(all, key@, value@),
                new == all.take(i as int) + put(all.skip(i as int), key@, value@),
            decreases r.entries.len() - i,
        {
            if same(r.entries[i].key.as_str(), key) {
                let ghost before = r;
                r.entries.set(i, Entry { key: key.to_owned(), value });
                assert(r@ =~= all.take(i as int) + all.skip(i as int).update(0, (key@, value@)));
                assert(all[i as int].0 == before.entries@[i as int].key@);
                return r;
            }
            assert(all.skip(i as int).drop_first() =~= all.skip(i + 1));
            assert(all.take(i as int) + (seq![all.skip(i as int)[0]] + put(
                all.skip(i + 1),
                key@,
                value@,
            )) =~= all.take(i + 1) + put(all.skip(i + 1), key@, value@));
            i = i + 1;
        }
        assert(all.take(i as int) =~= all);
        assert(all + seq![(key@, value@)] =~= all.push((key@, value@)));
        r.with(key, value)
    }

    /// The object with every entry of `extra` put into it.
    pub fn extend(self, extra: &Object) -> (r: Object)
        ensures
            r@ == extended(self@, extra@),
    {
        let ghost all = self@;
        let mut r = self;
        let mut i: usize = 0;
        assert(extra@.take(0) =~= ObjectView::empty());
        while i < extra.entries.len()
            invariant
                i <= extra.entries.len(),
                r@ == extended(all, extra@.take(i as int)),
            decreases extra.entries.len() - i,
        {
            assert(extra@.take(i + 1).drop_last() =~= extra@.take(i as int));
            r = r.put(extra.entries[i].key.as_str(), extra.entries[i].value.copy());
            i = i + 1;
        }
        assert(extra@.take(i as int) =~= extra@);
        r
    }

    /// The object as a value.
    pub fn into_json(self) -> (r: Json)
        ensures
            r@ == JsonView::Object(self@),
    {
        Json::Object(self)
    }
}

/// The lower case hexadecimal digit of value `d`.
pub open spec fn hex_digit(d: int) -> char {
    if d < 10 {
        digit(d as nat)
    } else {
        "abcdef"@[d - 10]
    }
}

/// How a character stands inside a JSON string.
pub open spec fn escaped(c: char) -> Seq<char> {
    if c == '"' || c == '\\' {
        seq!['\\', c]
    } else if c == '\u{8}' {
        seq!['\\', 'b']
    } else if c == '\u{9}' {
        seq!['\\', 't']
    } else if c == '\u{a}' {
        seq!['\\', 'n']
    } else if c == '\u{c}' {
        seq!['\\', 'f']
    } else if c == '\u{d}' {
        seq!['\\', 'r']
    } else if (c as int) < 0x20 {
        seq!['\\', 'u', '0', '0', hex_digit((c as int) / 16), hex_digit((c as int) % 16)]
    } else {
        seq![c]
    }
}

/// The characters of `s`, each as it stands inside a JSON string.
pub open spec fn escapes(s: Seq<char>) -> Seq<char>
    decreases s.len(),
{
    if s.len() == 0 {
        Seq::empty()
    } else {
        escapes(s.drop_last()) + escaped(s.last())
    }
}

/// The JSON string of `s`.
pub open spec fn quoted(s: Seq<char>) -> Seq<char> {
    seq!['"'] + escapes(s) + seq!['"']
}

/// The compact JSON text of a value.
pub open spec fn rendered(j: JsonView) -> Seq<char>
    decreases j,
{
    match j {
        JsonView::Null => "null"@,
        JsonView::Bool(b) => if b {
            "true"@
        } else {
            "false"@
        },
        JsonView::Number(s) => s,
        JsonView::Text(s) => quoted(s),
        JsonView::Array(a) => "["@ + rendered_items(a) + "]"@,
        JsonView::Object(o) => "{"@ + rendered_entries(o) + "}"@,
    }
}

/// The elements of an array, with commas between them.
pub open spec fn rendered_items(a: Seq<JsonView>) -> Seq<char>
    decreases a,
{
    if a.len() == 0 {
        Seq::empty()
    } else if a.len() == 1 {
        rendered(a[0])
    } else {
        rendered_items(a.drop_last()) + ","@ + rendered(a.last())
    }
}

/// The entries of an object, with commas between them.
pub open spec fn rendered_entries(o: ObjectView) -> Seq<char>
    decreases o,
{
    if o.len() == 0 {
        Seq::empty()
    } else if o.len() == 1 {
        quoted(o[0].0) + ":"@ + rendered(o[0].1)
    } else {
        rendered_entries(o.drop_last()) + ","@ + (quoted(o.last().0) + ":"@ + rendered(o.last().1))
    }
}

/// Calls `serde_json::to_string` on a string slice, which writes it as a JSON
/// string: between double quotes, with quote, backslash and the characters
/// below U+0020 escaped, every other character as it is. It cannot fail on a
/// string.
#[verifier::external_body]
fn quote(s: &str) -> (r: String)
    ensures
        r@ == quoted(s@),
{
    serde_json::to_string(s).unwrap()
}

impl Json {
    /// The compact JSON text of the value.
    pub fn render(&self) -> (r: String)
        ensures
            r@ == rendered(self@),
        decreases self,
    {
        match self {
            Json::Null => "null".to_owned(),
            Json::Bool(b) => if *b {
                "true".to_owned()
            } else {
                "false".to_owned()
            },
            Json::Number(s) => s.clone(),
            Json::Text(s) => quote(s.as_str()),
            Json::Array(v) => {
                let mut out = String::new();
                let mut i: usize = 0;
                let ghost a = array_model(v@);
                assert(out@ =~= rendered_items(a.take(0)));
                while i < v.len()
                    invariant
                        i <= v.len(),
                        *self == Json::Array(*v),
                        a == array_model(v@),
                        out@ == rendered_items(a.take(i as int)),
                    decreases v.len() - i,
                {
                    proof {
                        array_decreases(*self, i as int);
                    }
                    assert(a.take(i + 1).drop_last() =~= a.take(i as int));
                    let item = v[i].render();
                    if i > 0 {
                        out.append(",");
                    } else {
                        assert(out@ + item@ =~= item@);
                    }
                    out.append(item.as_str());
                    i = i + 1;
                }
                assert(a.take(i as int) =~= a);
                crate::text::cat3("[", out.as_str(), "]")
            },
            Json::Object(o) => {
                let mut out = String::new();
                let mut i: usize = 0;
                let ghost a = entries_model(o.entries@);
                assert(out@ =~= rendered_entries(a.take(0)));
                while i < o.entries.len()
                    invariant
                        i <= o.entries.len(),
                        *self == Json::Object(*o),
                        a == entries_model(o.entries@),
                        out@ == rendered_entries(a.take(i as int)),
                    decreases o.entries.len() - i,
                {
                    proof {
                        object_decreases(*self, i as int);
                    }
                    assert(a.take(i + 1).drop_last() =~= a.take(i as int));
                    let key = quote(o.entries[i].key.as_str());
                    let value = o.entries[i].value.render();
                    let item = crate::text::cat3(key.as_str(), ":", value.as_str());
                    if i > 0 {
                        out.append(",");
                    } else {
                        assert(out@ + item@ =~= item@);
                    }
                    out.append(item.as_str());
                    i = i + 1;
                }
                assert(a.take(i as int) =~= a);
                crate::text::cat3("{", out.as_str(), "}")
            },
        }
    }
}

/// A value that was put under a key is found there, and what was under other keys
/// stays there.
pub proof fn put_is_found(o: ObjectView, key: Seq<char>, value: JsonView, other: Seq<char>)
    ensures
        lookup(put(o, key, value), other) == (if other == key {
            Some(value)
        } else {
            lookup(o, other)
        }),
    decreases o.len(),
{
    if o.len() > 0 && o[0].0 != key {
        put_is_found(o.drop_first(), key, value, other);
        assert(put(o, key, value).drop_first() =~= put(o.drop_first(), key, value));
    } else if o.len() > 0 {
        assert(put(o, key, value).drop_first() =~= o.drop_first());
    } else {
        assert(put(o, key, value).drop_first() =~= o);
    }
}

/// The last value that `extra` has for a key.
pub open spec fn last_value(extra: ObjectView, key: Seq<char>) -> Option<JsonView>
    decreases extra.len(),
{
    if extra.len() == 0 {
        None
    } else if extra.last().0 == key {
        Some(extra.last().1)
    } else {
        last_value(extra.drop_last(), key)
    }
}

/// After an object was extended, a key has the last value that the extension has
/// for it, or else the value that it had.
pub proof fn extended_is_found(o: ObjectView, extra: ObjectView, key: Seq<char>)
    ensures
        lookup(extended(o, extra), key) == (match last_value(extra, key) {
            Some(v) => Some(v),
            None => lookup(o, key),
        }),
    decreases extra.len(),
{
    if extra.len() > 0 {
        extended_is_found(o, extra.drop_last(), key);
        put_is_found(
            extended(o, extra.drop_last()),
            extra.last().0,
            extra.last().1,
            key,
        );
    }
}

/// Where the entry at `i` has a key that no later entry has, its value is the last
/// for that key.
pub proof fn last_value_at(extra: ObjectView, i: int)
    requires
        0 <= i < extra.len(),
        forall|k: int| i < k < extra.len() ==> (#[trigger] extra[k]).0 != extra[i].0,
    ensures
        last_value(extra, extra[i].0) == Some(extra[i].1),
    decreases extra.len(),
{
    if i < extra.len() - 1 {
        assert(extra[extra.len() - 1].0 != extra[i].0);
        assert(extra.drop_last()[i] == extra[i]);
        assert forall|k: int| i < k < extra.len() - 1 implies (#[trigger] extra.drop_last()[k]).0
            != extra[i].0 by {
            assert(extra.drop_last()[k] == extra[k]);
        }
        last_value_at(extra.drop_last(), i);
    }
}

/// Where no entry has a key, there is no last value for it.
pub proof fn last_value_absent(extra: ObjectView, key: Seq<char>)
    requires
        forall|k: int| 0 <= k < extra.len() ==> (#[trigger] extra[k]).0 != key,
    ensures
        last_value(extra, key) is None,
    decreases extra.len(),
{
    if extra.len() > 0 {
        assert(extra[extra.len() - 1].0 != key);
        assert forall|k: int| 0 <= k < extra.len() - 1 implies (#[trigger] extra.drop_last()[k]).0
            != key by {
            assert(extra.drop_last()[k] == extra[k]);
        }
        last_value_absent(extra.drop_last(), key);
    }
}

/// Whether no key stands twice.
pub open spec fn unique_keys(o: ObjectView) -> bool {
    forall|i: int, j: int|
        0 <= i < o.len() && 0 <= j < o.len() && (#[trigger] o[i]).0 == (#[trigger] o[j]).0 ==> i
            == j
}

/// Whether two objects have the same keys, in the same order.
pub open spec fn same_keys(a: ObjectView, b: ObjectView) -> bool {
    a.len() == b.len() && forall|i: int| 0 <= i < a.len() ==> (#[trigger] a[i]).0 == b[i].0
}

/// Whether an object has an entry under `key`.
pub open spec fn has_key(o: ObjectView, key: Seq<char>) -> bool {
    exists|i: int| 0 <= i < o.len() && (#[trigger] o[i]).0 == key
}

/// The value under a key is that of the first entry with it, and there is one if and
/// only if some entry has the key.
pub proof fn lookup_is_of_the_first(o: ObjectView, key: Seq<char>)
    ensures
        match lookup(o, key) {
            Some(v) => exists|i: int|
                0 <= i < o.len() && #[trigger] o[i] == (key, v) && counts(o, i),
            None => !has_key(o, key),
        },
    decreases o.len(),
{
    if o.len() > 0 {
        if o[0].0 == key {
            assert(o[0] == (key, o[0].1) && counts(o, 0));
        } else {
            let rest = o.drop_first();
            lookup_is_of_the_first(rest, key);
            match lookup(rest, key) {
                Some(v) => {
                    let i = choose|i: int|
                        0 <= i < rest.len() && #[trigger] rest[i] == (key, v) && counts(rest, i);
                    assert(o[i + 1] == rest[i]);
                    assert forall|k: int| 0 <= k < i + 1 implies (#[trigger] o[k]).0 != o[i
                        + 1].0 by {
                        if k > 0 {
                            assert(rest[k - 1] == o[k]);
                        }
                    }
                    assert(counts(o, i + 1));
                },
                None => {
                    if has_key(o, key) {
                        let i = choose|i: int| 0 <= i < o.len() && (#[trigger] o[i]).0 == key;
                        assert(rest[i - 1].0 == key);
                    }
                },
            }
        }
    }
}

/// An entry that counts is the one that is found.
pub proof fn entry_that_counts_is_found(o: ObjectView, i: int)
    requires
        0 <= i < o.len(),
        counts(o, i),
    ensures
        lookup(o, o[i].0) == Some(o[i].1),
    decreases o.len(),
{
    if i > 0 {
        assert(o[0].0 != o[i].0);
        let rest = o.drop_first();
        assert forall|k: int| 0 <= k < i - 1 implies (#[trigger] rest[k]).0 != rest[i - 1].0 by {
            assert(rest[k] == o[k + 1]);
        }
        entry_that_counts_is_found(rest, i - 1);
    }
}

/// Where no key stands twice, every entry is found.
pub proof fn unique_entry_is_found(o: ObjectView, i: int)
    requires
        unique_keys(o),
        0 <= i < o.len(),
    ensures
        lookup(o, o[i].0) == Some(o[i].1),
{
    entry_that_counts_is_found(o, i);
}

/// Putting a value under a key that an object has keeps its keys.
pub proof fn put_keeps_keys(o: ObjectView, key: Seq<char>, value: JsonView)
    requires
        has_key(o, key),
    ensures
        same_keys(o, put(o, key, value)),
    decreases o.len(),
{
    if o[0].0 != key {
        let i = choose|i: int| 0 <= i < o.len() && (#[trigger] o[i]).0 == key;
        let rest = o.drop_first();
        assert(rest[i - 1].0 == key);
        put_keeps_keys(rest, key, value);
        let r = put(o, key, value);
        assert forall|k: int| 0 <= k < o.len() implies (#[trigger] o[k]).0 == r[k].0 by {
            if k > 0 {
                assert(rest[k - 1] == o[k]);
            }
        }
    }
}

/// Extending an object under keys that it has keeps its keys.
pub proof fn extended_keeps_keys(o: ObjectView, extra: ObjectView)
    requires
        forall|k: int| 0 <= k < extra.len() ==> has_key(o, (#[trigger] extra[k]).0),
    ensures
        same_keys(o, extended(o, extra)),
    decreases extra.len(),
{
    if extra.len() > 0 {
        let init = extra.drop_last();
        assert forall|k: int| 0 <= k < init.len() implies has_key(o, (#[trigger] init[k]).0) by {
            assert(init[k] == extra[k]);
        }
        extended_keeps_keys(o, init);
        let last = extra[extra.len() - 1];
        assert(has_key(o, last.0));
        let i = choose|i: int| 0 <= i < o.len() && (#[trigger] o[i]).0 == last.0;
        let before = extended(o, init);
        assert(before[i].0 == last.0);
        put_keeps_keys(before, last.0, last.1);
    }
}

proof fn put_appends(o: ObjectView, key: Seq<char>, value: JsonView)
    requires
        !has_key(o, key),
    ensures
        put(o, key, value) == o.push((key, value)),
    decreases o.len(),
{
    if o.len() > 0 {
        assert(o[0].0 != key);
        let rest = o.drop_first();
        if has_key(rest, key) {
            let i = choose|i: int| 0 <= i < rest.len() && (#[trigger] rest[i]).0 == key;
            assert(o[i + 1].0 == key);
        }
        put_appends(rest, key, value);
        assert(put(o, key, value) =~= o.push((key, value)));
    } else {
        assert(put(o, key, value) =~= o.push((key, value)));
    }
}

/// In an object in which no key stands twice, none does after a value was put in.
pub proof fn put_keeps_keys_unique(o: ObjectView, key: Seq<char>, value: JsonView)
    requires
        unique_keys(o),
    ensures
        unique_keys(put(o, key, value)),
{
    let r = put(o, key, value);
    if has_key(o, key) {
        put_keeps_keys(o, key, value);
        assert forall|i: int, j: int|
            0 <= i < r.len() && 0 <= j < r.len() && (#[trigger] r[i]).0 == (
            #[trigger] r[j]).0 implies i == j by {
            assert(o[i].0 == o[j].0);
        }
    } else {
        put_appends(o, key, value);
        assert forall|i: int, j: int|
            0 <= i < r.len() && 0 <= j < r.len() && (#[trigger] r[i]).0 == (
            #[trigger] r[j]).0 implies i == j by {
            if i < o.len() {
                assert(o[i].0 != key);
            }
            if j < o.len() {
                assert(o[j].0 != key);
            }
        }
    }
}

/// In an object in which no key stands twice, none does after it was extended.
pub proof fn extended_keeps_keys_unique(o: ObjectView, extra: ObjectView)
    requires
        unique_keys(o),
    ensures
        unique_keys(extended(o, extra)),
    decreases extra.len(),
{
    if extra.len() > 0 {
        extended_keeps_keys_unique(o, extra.drop_last());
        put_keeps_keys_unique(extended(o, extra.drop_last()), extra.last().0, extra.last().1);
    }
}

/// Every value is the same as itself.
pub proof fn value_is_itself(a: JsonView)
    ensures
        alike(a, a),
    decreases a,
{
    match a {
        JsonView::Array(x) => {
            assert forall|i: int| 0 <= i < x.len() implies alike(#[trigger] x[i], x[i]) by {
                value_is_itself(x[i]);
            }
        },
        JsonView::Object(x) => {
            object_with_the_same_values_is_alike(x, x);
        },
        _ => {},
    }
}

/// The order of the entries makes no difference: objects that have the same under
/// every key are the same.
pub proof fn object_with_the_same_values_is_alike(a: ObjectView, b: ObjectView)
    requires
        forall|key: Seq<char>| #[trigger] lookup(a, key) == lookup(b, key),
    ensures
        entries_alike(a, b),
        alike(JsonView::Object(a), JsonView::Object(b)),
    decreases a,
{
    assert forall|i: int| #![trigger a[i]] 0 <= i < a.len() && counts(a, i) implies (lookup(
        b,
        a[i].0,
    ) matches Some(v) && alike(a[i].1, v)) by {
        entry_that_counts_is_found(a, i);
        assert(decreases_to!(a => a[i]));
        value_is_itself(a[i].1);
    }
    assert forall|i: int| 0 <= i < b.len() implies lookup(a, (#[trigger] b[i]).0) is Some by {
        lookup_is_of_the_first(b, b[i].0);
        assert(has_key(b, b[i].0));
    }
}

/// Which of two values comes first makes no difference to whether they are the same.
pub proof fn alike_both_ways(a: JsonView, b: JsonView)
    requires
        alike(a, b),
    ensures
        alike(b, a),
    decreases a,
{
    match (a, b) {
        (JsonView::Array(x), JsonView::Array(y)) => {
            assert forall|i: int| 0 <= i < y.len() implies alike(#[trigger] y[i], x[i]) by {
                assert(alike(x[i], y[i]));
                alike_both_ways(x[i], y[i]);
            }
        },
        (JsonView::Object(x), JsonView::Object(y)) => {
            assert forall|j: int| #![trigger y[j]] 0 <= j < y.len() && counts(y, j) implies (lookup(
                x,
                y[j].0,
            ) matches Some(v) && alike(y[j].1, v)) by {
                entry_that_counts_is_found(y, j);
                lookup_is_of_the_first(x, y[j].0);
                let v = lookup(x, y[j].0)->0;
                let i = choose|i: int|
                    0 <= i < x.len() && #[trigger] x[i] == (y[j].0, v) && counts(x, i);
                assert(alike(x[i].1, y[j].1));
                assert(decreases_to!(x => x[i]));
                alike_both_ways(x[i].1, y[j].1);
            }
            assert forall|i: int| 0 <= i < x.len() implies lookup(y, (#[trigger] x[i]).0)
                is Some by {
                lookup_is_of_the_first(x, x[i].0);
                assert(has_key(x, x[i].0));
                let v = lookup(x, x[i].0)->0;
                let k = choose|k: int|
                    0 <= k < x.len() && #[trigger] x[k] == (x[i].0, v) && counts(x, k);
                assert(lookup(y, x[k].0) is Some);
            }
        },
        _ => {},
    }
}

} // verus!
