use crate::text::{same_text, texts};
use vstd::prelude::*;

verus! {

/// The digits of a JSON number that is no integer, as `serde_json` prints
/// them. Only reading a document makes one, and its digits read back as
/// the very number they were printed for.
#[derive(Debug, PartialEq, Eq)]
pub struct DecimalText {
    text: String,
}

/// A JSON number: an integer, or a number that is no integer.
#[derive(Debug, PartialEq, Eq)]
pub enum JsonNumber {
    Unsigned(u64),
    Signed(i64),
    Decimal(DecimalText),
}

/// The mathematical value of a [`JsonNumber`].
pub enum NumberModel {
    Integer(int),
    Decimal(Seq<char>),
}

/// The mathematical value of a JSON document: objects are maps from keys to
/// values, so two documents that differ only in the order of their fields
/// have the same model.
pub enum JsonModel {
    Null,
    Bool(bool),
    Number(NumberModel),
    Text(Seq<char>),
    Array(Seq<JsonModel>),
    Object(Map<Seq<char>, JsonModel>),
}

/// A JSON document.
#[derive(Debug, PartialEq, Eq)]
pub enum JsonValue {
    Null,
    Bool(bool),
    Number(JsonNumber),
    String(String),
    Array(Vec<JsonValue>),
    Object(JsonObject),
}

/// The fields of a JSON object. No key occurs twice.
#[derive(Debug, PartialEq, Eq)]
pub struct JsonObject {
    entries: Vec<(String, JsonValue)>,
}

impl JsonModel {
    /// The value stored under `key`, when `self` is an object that has it.
    pub open spec fn field(self, key: Seq<char>) -> Option<JsonModel> {
        match self {
            JsonModel::Object(fields) => if fields.dom().contains(key) {
                Some(fields[key])
            } else {
                None
            },
            _ => None,
        }
    }

    /// The characters of a JSON string.
    pub open spec fn text(self) -> Option<Seq<char>> {
        match self {
            JsonModel::Text(t) => Some(t),
            _ => None,
        }
    }

    /// The text stored under `key`, when that field exists and is a string.
    pub open spec fn text_field(self, key: Seq<char>) -> Option<Seq<char>> {
        match self.field(key) {
            Some(v) => v.text(),
            None => None,
        }
    }

    /// The elements of a JSON array.
    pub open spec fn items(self) -> Option<Seq<JsonModel>> {
        match self {
            JsonModel::Array(items) => Some(items),
            _ => None,
        }
    }

    /// Whether a field can be stored in `self`: only in an object, or in
    /// `null`, which then becomes an object.
    pub open spec fn takes_fields(self) -> bool {
        self is Null || self is Object
    }

    /// `self` with `value` stored under `key`.
    pub open spec fn with_field(self, key: Seq<char>, value: JsonModel) -> JsonModel {
        match self {
            JsonModel::Object(fields) => JsonModel::Object(fields.insert(key, value)),
            JsonModel::Null => JsonModel::Object(Map::empty().insert(key, value)),
            _ => self,
        }
    }
}

/// The models of a sequence of documents, element by element.
pub open spec fn models(items: Seq<JsonValue>) -> Seq<JsonModel> {
    Seq::new(items.len(), |i: int| items[i]@)
}

impl View for DecimalText {
    type V = Seq<char>;

    closed spec fn view(&self) -> Seq<char> {
        self.text@
    }
}

impl Clone for DecimalText {
    fn clone(&self) -> (r: Self)
        ensures
            r@ == self@,
    {
        proof {
            use_type_invariant(self);
        }
        DecimalText { text: self.text.clone() }
    }
}

impl DecimalText {
    /// The digits read back as the number that is written with them.
    #[verifier::type_invariant]
    closed spec fn reads_back(self) -> bool {
        read_number(self.text@) == Some(NumberModel::Decimal(self.text@))
    }

    /// The digits of the number.
    pub fn as_str(&self) -> (r: &str)
        ensures
            r@ == self@,
    {
        self.text.as_str()
    }
}

impl View for JsonNumber {
    type V = NumberModel;

    open spec fn view(&self) -> NumberModel {
        match self {
            JsonNumber::Unsigned(u) => NumberModel::Integer(*u as int),
            JsonNumber::Signed(i) => NumberModel::Integer(*i as int),
            JsonNumber::Decimal(t) => NumberModel::Decimal(t@),
        }
    }
}

impl Clone for JsonNumber {
    fn clone(&self) -> (r: Self)
        ensures
            r@ == self@,
    {
        match self {
            JsonNumber::Unsigned(u) => JsonNumber::Unsigned(*u),
            JsonNumber::Signed(i) => JsonNumber::Signed(*i),
            JsonNumber::Decimal(t) => JsonNumber::Decimal(t.clone()),
        }
    }
}

impl View for JsonObject {
    type V = Map<Seq<char>, JsonModel>;

    open spec fn view(&self) -> Map<Seq<char>, JsonModel> {
        self.fields()
    }
}

impl View for JsonValue {
    type V = JsonModel;

    open spec fn view(&self) -> JsonModel {
        self.model()
    }
}

impl JsonValue {
    /// The mathematical value of `self`.
    pub open spec fn model(&self) -> JsonModel
        decreases self,
    {
        match self {
            JsonValue::Null => JsonModel::Null,
            JsonValue::Bool(b) => JsonModel::Bool(*b),
            JsonValue::Number(n) => JsonModel::Number(n@),
            JsonValue::String(s) => JsonModel::Text(s@),
            JsonValue::Array(items) => JsonModel::Array(
                Seq::new(
                    items.len() as nat,
                    |i: int|
                        if 0 <= i < items.len() {
                            items[i].model()
                        } else {
                            JsonModel::Null
                        },
                ),
            ),
            JsonValue::Object(o) => JsonModel::Object(o.fields()),
        }
    }
}

impl JsonObject {
    /// The fields of `self`: each key with the model of its value.
    pub closed spec fn fields(&self) -> Map<Seq<char>, JsonModel>
        decreases self,
    {
        Map::new(
            |key: Seq<char>| exists|i: int| self.holds(i, key),
            |key: Seq<char>|
                {
                    let i = choose|i: int| self.holds(i, key);
                    if 0 <= i < self.entries.len() {
                        self.entries[i].1.model()
                    } else {
                        JsonModel::Null
                    }
                },
        )
    }

    /// Entry `i` exists and has the key `key`.
    closed spec fn holds(self, i: int, key: Seq<char>) -> bool {
        0 <= i < self.entries.len() && self.entries[i].0@ == key
    }

    #[verifier::type_invariant]
    closed spec fn distinct_keys(self) -> bool {
        forall|i: int, j: int|
            0 <= i < j < self.entries.len() ==> self.entries[i].0@ != self.entries[j].0@
    }

    /// Each entry is found in the view under its key.
    proof fn lemma_entry(self, i: int)
        requires
            self.distinct_keys(),
            0 <= i < self.entries.len(),
        ensures
            self@.dom().contains(self.entries[i].0@),
            self@[self.entries[i].0@] == self.entries[i].1@,
    {
        let key = self.entries[i].0@;
        assert(self.holds(i, key));
        let c = choose|c: int| self.holds(c, key);
        assert(self.holds(c, key));
        assert(c == i);
    }

    /// An object without fields.
    pub fn new() -> (r: Self)
        ensures
            r@ == Map::<Seq<char>, JsonModel>::empty(),
    {
        let r = JsonObject { entries: Vec::new() };
        assert(r@ =~= Map::<Seq<char>, JsonModel>::empty());
        r
    }

    /// The position of the entry with the key `key`.
    fn position(&self, key: &str) -> (r: Option<usize>)
        ensures
            match r {
                Some(i) => self.holds(i as int, key@),
                None => forall|i: int| !self.holds(i, key@),
            },
    {
        let mut i: usize = 0;
        while i < self.entries.len()
            invariant
                i <= self.entries.len(),
                forall|j: int| 0 <= j < i ==> !self.holds(j, key@),
            decreases self.entries.len() - i,
        {
            if same_text(self.entries[i].0.as_str(), key) {
                return Some(i);
            }
            i += 1;
        }
        None
    }

    /// The value stored under `key`.
    pub fn get(&self, key: &str) -> (r: Option<&JsonValue>)
        ensures
            match r {
                Some(v) => self@.dom().contains(key@) && self@[key@] == v@,
                None => !self@.dom().contains(key@),
            },
    {
        proof {
            use_type_invariant(self);
        }
        match self.position(key) {
            Some(i) => {
                proof {
                    self.lemma_entry(i as int);
                }
                Some(&self.entries[i].1)
            },
            None => None,
        }
    }

    /// The keys of the fields, each once.
    pub fn keys(&self) -> (r: Vec<String>)
        ensures
            texts(r@).no_duplicates(),
            forall|key: Seq<char>| texts(r@).contains(key) <==> self@.dom().contains(key),
    {
        proof {
            use_type_invariant(self);
        }
        let mut keys: Vec<String> = Vec::new();
        let mut i: usize = 0;
        while i < self.entries.len()
            invariant
                i <= self.entries.len(),
                keys.len() == i,
                forall|j: int| 0 <= j < i ==> keys[j]@ == self.entries[j].0@,
            decreases self.entries.len() - i,
        {
            keys.push(self.entries[i].0.clone());
            i += 1;
        }
        proof {
            let t = texts(keys@);
            assert forall|a: int, b: int| 0 <= a < t.len() && 0 <= b < t.len() && a != b implies t[a]
                != t[b] by {
                if a < b {
                    assert(self.entries[a].0@ != self.entries[b].0@);
                } else {
                    assert(self.entries[b].0@ != self.entries[a].0@);
                }
            }
            assert forall|key: Seq<char>| t.contains(key) <==> self@.dom().contains(key) by {
                if t.contains(key) {
                    let j = choose|j: int| 0 <= j < t.len() && t[j] == key;
                    assert(self.holds(j, key));
                }
                if self@.dom().contains(key) {
                    let j = choose|j: int| self.holds(j, key);
                    assert(self.holds(j, key));
                    assert(t[j] == key);
                }
            }
        }
        keys
    }

    /// Adds a field whose key `self` does not have yet.
    fn append(&mut self, key: String, value: JsonValue)
        requires
            !old(self)@.dom().contains(key@),
        ensures
            final(self)@ == old(self)@.insert(key@, value@),
            final(self).entries@ == old(self).entries@.push((key, value)),
    {
        proof {
            use_type_invariant(&*self);
        }
        let ghost before = *self;
        let mut entries: Vec<(String, JsonValue)> = Vec::new();
        core::mem::swap(&mut self.entries, &mut entries);
        entries.push((key, value));
        proof {
            assert forall|a: int, b: int| 0 <= a < b < entries.len() implies entries[a].0@
                != entries[b].0@ by {
                assert(before.holds(a, before.entries[a].0@));
                if b < before.entries.len() {
                    assert(before.holds(b, before.entries[b].0@));
                }
            }
        }
        self.entries = entries;
        proof {
            let after = *self;
            let last = before.entries.len() as int;
            assert(after.holds(last, key@));
            after.lemma_entry(last);
            assert forall|k: Seq<char>| #[trigger]
                after@.dom().contains(k) == before@.insert(key@, value@).dom().contains(k) by {
                if after@.dom().contains(k) && k != key@ {
                    let i = choose|i: int| after.holds(i, k);
                    assert(after.holds(i, k));
                    assert(before.holds(i, k));
                }
                if before@.dom().contains(k) {
                    let i = choose|i: int| before.holds(i, k);
                    assert(before.holds(i, k));
                    assert(after.holds(i, k));
                }
            }
            assert forall|k: Seq<char>| #[trigger] after@.dom().contains(k) implies after@[k]
                == before@.insert(key@, value@)[k] by {
                if k != key@ {
                    let i = choose|i: int| after.holds(i, k);
                    assert(after.holds(i, k));
                    assert(before.holds(i, k));
                    after.lemma_entry(i);
                    before.lemma_entry(i);
                }
            }
            assert(after@ =~= before@.insert(key@, value@));
        }
    }

    /// Stores `value` under `key`, in place of what was stored there.
    pub fn insert(&mut self, key: &str, value: JsonValue)
        ensures
            final(self)@ == old(self)@.insert(key@, value@),
    {
        proof {
            use_type_invariant(&*self);
        }
        let ghost before = *self;
        let found = self.position(key);
        let mut entries: Vec<(String, JsonValue)> = Vec::new();
        core::mem::swap(&mut self.entries, &mut entries);
        match found {
            Some(i) => {
                entries.set(i, (key.to_owned(), value));
            },
            None => {
                entries.push((key.to_owned(), value));
            },
        }
        proof {
            assert forall|a: int, b: int| 0 <= a < b < entries.len() implies entries[a].0@
                != entries[b].0@ by {
                assert(before.holds(a, before.entries[a].0@));
                if b < before.entries.len() {
                    assert(before.holds(b, before.entries[b].0@));
                }
            }
        }
        self.entries = entries;
        proof {
            let after = *self;
            assert(after.distinct_keys());
            assert forall|k: Seq<char>| #[trigger]
                after@.dom().contains(k) == before@.insert(key@, value@).dom().contains(k) by {
                if after@.dom().contains(k) {
                    let i = choose|i: int| after.holds(i, k);
                    assert(after.holds(i, k));
                    if k != key@ {
                        assert(before.holds(i, k));
                    }
                }
                if before@.dom().contains(k) {
                    let i = choose|i: int| before.holds(i, k);
                    assert(before.holds(i, k));
                    assert(after.holds(i, k));
                }
                if k == key@ {
                    match found {
                        Some(i) => {
                            assert(after.holds(i as int, k));
                        },
                        None => {
                            assert(after.holds(before.entries.len() as int, k));
                        },
                    }
                }
            }
            assert forall|k: Seq<char>| #[trigger] after@.dom().contains(k) implies after@[k]
                == before@.insert(key@, value@)[k] by {
                let i = choose|i: int| after.holds(i, k);
                assert(after.holds(i, k));
                after.lemma_entry(i);
                if k != key@ {
                    assert(before.holds(i, k));
                    before.lemma_entry(i);
                } else {
                    match found {
                        Some(p) => {
                            assert(after.holds(p as int, k));
                            assert(i == p);
                        },
                        None => {
                            assert(after.holds(before.entries.len() as int, k));
                            assert(i == before.entries.len());
                        },
                    }
                }
            }
            assert(after@ =~= before@.insert(key@, value@));
        }
    }

    /// A deep copy of `self`.
    fn copy_entries(&self) -> (r: Self)
        ensures
            r@ == self@,
        decreases self, 0nat,
    {
        proof {
            use_type_invariant(self);
        }
        let mut entries: Vec<(String, JsonValue)> = Vec::new();
        let mut i: usize = 0;
        while i < self.entries.len()
            invariant
                self.distinct_keys(),
                i <= self.entries.len(),
                entries.len() == i,
                forall|j: int|
                    0 <= j < i ==> entries[j].0@ == self.entries[j].0@ && entries[j].1@
                        == self.entries[j].1@,
            decreases self.entries.len() - i,
        {
            let key = self.entries[i].0.clone();
            let value = self.entries[i].1.copy();
            entries.push((key, value));
            i += 1;
        }
        let r = JsonObject { entries };
        proof {
            assert forall|k: Seq<char>| #[trigger] r@.dom().contains(k) == self@.dom().contains(
                k,
            ) by {
                if r@.dom().contains(k) {
                    let i = choose|i: int| r.holds(i, k);
                    assert(r.holds(i, k));
                    assert(self.holds(i, k));
                }
                if self@.dom().contains(k) {
                    let i = choose|i: int| self.holds(i, k);
                    assert(self.holds(i, k));
                    assert(r.holds(i, k));
                }
            }
            assert forall|k: Seq<char>| #[trigger] r@.dom().contains(k) implies r@[k] == self@[k] by {
                let i = choose|i: int| r.holds(i, k);
                assert(r.holds(i, k));
                r.lemma_entry(i);
                self.lemma_entry(i);
            }
            assert(r@ =~= self@);
        }
        r
    }
}

impl JsonNumber {
    /// Whether `self` and `other` are the same number. An integer is the
    /// same in both of its forms; a number that is no integer is the same
    /// as another if they have the same digits.
    pub fn same_as(&self, other: &JsonNumber) -> (r: bool)
        ensures
            r == (self@ == other@),
    {
        match (self, other) {
            (JsonNumber::Unsigned(a), JsonNumber::Unsigned(b)) => *a == *b,
            (JsonNumber::Signed(a), JsonNumber::Signed(b)) => *a == *b,
            (JsonNumber::Unsigned(a), JsonNumber::Signed(b)) => *b >= 0 && *a == *b as u64,
            (JsonNumber::Signed(a), JsonNumber::Unsigned(b)) => *a >= 0 && *b == *a as u64,
            (JsonNumber::Decimal(a), JsonNumber::Decimal(b)) => same_text(a.as_str(), b.as_str()),
            _ => false,
        }
    }
}

impl JsonObject {
    /// Whether every key of `self` is a key of `other`.
    fn keys_within(&self, other: &JsonObject) -> (r: bool)
        ensures
            r == self@.dom().subset_of(other@.dom()),
    {
        proof {
            use_type_invariant(self);
        }
        let mut i: usize = 0;
        while i < self.entries.len()
            invariant
                self.distinct_keys(),
                i <= self.entries.len(),
                forall|j: int| 0 <= j < i ==> other@.dom().contains(self.entries[j].0@),
            decreases self.entries.len() - i,
        {
            if other.get(self.entries[i].0.as_str()).is_none() {
                proof {
                    self.lemma_entry(i as int);
                }
                return false;
            }
            i += 1;
        }
        proof {
            assert forall|k: Seq<char>| self@.dom().contains(k) implies other@.dom().contains(k) by {
                let j = choose|j: int| self.holds(j, k);
                assert(self.holds(j, k));
            }
        }
        true
    }

    /// Whether every field of `self` is a field of `other`, with the same
    /// value.
    fn fields_within(&self, other: &JsonObject) -> (r: bool)
        ensures
            r == (forall|k: Seq<char>| #[trigger]
                self@.dom().contains(k) ==> other@.dom().contains(k) && self@[k] == other@[k]),
        decreases self, 0nat,
    {
        proof {
            use_type_invariant(self);
        }
        let mut i: usize = 0;
        while i < self.entries.len()
            invariant
                self.distinct_keys(),
                i <= self.entries.len(),
                forall|j: int|
                    0 <= j < i ==> other@.dom().contains(self.entries[j].0@) && other@[self.entries[j].0@]
                        == self.entries[j].1@,
            decreases self.entries.len() - i,
        {
            proof {
                self.lemma_entry(i as int);
            }
            let same = match other.get(self.entries[i].0.as_str()) {
                Some(value) => self.entries[i].1.same_as(value),
                None => false,
            };
            if !same {
                return false;
            }
            i += 1;
        }
        proof {
            assert forall|k: Seq<char>| self@.dom().contains(k) implies other@.dom().contains(k)
                && self@[k] == other@[k] by {
                let j = choose|j: int| self.holds(j, k);
                assert(self.holds(j, k));
                self.lemma_entry(j);
            }
        }
        true
    }

    /// Whether `self` and `other` have the same fields, in whatever order.
    pub fn same_as(&self, other: &JsonObject) -> (r: bool)
        ensures
            r == (self@ == other@),
        decreases self, 1nat,
    {
        let r = self.fields_within(other) && other.keys_within(self);
        proof {
            if r {
                assert forall|k: Seq<char>| self@.dom().contains(k) == other@.dom().contains(k) by {
                    if other@.dom().contains(k) {
                        assert(other@.dom().subset_of(self@.dom()));
                    }
                }
                assert forall|k: Seq<char>| self@.dom().contains(k) implies self@[k] == other@[k] by {}
                assert(self@ =~= other@);
            }
        }
        r
    }
}

impl JsonValue {
    /// Whether `self` and `other` are the same document: the same values in
    /// the same places, whatever the order of the fields of their objects
    /// and whatever the form of their integers.
    pub fn same_as(&self, other: &JsonValue) -> (r: bool)
        ensures
            r == (self@ == other@),
        decreases self, 2nat,
    {
        match (self, other) {
            (JsonValue::Null, JsonValue::Null) => true,
            (JsonValue::Bool(a), JsonValue::Bool(b)) => *a == *b,
            (JsonValue::Number(a), JsonValue::Number(b)) => a.same_as(b),
            (JsonValue::String(a), JsonValue::String(b)) => same_text(a.as_str(), b.as_str()),
            (JsonValue::Array(a), JsonValue::Array(b)) => {
                if a.len() != b.len() {
                    assert(self@->Array_0.len() != other@->Array_0.len());
                    return false;
                }
                let mut i: usize = 0;
                while i < a.len()
                    invariant
                        self is Array,
                        other is Array,
                        self->Array_0 == *a,
                        other->Array_0 == *b,
                        a.len() == b.len(),
                        i <= a.len(),
                        forall|j: int| 0 <= j < i ==> a[j]@ == b[j]@,
                    decreases a.len() - i,
                {
                    proof {
                        assert(decreases_to!(*self => self->Array_0));
                    }
                    if !a[i].same_as(&b[i]) {
                        assert(self@->Array_0[i as int] != other@->Array_0[i as int]);
                        return false;
                    }
                    i += 1;
                }
                assert(self@->Array_0 =~= other@->Array_0);
                true
            },
            (JsonValue::Object(a), JsonValue::Object(b)) => a.same_as(b),
            _ => false,
        }
    }

    /// A deep copy of `self`.
    fn copy(&self) -> (r: Self)
        ensures
            r@ == self@,
        decreases self, 1nat,
    {
        match self {
            JsonValue::Null => JsonValue::Null,
            JsonValue::Bool(b) => JsonValue::Bool(*b),
            JsonValue::Number(n) => JsonValue::Number(n.clone()),
            JsonValue::String(s) => JsonValue::String(s.clone()),
            JsonValue::Array(items) => {
                let mut out: Vec<JsonValue> = Vec::new();
                let mut i: usize = 0;
                while i < items.len()
                    invariant
                        self is Array,
                        self->Array_0 == *items,
                        i <= items.len(),
                        out.len() == i,
                        forall|j: int| 0 <= j < i ==> out[j]@ == items[j]@,
                    decreases items.len() - i,
                {
                    proof {
                        assert(decreases_to!(*self => self->Array_0));
                    }
                    let item = items[i].copy();
                    out.push(item);
                    i += 1;
                }
                let r = JsonValue::Array(out);
                assert(r@->Array_0 =~= self@->Array_0);
                r
            },
            JsonValue::Object(o) => JsonValue::Object(o.copy_entries()),
        }
    }

    /// The JSON string with the characters of `text`.
    pub fn text(text: &str) -> (r: Self)
        ensures
            r@ == JsonModel::Text(text@),
    {
        JsonValue::String(text.to_owned())
    }

    /// The JSON array of `items`.
    pub fn array(items: Vec<JsonValue>) -> (r: Self)
        ensures
            r@ == JsonModel::Array(models(items@)),
    {
        let r = JsonValue::Array(items);
        assert(r@->Array_0 =~= models(items@));
        r
    }

    /// The JSON object with the fields of `fields`.
    pub fn object(fields: JsonObject) -> (r: Self)
        ensures
            r@ == JsonModel::Object(fields@),
    {
        JsonValue::Object(fields)
    }

    /// The JSON number `i`, in the form in which a parsed document holds
    /// it: unsigned unless it is negative.
    pub fn integer(i: i64) -> (r: Self)
        ensures
            r@ == JsonModel::Number(NumberModel::Integer(i as int)),
            i >= 0 ==> r == JsonValue::Number(JsonNumber::Unsigned(i as u64)),
            i < 0 ==> r == JsonValue::Number(JsonNumber::Signed(i)),
    {
        if i >= 0 {
            JsonValue::Number(JsonNumber::Unsigned(i as u64))
        } else {
            JsonValue::Number(JsonNumber::Signed(i))
        }
    }

    /// The value stored under `key`, when `self` is an object that has it.
    pub fn get(&self, key: &str) -> (r: Option<&JsonValue>)
        ensures
            match r {
                Some(v) => self@.field(key@) == Some(v@),
                None => self@.field(key@) is None,
            },
    {
        match self {
            JsonValue::Object(o) => o.get(key),
            _ => None,
        }
    }

    /// The characters of `self`, when it is a JSON string.
    pub fn as_str(&self) -> (r: Option<&str>)
        ensures
            match r {
                Some(t) => self@.text() == Some(t@),
                None => self@.text() is None,
            },
    {
        match self {
            JsonValue::String(s) => Some(s.as_str()),
            _ => None,
        }
    }

    /// The elements of `self`, when it is a JSON array.
    pub fn as_array(&self) -> (r: Option<&Vec<JsonValue>>)
        ensures
            match r {
                Some(items) => self@.items() == Some(models(items@)),
                None => self@.items() is None,
            },
    {
        match self {
            JsonValue::Array(items) => {
                proof {
                    assert(self@->Array_0 =~= models(items@));
                }
                Some(items)
            },
            _ => None,
        }
    }

    /// The text stored under `key`, when that field exists and is a string.
    pub fn text_field(&self, key: &str) -> (r: Option<&str>)
        ensures
            match r {
                Some(t) => self@.text_field(key@) == Some(t@),
                None => self@.text_field(key@) is None,
            },
    {
        match self.get(key) {
            Some(v) => v.as_str(),
            None => None,
        }
    }

    /// Stores `value` under `key` where `self` takes fields, and says
    /// whether it did: `null` becomes an object with that one field, an
    /// object gets or replaces the field, anything else stays as it is.
    pub fn set_field(&mut self, key: &str, value: JsonValue) -> (stored: bool)
        ensures
            stored == old(self)@.takes_fields(),
            final(self)@ == old(self)@.with_field(key@, value@),
    {
        match self {
            JsonValue::Object(o) => {
                o.insert(key, value);
                true
            },
            JsonValue::Null => {
                let mut o = JsonObject::new();
                o.insert(key, value);
                *self = JsonValue::Object(o);
                true
            },
            _ => false,
        }
    }
}

/// A deep copy of `items`.
pub fn copy_items(items: &Vec<JsonValue>) -> (r: Vec<JsonValue>)
    ensures
        models(r@) == models(items@),
{
    let mut out: Vec<JsonValue> = Vec::new();
    let mut i: usize = 0;
    while i < items.len()
        invariant
            i <= items.len(),
            out.len() == i,
            forall|j: int| 0 <= j < i ==> out[j]@ == items[j]@,
        decreases items.len() - i,
    {
        out.push(items[i].clone());
        i += 1;
    }
    assert(models(out@) =~= models(items@));
    out
}

impl Clone for JsonObject {
    fn clone(&self) -> (r: Self)
        ensures
            r@ == self@,
    {
        self.copy_entries()
    }
}

impl Clone for JsonValue {
    fn clone(&self) -> (r: Self)
        ensures
            r@ == self@,
    {
        self.copy()
    }
}


/// `serde_json::Value`, carried between the calls into `serde_json`.
#[verifier::external_type_specification]
#[verifier::external_body]
pub struct ExValue(serde_json::Value);

/// `serde_json::Number`, carried between the calls into `serde_json`.
#[verifier::external_type_specification]
#[verifier::external_body]
pub struct ExNumber(serde_json::Number);

/// The document that a `serde_json::Value` holds: its arrays as sequences
/// and its objects as maps.
pub uninterp spec fn document(v: serde_json::Value) -> JsonModel;

/// The number that a `serde_json::Number` holds: an integer by its value,
/// any other number by the digits that `serde_json` prints for it.
pub uninterp spec fn number_value(n: serde_json::Number) -> NumberModel;

/// How deep the arrays and objects of a `serde_json::Value` are nested.
pub uninterp spec fn nesting(v: serde_json::Value) -> nat;

/// What `serde_json::from_str` makes of a text that is to be one
/// `serde_json::Number`: the number, or nothing where the text is none.
pub uninterp spec fn read_number(text: Seq<char>) -> Option<NumberModel>;

/// What `serde_json::from_str` makes of a text: the document it reads, or the
/// message of the error it reports.
pub uninterp spec fn parsed_document(text: Seq<char>) -> Result<JsonModel, Seq<char>>;

/// The compact text that `serde_json` prints for a document. The fields
/// of an object come in the order of their keys, so the text depends on
/// the fields alone.
pub uninterp spec fn json_text(doc: JsonModel) -> Seq<char>;

/// The outermost layer of a `serde_json::Value`: which variant it is, with
/// what the variant holds.
enum Shape<'a> {
    Null,
    Bool(bool),
    Number(&'a serde_json::Number),
    Text(&'a str),
    Array(Vec<&'a serde_json::Value>),
    Object(Vec<(&'a str, &'a serde_json::Value)>),
}

/// The outermost layer of a `serde_json::Value` that is to be made.
enum Parts {
    Null,
    Bool(bool),
    Number(serde_json::Number),
    Text(String),
    Array(Vec<serde_json::Value>),
    Object(Vec<(String, serde_json::Value)>),
}

/// Whether no key occurs twice among `keys`.
spec fn distinct(keys: Seq<Seq<char>>) -> bool {
    forall|i: int, j: int| 0 <= i < j < keys.len() ==> keys[i] != keys[j]
}

/// Whether `doc` is the object with the fields that `keys` and `values`
/// give, position by position.
spec fn is_object_of(doc: JsonModel, keys: Seq<Seq<char>>, values: Seq<JsonModel>) -> bool {
    &&& doc is Object
    &&& keys.len() == values.len()
    &&& forall|k: Seq<char>| (#[trigger] doc->Object_0.dom().contains(k)) <==> keys.contains(k)
    &&& forall|i: int| 0 <= i < keys.len() ==> doc->Object_0[#[trigger] keys[i]] == values[i]
}

impl<'a> Shape<'a> {
    /// The keys of the fields of an object, in the order of the layer.
    spec fn keys(self) -> Seq<Seq<char>> {
        Seq::new(self->Object_0@.len(), |i: int| self->Object_0[i].0@)
    }

    /// The documents of the fields of an object, in the order of the
    /// layer.
    spec fn values(self) -> Seq<JsonModel> {
        Seq::new(self->Object_0@.len(), |i: int| document(*self->Object_0[i].1))
    }

    /// The documents of the elements of an array.
    spec fn elements(self) -> Seq<JsonModel> {
        Seq::new(self->Array_0@.len(), |i: int| document(*self->Array_0[i]))
    }

    /// Whether `self` is the outermost layer of `doc`.
    spec fn is_layer_of(self, doc: JsonModel) -> bool {
        match self {
            Shape::Null => doc == JsonModel::Null,
            Shape::Bool(b) => doc == JsonModel::Bool(b),
            Shape::Number(n) => doc == JsonModel::Number(number_value(*n)),
            Shape::Text(t) => doc == JsonModel::Text(t@),
            Shape::Array(_) => doc == JsonModel::Array(self.elements()),
            Shape::Object(_) => distinct(self.keys()) && is_object_of(
                doc,
                self.keys(),
                self.values(),
            ),
        }
    }

    /// Whether everything that the layer holds is nested less deeply than
    /// `depth`.
    spec fn is_below(self, depth: nat) -> bool {
        match self {
            Shape::Array(items) => forall|i: int|
                0 <= i < items.len() ==> nesting(*#[trigger] items[i]) < depth,
            Shape::Object(fields) => forall|i: int|
                0 <= i < fields.len() ==> nesting(*(#[trigger] fields[i]).1) < depth,
            _ => true,
        }
    }
}

impl Parts {
    /// The keys of the fields of an object, in the order of the layer.
    spec fn keys(self) -> Seq<Seq<char>> {
        Seq::new(self->Object_0@.len(), |i: int| self->Object_0[i].0@)
    }

    /// The documents of the fields of an object, in the order of the
    /// layer.
    spec fn values(self) -> Seq<JsonModel> {
        Seq::new(self->Object_0@.len(), |i: int| document(self->Object_0[i].1))
    }

    /// The documents of the elements of an array.
    spec fn elements(self) -> Seq<JsonModel> {
        Seq::new(self->Array_0@.len(), |i: int| document(self->Array_0[i]))
    }

    /// Whether `self` is the outermost layer of `doc`.
    spec fn is_layer_of(self, doc: JsonModel) -> bool {
        match self {
            Parts::Null => doc == JsonModel::Null,
            Parts::Bool(b) => doc == JsonModel::Bool(b),
            Parts::Number(n) => doc == JsonModel::Number(number_value(n)),
            Parts::Text(t) => doc == JsonModel::Text(t@),
            Parts::Array(_) => doc == JsonModel::Array(self.elements()),
            Parts::Object(_) => is_object_of(doc, self.keys(), self.values()),
        }
    }
}

/// Calls `serde_json::from_str` for a `serde_json::Value`. The contract only
/// names the outcome: the value read, or the text that the error's `Display`
/// writes.
#[verifier::external_body]
fn parse_outside(text: &str) -> (r: Result<serde_json::Value, String>)
    ensures
        match r {
            Ok(v) => parsed_document(text@) == Ok::<JsonModel, Seq<char>>(document(v)),
            Err(e) => parsed_document(text@) == Err::<JsonModel, Seq<char>>(e@),
        },
{
    match serde_json::from_str::<serde_json::Value>(text) {
        Ok(v) => Ok(v),
        Err(e) => Err(e.to_string()),
    }
}

/// Calls `to_string` of `serde_json::Value`, whose `Display` writes the
/// compact form. The contract only names the text.
#[verifier::external_body]
fn render_outside(v: &serde_json::Value) -> (s: String)
    ensures
        s@ == json_text(document(*v)),
{
    v.to_string()
}

/// Tells the variants of a `serde_json::Value` apart and hands out what
/// each holds: the elements of an array, and the fields of an object as its
/// map iterates over them. The contract says that this is the outermost
/// layer of the value's document, that no key of an object occurs twice,
/// and that what a value holds is nested less deeply than the value.
#[verifier::external_body]
fn shape_of<'a>(v: &'a serde_json::Value) -> (r: Shape<'a>)
    ensures
        r.is_layer_of(document(*v)),
        r.is_below(nesting(*v)),
{
    match v {
        serde_json::Value::Null => Shape::Null,
        serde_json::Value::Bool(b) => Shape::Bool(*b),
        serde_json::Value::Number(n) => Shape::Number(n),
        serde_json::Value::String(s) => Shape::Text(s.as_str()),
        serde_json::Value::Array(a) => Shape::Array(a.iter().collect()),
        serde_json::Value::Object(m) => Shape::Object(m.iter().map(|(k, x)| (k.as_str(), x)).collect()),
    }
}

/// Makes the `serde_json::Value` of a variant from what the variant holds;
/// the fields of an object are collected into its map. The contract says
/// that what is handed in is the outermost layer of the result's document;
/// it asks that no key of an object occurs twice, since the map would keep
/// only one of two such fields.
#[verifier::external_body]
fn value_of(parts: Parts) -> (r: serde_json::Value)
    requires
        parts is Object ==> distinct(parts.keys()),
    ensures
        parts.is_layer_of(document(r)),
{
    match parts {
        Parts::Null => serde_json::Value::Null,
        Parts::Bool(b) => serde_json::Value::Bool(b),
        Parts::Number(n) => serde_json::Value::Number(n),
        Parts::Text(s) => serde_json::Value::String(s),
        Parts::Array(a) => serde_json::Value::Array(a),
        Parts::Object(f) => serde_json::Value::Object(f.into_iter().collect()),
    }
}

/// Reads a `serde_json::Number` through `as_u64`, `as_i64` and `to_string`:
/// an integer keeps its value, any other number the digits that are printed
/// for it. The contract says that the result is the same number, and that
/// the digits printed for a number that is no integer read back as that
/// number: `serde_json` is built to read such digits back exactly.
#[verifier::external_body]
fn number_of(n: &serde_json::Number) -> (r: JsonNumber)
    ensures
        r@ == number_value(*n),
        r is Decimal ==> r->Decimal_0.reads_back(),
{
    match (n.as_u64(), n.as_i64()) {
        (Some(u), _) => JsonNumber::Unsigned(u),
        (None, Some(i)) => JsonNumber::Signed(i),
        (None, None) => JsonNumber::Decimal(DecimalText { text: n.to_string() }),
    }
}

/// Makes a `serde_json::Number` with `From` for `u64`. The contract says
/// that the result is that integer.
#[verifier::external_body]
fn number_from_unsigned(u: u64) -> (r: serde_json::Number)
    ensures
        number_value(r) == NumberModel::Integer(u as int),
{
    u.into()
}

/// Makes a `serde_json::Number` with `From` for `i64`. The contract says
/// that the result is that integer.
#[verifier::external_body]
fn number_from_signed(i: i64) -> (r: serde_json::Number)
    ensures
        number_value(r) == NumberModel::Integer(i as int),
{
    i.into()
}

/// Calls `serde_json::from_str` for a `serde_json::Number`. The contract
/// only names the outcome: the number read, or nothing where the text is
/// no number.
#[verifier::external_body]
fn number_read(text: &str) -> (r: Option<serde_json::Number>)
    ensures
        match r {
            Some(n) => read_number(text@) == Some(number_value(n)),
            None => read_number(text@) is None,
        },
{
    serde_json::from_str::<serde_json::Number>(text).ok()
}

/// The `serde_json::Number` that is the number `n`.
fn number_to(n: &JsonNumber) -> (r: serde_json::Number)
    ensures
        number_value(r) == n@,
{
    match n {
        JsonNumber::Unsigned(u) => number_from_unsigned(*u),
        JsonNumber::Signed(i) => number_from_signed(*i),
        JsonNumber::Decimal(d) => {
            proof {
                use_type_invariant(d);
            }
            match number_read(d.text.as_str()) {
                Some(number) => number,
                None => vstd::pervasive::unreached(),
            }
        },
    }
}

/// The library's copy of a `serde_json::Value`.
fn lift(v: &serde_json::Value) -> (r: JsonValue)
    ensures
        r@ == document(*v),
    decreases nesting(*v),
{
    let shape = shape_of(v);
    match shape {
        Shape::Null => JsonValue::Null,
        Shape::Bool(b) => JsonValue::Bool(b),
        Shape::Number(n) => JsonValue::Number(number_of(n)),
        Shape::Text(t) => JsonValue::String(t.to_owned()),
        Shape::Array(items) => {
            let mut out: Vec<JsonValue> = Vec::new();
            let mut i: usize = 0;
            while i < items.len()
                invariant
                    shape == Shape::Array(items),
                    shape.is_below(nesting(*v)),
                    i <= items.len(),
                    out.len() == i,
                    forall|j: int| 0 <= j < i ==> out[j]@ == document(*items[j]),
                decreases items.len() - i,
            {
                assert(nesting(*shape->Array_0[i as int]) < nesting(*v));
                out.push(lift(items[i]));
                i += 1;
            }
            let r = JsonValue::array(out);
            assert(r@->Array_0 =~= shape.elements());
            r
        },
        Shape::Object(fields) => {
            let mut o = JsonObject::new();
            let mut i: usize = 0;
            while i < fields.len()
                invariant
                    shape == Shape::Object(fields),
                    shape.is_below(nesting(*v)),
                    distinct(shape.keys()),
                    i <= fields.len(),
                    forall|k: Seq<char>|
                        o@.dom().contains(k) <==> exists|j: int|
                            0 <= j < i && #[trigger] shape.keys()[j] == k,
                    forall|j: int|
                        0 <= j < i ==> o@[#[trigger] shape.keys()[j]] == shape.values()[j],
                decreases fields.len() - i,
            {
                let key = fields[i].0.to_owned();
                let value = lift(fields[i].1);
                proof {
                    assert(shape.keys()[i as int] == key@);
                    assert(!o@.dom().contains(key@));
                }
                let ghost before = o@;
                o.append(key, value);
                proof {
                    assert forall|k: Seq<char>|
                        o@.dom().contains(k) <==> exists|j: int|
                            0 <= j < i + 1 && #[trigger] shape.keys()[j] == k by {
                        if o@.dom().contains(k) {
                            if k == key@ {
                                assert(shape.keys()[i as int] == k);
                            } else {
                                assert(before.dom().contains(k));
                            }
                        }
                    }
                }
                i += 1;
            }
            let r = JsonValue::object(o);
            proof {
                let doc = document(*v);
                assert forall|k: Seq<char>| o@.dom().contains(k) == doc->Object_0.dom().contains(
                    k,
                ) by {
                    if shape.keys().contains(k) {
                        let j = choose|j: int| 0 <= j < shape.keys().len() && shape.keys()[j] == k;
                        assert(shape.keys()[j] == k);
                    }
                }
                assert forall|k: Seq<char>| o@.dom().contains(k) implies o@[k]
                    == doc->Object_0[k] by {
                    let j = choose|j: int| 0 <= j < fields.len() && #[trigger] shape.keys()[j] == k;
                    assert(shape.keys()[j] == k);
                }
                assert(o@ =~= doc->Object_0);
            }
            r
        },
    }
}

/// The `serde_json::Value` with the document of `v`.
fn lower(v: &JsonValue) -> (r: serde_json::Value)
    ensures
        document(r) == v@,
    decreases v,
{
    match v {
        JsonValue::Null => value_of(Parts::Null),
        JsonValue::Bool(b) => value_of(Parts::Bool(*b)),
        JsonValue::Number(n) => value_of(Parts::Number(number_to(n))),
        JsonValue::String(s) => value_of(Parts::Text(s.clone())),
        JsonValue::Array(items) => {
            let mut out: Vec<serde_json::Value> = Vec::new();
            let mut i: usize = 0;
            while i < items.len()
                invariant
                    v is Array,
                    v->Array_0 == *items,
                    i <= items.len(),
                    out.len() == i,
                    forall|j: int| 0 <= j < i ==> document(out[j]) == items[j]@,
                decreases items.len() - i,
            {
                proof {
                    assert(decreases_to!(*v => v->Array_0));
                }
                out.push(lower(&items[i]));
                i += 1;
            }
            let parts = Parts::Array(out);
            let r = value_of(parts);
            assert(parts.elements() =~= v@->Array_0);
            r
        },
        JsonValue::Object(o) => {
            proof {
                use_type_invariant(o);
            }
            let mut out: Vec<(String, serde_json::Value)> = Vec::new();
            let mut i: usize = 0;
            while i < o.entries.len()
                invariant
                    v is Object,
                    v->Object_0 == *o,
                    o.distinct_keys(),
                    i <= o.entries.len(),
                    out.len() == i,
                    forall|j: int|
                        0 <= j < i ==> out[j].0@ == o.entries[j].0@ && document(out[j].1)
                            == o.entries[j].1@,
                decreases o.entries.len() - i,
            {
                proof {
                    assert(decreases_to!(*v => v->Object_0));
                    assert(decreases_to!(*o => o.entries));
                    assert(decreases_to!(o.entries => o.entries[i as int]));
                    assert(decreases_to!(o.entries[i as int] => o.entries[i as int].1));
                }
                let key = o.entries[i].0.clone();
                let value = lower(&o.entries[i].1);
                out.push((key, value));
                i += 1;
            }
            let parts = Parts::Object(out);
            proof {
                assert forall|a: int, b: int| 0 <= a < b < parts.keys().len() implies parts.keys()[a]
                    != parts.keys()[b] by {
                    assert(o.holds(a, o.entries[a].0@));
                    assert(o.holds(b, o.entries[b].0@));
                }
            }
            let r = value_of(parts);
            proof {
                let doc = document(r);
                assert forall|k: Seq<char>| o@.dom().contains(k) == doc->Object_0.dom().contains(
                    k,
                ) by {
                    if o@.dom().contains(k) {
                        let j = choose|j: int| o.holds(j, k);
                        assert(o.holds(j, k));
                        assert(parts.keys()[j] == k);
                    }
                    if parts.keys().contains(k) {
                        let j = choose|j: int| 0 <= j < parts.keys().len() && parts.keys()[j] == k;
                        assert(o.holds(j, k));
                    }
                }
                assert forall|k: Seq<char>| o@.dom().contains(k) implies o@[k]
                    == doc->Object_0[k] by {
                    let j = choose|j: int| o.holds(j, k);
                    assert(o.holds(j, k));
                    o.lemma_entry(j);
                    assert(parts.keys()[j] == k);
                    assert(parts.values()[j] == o.entries[j].1@);
                }
                assert(o@ =~= doc->Object_0);
            }
            r
        },
    }
}

impl JsonValue {
    /// Reads a JSON text: the document, or the message of the error.
    pub fn parse(text: &str) -> (r: Result<JsonValue, String>)
        ensures
            match r {
                Ok(v) => parsed_document(text@) == Ok::<JsonModel, Seq<char>>(v@),
                Err(e) => parsed_document(text@) == Err::<JsonModel, Seq<char>>(e@),
            },
    {
        match parse_outside(text) {
            Ok(v) => Ok(lift(&v)),
            Err(e) => Err(e),
        }
    }

    /// The compact JSON text of `self`.
    pub fn to_text(&self) -> (s: String)
        ensures
            s@ == json_text(self@),
    {
        let outside = lower(self);
        render_outside(&outside)
    }
}

} // verus!
