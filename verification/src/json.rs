use vstd::prelude::*;

verus! {

/// A JSON number as it arrived: a non-negative integer, a negative integer,
/// or any other number kept as its decimal text.
#[derive(Debug)]
pub enum Number {
    PosInt(u64),
    NegInt(i64),
    Float(String),
}

/// A JSON value, as carried in message payloads.
#[derive(Debug)]
pub enum Json {
    Null,
    Bool(bool),
    Number(Number),
    Str(String),
    Array(Vec<Json>),
    Object(Vec<(String, Json)>),
}

/// The mathematical value of a [`Number`].
pub enum NumberModel {
    PosInt(u64),
    NegInt(i64),
    Float(Seq<char>),
}

/// The mathematical value of a [`Json`].
pub enum JsonModel {
    Null,
    Bool(bool),
    Number(NumberModel),
    Str(Seq<char>),
    Array(Seq<JsonModel>),
    Object(Seq<(Seq<char>, JsonModel)>),
}

pub open spec fn number_model(n: Number) -> NumberModel {
    match n {
        Number::PosInt(u) => NumberModel::PosInt(u),
        Number::NegInt(i) => NumberModel::NegInt(i),
        Number::Float(t) => NumberModel::Float(t@),
    }
}

pub open spec fn json_model(j: Json) -> JsonModel
    decreases j,
{
    match j {
        Json::Null => JsonModel::Null,
        Json::Bool(b) => JsonModel::Bool(b),
        Json::Number(n) => JsonModel::Number(number_model(n)),
        Json::Str(s) => JsonModel::Str(s@),
        Json::Array(v) => JsonModel::Array(json_models(v@)),
        Json::Object(v) => JsonModel::Object(entry_models(v@)),
    }
}

pub open spec fn json_models(s: Seq<Json>) -> Seq<JsonModel>
    decreases s,
{
    if s.len() == 0 {
        Seq::empty()
    } else {
        json_models(s.subrange(0, s.len() - 1)).push(json_model(s[s.len() - 1]))
    }
}

pub open spec fn entry_models(s: Seq<(String, Json)>) -> Seq<(Seq<char>, JsonModel)>
    decreases s,
{
    if s.len() == 0 {
        Seq::empty()
    } else {
        entry_models(s.subrange(0, s.len() - 1)).push(
            (s[s.len() - 1].0@, json_model(s[s.len() - 1].1)),
        )
    }
}

impl View for Json {
    type V = JsonModel;

    open spec fn view(&self) -> JsonModel {
        json_model(*self)
    }
}


/// `json_models` keeps length and index: its `i`th element is the model of the `i`th value.
pub proof fn lemma_json_models_index(s: Seq<Json>)
    ensures
        json_models(s).len() == s.len(),
        forall|i: int| 0 <= i < s.len() ==> #[trigger] json_models(s)[i] == json_model(s[i]),
    decreases s.len(),
{
    if s.len() > 0 {
        lemma_json_models_index(s.subrange(0, s.len() - 1));
    }
}

/// `entry_models` keeps length and index.
pub proof fn lemma_entry_models_index(s: Seq<(String, Json)>)
    ensures
        entry_models(s).len() == s.len(),
        forall|i: int|
            0 <= i < s.len() ==> #[trigger] entry_models(s)[i] == (s[i].0@, json_model(s[i].1)),
    decreases s.len(),
{
    if s.len() > 0 {
        lemma_entry_models_index(s.subrange(0, s.len() - 1));
    }
}

/// The strings among a sequence of JSON values, in order; other values are skipped.
pub open spec fn str_items(s: Seq<JsonModel>) -> Seq<Seq<char>>
    decreases s.len(),
{
    if s.len() == 0 {
        Seq::empty()
    } else {
        let rest = str_items(s.subrange(0, s.len() - 1));
        match s[s.len() - 1] {
            JsonModel::Str(t) => rest.push(t),
            _ => rest,
        }
    }
}

/// The JSON array holding the given strings.
pub open spec fn str_array(s: Seq<Seq<char>>) -> JsonModel {
    JsonModel::Array(s.map_values(|t: Seq<char>| JsonModel::Str(t)))
}

pub open spec fn string_views(v: Seq<String>) -> Seq<Seq<char>> {
    v.map_values(|s: String| s@)
}

impl Clone for Number {
    fn clone(&self) -> (r: Self)
        ensures
            number_model(r) == number_model(*self),
    {
        match self {
            Number::PosInt(u) => Number::PosInt(*u),
            Number::NegInt(i) => Number::NegInt(*i),
            Number::Float(t) => Number::Float(t.clone()),
        }
    }
}

impl Clone for Json {
    fn clone(&self) -> (r: Self)
        ensures
            r@ == self@,
    {
        self.deep_copy()
    }
}

impl Json {
    /// A copy of this value, equal to it element by element.
    pub fn deep_copy(&self) -> (r: Json)
        ensures
            r@ == self@,
        decreases self,
    {
        match self {
            Json::Null => Json::Null,
            Json::Bool(b) => Json::Bool(*b),
            Json::Number(n) => Json::Number(n.clone()),
            Json::Str(t) => Json::Str(t.clone()),
            Json::Array(items) => {
                let mut out: Vec<Json> = Vec::new();
                let mut i: usize = 0;
                proof {
                    lemma_json_models_index(items@);
                }
                while i < items.len()
                    invariant
                        i <= items.len(),
                        *self == Json::Array(*items),
                        json_models(items@).len() == items@.len(),
                        forall|k: int| 0 <= k < items@.len() ==> #[trigger] json_models(items@)[k] == json_model(items@[k]),
                        json_models(out@) == json_models(items@).take(i as int),
                    decreases items.len() - i,
                {
                    assert(decreases_to!(*self => self->Array_0));
                    assert(self->Array_0 == *items);
                    assert(decreases_to!(*items => items[i as int]));
                    assert(decreases_to!(*self => items[i as int]));
                    let c = items[i].deep_copy();
                    let ghost before = out@;
                    out.push(c);
                    assert(out@.subrange(0, out@.len() - 1) =~= before);
                    assert(json_models(items@).take(i + 1) =~= json_models(items@).take(i as int).push(json_model(items@[i as int])));
                    i = i + 1;
                }
                assert(json_models(items@).take(items.len() as int) =~= json_models(items@));
                Json::Array(out)
            },
            Json::Object(entries) => {
                let mut out: Vec<(String, Json)> = Vec::new();
                let mut i: usize = 0;
                proof {
                    lemma_entry_models_index(entries@);
                }
                while i < entries.len()
                    invariant
                        i <= entries.len(),
                        *self == Json::Object(*entries),
                        entry_models(entries@).len() == entries@.len(),
                        forall|k: int| 0 <= k < entries@.len() ==> #[trigger] entry_models(entries@)[k] == (entries@[k].0@, json_model(entries@[k].1)),
                        entry_models(out@) == entry_models(entries@).take(i as int),
                    decreases entries.len() - i,
                {
                    assert(decreases_to!(*self => self->Object_0));
                    assert(self->Object_0 == *entries);
                    assert(decreases_to!(*entries => entries[i as int]));
                    assert(decreases_to!(entries[i as int] => entries[i as int].1));
                    assert(decreases_to!(*self => entries[i as int].1));
                    let c = entries[i].1.deep_copy();
                    let k = entries[i].0.clone();
                    let ghost before = out@;
                    out.push((k, c));
                    assert(out@.subrange(0, out@.len() - 1) =~= before);
                    assert(entry_models(entries@).take(i + 1) =~= entry_models(entries@).take(i as int).push((entries@[i as int].0@, json_model(entries@[i as int].1))));
                    i = i + 1;
                }
                assert(entry_models(entries@).take(entries.len() as int) =~= entry_models(entries@));
                Json::Object(out)
            },
        }
    }

    /// The text of a JSON string; `None` for any other value.
    pub fn as_str(&self) -> (r: Option<&str>)
        ensures
            match self@ {
                JsonModel::Str(t) => r is Some && r.unwrap()@ == t,
                _ => r is None,
            },
    {
        match self {
            Json::Str(s) => Some(s.as_str()),
            _ => None,
        }
    }

    /// The value of a JSON boolean; `None` for any other value.
    pub fn as_bool(&self) -> (r: Option<bool>)
        ensures
            match self@ {
                JsonModel::Bool(b) => r == Some(b),
                _ => r is None,
            },
    {
        match self {
            Json::Bool(b) => Some(*b),
            _ => None,
        }
    }

    /// The elements of a JSON array; `None` for any other value.
    pub fn as_array(&self) -> (r: Option<&Vec<Json>>)
        ensures
            match self@ {
                JsonModel::Array(items) => r is Some && json_models(r.unwrap()@) == items,
                _ => r is None,
            },
    {
        match self {
            Json::Array(v) => Some(v),
            _ => None,
        }
    }

    /// A JSON array of the given strings, in order.
    pub fn from_strings(v: &Vec<String>) -> (r: Json)
        ensures
            r@ == str_array(string_views(v@)),
    {
        let mut out: Vec<Json> = Vec::new();
        let mut i: usize = 0;
        while i < v.len()
            invariant
                i <= v.len(),
                json_models(out@) == string_views(v@).take(i as int).map_values(
                    |t: Seq<char>| JsonModel::Str(t),
                ),
            decreases v.len() - i,
        {
            let ghost before = out@;
            let item = Json::Str(v[i].clone());
            assert(json_model(item) == JsonModel::Str(v@[i as int]@));
            out.push(item);
            assert(out@[out@.len() - 1] == item);
            assert(out@.subrange(0, out@.len() - 1) =~= before);
            assert(json_models(out@) == json_models(before).push(JsonModel::Str(v@[i as int]@)));
            assert(string_views(v@).take(i + 1).map_values(|t: Seq<char>| JsonModel::Str(t))
                =~= string_views(v@).take(i as int).map_values(|t: Seq<char>| JsonModel::Str(t))
                    .push(JsonModel::Str(v@[i as int]@)));
            i = i + 1;
        }
        assert(string_views(v@).take(v.len() as int) =~= string_views(v@));
        Json::Array(out)
    }

    /// The strings among the given JSON values, in order, skipping every value
    /// that is not a string.
    pub fn strings_of(items: &Vec<Json>) -> (r: Vec<String>)
        ensures
            string_views(r@) == str_items(json_models(items@)),
    {
        let mut out: Vec<String> = Vec::new();
        let mut i: usize = 0;
        proof {
            lemma_json_models_index(items@);
        }
        while i < items.len()
            invariant
                i <= items.len(),
                json_models(items@).len() == items@.len(),
                forall|k: int| 0 <= k < items@.len() ==> #[trigger] json_models(items@)[k] == json_model(items@[k]),
                string_views(out@) == str_items(json_models(items@).take(i as int)),
            decreases items.len() - i,
        {
            let ghost prefix = json_models(items@).take(i as int);
            assert(json_models(items@).take(i + 1).subrange(0, i as int) =~= prefix);
            assert(json_models(items@).take(i + 1)[i as int] == json_model(items@[i as int]));
            match items[i].as_str() {
                Some(t) => {
                    out.push(t.to_string());
                    assert(string_views(out@) =~= str_items(prefix).push(t@));
                },
                None => {},
            }
            i = i + 1;
        }
        assert(json_models(items@).take(items.len() as int) =~= json_models(items@));
        out
    }
}


/// The map of key/value pairs; with distinct keys every key has one value.
pub open spec fn pairs_map(s: Seq<(Seq<char>, JsonModel)>) -> Map<Seq<char>, JsonModel> {
    Map::new(
        |k: Seq<char>| exists|i: int| 0 <= i < s.len() && #[trigger] s[i].0 == k,
        |k: Seq<char>| s[choose|i: int| 0 <= i < s.len() && #[trigger] s[i].0 == k].1,
    )
}

pub open spec fn keys_distinct(s: Seq<(Seq<char>, JsonModel)>) -> bool {
    forall|i: int, j: int| 0 <= i < s.len() && 0 <= j < s.len() && i != j ==> #[trigger] s[i].0 != #[trigger] s[j].0
}

/// The value held under the key at position `i`.
proof fn lemma_pairs_map_at(s: Seq<(Seq<char>, JsonModel)>, i: int)
    requires
        keys_distinct(s),
        0 <= i < s.len(),
    ensures
        pairs_map(s).contains_key(s[i].0),
        pairs_map(s)[s[i].0] == s[i].1,
{
    assert(exists|j: int| 0 <= j < s.len() && #[trigger] s[j].0 == s[i].0) by {
        assert(s[i].0 == s[i].0);
    }
    let j = choose|j: int| 0 <= j < s.len() && #[trigger] s[j].0 == s[i].0;
    assert(j == i);
}

/// Replacing the value under a present key updates the map there only.
proof fn lemma_pairs_map_update(s: Seq<(Seq<char>, JsonModel)>, i: int, v: JsonModel)
    requires
        keys_distinct(s),
        0 <= i < s.len(),
    ensures
        keys_distinct(s.update(i, (s[i].0, v))),
        pairs_map(s.update(i, (s[i].0, v))) =~= pairs_map(s).insert(s[i].0, v),
{
    let t = s.update(i, (s[i].0, v));
    assert(keys_distinct(t));
    assert forall|k: Seq<char>| #[trigger] pairs_map(t).contains_key(k) <==> pairs_map(s).insert(s[i].0, v).contains_key(k) by {
        if pairs_map(s).contains_key(k) {
            let j = choose|j: int| 0 <= j < s.len() && #[trigger] s[j].0 == k;
            assert(t[j].0 == k);
        }
        if pairs_map(t).contains_key(k) {
            let j = choose|j: int| 0 <= j < t.len() && #[trigger] t[j].0 == k;
            assert(s[j].0 == k);
        }
    }
    assert forall|k: Seq<char>| #[trigger] pairs_map(t).contains_key(k) implies pairs_map(t)[k] == pairs_map(s).insert(s[i].0, v)[k] by {
        let j = choose|j: int| 0 <= j < t.len() && #[trigger] t[j].0 == k;
        lemma_pairs_map_at(t, j);
        if j != i {
            lemma_pairs_map_at(s, j);
        }
    }
}

/// Appending a pair with a new key adds that key.
proof fn lemma_pairs_map_push(s: Seq<(Seq<char>, JsonModel)>, k: Seq<char>, v: JsonModel)
    requires
        keys_distinct(s),
        !pairs_map(s).contains_key(k),
    ensures
        keys_distinct(s.push((k, v))),
        pairs_map(s.push((k, v))) =~= pairs_map(s).insert(k, v),
{
    let t = s.push((k, v));
    assert forall|i: int| 0 <= i < s.len() implies #[trigger] s[i].0 != k by {
        if s[i].0 == k {
            assert(pairs_map(s).contains_key(k));
        }
    }
    assert(keys_distinct(t));
    assert forall|q: Seq<char>| #[trigger] pairs_map(t).contains_key(q) <==> pairs_map(s).insert(k, v).contains_key(q) by {
        if pairs_map(s).contains_key(q) {
            let j = choose|j: int| 0 <= j < s.len() && #[trigger] s[j].0 == q;
            assert(t[j].0 == q);
        }
        if q == k {
            assert(t[s.len() as int].0 == q);
        }
        if pairs_map(t).contains_key(q) && q != k {
            let j = choose|j: int| 0 <= j < t.len() && #[trigger] t[j].0 == q;
            assert(s[j].0 == q);
        }
    }
    assert forall|q: Seq<char>| #[trigger] pairs_map(t).contains_key(q) implies pairs_map(t)[q] == pairs_map(s).insert(k, v)[q] by {
        let j = choose|j: int| 0 <= j < t.len() && #[trigger] t[j].0 == q;
        lemma_pairs_map_at(t, j);
        if j < s.len() {
            lemma_pairs_map_at(s, j);
        }
    }
}

/// A message payload: JSON values under distinct string keys.
#[derive(Debug)]
pub struct Payload {
    entries: Vec<(String, Json)>,
}

impl Payload {
    /// The key/value pairs, in the order they are stored.
    pub closed spec fn pairs(self) -> Seq<(Seq<char>, JsonModel)> {
        entry_models(self.entries@)
    }

    #[verifier::type_invariant]
    closed spec fn keys_are_distinct(self) -> bool {
        keys_distinct(self.pairs())
    }

    /// An empty payload.
    pub fn new() -> (p: Payload)
        ensures
            p@ == Map::<Seq<char>, JsonModel>::empty(),
    {
        let p = Payload { entries: Vec::new() };
        assert(p@ =~= Map::<Seq<char>, JsonModel>::empty());
        p
    }

    /// Sets the value under `key`, replacing any value it had.
    pub fn insert(&mut self, key: String, value: Json)
        ensures
            final(self)@ == old(self)@.insert(key@, value@),
    {
        proof {
            use_type_invariant(&*self);
            lemma_entry_models_index(self.entries@);
        }
        let ghost old_pairs = self.pairs();
        let mut entries: Vec<(String, Json)> = Vec::new();
        std::mem::swap(&mut entries, &mut self.entries);
        let mut i: usize = 0;
        while i < entries.len()
            invariant
                i <= entries.len(),
                entries@ == old(self).entries@,
                old_pairs == entry_models(entries@),
                keys_distinct(old_pairs),
                entry_models(entries@).len() == entries@.len(),
                forall|k: int|
                    0 <= k < entries@.len() ==> #[trigger] entry_models(entries@)[k] == (
                        entries@[k].0@,
                        json_model(entries@[k].1),
                    ),
                forall|k: int| 0 <= k < i ==> entries@[k].0@ != key@,
            ensures
                i < entries.len() ==> entries@[i as int].0@ == key@,
            decreases entries.len() - i,
        {
            if entries[i].0 == key {
                break;
            }
            i = i + 1;
        }
        let ghost kv = key@;
        let ghost vv = json_model(value);
        if i < entries.len() {
            entries.set(i, (key, value));
            proof {
                lemma_entry_models_index(entries@);
                assert(entry_models(entries@) =~= old_pairs.update(i as int, (kv, vv)));
                lemma_pairs_map_update(old_pairs, i as int, vv);
            }
        } else {
            proof {
                if pairs_map(old_pairs).contains_key(kv) {
                    let j = choose|j: int| 0 <= j < old_pairs.len() && #[trigger] old_pairs[j].0 == kv;
                    assert(entries@[j].0@ == kv);
                }
            }
            entries.push((key, value));
            proof {
                lemma_entry_models_index(entries@);
                assert(entry_models(entries@) =~= old_pairs.push((kv, vv)));
                lemma_pairs_map_push(old_pairs, kv, vv);
            }
        }
        self.entries = entries;
    }

    /// The value under `key`, if there is one.
    pub fn get(&self, key: &str) -> (r: Option<&Json>)
        ensures
            match r {
                Some(v) => self@.contains_key(key@) && v@ == self@[key@],
                None => !self@.contains_key(key@),
            },
    {
        proof {
            use_type_invariant(self);
            lemma_entry_models_index(self.entries@);
        }
        let wanted = key.to_string();
        let mut i: usize = 0;
        while i < self.entries.len()
            invariant
                i <= self.entries.len(),
                wanted@ == key@,
                keys_distinct(self.pairs()),
                entry_models(self.entries@).len() == self.entries@.len(),
                forall|k: int|
                    0 <= k < self.entries@.len() ==> #[trigger] entry_models(self.entries@)[k] == (
                        self.entries@[k].0@,
                        json_model(self.entries@[k].1),
                    ),
                forall|k: int| 0 <= k < i ==> self.entries@[k].0@ != key@,
            decreases self.entries.len() - i,
        {
            if self.entries[i].0 == wanted {
                proof {
                    lemma_pairs_map_at(self.pairs(), i as int);
                }
                return Some(&self.entries[i].1);
            }
            i = i + 1;
        }
        proof {
            if self@.contains_key(key@) {
                let j = choose|j: int| 0 <= j < self.pairs().len() && #[trigger] self.pairs()[j].0 == key@;
                assert(self.entries@[j].0@ == key@);
            }
        }
        None
    }

    /// The stored key/value pairs; their keys are distinct and they make up this payload.
    pub fn entries(&self) -> (r: &Vec<(String, Json)>)
        ensures
            keys_distinct(entry_models(r@)),
            pairs_map(entry_models(r@)) == self@,
    {
        proof {
            use_type_invariant(self);
        }
        &self.entries
    }
}

impl Clone for Payload {
    fn clone(&self) -> (r: Self)
        ensures
            r@ == self@,
    {
        proof {
            use_type_invariant(self);
            lemma_entry_models_index(self.entries@);
        }
        let mut out: Vec<(String, Json)> = Vec::new();
        let mut i: usize = 0;
        while i < self.entries.len()
            invariant
                i <= self.entries.len(),
                entry_models(self.entries@).len() == self.entries@.len(),
                forall|k: int| 0 <= k < self.entries@.len() ==> #[trigger] entry_models(self.entries@)[k] == (self.entries@[k].0@, json_model(self.entries@[k].1)),
                entry_models(out@) == entry_models(self.entries@).take(i as int),
            decreases self.entries.len() - i,
        {
            let c = self.entries[i].1.deep_copy();
            let k = self.entries[i].0.clone();
            let ghost before = out@;
            out.push((k, c));
            assert(out@.subrange(0, out@.len() - 1) =~= before);
            assert(entry_models(self.entries@).take(i + 1) =~= entry_models(self.entries@).take(i as int).push((self.entries@[i as int].0@, json_model(self.entries@[i as int].1))));
            i = i + 1;
        }
        assert(entry_models(self.entries@).take(self.entries.len() as int) =~= entry_models(self.entries@));
        Payload { entries: out }
    }
}

impl View for Payload {
    type V = Map<Seq<char>, JsonModel>;

    closed spec fn view(&self) -> Map<Seq<char>, JsonModel> {
        pairs_map(self.pairs())
    }
}

} // verus!
