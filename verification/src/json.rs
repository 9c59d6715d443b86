//! The JSON values that travel between the client and the server.
//!
//! A `Json` holds what the protocol logic reads of a message: its shape, its
//! strings, its numbers and its objects. Text is turned into a `Json` and back
//! by serde_json at the edge of the program; everything in between works on
//! this model.
use vstd::prelude::*;

verus! {

/// How a JSON number is held: a non-negative integer, a negative integer,
/// or any other number in its decimal text.
#[derive(Debug)]
enum NumberRepr {
    PosInt(u64),
    NegInt(i64),
    Decimal(String),
}

/// A JSON number, as the server's messages carry it. A non-negative integer
/// that fits a `u64` is always held as one.
#[derive(Debug)]
pub struct JsonNumber {
    repr: NumberRepr,
}

impl JsonNumber {
    #[verifier::type_invariant]
    spec fn wf(self) -> bool {
        self.repr matches NumberRepr::NegInt(i) ==> i < 0
    }

    /// The number as a `u64`, when it is a non-negative integer.
    pub closed spec fn u64_value(self) -> Option<u64> {
        match self.repr {
            NumberRepr::PosInt(n) => Some(n),
            _ => None,
        }
    }

    /// The number as an `i64`, when it is an integer that fits one.
    pub closed spec fn i64_value(self) -> Option<i64> {
        match self.repr {
            NumberRepr::PosInt(n) => if n <= i64::MAX {
                Some(n as i64)
            } else {
                None
            },
            NumberRepr::NegInt(i) => Some(i),
            _ => None,
        }
    }

    /// The decimal text of a number that is not an integer of 64 bits.
    pub closed spec fn decimal_text(self) -> Option<Seq<char>> {
        match self.repr {
            NumberRepr::Decimal(t) => Some(t@),
            _ => None,
        }
    }

    /// The integer `n`.
    pub fn from_u64(n: u64) -> (r: JsonNumber)
        ensures
            r.u64_value() == Some(n),
            r.decimal_text() is None,
    {
        JsonNumber { repr: NumberRepr::PosInt(n) }
    }

    /// The integer `i`, held as a `u64` when it is not negative.
    pub fn from_i64(i: i64) -> (r: JsonNumber)
        ensures
            i >= 0 ==> r.u64_value() == Some(i as u64),
            i < 0 ==> r.u64_value() is None,
            r.i64_value() == Some(i),
            r.decimal_text() is None,
    {
        if i >= 0 {
            JsonNumber { repr: NumberRepr::PosInt(i as u64) }
        } else {
            JsonNumber { repr: NumberRepr::NegInt(i) }
        }
    }

    /// A number that is not an integer of 64 bits, by its decimal text.
    pub fn from_decimal(text: String) -> (r: JsonNumber)
        ensures
            r.u64_value() is None,
            r.i64_value() is None,
            r.decimal_text() == Some(text@),
    {
        JsonNumber { repr: NumberRepr::Decimal(text) }
    }

    /// The number that a JSON parser reports as `as_u64` and `as_i64`, with
    /// `text` as its decimal text: an unsigned integer first, then a signed
    /// one, else the text.
    pub fn from_parts(as_u64: Option<u64>, as_i64: Option<i64>, text: String) -> (r: JsonNumber)
        ensures
            match as_u64 {
                Some(n) => r.u64_value() == Some(n) && r.decimal_text() is None,
                None => match as_i64 {
                    Some(i) => r.i64_value() == Some(i) && r.decimal_text() is None && (i >= 0
                        ==> r.u64_value() == Some(i as u64)) && (i < 0 ==> r.u64_value() is None),
                    None => r.u64_value() is None && r.i64_value() is None && r.decimal_text()
                        == Some(text@),
                },
            },
    {
        match as_u64 {
            Some(n) => JsonNumber::from_u64(n),
            None => match as_i64 {
                Some(i) => JsonNumber::from_i64(i),
                None => JsonNumber::from_decimal(text),
            },
        }
    }

    /// The number as a `u64`, when it is a non-negative integer.
    pub fn as_u64(&self) -> (r: Option<u64>)
        ensures
            r == self.u64_value(),
    {
        match &self.repr {
            NumberRepr::PosInt(n) => Some(*n),
            _ => None,
        }
    }

    /// Whether the number is a non-negative integer that fits a `u64`.
    pub fn is_u64(&self) -> (r: bool)
        ensures
            r == self.u64_value() is Some,
    {
        match &self.repr {
            NumberRepr::PosInt(_) => true,
            _ => false,
        }
    }

    /// The number as an `i64`, when it is an integer that fits one.
    pub fn as_i64(&self) -> (r: Option<i64>)
        ensures
            r == self.i64_value(),
    {
        match &self.repr {
            NumberRepr::PosInt(n) => if *n <= i64::MAX as u64 {
                Some(*n as i64)
            } else {
                None
            },
            NumberRepr::NegInt(i) => Some(*i),
            _ => None,
        }
    }

    /// The decimal text of a number that is not an integer of 64 bits.
    pub fn as_decimal(&self) -> (r: Option<&String>)
        ensures
            r is Some == self.decimal_text() is Some,
            r matches Some(t) ==> self.decimal_text() == Some(t@),
    {
        match &self.repr {
            NumberRepr::Decimal(t) => Some(t),
            _ => None,
        }
    }
}

/// A JSON value.
#[derive(Debug)]
pub enum Json {
    Null,
    Bool(bool),
    Number(JsonNumber),
    String(String),
    Array(Vec<Json>),
    Object(JsonObject),
}

/// `j` is a JSON string whose characters are `s`.
pub open spec fn is_json_str(j: Json, s: Seq<char>) -> bool {
    j matches Json::String(t) && t@ == s
}

/// `j` is an object that has a value under `k`.
pub open spec fn has_field(j: Json, k: Seq<char>) -> bool {
    j matches Json::Object(o) && o@.contains_key(k)
}

/// The value under `k` of the object `j`.
pub open spec fn field(j: Json, k: Seq<char>) -> Json
    recommends
        has_field(j, k),
{
    match j {
        Json::Object(o) => o@[k],
        _ => Json::Null,
    }
}

/// The value of `j` as a `u64`, when it is a non-negative integer that fits.
pub open spec fn uint_of(j: Json) -> Option<u64> {
    match j {
        Json::Number(m) => m.u64_value(),
        _ => None,
    }
}

/// `j` is a JSON number that is the non-negative integer `n`.
pub open spec fn is_json_uint(j: Json, n: int) -> bool {
    j matches Json::Number(m) && m.u64_value() matches Some(k) && k == n
}

impl Json {
    /// Whether the value is a JSON object.
    pub fn is_object(&self) -> (r: bool)
        ensures
            r == (*self is Object),
    {
        match self {
            Json::Object(_) => true,
            _ => false,
        }
    }

    /// Whether the value is the JSON string `s`.
    pub fn is_str(&self, s: &str) -> (r: bool)
        ensures
            r == is_json_str(*self, s@),
    {
        match self {
            Json::String(t) => *t == s.to_owned(),
            _ => false,
        }
    }

    /// A JSON string holding a copy of `s`.
    pub fn from_str(s: &str) -> (r: Json)
        ensures
            is_json_str(r, s@),
    {
        Json::String(s.to_owned())
    }

    /// A JSON number holding `n`.
    pub fn from_usize(n: usize) -> (r: Json)
        ensures
            is_json_uint(r, n as int),
    {
        Json::Number(JsonNumber::from_u64(n as u64))
    }
}

/// No two entries have the same key.
pub open spec fn keys_unique(es: Seq<(String, Json)>) -> bool {
    forall|i: int, j: int|
        0 <= i < es.len() && 0 <= j < es.len() && i != j ==> #[trigger] es[i].0@ != #[trigger] es[j].0@
}

/// Some entry has the key `k`.
pub open spec fn has_key(es: Seq<(String, Json)>, k: Seq<char>) -> bool {
    exists|i: int| 0 <= i < es.len() && #[trigger] es[i].0@ == k
}

/// The map from keys to values that a list of entries stands for.
pub open spec fn entry_map(es: Seq<(String, Json)>) -> Map<Seq<char>, Json> {
    Map::new(
        |k: Seq<char>| has_key(es, k),
        |k: Seq<char>| es[choose|i: int| 0 <= i < es.len() && #[trigger] es[i].0@ == k].1,
    )
}

/// With unique keys, the entry at `i` is what the map holds for its key.
pub proof fn lemma_entry_map_at(es: Seq<(String, Json)>, i: int)
    requires
        keys_unique(es),
        0 <= i < es.len(),
    ensures
        entry_map(es).contains_key(es[i].0@),
        entry_map(es)[es[i].0@] == es[i].1,
{
    let k = es[i].0@;
    assert(has_key(es, k));
    let j = choose|j: int| 0 <= j < es.len() && #[trigger] es[j].0@ == k;
    assert(es[j].0@ == k);
    if j != i {
        assert(es[i].0@ != es[j].0@);
    }
}

/// A JSON object: a map from keys to values, each key at most once.
#[derive(Debug)]
pub struct JsonObject {
    entries: Vec<(String, Json)>,
}

impl View for JsonObject {
    type V = Map<Seq<char>, Json>;

    closed spec fn view(&self) -> Map<Seq<char>, Json> {
        entry_map(self.entries@)
    }
}

impl JsonObject {
    #[verifier::type_invariant]
    spec fn wf(self) -> bool {
        keys_unique(self.entries@)
    }

    /// An empty object.
    pub fn new() -> (r: JsonObject)
        ensures
            r@ == Map::<Seq<char>, Json>::empty(),
    {
        let r = JsonObject { entries: Vec::new() };
        assert(r@ =~= Map::<Seq<char>, Json>::empty());
        r
    }

    /// The position of the entry with key `key`, if there is one.
    fn find(&self, key: &str) -> (r: Option<usize>)
        ensures
            match r {
                Some(i) => i < self.entries@.len() && self.entries@[i as int].0@ == key@,
                None => !has_key(self.entries@, key@),
            },
    {
        let owned = key.to_owned();
        let mut i: usize = 0;
        while i < self.entries.len()
            invariant
                i <= self.entries@.len(),
                owned@ == key@,
                forall|j: int| 0 <= j < i ==> self.entries@[j].0@ != key@,
            decreases self.entries@.len() - i,
        {
            if self.entries[i].0 == owned {
                return Some(i);
            }
            i = i + 1;
        }
        None
    }

    /// Whether the object has an entry for `key`.
    pub fn contains_key(&self, key: &str) -> (r: bool)
        ensures
            r == self@.contains_key(key@),
    {
        self.find(key).is_some()
    }

    /// The value under `key`, if there is one.
    pub fn get(&self, key: &str) -> (r: Option<&Json>)
        ensures
            r is Some == self@.contains_key(key@),
            r matches Some(v) ==> *v == self@[key@],
    {
        proof {
            use_type_invariant(self);
        }
        match self.find(key) {
            Some(i) => {
                proof {
                    lemma_entry_map_at(self.entries@, i as int);
                }
                Some(&self.entries[i].1)
            },
            None => None,
        }
    }

    /// Puts `value` under `key`, and hands back the value that was there.
    pub fn insert(&mut self, key: String, value: Json) -> (r: Option<Json>)
        ensures
            final(self)@ == old(self)@.insert(key@, value),
            r == (if old(self)@.contains_key(key@) {
                Some(old(self)@[key@])
            } else {
                None
            }),
    {
        proof {
            use_type_invariant(&*self);
        }
        let ghost old_es = self.entries@;
        let ghost k = key@;
        match self.find(key.as_str()) {
            Some(i) => {
                proof {
                    lemma_entry_map_at(old_es, i as int);
                }
                let mut es: Vec<(String, Json)> = Vec::new();
                std::mem::swap(&mut es, &mut self.entries);
                let (_, old_value) = es.remove(i);
                es.insert(i, (key, value));
                proof {
                    let es = es@;
                    assert(es == old_es.update(i as int, es[i as int]));
                    assert forall|a: int, b: int|
                        0 <= a < es.len() && 0 <= b < es.len() && a != b implies #[trigger] es[a].0@
                        != #[trigger] es[b].0@ by {
                        assert(old_es[a].0@ != old_es[b].0@);
                    }
                    assert forall|kk: Seq<char>| #[trigger]
                        entry_map(es).contains_key(kk) == entry_map(old_es).insert(
                            k,
                            value,
                        ).contains_key(kk) by {
                        if has_key(es, kk) {
                            let j = choose|j: int| 0 <= j < es.len() && #[trigger] es[j].0@ == kk;
                            if j != i {
                                assert(old_es[j].0@ == kk);
                            }
                        }
                        if has_key(old_es, kk) {
                            let j = choose|j: int| 0 <= j < old_es.len() && #[trigger] old_es[j].0@
                                == kk;
                            if j != i {
                                assert(es[j].0@ == kk);
                            } else {
                                assert(es[i as int].0@ == kk);
                            }
                        }
                        if kk == k {
                            assert(es[i as int].0@ == kk);
                        }
                    }
                    assert forall|kk: Seq<char>| entry_map(es).contains_key(kk) implies #[trigger] entry_map(
                        es,
                    )[kk] == entry_map(old_es).insert(k, value)[kk] by {
                        let j = choose|j: int| 0 <= j < es.len() && #[trigger] es[j].0@ == kk;
                        lemma_entry_map_at(es, j);
                        if j != i {
                            lemma_entry_map_at(old_es, j);
                        }
                    }
                    assert(entry_map(es) =~= entry_map(old_es).insert(k, value));
                }
                self.entries = es;
                Some(old_value)
            },
            None => {
                let mut es: Vec<(String, Json)> = Vec::new();
                std::mem::swap(&mut es, &mut self.entries);
                es.push((key, value));
                proof {
                    let es = es@;
                    let n = old_es.len() as int;
                    assert forall|a: int, b: int|
                        0 <= a < es.len() && 0 <= b < es.len() && a != b implies #[trigger] es[a].0@
                        != #[trigger] es[b].0@ by {
                        if a < n && b < n {
                            assert(old_es[a].0@ != old_es[b].0@);
                        } else if a < n {
                            assert(old_es[a].0@ != k);
                        } else {
                            assert(old_es[b].0@ != k);
                        }
                    }
                    assert forall|kk: Seq<char>| #[trigger]
                        entry_map(es).contains_key(kk) == entry_map(old_es).insert(
                            k,
                            value,
                        ).contains_key(kk) by {
                        if has_key(es, kk) {
                            let j = choose|j: int| 0 <= j < es.len() && #[trigger] es[j].0@ == kk;
                            if j < n {
                                assert(old_es[j].0@ == kk);
                            }
                        }
                        if has_key(old_es, kk) {
                            let j = choose|j: int| 0 <= j < old_es.len() && #[trigger] old_es[j].0@
                                == kk;
                            assert(es[j].0@ == kk);
                        }
                        if kk == k {
                            assert(es[n].0@ == kk);
                        }
                    }
                    assert forall|kk: Seq<char>| entry_map(es).contains_key(kk) implies #[trigger] entry_map(
                        es,
                    )[kk] == entry_map(old_es).insert(k, value)[kk] by {
                        let j = choose|j: int| 0 <= j < es.len() && #[trigger] es[j].0@ == kk;
                        lemma_entry_map_at(es, j);
                        if j < n {
                            lemma_entry_map_at(old_es, j);
                        }
                    }
                    assert(entry_map(es) =~= entry_map(old_es).insert(k, value));
                }
                self.entries = es;
                None
            },
        }
    }

    /// Takes the value under `key` out of the object, if there is one.
    pub fn remove(&mut self, key: &str) -> (r: Option<Json>)
        ensures
            final(self)@ == old(self)@.remove(key@),
            r == (if old(self)@.contains_key(key@) {
                Some(old(self)@[key@])
            } else {
                None
            }),
    {
        proof {
            use_type_invariant(&*self);
        }
        let ghost old_es = self.entries@;
        let ghost k = key@;
        match self.find(key) {
            Some(i) => {
                proof {
                    lemma_entry_map_at(old_es, i as int);
                }
                let mut es: Vec<(String, Json)> = Vec::new();
                std::mem::swap(&mut es, &mut self.entries);
                let (_, old_value) = es.remove(i);
                proof {
                    let es = es@;
                    let ii = i as int;
                    assert forall|a: int, b: int|
                        0 <= a < es.len() && 0 <= b < es.len() && a != b implies #[trigger] es[a].0@
                        != #[trigger] es[b].0@ by {
                        let oa = if a < ii { a } else { a + 1 };
                        let ob = if b < ii { b } else { b + 1 };
                        assert(es[a] == old_es[oa]);
                        assert(es[b] == old_es[ob]);
                        assert(old_es[oa].0@ != old_es[ob].0@);
                    }
                    assert forall|kk: Seq<char>| #[trigger]
                        entry_map(es).contains_key(kk) == entry_map(old_es).remove(k).contains_key(
                            kk,
                        ) by {
                        if has_key(es, kk) {
                            let j = choose|j: int| 0 <= j < es.len() && #[trigger] es[j].0@ == kk;
                            let oj = if j < ii { j } else { j + 1 };
                            assert(es[j] == old_es[oj]);
                            assert(old_es[oj].0@ == kk);
                            assert(old_es[ii].0@ != old_es[oj].0@);
                        }
                        if has_key(old_es, kk) && kk != k {
                            let j = choose|j: int| 0 <= j < old_es.len() && #[trigger] old_es[j].0@
                                == kk;
                            if j < ii {
                                assert(es[j].0@ == kk);
                            } else {
                                assert(j != ii);
                                assert(es[j - 1].0@ == kk);
                            }
                        }
                    }
                    assert forall|kk: Seq<char>| entry_map(es).contains_key(kk) implies #[trigger] entry_map(
                        es,
                    )[kk] == entry_map(old_es).remove(k)[kk] by {
                        let j = choose|j: int| 0 <= j < es.len() && #[trigger] es[j].0@ == kk;
                        lemma_entry_map_at(es, j);
                        let oj = if j < ii { j } else { j + 1 };
                        assert(es[j] == old_es[oj]);
                        lemma_entry_map_at(old_es, oj);
                    }
                    assert(entry_map(es) =~= entry_map(old_es).remove(k));
                }
                self.entries = es;
                Some(old_value)
            },
            None => {
                assert(entry_map(old_es).remove(k) =~= entry_map(old_es));
                None
            },
        }
    }

    /// The entries of the object, each key once.
    pub fn entries(&self) -> (r: &Vec<(String, Json)>)
        ensures
            keys_unique(r@),
            entry_map(r@) == self@,
    {
        proof {
            use_type_invariant(self);
        }
        &self.entries
    }

    /// The entries of the object, each key once.
    pub fn into_entries(self) -> (r: Vec<(String, Json)>)
        ensures
            keys_unique(r@),
            entry_map(r@) == self@,
    {
        proof {
            use_type_invariant(&self);
        }
        self.entries
    }
}

} // verus!
