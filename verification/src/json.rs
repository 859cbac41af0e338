//! Structured value model for the free-form parts of protocol messages
//! (task payloads, memory metadata, evaluation results) and for whole
//! message bodies on the wire: a JSON-shaped sum type of null, booleans,
//! numbers, strings, arrays and keyed objects.
//!
//! `JsonValue` is the executable form; its mathematical view is `JVal`,
//! built from `Seq`. Numbers are kept in decimal form (sign, integer part,
//! fraction digits) so the model stays exact: the protocol never computes
//! with the numbers it carries, it only transports them and extracts the
//! integer-valued ones.

use vstd::prelude::*;
use vstd::string::*;

verus! {

broadcast use vstd::std_specs::vec::group_vec_axioms;

/// Mathematical form of a JSON number: sign, integer part and the decimal
/// digits after the point.
pub struct JNum {
    pub neg: bool,
    pub int_part: u64,
    pub frac: Seq<u8>,
}

/// Mathematical form of a JSON document.
pub enum JVal {
    Null,
    Bool(bool),
    Num(JNum),
    Str(Seq<char>),
    Arr(Seq<JVal>),
    Obj(Seq<(Seq<char>, JVal)>),
}

/// Why a wire value was rejected when decoding it into a typed message.
///
/// Schema errors are surfaced to the producer/consumer boundary and never
/// silently dropped; a malformed message is rejected per message, not
/// system-wide.
#[derive(Clone, Copy, Debug, PartialEq, Eq, Structural)]
pub enum SchemaError {
    /// The value is not the JSON shape the schema calls for.
    WrongShape,
    /// A required field is absent.
    MissingField,
    /// A field is present but holds the wrong type of value.
    WrongType,
    /// A tagged-union discriminant names no known variant.
    UnknownVariant,
}

/// Executable JSON number in decimal form. A value such as `0.85` is held
/// as `neg = false`, `int_part = 0`, `frac = [8, 5]`.
#[derive(Debug, PartialEq, Eq)]
pub struct JsonNumber {
    pub neg: bool,
    pub int_part: u64,
    pub frac: Vec<u8>,
}

/// Executable JSON document.
#[derive(Debug, PartialEq, Eq)]
pub enum JsonValue {
    Null,
    Bool(bool),
    Num(JsonNumber),
    Str(String),
    Arr(Vec<JsonValue>),
    Obj(Vec<(String, JsonValue)>),
}

impl View for JsonNumber {
    type V = JNum;

    open spec fn view(&self) -> JNum {
        JNum { neg: self.neg, int_part: self.int_part, frac: self.frac@ }
    }
}

/// The mathematical value a `JsonValue` stands for.
pub open spec fn jval_of(v: JsonValue) -> JVal
    decreases v,
{
    match v {
        JsonValue::Null => JVal::Null,
        JsonValue::Bool(b) => JVal::Bool(b),
        JsonValue::Num(n) => JVal::Num(n@),
        JsonValue::Str(s) => JVal::Str(s@),
        JsonValue::Arr(items) => JVal::Arr(
            Seq::new(
                items@.len(),
                |i: int| if 0 <= i < items.len() { jval_of(items[i]) } else { JVal::Null },
            ),
        ),
        JsonValue::Obj(entries) => JVal::Obj(
            Seq::new(
                entries@.len(),
                |i: int| if 0 <= i < entries.len() {
                    (entries[i].0@, jval_of(entries[i].1))
                } else {
                    (Seq::<char>::empty(), JVal::Null)
                },
            ),
        ),
    }
}

impl View for JsonValue {
    type V = JVal;

    open spec fn view(&self) -> JVal {
        jval_of(*self)
    }
}

/// First value bound to `key` in an object's entry list, if any.
pub open spec fn obj_get(entries: Seq<(Seq<char>, JVal)>, key: Seq<char>) -> Option<JVal>
    decreases entries.len(),
{
    if entries.len() == 0 {
        None
    } else if entries[0].0 == key {
        Some(entries[0].1)
    } else {
        obj_get(entries.skip(1), key)
    }
}

/// Lookup lands on position `i` when `key` first occurs there.
pub proof fn lemma_obj_get_at(entries: Seq<(Seq<char>, JVal)>, key: Seq<char>, i: int)
    requires
        0 <= i < entries.len(),
        forall|j: int| 0 <= j < i ==> entries[j].0 != key,
        entries[i].0 == key,
    ensures
        obj_get(entries, key) == Some(entries[i].1),
    decreases i,
{
    if i > 0 {
        lemma_obj_get_at(entries.skip(1), key, i - 1);
    }
}

/// Lookup misses when no entry holds `key`.
pub proof fn lemma_obj_get_none(entries: Seq<(Seq<char>, JVal)>, key: Seq<char>)
    requires
        forall|j: int| 0 <= j < entries.len() ==> entries[j].0 != key,
    ensures
        obj_get(entries, key) is None,
    decreases entries.len(),
{
    if entries.len() > 0 {
        lemma_obj_get_none(entries.skip(1), key);
    }
}

/// The wire form of an optional string: the string itself or `null`.
pub open spec fn jval_of_opt_string(o: Option<Seq<char>>) -> JVal {
    match o {
        Some(s) => JVal::Str(s),
        None => JVal::Null,
    }
}

/// The wire form of a whole, non-negative number.
pub open spec fn jnum_of_u32(v: u32) -> JNum {
    JNum { neg: false, int_part: v as u64, frac: Seq::empty() }
}

impl JsonValue {
    /// Wire form of an optional string field value.
    pub fn of_opt_string(o: &Option<String>) -> (r: JsonValue)
        ensures
            r@ == jval_of_opt_string(match *o {
                Some(s) => Some(s@),
                None => None,
            }),
    {
        match o {
            Some(s) => JsonValue::Str(s.clone()),
            None => JsonValue::Null,
        }
    }

    /// Wire form of a whole, non-negative number.
    pub fn of_u32(v: u32) -> (r: JsonValue)
        ensures
            r@ == JVal::Num(jnum_of_u32(v)),
    {
        let n = JsonNumber::from_u64(v as u64);
        proof {
            assert(n@.frac =~= Seq::<u8>::empty());
        }
        JsonValue::Num(n)
    }
}

impl JNum {
    /// The number is a non-negative integer with this value.
    pub open spec fn is_u64(self, v: u64) -> bool {
        !self.neg && self.frac.len() == 0 && self.int_part == v
    }
}

impl JVal {
    /// Field lookup on an object; `None` on every other shape.
    pub open spec fn get(self, key: Seq<char>) -> Option<JVal> {
        match self {
            JVal::Obj(entries) => obj_get(entries, key),
            _ => None,
        }
    }
}

/// Character-for-character equality of string slices.
pub fn str_eq(a: &str, b: &str) -> (r: bool)
    ensures
        r == (a@ == b@),
{
    let alen = a.unicode_len();
    let blen = b.unicode_len();
    if alen != blen {
        return false;
    }
    let mut i: usize = 0;
    while i < alen
        invariant
            alen == a@.len(),
            alen == b@.len(),
            i <= alen,
            forall|j: int| 0 <= j < i ==> a@[j] == b@[j],
        decreases alen - i,
    {
        if a.get_char(i) != b.get_char(i) {
            return false;
        }
        i = i + 1;
    }
    proof {
        assert(a@ =~= b@);
    }
    true
}

impl JsonNumber {
    /// A whole, non-negative number.
    pub fn from_u64(v: u64) -> (r: JsonNumber)
        ensures
            r@.is_u64(v),
    {
        JsonNumber { neg: false, int_part: v, frac: Vec::new() }
    }

    /// The value as a `u64`, if the number is a non-negative integer.
    pub fn as_u64(&self) -> (r: Option<u64>)
        ensures
            match r {
                Some(v) => self@.is_u64(v),
                None => forall|v: u64| !self@.is_u64(v),
            },
    {
        if !self.neg && self.frac.len() == 0 {
            Some(self.int_part)
        } else {
            None
        }
    }

    /// The value as a `u32`, if the number is a non-negative integer that
    /// fits.
    pub fn as_u32(&self) -> (r: Option<u32>)
        ensures
            match r {
                Some(v) => self@.is_u64(v as u64),
                None => forall|v: u32| !#[trigger] self@.is_u64(v as u64),
            },
    {
        if !self.neg && self.frac.len() == 0 && self.int_part <= u32::MAX as u64 {
            Some(self.int_part as u32)
        } else {
            None
        }
    }
}

impl Clone for JsonNumber {
    fn clone(&self) -> (r: Self)
        ensures
            r@ == self@,
    {
        JsonNumber { neg: self.neg, int_part: self.int_part, frac: clone_digits(&self.frac) }
    }
}

/// Element-wise copy of a digit vector.
fn clone_digits(v: &Vec<u8>) -> (r: Vec<u8>)
    ensures
        r@ == v@,
{
    let mut out: Vec<u8> = Vec::new();
    let mut i: usize = 0;
    while i < v.len()
        invariant
            i <= v@.len(),
            out@ == v@.subrange(0, i as int),
        decreases v@.len() - i,
    {
        out.push(v[i]);
        i = i + 1;
    }
    proof {
        assert(out@ =~= v@);
    }
    out
}

impl Clone for JsonValue {
    #[verifier::loop_isolation(false)]
    fn clone(&self) -> (r: Self)
        ensures
            r@ == self@,
        decreases self,
    {
        match self {
            JsonValue::Null => JsonValue::Null,
            JsonValue::Bool(b) => JsonValue::Bool(*b),
            JsonValue::Num(n) => JsonValue::Num(n.clone()),
            JsonValue::Str(s) => JsonValue::Str(s.clone()),
            JsonValue::Arr(items) => {
                let mut out: Vec<JsonValue> = Vec::new();
                let mut i: usize = 0;
                while i < items.len()
                    invariant
                        i <= items@.len(),
                        out@.len() == i,
                        forall|j: int| 0 <= j < i ==> out@[j]@ == items@[j]@,
                    decreases items@.len() - i,
                {
                    proof {
                        assert(decreases_to!(*items => items[i as int]));
                    }
                    out.push(items[i].clone());
                    i = i + 1;
                }
                let r = JsonValue::Arr(out);
                proof {
                    assert(r@->Arr_0 =~= self@->Arr_0);
                }
                r
            },
            JsonValue::Obj(entries) => {
                let mut out: Vec<(String, JsonValue)> = Vec::new();
                let mut i: usize = 0;
                while i < entries.len()
                    invariant
                        i <= entries@.len(),
                        out@.len() == i,
                        forall|j: int| 0 <= j < i ==> out@[j].0@ == entries@[j].0@
                            && out@[j].1@ == entries@[j].1@,
                    decreases entries@.len() - i,
                {
                    proof {
                        assert(decreases_to!(*entries => entries[i as int]));
                    }
                    let key = entries[i].0.clone();
                    let val = entries[i].1.clone();
                    out.push((key, val));
                    i = i + 1;
                }
                let r = JsonValue::Obj(out);
                proof {
                    assert(r@->Obj_0 =~= self@->Obj_0);
                }
                r
            },
        }
    }
}

impl JsonValue {
    /// An object with no fields: the default for payload and metadata
    /// fields that the wire message omits.
    pub fn empty_object() -> (r: JsonValue)
        ensures
            r@ == JVal::Obj(Seq::<(Seq<char>, JVal)>::empty()),
    {
        let r = JsonValue::Obj(Vec::new());
        proof {
            assert(r@->Obj_0 =~= Seq::<(Seq<char>, JVal)>::empty());
        }
        r
    }

    /// Field lookup on an object: the first entry whose key is `key`.
    #[verifier::loop_isolation(false)]
    pub fn get<'a>(&'a self, key: &str) -> (r: Option<&'a JsonValue>)
        ensures
            match r {
                Some(v) => self@.get(key@) == Some(v@),
                None => self@.get(key@) is None,
            },
    {
        match self {
            JsonValue::Obj(entries) => {
                let ghost gentries = self@->Obj_0;
                proof {
                    assert(gentries.skip(0) =~= gentries);
                }
                let mut i: usize = 0;
                while i < entries.len()
                    invariant
                        i <= entries@.len(),
                        gentries.len() == entries@.len(),
                        forall|j: int| 0 <= j < entries@.len()
                            ==> gentries[j] == (entries@[j].0@, entries@[j].1@),
                        obj_get(gentries, key@) == obj_get(gentries.skip(i as int), key@),
                    decreases entries@.len() - i,
                {
                    if str_eq(entries[i].0.as_str(), key) {
                        proof {
                            assert(gentries.skip(i as int)[0] == gentries[i as int]);
                        }
                        return Some(&entries[i].1);
                    }
                    proof {
                        assert(gentries.skip(i as int).skip(1) =~= gentries.skip(i as int + 1));
                        assert(gentries.skip(i as int)[0] == gentries[i as int]);
                    }
                    i = i + 1;
                }
                proof {
                    assert(gentries.skip(i as int) =~= Seq::<(Seq<char>, JVal)>::empty());
                }
                None
            },
            _ => None,
        }
    }
}

/// Required string field: present and a string, or a schema error.
pub open spec fn spec_req_string(v: JVal, key: Seq<char>) -> Result<Seq<char>, SchemaError> {
    match v.get(key) {
        Some(JVal::Str(s)) => Ok(s),
        Some(_) => Err(SchemaError::WrongType),
        None => Err(SchemaError::MissingField),
    }
}

/// Optional string field: absent or `null` is `None`.
pub open spec fn spec_opt_string(v: JVal, key: Seq<char>) -> Result<
    Option<Seq<char>>,
    SchemaError,
> {
    match v.get(key) {
        Some(JVal::Str(s)) => Ok(Some(s)),
        Some(JVal::Null) => Ok(None),
        Some(_) => Err(SchemaError::WrongType),
        None => Ok(None),
    }
}

/// Defaulted string field: absent means the empty string.
pub open spec fn spec_string_or_empty(v: JVal, key: Seq<char>) -> Result<Seq<char>, SchemaError> {
    match v.get(key) {
        Some(JVal::Str(s)) => Ok(s),
        Some(_) => Err(SchemaError::WrongType),
        None => Ok(Seq::empty()),
    }
}

/// Defaulted unsigned field: absent means `dfl`; present must be a
/// non-negative integer that fits in `u32`.
pub open spec fn spec_u32_or(v: JVal, key: Seq<char>, dfl: u32) -> Result<u32, SchemaError> {
    match v.get(key) {
        Some(JVal::Num(n)) => if !n.neg && n.frac.len() == 0 && n.int_part <= u32::MAX {
            Ok(n.int_part as u32)
        } else {
            Err(SchemaError::WrongType)
        },
        Some(_) => Err(SchemaError::WrongType),
        None => Ok(dfl),
    }
}

/// Defaulted number field: absent means zero.
pub open spec fn spec_number_or_zero(v: JVal, key: Seq<char>) -> Result<JNum, SchemaError> {
    match v.get(key) {
        Some(JVal::Num(n)) => Ok(n),
        Some(_) => Err(SchemaError::WrongType),
        None => Ok(JNum { neg: false, int_part: 0, frac: Seq::empty() }),
    }
}

/// Required free-form value field.
pub open spec fn spec_req_value(v: JVal, key: Seq<char>) -> Result<JVal, SchemaError> {
    match v.get(key) {
        Some(x) => Ok(x),
        None => Err(SchemaError::MissingField),
    }
}

/// Defaulted free-form value field: absent means the empty object.
pub open spec fn spec_value_or_empty_object(v: JVal, key: Seq<char>) -> JVal {
    match v.get(key) {
        Some(x) => x,
        None => JVal::Obj(Seq::empty()),
    }
}

/// Optional free-form value field: absent or `null` is `None`.
pub open spec fn spec_opt_value(v: JVal, key: Seq<char>) -> Option<JVal> {
    match v.get(key) {
        Some(JVal::Null) => None,
        Some(x) => Some(x),
        None => None,
    }
}

/// Defaulted boolean field: absent means `dfl`.
pub open spec fn spec_bool_or(v: JVal, key: Seq<char>, dfl: bool) -> Result<bool, SchemaError> {
    match v.get(key) {
        Some(JVal::Bool(b)) => Ok(b),
        Some(_) => Err(SchemaError::WrongType),
        None => Ok(dfl),
    }
}

/// A string array as a sequence of views, if every element is a string.
pub open spec fn spec_string_items(items: Seq<JVal>) -> Result<Seq<Seq<char>>, SchemaError>
    decreases items.len(),
{
    if items.len() == 0 {
        Ok(Seq::empty())
    } else {
        match items[0] {
            JVal::Str(s) => match spec_string_items(items.skip(1)) {
                Ok(rest) => Ok(seq![s] + rest),
                Err(e) => Err(e),
            },
            _ => Err(SchemaError::WrongType),
        }
    }
}

/// Defaulted string-array field: absent means empty; present must be an
/// array of strings.
pub open spec fn spec_string_array_or_empty(v: JVal, key: Seq<char>) -> Result<
    Seq<Seq<char>>,
    SchemaError,
> {
    match v.get(key) {
        Some(JVal::Arr(items)) => spec_string_items(items),
        Some(_) => Err(SchemaError::WrongType),
        None => Ok(Seq::empty()),
    }
}

/// The wire form of a signed whole number.
pub open spec fn jnum_of_i64(v: i64) -> JNum {
    JNum {
        neg: v < 0,
        int_part: if v < 0 {
            (-(v as int)) as u64
        } else {
            v as u64
        },
        frac: Seq::empty(),
    }
}

/// Required unsigned field that fits in `u32`.
pub open spec fn spec_req_u32(v: JVal, key: Seq<char>) -> Result<u32, SchemaError> {
    match v.get(key) {
        Some(JVal::Num(n)) => if !n.neg && n.frac.len() == 0 && n.int_part <= u32::MAX {
            Ok(n.int_part as u32)
        } else {
            Err(SchemaError::WrongType)
        },
        Some(_) => Err(SchemaError::WrongType),
        None => Err(SchemaError::MissingField),
    }
}

/// Optional unsigned field: absent or `null` is `None`.
pub open spec fn spec_opt_u64(v: JVal, key: Seq<char>) -> Result<Option<u64>, SchemaError> {
    match v.get(key) {
        Some(JVal::Num(n)) => if !n.neg && n.frac.len() == 0 {
            Ok(Some(n.int_part))
        } else {
            Err(SchemaError::WrongType)
        },
        Some(JVal::Null) => Ok(None),
        Some(_) => Err(SchemaError::WrongType),
        None => Ok(None),
    }
}

/// Optional signed field that fits in `i32`: absent or `null` is `None`.
pub open spec fn spec_opt_i32(v: JVal, key: Seq<char>) -> Result<Option<i32>, SchemaError> {
    match v.get(key) {
        Some(JVal::Num(n)) => if n.frac.len() == 0 && (if n.neg {
            n.int_part <= 0x8000_0000u64
        } else {
            n.int_part <= i32::MAX as u64
        }) {
            Ok(Some((if n.neg { -(n.int_part as int) } else { n.int_part as int }) as i32))
        } else {
            Err(SchemaError::WrongType)
        },
        Some(JVal::Null) => Ok(None),
        Some(_) => Err(SchemaError::WrongType),
        None => Ok(None),
    }
}

/// Defaulted signed field that fits in `i64`: absent means zero.
pub open spec fn spec_i64_or_zero(v: JVal, key: Seq<char>) -> Result<i64, SchemaError> {
    match v.get(key) {
        Some(JVal::Num(n)) => if n.frac.len() == 0 && (if n.neg {
            n.int_part <= 0x8000_0000_0000_0000u64
        } else {
            n.int_part <= i64::MAX as u64
        }) {
            Ok((if n.neg { -(n.int_part as int) } else { n.int_part as int }) as i64)
        } else {
            Err(SchemaError::WrongType)
        },
        Some(_) => Err(SchemaError::WrongType),
        None => Ok(0i64),
    }
}

/// Optional number field, carried verbatim: absent or `null` is `None`.
pub open spec fn spec_opt_number(v: JVal, key: Seq<char>) -> Result<Option<JNum>, SchemaError> {
    match v.get(key) {
        Some(JVal::Num(n)) => Ok(Some(n)),
        Some(JVal::Null) => Ok(None),
        Some(_) => Err(SchemaError::WrongType),
        None => Ok(None),
    }
}

/// Required string-array field.
pub open spec fn spec_req_string_array(v: JVal, key: Seq<char>) -> Result<
    Seq<Seq<char>>,
    SchemaError,
> {
    match v.get(key) {
        Some(JVal::Arr(items)) => spec_string_items(items),
        Some(_) => Err(SchemaError::WrongType),
        None => Err(SchemaError::MissingField),
    }
}

/// Required object-shaped field (a free-form string-keyed map).
pub open spec fn spec_req_object(v: JVal, key: Seq<char>) -> Result<JVal, SchemaError> {
    match v.get(key) {
        Some(x) => if x is Obj {
            Ok(x)
        } else {
            Err(SchemaError::WrongType)
        },
        None => Err(SchemaError::MissingField),
    }
}

/// Required boolean field.
pub open spec fn spec_req_bool(v: JVal, key: Seq<char>) -> Result<bool, SchemaError> {
    match v.get(key) {
        Some(JVal::Bool(b)) => Ok(b),
        Some(_) => Err(SchemaError::WrongType),
        None => Err(SchemaError::MissingField),
    }
}

/// Defaulted free-form value field: absent means `null`.
pub open spec fn spec_value_or_null(v: JVal, key: Seq<char>) -> JVal {
    match v.get(key) {
        Some(x) => x,
        None => JVal::Null,
    }
}

impl JsonValue {
    /// A signed whole number.
    pub fn from_i64(v: i64) -> (r: JsonValue)
        ensures
            r@ == JVal::Num(jnum_of_i64(v)),
    {
        let mag: u64 = if v < 0 {
            proof {
                assert(-(v as int) <= 0x8000_0000_0000_0000u64 as int);
            }
            (-(v as i128)) as u64
        } else {
            v as u64
        };
        let n = JsonNumber { neg: v < 0, int_part: mag, frac: Vec::new() };
        proof {
            assert(n@.frac =~= Seq::<u8>::empty());
        }
        JsonValue::Num(n)
    }

    /// Required unsigned field that fits in `u32`.
    pub fn req_u32_field(&self, key: &str) -> (r: Result<u32, SchemaError>)
        ensures
            match r {
                Ok(x) => spec_req_u32(self@, key@) == Ok::<u32, SchemaError>(x),
                Err(e) => spec_req_u32(self@, key@) == Err::<u32, SchemaError>(e),
            },
    {
        match self.get(key) {
            Some(JsonValue::Num(n)) => {
                if !n.neg && n.frac.len() == 0 && n.int_part <= u32::MAX as u64 {
                    Ok(n.int_part as u32)
                } else {
                    Err(SchemaError::WrongType)
                }
            },
            Some(_) => Err(SchemaError::WrongType),
            None => Err(SchemaError::MissingField),
        }
    }

    /// Optional unsigned field: absent or `null` is `None`.
    pub fn opt_u64_field(&self, key: &str) -> (r: Result<Option<u64>, SchemaError>)
        ensures
            match r {
                Ok(x) => spec_opt_u64(self@, key@) == Ok::<Option<u64>, SchemaError>(x),
                Err(e) => spec_opt_u64(self@, key@) == Err::<Option<u64>, SchemaError>(e),
            },
    {
        match self.get(key) {
            Some(JsonValue::Num(n)) => {
                if !n.neg && n.frac.len() == 0 {
                    Ok(Some(n.int_part))
                } else {
                    Err(SchemaError::WrongType)
                }
            },
            Some(JsonValue::Null) => Ok(None),
            Some(_) => Err(SchemaError::WrongType),
            None => Ok(None),
        }
    }

    /// Optional signed field that fits in `i32`: absent or `null` is `None`.
    pub fn opt_i32_field(&self, key: &str) -> (r: Result<Option<i32>, SchemaError>)
        ensures
            match r {
                Ok(x) => spec_opt_i32(self@, key@) == Ok::<Option<i32>, SchemaError>(x),
                Err(e) => spec_opt_i32(self@, key@) == Err::<Option<i32>, SchemaError>(e),
            },
    {
        match self.get(key) {
            Some(JsonValue::Num(n)) => {
                if n.frac.len() == 0 && (if n.neg {
                    n.int_part <= 0x8000_0000u64
                } else {
                    n.int_part <= i32::MAX as u64
                }) {
                    if n.neg {
                        Ok(Some((-(n.int_part as i64)) as i32))
                    } else {
                        Ok(Some(n.int_part as i32))
                    }
                } else {
                    Err(SchemaError::WrongType)
                }
            },
            Some(JsonValue::Null) => Ok(None),
            Some(_) => Err(SchemaError::WrongType),
            None => Ok(None),
        }
    }

    /// Defaulted signed field that fits in `i64`: absent means zero.
    pub fn i64_field_or_zero(&self, key: &str) -> (r: Result<i64, SchemaError>)
        ensures
            match r {
                Ok(x) => spec_i64_or_zero(self@, key@) == Ok::<i64, SchemaError>(x),
                Err(e) => spec_i64_or_zero(self@, key@) == Err::<i64, SchemaError>(e),
            },
    {
        match self.get(key) {
            Some(JsonValue::Num(n)) => {
                if n.frac.len() == 0 && (if n.neg {
                    n.int_part <= 0x8000_0000_0000_0000u64
                } else {
                    n.int_part <= i64::MAX as u64
                }) {
                    if n.neg {
                        Ok((-(n.int_part as i128)) as i64)
                    } else {
                        Ok(n.int_part as i64)
                    }
                } else {
                    Err(SchemaError::WrongType)
                }
            },
            Some(_) => Err(SchemaError::WrongType),
            None => Ok(0),
        }
    }

    /// Optional number field, carried verbatim: absent or `null` is `None`.
    pub fn opt_number_field(&self, key: &str) -> (r: Result<Option<JsonNumber>, SchemaError>)
        ensures
            match r {
                Ok(Some(n)) => spec_opt_number(self@, key@) == Ok::<Option<JNum>, SchemaError>(
                    Some(n@),
                ),
                Ok(None) => spec_opt_number(self@, key@) == Ok::<Option<JNum>, SchemaError>(None),
                Err(e) => spec_opt_number(self@, key@) == Err::<Option<JNum>, SchemaError>(e),
            },
    {
        match self.get(key) {
            Some(JsonValue::Num(n)) => Ok(Some(n.clone())),
            Some(JsonValue::Null) => Ok(None),
            Some(_) => Err(SchemaError::WrongType),
            None => Ok(None),
        }
    }

    /// Required object-shaped field (a free-form string-keyed map).
    pub fn req_object_field(&self, key: &str) -> (r: Result<JsonValue, SchemaError>)
        ensures
            match r {
                Ok(x) => spec_req_object(self@, key@) == Ok::<JVal, SchemaError>(x@),
                Err(e) => spec_req_object(self@, key@) == Err::<JVal, SchemaError>(e),
            },
    {
        match self.get(key) {
            Some(x) => if x.is_object() {
                Ok(x.clone())
            } else {
                Err(SchemaError::WrongType)
            },
            None => Err(SchemaError::MissingField),
        }
    }

    /// Required boolean field.
    pub fn req_bool_field(&self, key: &str) -> (r: Result<bool, SchemaError>)
        ensures
            match r {
                Ok(b) => spec_req_bool(self@, key@) == Ok::<bool, SchemaError>(b),
                Err(e) => spec_req_bool(self@, key@) == Err::<bool, SchemaError>(e),
            },
    {
        match self.get(key) {
            Some(JsonValue::Bool(b)) => Ok(*b),
            Some(_) => Err(SchemaError::WrongType),
            None => Err(SchemaError::MissingField),
        }
    }

    /// Defaulted free-form value field: absent means `null`.
    pub fn value_field_or_null(&self, key: &str) -> (r: JsonValue)
        ensures
            r@ == spec_value_or_null(self@, key@),
    {
        match self.get(key) {
            Some(x) => x.clone(),
            None => JsonValue::Null,
        }
    }

    /// Wire form of an optional whole, non-negative number.
    pub fn of_opt_u64(o: &Option<u64>) -> (r: JsonValue)
        ensures
            r@ == match *o {
                Some(x) => JVal::Num(JNum { neg: false, int_part: x, frac: Seq::empty() }),
                None => JVal::Null,
            },
    {
        match o {
            Some(x) => {
                let n = JsonNumber::from_u64(*x);
                proof {
                    assert(n@.frac =~= Seq::<u8>::empty());
                }
                JsonValue::Num(n)
            },
            None => JsonValue::Null,
        }
    }

    /// Wire form of an optional signed whole number.
    pub fn of_opt_i32(o: &Option<i32>) -> (r: JsonValue)
        ensures
            r@ == match *o {
                Some(x) => JVal::Num(jnum_of_i64(x as i64)),
                None => JVal::Null,
            },
    {
        match o {
            Some(x) => JsonValue::from_i64(*x as i64),
            None => JsonValue::Null,
        }
    }

    /// Wire form of an optional number carried verbatim.
    pub fn of_opt_number(o: &Option<JsonNumber>) -> (r: JsonValue)
        ensures
            r@ == match *o {
                Some(n) => JVal::Num(n@),
                None => JVal::Null,
            },
    {
        match o {
            Some(n) => JsonValue::Num(n.clone()),
            None => JsonValue::Null,
        }
    }

    /// Wire form of a string list.
    #[verifier::loop_isolation(false)]
    pub fn of_string_vec(items: &Vec<String>) -> (r: JsonValue)
        ensures
            r@ == JVal::Arr(Seq::new(items.deep_view().len(), |i: int| JVal::Str(items.deep_view()[i]))),
    {
        let mut out: Vec<JsonValue> = Vec::new();
        let mut i: usize = 0;
        while i < items.len()
            invariant
                i <= items@.len(),
                out@.len() == i,
                forall|j: int| 0 <= j < i ==> out@[j]@ == JVal::Str(items@[j]@),
            decreases items@.len() - i,
        {
            out.push(JsonValue::Str(items[i].clone()));
            i = i + 1;
        }
        let r = JsonValue::Arr(out);
        proof {
            assert(r@->Arr_0 =~= Seq::new(
                items.deep_view().len(),
                |i: int| JVal::Str(items.deep_view()[i]),
            ));
        }
        r
    }
}

impl JsonValue {
    /// Whether this value is an object.
    pub fn is_object(&self) -> (r: bool)
        ensures
            r == (self@ is Obj),
    {
        match self {
            JsonValue::Obj(_) => true,
            _ => false,
        }
    }

    /// Required string field.
    pub fn req_string_field(&self, key: &str) -> (r: Result<String, SchemaError>)
        ensures
            match r {
                Ok(s) => spec_req_string(self@, key@) == Ok::<Seq<char>, SchemaError>(s@),
                Err(e) => spec_req_string(self@, key@) == Err::<Seq<char>, SchemaError>(e),
            },
    {
        match self.get(key) {
            Some(JsonValue::Str(s)) => Ok(s.clone()),
            Some(_) => Err(SchemaError::WrongType),
            None => Err(SchemaError::MissingField),
        }
    }

    /// Optional string field: absent or `null` is `None`.
    pub fn opt_string_field(&self, key: &str) -> (r: Result<Option<String>, SchemaError>)
        ensures
            match r {
                Ok(Some(s)) => spec_opt_string(self@, key@) == Ok::<Option<Seq<char>>, SchemaError>(
                    Some(s@),
                ),
                Ok(None) => spec_opt_string(self@, key@) == Ok::<Option<Seq<char>>, SchemaError>(
                    None,
                ),
                Err(e) => spec_opt_string(self@, key@) == Err::<Option<Seq<char>>, SchemaError>(e),
            },
    {
        match self.get(key) {
            Some(JsonValue::Str(s)) => Ok(Some(s.clone())),
            Some(JsonValue::Null) => Ok(None),
            Some(_) => Err(SchemaError::WrongType),
            None => Ok(None),
        }
    }

    /// Defaulted string field: absent means the empty string.
    pub fn string_field_or_empty(&self, key: &str) -> (r: Result<String, SchemaError>)
        ensures
            match r {
                Ok(s) => spec_string_or_empty(self@, key@) == Ok::<Seq<char>, SchemaError>(s@),
                Err(e) => spec_string_or_empty(self@, key@) == Err::<Seq<char>, SchemaError>(e),
            },
    {
        match self.get(key) {
            Some(JsonValue::Str(s)) => Ok(s.clone()),
            Some(_) => Err(SchemaError::WrongType),
            None => Ok(String::new()),
        }
    }

    /// Defaulted unsigned field: absent means `dfl`.
    pub fn u32_field_or(&self, key: &str, dfl: u32) -> (r: Result<u32, SchemaError>)
        ensures
            match r {
                Ok(x) => spec_u32_or(self@, key@, dfl) == Ok::<u32, SchemaError>(x),
                Err(e) => spec_u32_or(self@, key@, dfl) == Err::<u32, SchemaError>(e),
            },
    {
        match self.get(key) {
            Some(JsonValue::Num(n)) => {
                if !n.neg && n.frac.len() == 0 && n.int_part <= u32::MAX as u64 {
                    Ok(n.int_part as u32)
                } else {
                    Err(SchemaError::WrongType)
                }
            },
            Some(_) => Err(SchemaError::WrongType),
            None => Ok(dfl),
        }
    }

    /// Defaulted number field: absent means zero.
    pub fn number_field_or_zero(&self, key: &str) -> (r: Result<JsonNumber, SchemaError>)
        ensures
            match r {
                Ok(n) => spec_number_or_zero(self@, key@) == Ok::<JNum, SchemaError>(n@),
                Err(e) => spec_number_or_zero(self@, key@) == Err::<JNum, SchemaError>(e),
            },
    {
        match self.get(key) {
            Some(JsonValue::Num(n)) => Ok(n.clone()),
            Some(_) => Err(SchemaError::WrongType),
            None => {
                let z = JsonNumber::from_u64(0);
                proof {
                    assert(z@.frac =~= Seq::<u8>::empty());
                }
                Ok(z)
            },
        }
    }

    /// Required free-form value field.
    pub fn req_value_field(&self, key: &str) -> (r: Result<JsonValue, SchemaError>)
        ensures
            match r {
                Ok(x) => spec_req_value(self@, key@) == Ok::<JVal, SchemaError>(x@),
                Err(e) => spec_req_value(self@, key@) == Err::<JVal, SchemaError>(e),
            },
    {
        match self.get(key) {
            Some(x) => Ok(x.clone()),
            None => Err(SchemaError::MissingField),
        }
    }

    /// Defaulted free-form value field: absent means the empty object.
    pub fn value_field_or_empty_object(&self, key: &str) -> (r: JsonValue)
        ensures
            r@ == spec_value_or_empty_object(self@, key@),
    {
        match self.get(key) {
            Some(x) => x.clone(),
            None => JsonValue::empty_object(),
        }
    }

    /// Optional free-form value field: absent or `null` is `None`.
    pub fn opt_value_field(&self, key: &str) -> (r: Option<JsonValue>)
        ensures
            match r {
                Some(x) => spec_opt_value(self@, key@) == Some(x@),
                None => spec_opt_value(self@, key@) is None,
            },
    {
        match self.get(key) {
            Some(JsonValue::Null) => None,
            Some(x) => Some(x.clone()),
            None => None,
        }
    }

    /// Defaulted boolean field: absent means `dfl`.
    pub fn bool_field_or(&self, key: &str, dfl: bool) -> (r: Result<bool, SchemaError>)
        ensures
            match r {
                Ok(b) => spec_bool_or(self@, key@, dfl) == Ok::<bool, SchemaError>(b),
                Err(e) => spec_bool_or(self@, key@, dfl) == Err::<bool, SchemaError>(e),
            },
    {
        match self.get(key) {
            Some(JsonValue::Bool(b)) => Ok(*b),
            Some(_) => Err(SchemaError::WrongType),
            None => Ok(dfl),
        }
    }

    /// Defaulted string-array field: absent means empty; present must be an
    /// array of strings.
    pub fn string_array_field_or_empty(&self, key: &str) -> (r: Result<Vec<String>, SchemaError>)
        ensures
            match r {
                Ok(items) => spec_string_array_or_empty(self@, key@) == Ok::<
                    Seq<Seq<char>>,
                    SchemaError,
                >(items.deep_view()),
                Err(e) => spec_string_array_or_empty(self@, key@) == Err::<
                    Seq<Seq<char>>,
                    SchemaError,
                >(e),
            },
    {
        match self.get(key) {
            Some(arr) => match arr {
                JsonValue::Arr(_) => collect_strings(arr),
                _ => Err(SchemaError::WrongType),
            },
            None => {
                let out: Vec<String> = Vec::new();
                proof {
                    assert(out.deep_view() =~= Seq::<Seq<char>>::empty());
                }
                Ok(out)
            },
        }
    }

    /// Required string-array field.
    pub fn req_string_array_field(&self, key: &str) -> (r: Result<Vec<String>, SchemaError>)
        ensures
            match r {
                Ok(items) => spec_req_string_array(self@, key@) == Ok::<
                    Seq<Seq<char>>,
                    SchemaError,
                >(items.deep_view()),
                Err(e) => spec_req_string_array(self@, key@) == Err::<Seq<Seq<char>>, SchemaError>(
                    e,
                ),
            },
    {
        match self.get(key) {
            Some(arr) => match arr {
                JsonValue::Arr(_) => collect_strings(arr),
                _ => Err(SchemaError::WrongType),
            },
            None => Err(SchemaError::MissingField),
        }
    }
}

/// The elements of an array value as owned strings, if they all are
/// strings.
#[verifier::loop_isolation(false)]
fn collect_strings(arr: &JsonValue) -> (r: Result<Vec<String>, SchemaError>)
    requires
        arr@ is Arr,
    ensures
        match r {
            Ok(items) => spec_string_items(arr@->Arr_0) == Ok::<Seq<Seq<char>>, SchemaError>(
                items.deep_view(),
            ),
            Err(e) => spec_string_items(arr@->Arr_0) == Err::<Seq<Seq<char>>, SchemaError>(e),
        },
{
    match arr {
        JsonValue::Arr(items) => {
            let ghost gitems = arr@->Arr_0;
            let mut out: Vec<String> = Vec::new();
            let mut i: usize = 0;
            while i < items.len()
                invariant
                    i <= items@.len(),
                    gitems.len() == items@.len(),
                    forall|j: int| 0 <= j < items@.len() ==> gitems[j] == items@[j]@,
                    out@.len() == i,
                    forall|j: int| 0 <= j < i ==> (#[trigger] gitems[j] matches JVal::Str(s)
                        && out@[j]@ == s),
                decreases items@.len() - i,
            {
                match &items[i] {
                    JsonValue::Str(s) => {
                        out.push(s.clone());
                    },
                    _ => {
                        proof {
                            lemma_string_items_err(gitems, i as int);
                        }
                        return Err(SchemaError::WrongType);
                    },
                }
                i = i + 1;
            }
            proof {
                lemma_string_items_ok(gitems, out.deep_view());
            }
            Ok(out)
        },
        _ => Err(SchemaError::WrongType),
    }
}

/// A list of strings written out as string values reads back as itself.
pub proof fn lemma_string_items_of_strs(tags: Seq<Seq<char>>)
    ensures
        spec_string_items(Seq::new(tags.len(), |i: int| JVal::Str(tags[i]))) == Ok::<
            Seq<Seq<char>>,
            SchemaError,
        >(tags),
    decreases tags.len(),
{
    let items = Seq::new(tags.len(), |i: int| JVal::Str(tags[i]));
    if tags.len() > 0 {
        lemma_string_items_of_strs(tags.skip(1));
        assert(items.skip(1) =~= Seq::new(tags.skip(1).len(), |i: int| JVal::Str(tags.skip(1)[i])));
        assert(tags =~= seq![tags[0]] + tags.skip(1));
    } else {
        assert(tags =~= Seq::<Seq<char>>::empty());
    }
}

/// If some element of `items` is not a string, the items do not read as a
/// string array.
proof fn lemma_string_items_err(items: Seq<JVal>, i: int)
    requires
        0 <= i < items.len(),
        !(items[i] is Str),
        forall|j: int| 0 <= j < i ==> items[j] is Str,
    ensures
        spec_string_items(items) == Err::<Seq<Seq<char>>, SchemaError>(SchemaError::WrongType),
    decreases items.len(),
{
    if i > 0 {
        lemma_string_items_err(items.skip(1), i - 1);
    }
}

/// If every element of `items` is a string and `views` collects their
/// views, the items read as exactly `views`.
proof fn lemma_string_items_ok(items: Seq<JVal>, views: Seq<Seq<char>>)
    requires
        views.len() == items.len(),
        forall|j: int| 0 <= j < items.len() ==> (#[trigger] items[j] matches JVal::Str(s) && views[j] == s),
    ensures
        spec_string_items(items) == Ok::<Seq<Seq<char>>, SchemaError>(views),
    decreases items.len(),
{
    if items.len() == 0 {
        assert(views =~= Seq::<Seq<char>>::empty());
    } else {
        lemma_string_items_ok(items.skip(1), views.skip(1));
        assert(views =~= seq![views[0]] + views.skip(1));
    }
}

} // verus!
