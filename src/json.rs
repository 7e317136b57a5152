//! A JSON document tree and the field readers that every decoder is built from.
use vstd::prelude::*;

use crate::map::StringMap;

verus! {

/// A JSON number as the wire carried it.
#[derive(Debug)]
pub enum Number {
    /// A non-negative integer.
    PosInt(u64),
    /// A negative integer.
    NegInt(i64),
    /// Any other number, kept as its decimal text.
    Float(String),
}

/// A JSON document.
#[derive(Debug)]
pub enum Json {
    Null,
    Bool(bool),
    Number(Number),
    String(String),
    Array(Vec<Json>),
    /// The members of an object, in document order.
    Object(Vec<(String, Json)>),
}

/// Why a document could not be decoded: the path of member names, outermost first, that leads
/// to the member that was missing or malformed.
#[derive(Debug)]
pub struct DecodeError {
    pub path: Vec<String>,
}

impl DecodeError {
    /// An error naming the member `key`.
    pub fn at(key: &str) -> (r: DecodeError)
        ensures
            r.path@.len() == 1,
            r.path@[0]@ == key@,
    {
        let mut path: Vec<String> = Vec::new();
        path.push(key.to_owned());
        DecodeError { path }
    }

    /// The same error, seen from the object that holds member `key`.
    pub fn within(self, key: &str) -> (r: DecodeError)
        ensures
            r.path@.len() == self.path@.len() + 1,
            r.path@[0]@ == key@,
            r.path@.drop_first() == self.path@,
    {
        let mut path = self.path;
        path.insert(0, key.to_owned());
        proof {
            assert(path@.drop_first() =~= self.path@);
        }
        DecodeError { path }
    }
}

/// The result of decoding member `key`, an error placed under that member's name.
pub fn nested<T>(r: Result<T, DecodeError>, key: &str) -> (out: Result<T, DecodeError>)
    ensures
        match r {
            Ok(x) => out == Ok::<T, DecodeError>(x),
            Err(_) => out is Err,
        },
{
    match r {
        Ok(x) => Ok(x),
        Err(e) => Err(e.within(key)),
    }
}

/// The value of the first member named `key` among `entries`.
pub open spec fn lookup(entries: Seq<(String, Json)>, key: Seq<char>) -> Option<Json>
    decreases entries.len(),
{
    if entries.len() == 0 {
        None
    } else if entries[0].0@ == key {
        Some(entries[0].1)
    } else {
        lookup(entries.drop_first(), key)
    }
}

/// The member `key` of `j`, when `j` is an object that has one.
pub open spec fn member(j: Json, key: Seq<char>) -> Option<Json> {
    match j {
        Json::Object(entries) => lookup(entries@, key),
        _ => None,
    }
}

/// A required string member.
pub open spec fn str_field(j: Json, key: Seq<char>) -> Option<Seq<char>> {
    match member(j, key) {
        Some(Json::String(s)) => Some(s@),
        _ => None,
    }
}

/// An optional string member: absent or null is `Some(None)`, anything but a string fails.
pub open spec fn opt_str_field(j: Json, key: Seq<char>) -> Option<Option<Seq<char>>> {
    match member(j, key) {
        None => Some(None),
        Some(Json::Null) => Some(None),
        Some(Json::String(s)) => Some(Some(s@)),
        _ => None,
    }
}

/// A JSON value read as an unsigned 64-bit integer.
pub open spec fn as_u64(v: Json) -> Option<u64> {
    match v {
        Json::Number(Number::PosInt(n)) => Some(n),
        Json::Number(Number::NegInt(n)) => if n >= 0 {
            Some(n as u64)
        } else {
            None
        },
        _ => None,
    }
}

/// A required unsigned integer member.
pub open spec fn u64_field(j: Json, key: Seq<char>) -> Option<u64> {
    match member(j, key) {
        Some(v) => as_u64(v),
        None => None,
    }
}

/// An optional unsigned integer member: absent or null is `Some(None)`.
pub open spec fn opt_u64_field(j: Json, key: Seq<char>) -> Option<Option<u64>> {
    match member(j, key) {
        None => Some(None),
        Some(Json::Null) => Some(None),
        Some(v) => match as_u64(v) {
            Some(n) => Some(Some(n)),
            None => None,
        },
    }
}

/// A required unsigned integer member that fits in 16 bits.
pub open spec fn u16_field(j: Json, key: Seq<char>) -> Option<u16> {
    match u64_field(j, key) {
        Some(n) => if n <= u16::MAX {
            Some(n as u16)
        } else {
            None
        },
        None => None,
    }
}

/// An optional unsigned integer member that fits in 16 bits.
pub open spec fn opt_u16_field(j: Json, key: Seq<char>) -> Option<Option<u16>> {
    match opt_u64_field(j, key) {
        Some(Some(n)) => if n <= u16::MAX {
            Some(Some(n as u16))
        } else {
            None
        },
        Some(None) => Some(None),
        None => None,
    }
}

/// A required boolean member.
pub open spec fn bool_field(j: Json, key: Seq<char>) -> Option<bool> {
    match member(j, key) {
        Some(Json::Bool(b)) => Some(b),
        _ => None,
    }
}

/// The texts of a sequence of strings.
pub open spec fn texts(v: Seq<String>) -> Seq<Seq<char>> {
    v.map_values(|s: String| s@)
}

/// The text of an optional string.
pub open spec fn opt_text(o: Option<String>) -> Option<Seq<char>> {
    match o {
        Some(s) => Some(s@),
        None => None,
    }
}

/// Every item of the array is a string.
pub open spec fn all_strings(items: Seq<Json>) -> bool {
    forall|i: int| 0 <= i < items.len() ==> (#[trigger] items[i]) is String
}

/// The texts of an array of strings.
pub open spec fn strings_of(items: Seq<Json>) -> Seq<Seq<char>> {
    items.map_values(|v: Json| v->String_0@)
}

/// A required array of strings.
pub open spec fn str_list_field(j: Json, key: Seq<char>) -> Option<Seq<Seq<char>>> {
    match member(j, key) {
        Some(Json::Array(items)) => if all_strings(items@) {
            Some(strings_of(items@))
        } else {
            None
        },
        _ => None,
    }
}

/// Every member of the object has a string value.
pub open spec fn all_string_members(entries: Seq<(String, Json)>) -> bool {
    forall|i: int| 0 <= i < entries.len() ==> (#[trigger] entries[i]).1 is String
}

/// The mapping that the members of an object give, a later member replacing an earlier one.
pub open spec fn text_map(entries: Seq<(String, Json)>) -> Map<Seq<char>, Seq<char>>
    decreases entries.len(),
{
    if entries.len() == 0 {
        Map::empty()
    } else {
        text_map(entries.drop_last()).insert(entries.last().0@, entries.last().1->String_0@)
    }
}

/// An object of strings read as a mapping.
pub open spec fn as_text_map(v: Json) -> Option<Map<Seq<char>, Seq<char>>> {
    match v {
        Json::Object(entries) => if all_string_members(entries@) {
            Some(text_map(entries@))
        } else {
            None
        },
        _ => None,
    }
}

/// A mapping member that defaults to the empty mapping when absent or null.
pub open spec fn map_field(j: Json, key: Seq<char>) -> Option<Map<Seq<char>, Seq<char>>> {
    match member(j, key) {
        None => Some(Map::empty()),
        Some(Json::Null) => Some(Map::empty()),
        Some(v) => as_text_map(v),
    }
}

/// A mapping member that is `Some(None)` when absent or null.
pub open spec fn opt_map_field(j: Json, key: Seq<char>) -> Option<Option<Map<Seq<char>, Seq<char>>>> {
    match member(j, key) {
        None => Some(None),
        Some(Json::Null) => Some(None),
        Some(v) => match as_text_map(v) {
            Some(m) => Some(Some(m)),
            None => None,
        },
    }
}

/// The mapping of an optional string map.
pub open spec fn opt_map_view(o: Option<StringMap>) -> Option<Map<Seq<char>, Seq<char>>> {
    match o {
        Some(m) => Some(m@),
        None => None,
    }
}

/// Whether two strings hold the same text.
pub fn text_eq(a: &str, b: &str) -> (r: bool)
    ensures
        r == (a@ == b@),
{
    a.to_owned() == b.to_owned()
}

fn find_member(entries: &Vec<(String, Json)>, key: &str) -> (r: Option<usize>)
    ensures
        match r {
            Some(i) => i < entries@.len() && lookup(entries@, key@) == Some(entries@[i as int].1),
            None => lookup(entries@, key@) is None,
        },
{
    let mut i: usize = 0;
    assert(entries@.subrange(0, entries@.len() as int) =~= entries@);
    while i < entries.len()
        invariant
            i <= entries@.len(),
            lookup(entries@, key@) == lookup(entries@.subrange(i as int, entries@.len() as int), key@),
        decreases entries@.len() - i,
    {
        let ghost rest = entries@.subrange(i as int, entries@.len() as int);
        assert(rest.drop_first() =~= entries@.subrange(i + 1, entries@.len() as int));
        if text_eq(entries[i].0.as_str(), key) {
            return Some(i);
        }
        i = i + 1;
    }
    None
}

impl Json {
    /// The member `key` of this value, when it is an object that has one.
    pub fn get(&self, key: &str) -> (r: Option<&Json>)
        ensures
            match r {
                Some(v) => member(*self, key@) == Some(*v),
                None => member(*self, key@) is None,
            },
    {
        match self {
            Json::Object(entries) => match find_member(entries, key) {
                Some(i) => Some(&entries[i].1),
                None => None,
            },
            _ => None,
        }
    }

    /// Takes the member `key` out of this value.
    pub fn into_member(self, key: &str) -> (r: Option<Json>)
        ensures
            r == member(self, key@),
    {
        match self {
            Json::Object(mut entries) => match find_member(&entries, key) {
                Some(i) => {
                    let (_, v) = entries.remove(i);
                    Some(v)
                },
                None => None,
            },
            _ => None,
        }
    }

    /// This value read as an unsigned 64-bit integer.
    pub fn as_u64(&self) -> (r: Option<u64>)
        ensures
            r == as_u64(*self),
    {
        match self {
            Json::Number(Number::PosInt(n)) => Some(*n),
            Json::Number(Number::NegInt(n)) => if *n >= 0 {
                Some(*n as u64)
            } else {
                None
            },
            _ => None,
        }
    }
}

/// The required member `key`.
pub fn required<'a>(j: &'a Json, key: &str) -> (r: Result<&'a Json, DecodeError>)
    ensures
        match r {
            Ok(v) => member(*j, key@) == Some(*v),
            Err(_) => member(*j, key@) is None,
        },
{
    match j.get(key) {
        Some(v) => Ok(v),
        None => Err(DecodeError::at(key)),
    }
}

/// Reads a required string member.
pub fn read_string(j: &Json, key: &str) -> (r: Result<String, DecodeError>)
    ensures
        match r {
            Ok(s) => str_field(*j, key@) == Some(s@),
            Err(_) => str_field(*j, key@) is None,
        },
{
    match j.get(key) {
        Some(Json::String(s)) => Ok(s.clone()),
        _ => Err(DecodeError::at(key)),
    }
}

/// Reads an optional string member; absent or null gives `None`.
pub fn read_opt_string(j: &Json, key: &str) -> (r: Result<Option<String>, DecodeError>)
    ensures
        match r {
            Ok(s) => opt_str_field(*j, key@) == Some(opt_text(s)),
            Err(_) => opt_str_field(*j, key@) is None,
        },
{
    match j.get(key) {
        None => Ok(None),
        Some(Json::Null) => Ok(None),
        Some(Json::String(s)) => Ok(Some(s.clone())),
        _ => Err(DecodeError::at(key)),
    }
}

/// Reads a required unsigned integer member.
pub fn read_u64(j: &Json, key: &str) -> (r: Result<u64, DecodeError>)
    ensures
        match r {
            Ok(n) => u64_field(*j, key@) == Some(n),
            Err(_) => u64_field(*j, key@) is None,
        },
{
    match j.get(key) {
        Some(v) => match v.as_u64() {
            Some(n) => Ok(n),
            None => Err(DecodeError::at(key)),
        },
        None => Err(DecodeError::at(key)),
    }
}

/// Reads an optional unsigned integer member; absent or null gives `None`.
pub fn read_opt_u64(j: &Json, key: &str) -> (r: Result<Option<u64>, DecodeError>)
    ensures
        match r {
            Ok(n) => opt_u64_field(*j, key@) == Some(n),
            Err(_) => opt_u64_field(*j, key@) is None,
        },
{
    match j.get(key) {
        None => Ok(None),
        Some(Json::Null) => Ok(None),
        Some(v) => match v.as_u64() {
            Some(n) => Ok(Some(n)),
            None => Err(DecodeError::at(key)),
        },
    }
}

/// Reads a required unsigned integer member that fits in 16 bits.
pub fn read_u16(j: &Json, key: &str) -> (r: Result<u16, DecodeError>)
    ensures
        match r {
            Ok(n) => u16_field(*j, key@) == Some(n),
            Err(_) => u16_field(*j, key@) is None,
        },
{
    let n = read_u64(j, key)?;
    if n <= u16::MAX as u64 {
        Ok(n as u16)
    } else {
        Err(DecodeError::at(key))
    }
}

/// Reads an optional unsigned integer member that fits in 16 bits.
pub fn read_opt_u16(j: &Json, key: &str) -> (r: Result<Option<u16>, DecodeError>)
    ensures
        match r {
            Ok(n) => opt_u16_field(*j, key@) == Some(n),
            Err(_) => opt_u16_field(*j, key@) is None,
        },
{
    match read_opt_u64(j, key)? {
        Some(n) => if n <= u16::MAX as u64 {
            Ok(Some(n as u16))
        } else {
            Err(DecodeError::at(key))
        },
        None => Ok(None),
    }
}

/// Reads a required boolean member.
pub fn read_bool(j: &Json, key: &str) -> (r: Result<bool, DecodeError>)
    ensures
        match r {
            Ok(b) => bool_field(*j, key@) == Some(b),
            Err(_) => bool_field(*j, key@) is None,
        },
{
    match j.get(key) {
        Some(Json::Bool(b)) => Ok(*b),
        _ => Err(DecodeError::at(key)),
    }
}

/// Reads a required array of strings.
pub fn read_string_list(j: &Json, key: &str) -> (r: Result<Vec<String>, DecodeError>)
    ensures
        match r {
            Ok(v) => str_list_field(*j, key@) == Some(texts(v@)),
            Err(_) => str_list_field(*j, key@) is None,
        },
{
    let items = match j.get(key) {
        Some(Json::Array(items)) => items,
        _ => return Err(DecodeError::at(key)),
    };
    let mut out: Vec<String> = Vec::new();
    let mut i: usize = 0;
    while i < items.len()
        invariant
            member(*j, key@) == Some(Json::Array(*items)),
            i <= items@.len(),
            out@.len() == i,
            forall|k: int| 0 <= k < i ==> (#[trigger] items@[k]) is String,
            forall|k: int| 0 <= k < i ==> (#[trigger] out@[k])@ == items@[k]->String_0@,
        decreases items@.len() - i,
    {
        match &items[i] {
            Json::String(s) => out.push(s.clone()),
            _ => {
                assert(!(items@[i as int] is String));
                assert(!all_strings(items@));
                return Err(DecodeError::at(key));
            },
        }
        i = i + 1;
    }
    assert(texts(out@) =~= strings_of(items@));
    Ok(out)
}

/// An object of strings read as a mapping.
pub fn text_map_of(v: &Json) -> (r: Option<StringMap>)
    ensures
        match r {
            Some(m) => m.wf() && as_text_map(*v) == Some(m@),
            None => as_text_map(*v) is None,
        },
{
    let entries = match v {
        Json::Object(entries) => entries,
        _ => return None,
    };
    let mut out = StringMap::new();
    let mut i: usize = 0;
    while i < entries.len()
        invariant
            *v == Json::Object(*entries),
            i <= entries@.len(),
            out.wf(),
            all_string_members(entries@.subrange(0, i as int)),
            out@ == text_map(entries@.subrange(0, i as int)),
        decreases entries@.len() - i,
    {
        let ghost before = entries@.subrange(0, i as int);
        let ghost after = entries@.subrange(0, i + 1);
        assert(after.drop_last() =~= before);
        match &entries[i].1 {
            Json::String(s) => out.insert(entries[i].0.clone(), s.clone()),
            _ => {
                assert(!(entries@[i as int].1 is String));
                assert(!all_string_members(entries@));
                return None;
            },
        }
        i = i + 1;
    }
    assert(entries@.subrange(0, entries@.len() as int) =~= entries@);
    Some(out)
}

/// Reads a mapping member; absent or null gives the empty mapping.
pub fn read_map(j: &Json, key: &str) -> (r: Result<StringMap, DecodeError>)
    ensures
        match r {
            Ok(m) => m.wf() && map_field(*j, key@) == Some(m@),
            Err(_) => map_field(*j, key@) is None,
        },
{
    match j.get(key) {
        None => Ok(StringMap::new()),
        Some(Json::Null) => Ok(StringMap::new()),
        Some(v) => match text_map_of(v) {
            Some(m) => Ok(m),
            None => Err(DecodeError::at(key)),
        },
    }
}

/// Reads an optional mapping member; absent or null gives `None`.
pub fn read_opt_map(j: &Json, key: &str) -> (r: Result<Option<StringMap>, DecodeError>)
    ensures
        match r {
            Ok(m) => opt_map_field(*j, key@) == Some(opt_map_view(m)) && (m matches Some(mm) ==> mm.wf()),
            Err(_) => opt_map_field(*j, key@) is None,
        },
{
    match j.get(key) {
        None => Ok(None),
        Some(Json::Null) => Ok(None),
        Some(v) => match text_map_of(v) {
            Some(m) => Ok(Some(m)),
            None => Err(DecodeError::at(key)),
        },
    }
}

/// An array whose items are, one for one, what `from` relates them to.
pub open spec fn list_from<T>(v: Json, xs: Seq<T>, from: spec_fn(Json, T) -> bool) -> bool {
    match v {
        Json::Array(items) => items@.len() == xs.len() && forall|i: int|
            0 <= i < xs.len() ==> #[trigger] from(items@[i], xs[i]),
        _ => false,
    }
}

/// Reads every item of an array with `decode`, which reads an item to what `from` relates it to.
pub(crate) fn read_list<T, F: Fn(&Json) -> Result<T, DecodeError>>(
    v: &Json,
    key: &str,
    decode: F,
    from: Ghost<spec_fn(Json, T) -> bool>,
) -> (r: Result<Vec<T>, DecodeError>)
    requires
        forall|x: &Json| #[trigger] decode.requires((x,)),
        forall|x: &Json, t: Result<T, DecodeError>|
            #[trigger] decode.ensures((x,), t) ==> (t is Ok ==> from@(*x, t->Ok_0)) && (t is Err ==> forall|a: T|
                !#[trigger] from@(*x, a)),
    ensures
        match r {
            Ok(xs) => list_from(*v, xs@, from@),
            Err(_) => forall|xs: Seq<T>| !#[trigger] list_from(*v, xs, from@),
        },
{
    let items = match v {
        Json::Array(items) => items,
        _ => return Err(DecodeError::at(key)),
    };
    let mut out: Vec<T> = Vec::new();
    let mut i: usize = 0;
    while i < items.len()
        invariant
            *v == Json::Array(*items),
            i <= items@.len(),
            out@.len() == i,
            forall|x: &Json| #[trigger] decode.requires((x,)),
            forall|x: &Json, t: Result<T, DecodeError>|
                #[trigger] decode.ensures((x,), t) ==> (t is Ok ==> from@(*x, t->Ok_0)) && (t is Err ==> forall|a: T|
                !#[trigger] from@(*x, a)),
            forall|k: int| 0 <= k < i ==> #[trigger] from@(items@[k], out@[k]),
        decreases items@.len() - i,
    {
        let item = &items[i];
        match decode(item) {
            Ok(a) => out.push(a),
            Err(e) => {
                assert forall|xs: Seq<T>| !list_from(*v, xs, from@) by {
                    if list_from(*v, xs, from@) {
                        assert(from@(items@[i as int], xs[i as int]));
                    }
                }
                return Err(e.within(key));
            },
        }
        i = i + 1;
    }
    Ok(out)
}

/// A string or null.
pub open spec fn nullable_text(v: Json) -> Option<Option<Seq<char>>> {
    match v {
        Json::Null => Some(None),
        Json::String(s) => Some(Some(s@)),
        _ => None,
    }
}

/// An object whose members, in order, carry the names and the nullable texts of `x`.
pub open spec fn nullable_members_from(v: Json, x: Seq<(String, Option<String>)>) -> bool {
    match v {
        Json::Object(e) => e@.len() == x.len() && forall|i: int|
            0 <= i < x.len() ==> (#[trigger] x[i]).0@ == e@[i].0@ && nullable_text(e@[i].1) == Some(
                opt_text(x[i].1),
            ),
        _ => false,
    }
}

/// Reads an object whose members are strings or null.
pub fn read_nullable_members(v: &Json, key: &str) -> (r: Result<Vec<(String, Option<String>)>, DecodeError>)
    ensures
        match r {
            Ok(x) => nullable_members_from(*v, x@),
            Err(_) => forall|x: Seq<(String, Option<String>)>| !#[trigger] nullable_members_from(*v, x),
        },
{
    let entries = match v {
        Json::Object(entries) => entries,
        _ => return Err(DecodeError::at(key)),
    };
    let mut out: Vec<(String, Option<String>)> = Vec::new();
    let mut i: usize = 0;
    while i < entries.len()
        invariant
            *v == Json::Object(*entries),
            i <= entries@.len(),
            out@.len() == i,
            forall|k: int|
                0 <= k < i ==> (#[trigger] out@[k]).0@ == entries@[k].0@ && nullable_text(entries@[k].1)
                    == Some(opt_text(out@[k].1)),
        decreases entries@.len() - i,
    {
        let value = match &entries[i].1 {
            Json::Null => None,
            Json::String(s) => Some(s.clone()),
            _ => {
                assert forall|x: Seq<(String, Option<String>)>| !#[trigger] nullable_members_from(*v, x) by {
                    if nullable_members_from(*v, x) {
                        assert(nullable_text(entries@[i as int].1) == Some(opt_text(x[i as int].1)));
                    }
                }
                return Err(DecodeError::at(key));
            },
        };
        out.push((entries[i].0.clone(), value));
        i = i + 1;
    }
    Ok(out)
}

/// An object of strings and the mapping read from it.
pub open spec fn text_map_rel() -> spec_fn(Json, StringMap) -> bool {
    |v: Json, m: StringMap| as_text_map(v) == Some(m@) && m.wf()
}

/// Reads an object of strings as a mapping.
pub fn decode_text_map(v: &Json) -> (r: Result<StringMap, DecodeError>)
    ensures
        match r {
            Ok(m) => as_text_map(*v) == Some(m@) && m.wf(),
            Err(_) => as_text_map(*v) is None,
        },
{
    match text_map_of(v) {
        Some(m) => Ok(m),
        None => Err(DecodeError { path: Vec::new() }),
    }
}

/// An object whose members, in order, carry the names of `xs` and values that `from` relates to
/// theirs.
pub open spec fn members_from<T>(v: Json, xs: Seq<(String, T)>, from: spec_fn(Json, T) -> bool) -> bool {
    match v {
        Json::Object(e) => e@.len() == xs.len() && forall|i: int|
            0 <= i < xs.len() ==> (#[trigger] xs[i]).0@ == e@[i].0@ && from(e@[i].1, xs[i].1),
        _ => false,
    }
}

/// Reads the value of every member of an object with `decode`, keeping the names.
pub(crate) fn read_members<T, F: Fn(&Json) -> Result<T, DecodeError>>(
    v: &Json,
    key: &str,
    decode: F,
    from: Ghost<spec_fn(Json, T) -> bool>,
) -> (r: Result<Vec<(String, T)>, DecodeError>)
    requires
        forall|x: &Json| #[trigger] decode.requires((x,)),
        forall|x: &Json, t: Result<T, DecodeError>|
            #[trigger] decode.ensures((x,), t) ==> (t is Ok ==> from@(*x, t->Ok_0)) && (t is Err ==> forall|a: T|
                !#[trigger] from@(*x, a)),
    ensures
        match r {
            Ok(xs) => members_from(*v, xs@, from@),
            Err(_) => forall|xs: Seq<(String, T)>| !#[trigger] members_from(*v, xs, from@),
        },
{
    let entries = match v {
        Json::Object(entries) => entries,
        _ => return Err(DecodeError::at(key)),
    };
    let mut out: Vec<(String, T)> = Vec::new();
    let mut i: usize = 0;
    while i < entries.len()
        invariant
            *v == Json::Object(*entries),
            i <= entries@.len(),
            out@.len() == i,
            forall|x: &Json| #[trigger] decode.requires((x,)),
            forall|x: &Json, t: Result<T, DecodeError>|
                #[trigger] decode.ensures((x,), t) ==> (t is Ok ==> from@(*x, t->Ok_0)) && (t is Err
                    ==> forall|a: T| !#[trigger] from@(*x, a)),
            forall|k: int|
                0 <= k < i ==> (#[trigger] out@[k]).0@ == entries@[k].0@ && from@(entries@[k].1, out@[k].1),
        decreases entries@.len() - i,
    {
        match decode(&entries[i].1) {
            Ok(a) => out.push((entries[i].0.clone(), a)),
            Err(e) => {
                assert forall|xs: Seq<(String, T)>| !#[trigger] members_from(*v, xs, from@) by {
                    if members_from(*v, xs, from@) {
                        assert(from@(entries@[i as int].1, xs[i as int].1));
                    }
                }
                return Err(e.within(key));
            },
        }
        i = i + 1;
    }
    Ok(out)
}

} // verus!
