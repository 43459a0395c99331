//! A JSON document as a tree of plain values.

use crate::error::{outcome, Error, ErrorView, Kind};
use crate::strictness::Strictness;
use crate::text::str_eq;
use vstd::prelude::*;

verus! {

/// The mathematical value of a JSON document.
pub enum Json {
    Null,
    Bool(bool),
    /// A number: the integer, where it is one that fits in 64 bits with a
    /// sign; `None` for any other number.
    Number(Option<i64>),
    Text(Seq<char>),
    Array(Seq<Json>),
    /// An object: its entries, in order.
    Object(Seq<(Seq<char>, Json)>),
}

/// A JSON document held in memory.
#[derive(Debug, PartialEq, Eq)]
pub enum JsonValue {
    Null,
    Bool(bool),
    /// A number: the integer, where it is one that fits in 64 bits with a
    /// sign; `None` for any other number.
    Number(Option<i64>),
    Text(String),
    Array(Vec<JsonValue>),
    /// An object: its entries, in order. Readers take the first entry of a
    /// name.
    Object(Vec<(String, JsonValue)>),
}

/// The document that a [`JsonValue`] holds.
pub open spec fn tree_of(value: JsonValue) -> Json
    decreases value,
{
    match value {
        JsonValue::Null => Json::Null,
        JsonValue::Bool(b) => Json::Bool(b),
        JsonValue::Number(n) => Json::Number(n),
        JsonValue::Text(s) => Json::Text(s@),
        JsonValue::Array(items) => Json::Array(
            Seq::new(
                items@.len(),
                |i: int|
                    if 0 <= i < items@.len() {
                        tree_of(items@[i])
                    } else {
                        Json::Null
                    },
            ),
        ),
        JsonValue::Object(entries) => Json::Object(
            Seq::new(
                entries@.len(),
                |i: int|
                    if 0 <= i < entries@.len() {
                        (entries@[i].0@, tree_of(entries@[i].1))
                    } else {
                        (Seq::empty(), Json::Null)
                    },
            ),
        ),
    }
}

impl View for JsonValue {
    type V = Json;

    open spec fn view(&self) -> Json {
        tree_of(*self)
    }
}

impl DeepView for JsonValue {
    type V = Json;

    open spec fn deep_view(&self) -> Json {
        self@
    }
}

/// `serde_json::Value`, which is carried from the parser to the copy and
/// read nowhere else.
#[verifier::external_type_specification]
#[verifier::external_body]
pub struct ExValue(serde_json::Value);

/// The document that `serde_json` reads from a text, `None` where it reads none.
pub uninterp spec fn document_of(bytes: Seq<u8>) -> Option<Json>;

/// The document that a `serde_json::Value` holds.
pub uninterp spec fn value_tree(value: serde_json::Value) -> Json;

/// Calls `serde_json::from_slice` for a `serde_json::Value`. The contract
/// claims that success and the value read depend on the bytes alone; of the
/// message of a failure it claims nothing.
#[verifier::external_body]
fn read_value(bytes: &[u8]) -> (r: Result<serde_json::Value, String>)
    ensures
        r matches Ok(value) ==> document_of(bytes@) == Some(value_tree(value)),
        r is Err ==> document_of(bytes@) is None,
{
    serde_json::from_slice::<serde_json::Value>(bytes).map_err(|e| e.to_string())
}

/// Copies a `serde_json::Value` into a [`JsonValue`], variant by variant: a
/// number becomes what `Number::as_i64` gives, an object its entries in the
/// order in which `serde_json::Map` hands them out. The contract claims that
/// the copy holds the document that the value holds.
#[verifier::external_body]
fn lift(value: &serde_json::Value) -> (tree: JsonValue)
    ensures
        tree@ == value_tree(*value),
{
    match value {
        serde_json::Value::Null => JsonValue::Null,
        serde_json::Value::Bool(b) => JsonValue::Bool(*b),
        serde_json::Value::Number(n) => JsonValue::Number(n.as_i64()),
        serde_json::Value::String(s) => JsonValue::Text(s.clone()),
        serde_json::Value::Array(items) => JsonValue::Array(items.iter().map(lift).collect()),
        serde_json::Value::Object(map) => JsonValue::Object(
            map.iter().map(|(k, v)| (k.clone(), lift(v))).collect(),
        ),
    }
}

impl JsonValue {
    /// Reads a JSON text. The result is the document that `serde_json` reads
    /// from these bytes; where it reads none, the failure is a parse error
    /// that names no field.
    pub fn parse(bytes: &[u8]) -> (r: Result<JsonValue, Error>)
        ensures
            match document_of(bytes@) {
                Some(doc) => r matches Ok(v) && v@ == doc,
                None => r matches Err(e) && e@.kind == Kind::ParseError && e@.field is None
                    && e@.fragment is None && e@.entity is None,
            },
    {
        match read_value(bytes) {
            Ok(value) => Ok(lift(&value)),
            Err(message) => Err(Error::new_own(message, Kind::ParseError)),
        }
    }

    /// The document that a `serde_json::Value` holds, for callers that have
    /// parsed a response already.
    pub fn from_value(value: &serde_json::Value) -> (tree: JsonValue)
        ensures
            tree@ == value_tree(*value),
    {
        lift(value)
    }

    /// The entries of an object, in order; `None` for any other value.
    pub fn as_object(&self) -> (r: Option<&Vec<(String, JsonValue)>>)
        ensures
            match r {
                Some(entries) => self@ == Json::Object(entries.deep_view()),
                None => !(self@ is Object),
            },
    {
        match self {
            JsonValue::Object(entries) => {
                assert(self@->Object_0 =~= entries.deep_view());
                Some(entries)
            },
            _ => None,
        }
    }

    /// The items of an array, in order; `None` for any other value.
    pub fn as_array(&self) -> (r: Option<&Vec<JsonValue>>)
        ensures
            match r {
                Some(items) => self@ == Json::Array(items.deep_view()),
                None => !(self@ is Array),
            },
    {
        match self {
            JsonValue::Array(items) => {
                assert(self@->Array_0 =~= items.deep_view());
                Some(items)
            },
            _ => None,
        }
    }
}

/// The value of the first entry whose key is `name`.
pub open spec fn lookup(fields: Seq<(Seq<char>, Json)>, name: Seq<char>) -> Option<Json>
    decreases fields.len(),
{
    if fields.len() == 0 {
        None
    } else if fields[0].0 == name {
        Some(fields[0].1)
    } else {
        lookup(fields.drop_first(), name)
    }
}

/// An entry under `name` that no earlier entry shares the key of is the one
/// that `lookup` gives.
pub proof fn lemma_lookup_first(fields: Seq<(Seq<char>, Json)>, name: Seq<char>, at: int)
    requires
        0 <= at < fields.len(),
        fields[at].0 == name,
        forall|k: int| 0 <= k < at ==> fields[k].0 != name,
    ensures
        lookup(fields, name) == Some(fields[at].1),
    decreases at,
{
    if at > 0 {
        lemma_lookup_first(fields.drop_first(), name, at - 1);
    }
}

/// Where no entry has the key `name`, `lookup` gives nothing.
pub proof fn lemma_lookup_absent(fields: Seq<(Seq<char>, Json)>, name: Seq<char>)
    requires
        forall|k: int| 0 <= k < fields.len() ==> fields[k].0 != name,
    ensures
        lookup(fields, name) is None,
    decreases fields.len(),
{
    if fields.len() > 0 {
        lemma_lookup_absent(fields.drop_first(), name);
    }
}

/// What `lookup` gives is smaller than the entries it was found in, so that
/// a reader may descend into it.
pub proof fn lemma_lookup_smaller(fields: Seq<(Seq<char>, Json)>, name: Seq<char>)
    ensures
        lookup(fields, name) matches Some(value) ==> decreases_to!(fields => value),
    decreases fields.len(),
{
    if fields.len() > 0 {
        if fields[0].0 == name {
            assert(decreases_to!(fields => fields[0]));
            assert(decreases_to!(fields[0] => fields[0].1));
        } else {
            lemma_lookup_smaller(fields.drop_first(), name);
            assert(fields.drop_first() == fields.subrange(1, fields.len() as int));
            assert(decreases_to!(fields => fields.subrange(1, fields.len() as int)));
        }
    }
}

/// An entry put in under another key changes nothing of what `lookup` gives
/// for `name`.
pub proof fn lemma_lookup_insert(
    fields: Seq<(Seq<char>, Json)>,
    at: int,
    key: Seq<char>,
    value: Json,
    name: Seq<char>,
)
    requires
        0 <= at <= fields.len(),
        key != name,
    ensures
        lookup(fields.insert(at, (key, value)), name) == lookup(fields, name),
    decreases at,
{
    let grown = fields.insert(at, (key, value));
    if at == 0 {
        assert(grown.drop_first() =~= fields);
    } else {
        assert(grown[0] == fields[0]);
        assert(grown.drop_first() =~= fields.drop_first().insert(at - 1, (key, value)));
        if fields[0].0 != name {
            lemma_lookup_insert(fields.drop_first(), at - 1, key, value, name);
        }
    }
}

/// Finds the first entry whose key is `name`.
pub fn find<'a>(entries: &'a Vec<(String, JsonValue)>, name: &str) -> (found: Option<&'a JsonValue>)
    ensures
        match found {
            Some(v) => lookup(entries.deep_view(), name@) == Some(v@),
            None => lookup(entries.deep_view(), name@) is None,
        },
{
    let mut i: usize = 0;
    while i < entries.len()
        invariant
            i <= entries.len(),
            forall|k: int| 0 <= k < i ==> entries.deep_view()[k].0 != name@,
        decreases entries.len() - i,
    {
        if str_eq(entries[i].0.as_str(), name) {
            proof {
                lemma_lookup_first(entries.deep_view(), name@, i as int);
            }
            return Some(&entries[i].1);
        }
        i += 1;
    }
    proof {
        lemma_lookup_absent(entries.deep_view(), name@);
    }
    None
}

/// The key of the first entry that is none of the `known` names.
pub open spec fn first_unknown(
    fields: Seq<(Seq<char>, Json)>,
    known: Seq<Seq<char>>,
) -> Option<Seq<char>>
    decreases fields.len(),
{
    if fields.len() == 0 {
        None
    } else if !known.contains(fields[0].0) {
        Some(fields[0].0)
    } else {
        first_unknown(fields.drop_first(), known)
    }
}

/// Whether a record's fields pass: always in lenient mode; in strict mode
/// unless one of them is none of the `known` names, and then the failure
/// names the first such field.
pub open spec fn screened(
    fields: Seq<(Seq<char>, Json)>,
    known: Seq<Seq<char>>,
    mode: Strictness,
) -> Result<
    (),
    ErrorView,
> {
    match mode {
        Strictness::Lenient => Ok(()),
        Strictness::Strict => match first_unknown(fields, known) {
            Some(key) => Err(ErrorView::unknown_field(key)),
            None => Ok(()),
        },
    }
}

/// The first entry with a key outside `known`, before which all keys are
/// in `known`, is the one that `first_unknown` gives.
pub proof fn lemma_first_unknown_at(fields: Seq<(Seq<char>, Json)>, known: Seq<Seq<char>>, at: int)
    requires
        0 <= at < fields.len(),
        !known.contains(fields[at].0),
        forall|k: int| 0 <= k < at ==> known.contains(fields[k].0),
    ensures
        first_unknown(fields, known) == Some(fields[at].0),
    decreases at,
{
    if at > 0 {
        lemma_first_unknown_at(fields.drop_first(), known, at - 1);
    }
}

/// Where every key is in `known`, `first_unknown` gives nothing.
pub proof fn lemma_first_unknown_none(fields: Seq<(Seq<char>, Json)>, known: Seq<Seq<char>>)
    requires
        forall|k: int| 0 <= k < fields.len() ==> known.contains(fields[k].0),
    ensures
        first_unknown(fields, known) is None,
    decreases fields.len(),
{
    if fields.len() > 0 {
        lemma_first_unknown_none(fields.drop_first(), known);
    }
}

/// An entry put in under a name that is none of `known` changes nothing of
/// what `lookup` gives for the names of `known`.
pub proof fn lemma_insert_unknown(
    fields: Seq<(Seq<char>, Json)>,
    at: int,
    key: Seq<char>,
    value: Json,
    known: Seq<Seq<char>>,
    which: int,
)
    requires
        0 <= at <= fields.len(),
        !known.contains(key),
        0 <= which < known.len(),
    ensures
        lookup(fields.insert(at, (key, value)), known[which]) == lookup(fields, known[which]),
{
    assert(known.contains(known[which]));
    lemma_lookup_insert(fields, at, key, value, known[which]);
}

/// Where some entry has a key that is none of `known`, `first_unknown`
/// gives such a key.
pub proof fn lemma_first_unknown_some(
    fields: Seq<(Seq<char>, Json)>,
    known: Seq<Seq<char>>,
    at: int,
)
    requires
        0 <= at < fields.len(),
        !known.contains(fields[at].0),
    ensures
        first_unknown(fields, known) matches Some(key) && !known.contains(key),
    decreases fields.len(),
{
    if known.contains(fields[0].0) {
        lemma_first_unknown_some(fields.drop_first(), known, at - 1);
    }
}

/// In strict mode the screen refuses fields among which an entry was put in
/// under a name that is none of `known`: the failure is a parse failure at
/// an unknown field.
pub proof fn lemma_screen_refuses(
    fields: Seq<(Seq<char>, Json)>,
    at: int,
    key: Seq<char>,
    value: Json,
    known: Seq<Seq<char>>,
)
    requires
        0 <= at <= fields.len(),
        !known.contains(key),
    ensures
        screened(fields.insert(at, (key, value)), known, Strictness::Strict) matches Err(e)
            && refusal(
            e,
            known,
        ),
{
    lemma_first_unknown_some(fields.insert(at, (key, value)), known, at);
}

/// What holds of the failure to pass the screen: a parse failure at a field
/// that is none of `known`.
pub open spec fn refusal(e: ErrorView, known: Seq<Seq<char>>) -> bool {
    &&& e.field matches Some(field)
    &&& !known.contains(field)
    &&& e == ErrorView::unknown_field(field)
}

/// When the readers of plain fields succeed: a required field wants a value
/// of its type; an optional one may also be missing or null.
pub proof fn lemma_readers_succeed(fields: Seq<(Seq<char>, Json)>, name: Seq<char>)
    ensures
        text_at(fields, name) is Ok <==> lookup(fields, name) matches Some(Json::Text(_)),
        bool_at(fields, name) is Ok <==> lookup(fields, name) matches Some(Json::Bool(_)),
        int_at(fields, name) is Ok <==> lookup(fields, name) matches Some(Json::Number(Some(_))),
        text_list_at(fields, name) is Ok <==> (lookup(fields, name) matches Some(Json::Array(items))
            && all_text(items)),
        opt_text_at(fields, name) is Ok <==> (lookup(fields, name) matches Some(v) ==> v is Null
            || v is Text),
        opt_bool_at(fields, name) is Ok <==> (lookup(fields, name) matches Some(v) ==> v is Null
            || v is Bool),
{
}

/// Whether `name` is one of `known`.
fn is_known(known: &Vec<&str>, name: &str) -> (yes: bool)
    ensures
        yes == known.deep_view().contains(name@),
{
    let mut i: usize = 0;
    while i < known.len()
        invariant
            i <= known.len(),
            forall|k: int| 0 <= k < i ==> known.deep_view()[k] != name@,
        decreases known.len() - i,
    {
        if str_eq(known[i], name) {
            assert(known.deep_view()[i as int] == name@);
            return true;
        }
        i += 1;
    }
    false
}

/// Screens a record's fields against the names that the record has.
pub fn check_fields(
    entries: &Vec<(String, JsonValue)>,
    known: &Vec<&str>,
    mode: Strictness,
) -> (r: Result<
    (),
    Error,
>)
    ensures
        outcome(r) == screened(entries.deep_view(), known.deep_view(), mode),
{
    match mode {
        Strictness::Lenient => Ok(()),
        Strictness::Strict => {
            let mut i: usize = 0;
            while i < entries.len()
                invariant
                    mode == Strictness::Strict,
                    i <= entries.len(),
                    forall|k: int| 0 <= k < i ==> known.deep_view().contains(entries.deep_view()[k].0),
                decreases entries.len() - i,
            {
                assert(entries.deep_view()[i as int].0 == entries@[i as int].0@);
                if !is_known(known, entries[i].0.as_str()) {
                    proof {
                        lemma_first_unknown_at(entries.deep_view(), known.deep_view(), i as int);
                    }
                    return Err(Error::unknown_field(entries[i].0.as_str()));
                }
                i += 1;
            }
            proof {
                lemma_first_unknown_none(entries.deep_view(), known.deep_view());
            }
            Ok(())
        },
    }
}

/// A required string field: the text under `name`; a failure where the
/// field is missing, null or no string.
pub open spec fn text_at(
    fields: Seq<(Seq<char>, Json)>,
    name: Seq<char>,
) -> Result<Seq<char>, ErrorView> {
    match lookup(fields, name) {
        None => Err(ErrorView::missing(name)),
        Some(Json::Null) => Err(ErrorView::null(name)),
        Some(Json::Text(s)) => Ok(s),
        Some(_) => Err(ErrorView::wrong_type(name)),
    }
}

/// An optional string field: absent where the field is missing or null.
pub open spec fn opt_text_at(fields: Seq<(Seq<char>, Json)>, name: Seq<char>) -> Result<
    Option<Seq<char>>,
    ErrorView,
> {
    match lookup(fields, name) {
        None => Ok(None),
        Some(Json::Null) => Ok(None),
        Some(Json::Text(s)) => Ok(Some(s)),
        Some(_) => Err(ErrorView::wrong_type(name)),
    }
}

/// A required boolean field.
pub open spec fn bool_at(
    fields: Seq<(Seq<char>, Json)>,
    name: Seq<char>,
) -> Result<bool, ErrorView> {
    match lookup(fields, name) {
        None => Err(ErrorView::missing(name)),
        Some(Json::Null) => Err(ErrorView::null(name)),
        Some(Json::Bool(b)) => Ok(b),
        Some(_) => Err(ErrorView::wrong_type(name)),
    }
}

/// An optional boolean field: absent where the field is missing or null.
pub open spec fn opt_bool_at(fields: Seq<(Seq<char>, Json)>, name: Seq<char>) -> Result<
    Option<bool>,
    ErrorView,
> {
    match lookup(fields, name) {
        None => Ok(None),
        Some(Json::Null) => Ok(None),
        Some(Json::Bool(b)) => Ok(Some(b)),
        Some(_) => Err(ErrorView::wrong_type(name)),
    }
}

/// A required integer field. A number that is no integer, or does not fit
/// in 64 bits with a sign, is of the wrong type.
pub open spec fn int_at(fields: Seq<(Seq<char>, Json)>, name: Seq<char>) -> Result<i64, ErrorView> {
    match lookup(fields, name) {
        None => Err(ErrorView::missing(name)),
        Some(Json::Null) => Err(ErrorView::null(name)),
        Some(Json::Number(Some(n))) => Ok(n),
        Some(_) => Err(ErrorView::wrong_type(name)),
    }
}

/// Whether every item is a string.
pub open spec fn all_text(items: Seq<Json>) -> bool {
    forall|i: int| 0 <= i < items.len() ==> items[i] is Text
}

/// The strings of a list whose items are all strings.
pub open spec fn texts_of(items: Seq<Json>) -> Seq<Seq<char>> {
    Seq::new(items.len(), |i: int| items[i]->Text_0)
}

/// A required field that holds a list of strings.
pub open spec fn text_list_at(fields: Seq<(Seq<char>, Json)>, name: Seq<char>) -> Result<
    Seq<Seq<char>>,
    ErrorView,
> {
    match lookup(fields, name) {
        None => Err(ErrorView::missing(name)),
        Some(Json::Null) => Err(ErrorView::null(name)),
        Some(Json::Array(items)) => if all_text(items) {
            Ok(texts_of(items))
        } else {
            Err(ErrorView::wrong_type(name))
        },
        Some(_) => Err(ErrorView::wrong_type(name)),
    }
}

/// Reads a required string field.
pub fn required_text(entries: &Vec<(String, JsonValue)>, name: &str) -> (r: Result<String, Error>)
    ensures
        outcome(r) == text_at(entries.deep_view(), name@),
{
    match find(entries, name) {
        None => Err(Error::missing(name)),
        Some(JsonValue::Null) => Err(Error::null(name)),
        Some(JsonValue::Text(s)) => Ok(s.clone()),
        Some(_) => Err(Error::wrong_type(name)),
    }
}

/// Reads an optional string field.
pub fn optional_text(entries: &Vec<(String, JsonValue)>, name: &str) -> (r: Result<
    Option<String>,
    Error,
>)
    ensures
        outcome(r) == opt_text_at(entries.deep_view(), name@),
{
    match find(entries, name) {
        None => Ok(None),
        Some(JsonValue::Null) => Ok(None),
        Some(JsonValue::Text(s)) => Ok(Some(s.clone())),
        Some(_) => Err(Error::wrong_type(name)),
    }
}

/// Reads a required boolean field.
pub fn required_bool(entries: &Vec<(String, JsonValue)>, name: &str) -> (r: Result<bool, Error>)
    ensures
        outcome(r) == bool_at(entries.deep_view(), name@),
{
    match find(entries, name) {
        None => Err(Error::missing(name)),
        Some(JsonValue::Null) => Err(Error::null(name)),
        Some(JsonValue::Bool(b)) => Ok(*b),
        Some(_) => Err(Error::wrong_type(name)),
    }
}

/// Reads an optional boolean field.
pub fn optional_bool(entries: &Vec<(String, JsonValue)>, name: &str) -> (r: Result<
    Option<bool>,
    Error,
>)
    ensures
        outcome(r) == opt_bool_at(entries.deep_view(), name@),
{
    match find(entries, name) {
        None => Ok(None),
        Some(JsonValue::Null) => Ok(None),
        Some(JsonValue::Bool(b)) => Ok(Some(*b)),
        Some(_) => Err(Error::wrong_type(name)),
    }
}

/// Reads a required integer field.
pub fn required_int(entries: &Vec<(String, JsonValue)>, name: &str) -> (r: Result<i64, Error>)
    ensures
        outcome(r) == int_at(entries.deep_view(), name@),
{
    match find(entries, name) {
        None => Err(Error::missing(name)),
        Some(JsonValue::Null) => Err(Error::null(name)),
        Some(JsonValue::Number(Some(n))) => Ok(*n),
        Some(_) => Err(Error::wrong_type(name)),
    }
}

/// Reads a required field that holds a list of strings.
pub fn required_text_list(entries: &Vec<(String, JsonValue)>, name: &str) -> (r: Result<
    Vec<String>,
    Error,
>)
    ensures
        outcome(r) == text_list_at(entries.deep_view(), name@),
{
    match find(entries, name) {
        None => Err(Error::missing(name)),
        Some(JsonValue::Null) => Err(Error::null(name)),
        Some(value) => match value.as_array() {
            None => Err(Error::wrong_type(name)),
            Some(items) => {
                let ghost list = items.deep_view();
                let mut texts: Vec<String> = Vec::new();
                let mut i: usize = 0;
                while i < items.len()
                    invariant
                        i <= items.len(),
                        list == items.deep_view(),
                        lookup(entries.deep_view(), name@) == Some(Json::Array(list)),
                        texts.len() == i,
                        forall|k: int| 0 <= k < i ==> list[k] is Text,
                        forall|k: int| 0 <= k < i ==> texts@[k]@ == list[k]->Text_0,
                    decreases items.len() - i,
                {
                    match &items[i] {
                        JsonValue::Text(s) => {
                            texts.push(s.clone());
                        },
                        _ => {
                            assert(!(list[i as int] is Text));
                            return Err(Error::wrong_type(name));
                        },
                    }
                    i += 1;
                }
                assert(texts.deep_view() =~= texts_of(list));
                Ok(texts)
            },
        },
    }
}

} // verus!
