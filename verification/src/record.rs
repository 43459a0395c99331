//! Records read from JSON objects: the trait that every record has, and
//! the readers of fields that hold records and lists of them.

use crate::error::{outcome, Error, ErrorView, Kind};
use crate::json::{document_of, find, lookup, refusal, Json, JsonValue};
use crate::strictness::Strictness;
use crate::warning::{Warning, WarningView};
use vstd::prelude::*;

verus! {

/// A record that can be read from a JSON document.
pub trait FromJson: DeepView + Sized {
    /// The name of the entity, by which its failures are marked.
    spec fn entity() -> Seq<char>;

    /// The names of the record's fields on the wire.
    spec fn known_fields() -> Seq<Seq<char>>;

    /// Whether the fields of an object pass the screen and can each be read.
    spec fn readable(fields: Seq<(Seq<char>, Json)>, mode: Strictness) -> bool;

    /// The record that a document holds, or the failure to read one.
    spec fn of_json(doc: Json, mode: Strictness) -> Result<Self::V, ErrorView>;

    /// The name of the entity.
    fn entity_name() -> (name: &'static str)
        ensures
            name@ == Self::entity(),
    ;

    /// Reads the record from a document.
    fn from_json(doc: &JsonValue, mode: Strictness) -> (r: Result<Self, Error>)
        ensures
            outcome(r) == Self::of_json(doc@, mode),
    ;

    /// A document holds the record exactly where it is an object whose
    /// fields pass the screen and can each be read.
    proof fn lemma_total(doc: Json, mode: Strictness)
        ensures
            Self::of_json(doc, mode) is Ok <==> (doc matches Json::Object(fields) && Self::readable(
                fields,
                mode,
            )),
    ;

    /// In lenient mode an entry under a name that the record does not have
    /// changes nothing of what is read, wherever among the fields it stands.
    proof fn lemma_ignores_unknown(
        fields: Seq<(Seq<char>, Json)>,
        at: int,
        key: Seq<char>,
        value: Json,
    )
        requires
            0 <= at <= fields.len(),
            !Self::known_fields().contains(key),
        ensures
            Self::of_json(Json::Object(fields.insert(at, (key, value))), Strictness::Lenient)
                == Self::of_json(Json::Object(fields), Strictness::Lenient),
    ;

    /// In strict mode an entry under a name that the record does not have
    /// makes the reading fail, with a parse failure at an unknown field.
    proof fn lemma_refuses_unknown(
        fields: Seq<(Seq<char>, Json)>,
        at: int,
        key: Seq<char>,
        value: Json,
    )
        requires
            0 <= at <= fields.len(),
            !Self::known_fields().contains(key),
        ensures
            Self::of_json(Json::Object(fields.insert(at, (key, value))), Strictness::Strict) matches Err(
                e,
            ) && refusal(e, Self::known_fields()),
    ;
}

/// A wire record that stands for an entity of the unified model.
pub trait ToUnified: DeepView + Sized {
    /// The entity of the unified model.
    type Unified: DeepView;

    /// The entity that a record stands for.
    spec fn unified(wire: Self::V) -> <Self::Unified as DeepView>::V;

    /// What is mended on the way, in the order in which it is met.
    spec fn warnings(wire: Self::V) -> Seq<WarningView>;

    /// Makes the entity that the record stands for, and puts what was
    /// mended on the way at the end of `sink`.
    fn to_unified(&self, sink: &mut Vec<Warning>) -> (entity: Self::Unified)
        ensures
            entity.deep_view() == Self::unified(self.deep_view()),
            final(sink).deep_view() == old(sink).deep_view() + Self::warnings(self.deep_view()),
    ;
}

/// The entities that a list of records stands for, in order.
pub open spec fn unified_all<W: ToUnified>(wires: Seq<W::V>) -> Seq<<W::Unified as DeepView>::V> {
    Seq::new(wires.len(), |i: int| W::unified(wires[i]))
}

/// What is mended on the way through a list of records, in order.
pub open spec fn warnings_all<W: ToUnified>(wires: Seq<W::V>) -> Seq<WarningView>
    decreases wires.len(),
{
    if wires.len() == 0 {
        Seq::empty()
    } else {
        warnings_all::<W>(wires.drop_last()) + W::warnings(wires.last())
    }
}

/// Records of a kind that mends nothing give no warnings.
pub proof fn lemma_warnings_none<W: ToUnified>(wires: Seq<W::V>)
    requires
        forall|wire: W::V| #[trigger] W::warnings(wire) == Seq::<WarningView>::empty(),
    ensures
        warnings_all::<W>(wires) == Seq::<WarningView>::empty(),
    decreases wires.len(),
{
    if wires.len() > 0 {
        lemma_warnings_none::<W>(wires.drop_last());
        assert(warnings_all::<W>(wires.drop_last()) + W::warnings(wires.last()) =~= Seq::<
            WarningView,
        >::empty());
    }
}

/// Makes the entities that a list of records stands for, in order.
pub fn all_to_unified<W: ToUnified>(
    wires: &Vec<W>,
    sink: &mut Vec<Warning>,
) -> (entities: Vec<W::Unified>)
    ensures
        entities.deep_view() == unified_all::<W>(wires.deep_view()),
        final(sink).deep_view() == old(sink).deep_view() + warnings_all::<W>(wires.deep_view()),
{
    let ghost list = wires.deep_view();
    let ghost start = sink.deep_view();
    let mut entities: Vec<W::Unified> = Vec::new();
    let mut i: usize = 0;
    assert(list.take(0) =~= Seq::empty());
    assert(start + warnings_all::<W>(list.take(0)) =~= start);
    while i < wires.len()
        invariant
            i <= wires.len(),
            list == wires.deep_view(),
            entities.len() == i,
            forall|k: int| 0 <= k < i ==> entities@[k].deep_view() == W::unified(list[k]),
            sink.deep_view() == start + warnings_all::<W>(list.take(i as int)),
        decreases wires.len() - i,
    {
        assert(list.take(i + 1).drop_last() =~= list.take(i as int));
        assert(list.take(i + 1).last() == wires@[i as int].deep_view());
        let ghost before = sink.deep_view();
        let entity = wires[i].to_unified(sink);
        assert(sink.deep_view() =~= start + warnings_all::<W>(list.take(i + 1))) by {
            assert(sink.deep_view() == before + W::warnings(list[i as int]));
        }
        entities.push(entity);
        i += 1;
    }
    assert(list.take(i as int) =~= list);
    assert(entities.deep_view() =~= unified_all::<W>(list));
    entities
}

/// Makes the entities that a list of records of a kind that mends nothing
/// stands for, in order.
pub fn all_to_unified_plain<W: ToUnified>(wires: &Vec<W>) -> (entities: Vec<W::Unified>)
    requires
        forall|wire: W::V| #[trigger] W::warnings(wire) == Seq::<WarningView>::empty(),
    ensures
        entities.deep_view() == unified_all::<W>(wires.deep_view()),
{
    let mut unused: Vec<Warning> = Vec::new();
    all_to_unified::<W>(wires, &mut unused)
}

/// The record that a nested document holds; a failure is marked with the
/// entity's name.
pub open spec fn nested<T: FromJson>(doc: Json, mode: Strictness) -> Result<T::V, ErrorView> {
    match T::of_json(doc, mode) {
        Ok(record) => Ok(record),
        Err(e) => Err(e.within(T::entity())),
    }
}

/// The records that a list of documents holds, in order; the failure of the
/// first item that cannot be read, where there is one.
pub open spec fn records_of<T: FromJson>(
    items: Seq<Json>,
    mode: Strictness,
) -> Result<Seq<T::V>, ErrorView>
    decreases items.len(),
{
    if items.len() == 0 {
        Ok(Seq::empty())
    } else {
        match records_of::<T>(items.drop_last(), mode) {
            Err(e) => Err(e),
            Ok(init) => match nested::<T>(items.last(), mode) {
                Err(e) => Err(e),
                Ok(record) => Ok(init.push(record)),
            },
        }
    }
}

/// A failure among the first items of a list is the failure of the list.
pub proof fn lemma_records_prefix_failure<T: FromJson>(
    items: Seq<Json>,
    mode: Strictness,
    upto: int,
)
    requires
        0 <= upto <= items.len(),
        records_of::<T>(items.take(upto), mode) is Err,
    ensures
        records_of::<T>(items, mode) == records_of::<T>(items.take(upto), mode),
    decreases items.len(),
{
    if upto == items.len() {
        assert(items.take(upto) =~= items);
    } else {
        assert(items.drop_last().take(upto) =~= items.take(upto));
        lemma_records_prefix_failure::<T>(items.drop_last(), mode, upto);
    }
}

/// Where a list can be read, there are as many records as items, and each
/// is what its item holds.
pub proof fn lemma_records_each<T: FromJson>(items: Seq<Json>, mode: Strictness)
    requires
        records_of::<T>(items, mode) is Ok,
    ensures
        records_of::<T>(items, mode)->Ok_0.len() == items.len(),
        forall|i: int|
            0 <= i < items.len() ==> T::of_json(items[i], mode) == Ok::<_, ErrorView>(
                #[trigger] records_of::<T>(items, mode)->Ok_0[i],
            ),
    decreases items.len(),
{
    if items.len() > 0 {
        lemma_records_each::<T>(items.drop_last(), mode);
    }
}

/// A required field that holds a record.
pub open spec fn record_at<T: FromJson>(
    fields: Seq<(Seq<char>, Json)>,
    name: Seq<char>,
    mode: Strictness,
) -> Result<
    T::V,
    ErrorView,
> {
    match lookup(fields, name) {
        None => Err(ErrorView::missing(name)),
        Some(Json::Null) => Err(ErrorView::null(name)),
        Some(Json::Object(inner)) => nested::<T>(Json::Object(inner), mode),
        Some(_) => Err(ErrorView::wrong_type(name)),
    }
}

/// An optional field that holds a record: absent where the field is
/// missing or null.
pub open spec fn opt_record_at<T: FromJson>(
    fields: Seq<(Seq<char>, Json)>,
    name: Seq<char>,
    mode: Strictness,
) -> Result<Option<T::V>, ErrorView> {
    match lookup(fields, name) {
        None => Ok(None),
        Some(Json::Null) => Ok(None),
        Some(Json::Object(inner)) => match nested::<T>(Json::Object(inner), mode) {
            Ok(record) => Ok(Some(record)),
            Err(e) => Err(e),
        },
        Some(_) => Err(ErrorView::wrong_type(name)),
    }
}

/// A required field that holds a list of records.
pub open spec fn list_at<T: FromJson>(
    fields: Seq<(Seq<char>, Json)>,
    name: Seq<char>,
    mode: Strictness,
) -> Result<
    Seq<T::V>,
    ErrorView,
> {
    match lookup(fields, name) {
        None => Err(ErrorView::missing(name)),
        Some(Json::Null) => Err(ErrorView::null(name)),
        Some(Json::Array(items)) => records_of::<T>(items, mode),
        Some(_) => Err(ErrorView::wrong_type(name)),
    }
}

/// An optional field that holds a list of records: empty where the field is
/// missing or null.
pub open spec fn opt_list_at<T: FromJson>(
    fields: Seq<(Seq<char>, Json)>,
    name: Seq<char>,
    mode: Strictness,
) -> Result<Seq<T::V>, ErrorView> {
    match lookup(fields, name) {
        None => Ok(Seq::empty()),
        Some(Json::Null) => Ok(Seq::empty()),
        Some(Json::Array(items)) => records_of::<T>(items, mode),
        Some(_) => Err(ErrorView::wrong_type(name)),
    }
}

/// Reads a nested record and marks its failure.
pub fn read_nested<T: FromJson>(doc: &JsonValue, mode: Strictness) -> (r: Result<T, Error>)
    ensures
        outcome(r) == nested::<T>(doc@, mode),
{
    match T::from_json(doc, mode) {
        Ok(record) => Ok(record),
        Err(e) => Err(e.within(T::entity_name())),
    }
}

/// Reads the records of a list, in order.
pub fn read_records<T: FromJson>(
    items: &Vec<JsonValue>,
    mode: Strictness,
) -> (r: Result<Vec<T>, Error>)
    ensures
        outcome(r) == records_of::<T>(items.deep_view(), mode),
{
    let ghost list = items.deep_view();
    let mut records: Vec<T> = Vec::new();
    let mut i: usize = 0;
    assert(list.take(0) =~= Seq::empty());
    assert(records.deep_view() =~= Seq::empty());
    while i < items.len()
        invariant
            i <= items.len(),
            list == items.deep_view(),
            records_of::<T>(list.take(i as int), mode) == Ok::<_, ErrorView>(records.deep_view()),
        decreases items.len() - i,
    {
        let ghost before = records.deep_view();
        assert(list.take(i + 1).drop_last() =~= list.take(i as int));
        assert(list.take(i + 1).last() == items@[i as int]@);
        match read_nested::<T>(&items[i], mode) {
            Ok(record) => {
                records.push(record);
                assert(records.deep_view() =~= before.push(record.deep_view()));
            },
            Err(e) => {
                proof {
                    lemma_records_prefix_failure::<T>(list, mode, i + 1);
                }
                return Err(e);
            },
        }
        i += 1;
    }
    assert(list.take(i as int) =~= list);
    Ok(records)
}

/// Reads a required field that holds a record.
pub fn required_record<T: FromJson>(
    entries: &Vec<(String, JsonValue)>,
    name: &str,
    mode: Strictness,
) -> (r:
    Result<T, Error>)
    ensures
        outcome(r) == record_at::<T>(entries.deep_view(), name@, mode),
{
    match find(entries, name) {
        None => Err(Error::missing(name)),
        Some(JsonValue::Null) => Err(Error::null(name)),
        Some(value) => match value.as_object() {
            Some(_) => read_nested::<T>(value, mode),
            None => Err(Error::wrong_type(name)),
        },
    }
}

/// Reads an optional field that holds a record.
pub fn optional_record<T: FromJson>(
    entries: &Vec<(String, JsonValue)>,
    name: &str,
    mode: Strictness,
) -> (r:
    Result<Option<T>, Error>)
    ensures
        outcome(r) == opt_record_at::<T>(entries.deep_view(), name@, mode),
{
    match find(entries, name) {
        None => Ok(None),
        Some(JsonValue::Null) => Ok(None),
        Some(value) => match value.as_object() {
            Some(_) => match read_nested::<T>(value, mode) {
                Ok(record) => Ok(Some(record)),
                Err(e) => Err(e),
            },
            None => Err(Error::wrong_type(name)),
        },
    }
}

/// Reads a required field that holds a list of records.
pub fn required_list<T: FromJson>(
    entries: &Vec<(String, JsonValue)>,
    name: &str,
    mode: Strictness,
) -> (r:
    Result<Vec<T>, Error>)
    ensures
        outcome(r) == list_at::<T>(entries.deep_view(), name@, mode),
{
    match find(entries, name) {
        None => Err(Error::missing(name)),
        Some(JsonValue::Null) => Err(Error::null(name)),
        Some(value) => match value.as_array() {
            Some(items) => read_records::<T>(items, mode),
            None => Err(Error::wrong_type(name)),
        },
    }
}

/// Reads an optional field that holds a list of records.
pub fn optional_list<T: FromJson>(
    entries: &Vec<(String, JsonValue)>,
    name: &str,
    mode: Strictness,
) -> (r:
    Result<Vec<T>, Error>)
    ensures
        outcome(r) == opt_list_at::<T>(entries.deep_view(), name@, mode),
{
    let empty: Vec<T> = Vec::new();
    assert(empty.deep_view() =~= Seq::<T::V>::empty());
    match find(entries, name) {
        None => Ok(empty),
        Some(JsonValue::Null) => Ok(empty),
        Some(value) => match value.as_array() {
            Some(items) => read_records::<T>(items, mode),
            None => Err(Error::wrong_type(name)),
        },
    }
}

/// The entity of the unified model that a document holds: the record is
/// read, its failure marked with the entity's name, and projected.
pub open spec fn entity_of<W: FromJson + ToUnified>(doc: Json, mode: Strictness) -> Result<
    <W::Unified as DeepView>::V,
    ErrorView,
> {
    match nested::<W>(doc, mode) {
        Ok(wire) => Ok(W::unified(wire)),
        Err(e) => Err(e),
    }
}

/// What is mended on the way from a document to its entity; nothing where
/// the document holds none.
pub open spec fn warnings_of<W: FromJson + ToUnified>(doc: Json, mode: Strictness) -> Seq<WarningView> {
    match W::of_json(doc, mode) {
        Ok(wire) => W::warnings(wire),
        Err(_) => Seq::empty(),
    }
}

/// What holds of the failure to read a response that is no JSON text: a
/// parse failure that names the entity and no field.
pub open spec fn malformed(e: ErrorView, entity: Seq<char>) -> bool {
    &&& e.kind == Kind::ParseError
    &&& e.field is None
    &&& e.fragment is None
    &&& e.entity == Some(entity)
}

/// A document holds an entity exactly where it holds the record.
pub proof fn lemma_entity_iff_record<W: FromJson + ToUnified>(doc: Json, mode: Strictness)
    ensures
        entity_of::<W>(doc, mode) is Ok <==> W::of_json(doc, mode) is Ok,
        entity_of::<W>(doc, mode) matches Err(e) ==> e.entity is Some,
{
}

/// In lenient mode an entry under a name that the record does not have
/// changes neither the entity that is decoded nor the warnings.
pub proof fn lemma_decoding_ignores_unknown<W: FromJson + ToUnified>(
    fields: Seq<(Seq<char>, Json)>,
    at: int,
    key: Seq<char>,
    value: Json,
)
    requires
        0 <= at <= fields.len(),
        !W::known_fields().contains(key),
    ensures
        entity_of::<W>(Json::Object(fields.insert(at, (key, value))), Strictness::Lenient) == entity_of::<W>(
            Json::Object(fields),
            Strictness::Lenient,
        ),
        warnings_of::<W>(Json::Object(fields.insert(at, (key, value))), Strictness::Lenient)
            == warnings_of::<W>(Json::Object(fields), Strictness::Lenient),
{
    W::lemma_ignores_unknown(fields, at, key, value);
}

/// In strict mode an entry under a name that the record does not have
/// makes the decoding fail: a parse failure at an unknown field, marked
/// with the entity's name.
pub proof fn lemma_decoding_refuses_unknown<W: FromJson + ToUnified>(
    fields: Seq<(Seq<char>, Json)>,
    at: int,
    key: Seq<char>,
    value: Json,
)
    requires
        0 <= at <= fields.len(),
        !W::known_fields().contains(key),
    ensures
        entity_of::<W>(Json::Object(fields.insert(at, (key, value))), Strictness::Strict) matches Err(e)
           
                && e.kind == Kind::ParseError
                && e.field is Some
                && !W::known_fields().contains(e.field->0)
            && e.entity == Some(W::entity()),
{
    W::lemma_refuses_unknown(fields, at, key, value);
}

/// Decodes a document: the entity it holds, and at the end of `sink` what
/// was mended on the way. On a failure `sink` stays as it was.
pub fn decode_json<W: FromJson + ToUnified>(doc: &JsonValue, mode: Strictness, sink: &mut Vec<Warning>) -> (r:
    Result<W::Unified, Error>)
    ensures
        outcome(r) == entity_of::<W>(doc@, mode),
        final(sink).deep_view() == old(sink).deep_view() + warnings_of::<W>(doc@, mode),
{
    match read_nested::<W>(doc, mode) {
        Ok(wire) => Ok(wire.to_unified(sink)),
        Err(e) => {
            assert(sink.deep_view() + Seq::<WarningView>::empty() =~= sink.deep_view());
            Err(e)
        },
    }
}

/// Decodes the body of a response. Where the body is a JSON text, the
/// outcome is that of its document; where it is none, a parse failure that
/// names the entity, and `sink` stays as it was.
pub fn decode_bytes<W: FromJson + ToUnified>(bytes: &[u8], mode: Strictness, sink: &mut Vec<Warning>) -> (r:
    Result<W::Unified, Error>)
    ensures
        match document_of(bytes@) {
            Some(doc) => outcome(r) == entity_of::<W>(doc, mode)
                && final(sink).deep_view()
                    == old(sink).deep_view() + warnings_of::<W>(doc, mode),
            None => r matches Err(e)
                && malformed(e@, W::entity())
                && final(sink).deep_view() == old(sink).deep_view(),
        },
{
    match JsonValue::parse(bytes) {
        Ok(doc) => decode_json::<W>(&doc, mode, sink),
        Err(e) => Err(e.within(W::entity_name())),
    }
}

} // verus!
