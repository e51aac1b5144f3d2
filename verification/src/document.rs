//! The structured documents of the wire protocol, as far as the service reads
//! and writes them: a mapping from keys to texts and lists of texts.

use crate::text::text_eq;
use vstd::prelude::*;

verus! {

/// The value of one key of a document.
#[derive(Debug)]
pub enum Value {
    /// The empty value.
    Null,
    /// A text.
    Text(String),
    /// A list of texts.
    List(Vec<String>),
    /// Anything else: a nested mapping, or a list of other things than texts.
    Other,
}

/// What a value holds.
pub enum ValueModel {
    Null,
    Text(Seq<char>),
    List(Seq<Seq<char>>),
    Other,
}

/// One key of a document with its value.
#[derive(Debug)]
pub struct Entry {
    pub key: String,
    pub value: Value,
}

/// What an entry holds.
pub struct EntryModel {
    pub key: Seq<char>,
    pub value: ValueModel,
}

/// One decoded document.
#[derive(Debug)]
pub enum Document {
    /// A mapping, with its entries in the order in which they were written.
    Mapping(Vec<Entry>),
    /// Anything that is not a mapping.
    NotMapping,
}

/// What the codec made of a request body.
#[derive(Debug)]
pub enum Decoded {
    /// The body is no document at all; the text is the codec's complaint.
    Malformed(String),
    /// The documents of the body, in order.
    Documents(Vec<Document>),
}

/// The texts of a list.
pub open spec fn texts_model(v: Seq<String>) -> Seq<Seq<char>> {
    v.map_values(|s: String| s@)
}

impl View for Value {
    type V = ValueModel;

    open spec fn view(&self) -> ValueModel {
        match self {
            Value::Null => ValueModel::Null,
            Value::Text(t) => ValueModel::Text(t@),
            Value::List(l) => ValueModel::List(texts_model(l@)),
            Value::Other => ValueModel::Other,
        }
    }
}

impl View for Entry {
    type V = EntryModel;

    open spec fn view(&self) -> EntryModel {
        EntryModel { key: self.key@, value: self.value@ }
    }
}

/// What a list of entries holds.
pub open spec fn entries_model(v: Seq<Entry>) -> Seq<EntryModel> {
    v.map_values(|e: Entry| e@)
}

/// The value of the first entry under `key`, if there is one.
pub open spec fn lookup(entries: Seq<EntryModel>, key: Seq<char>) -> Option<ValueModel>
    decreases entries.len(),
{
    if entries.len() == 0 {
        None
    } else if entries[0].key == key {
        Some(entries[0].value)
    } else {
        lookup(entries.drop_first(), key)
    }
}

/// Finds the value of the first entry under `key`.
pub fn find<'a>(entries: &'a Vec<Entry>, key: &str) -> (r: Option<&'a Value>)
    ensures
        match lookup(entries_model(entries@), key@) {
            Some(v) => r matches Some(found) && found@ == v,
            None => r is None,
        },
{
    let ghost model = entries_model(entries@);
    assert(model.skip(0) =~= model);
    let mut i: usize = 0;
    while i < entries.len()
        invariant
            0 <= i <= entries.len(),
            model == entries_model(entries@),
            lookup(model, key@) == lookup(model.skip(i as int), key@),
        decreases entries.len() - i,
    {
        proof {
            assert(model.skip(i as int)[0] == entries@[i as int]@);
            assert(model.skip(i as int).drop_first() =~= model.skip(i + 1));
        }
        if text_eq(entries[i].key.as_str(), key) {
            return Some(&entries[i].value);
        }
        i += 1;
    }
    assert(model.skip(i as int).len() == 0);
    None
}

/// A value of the wire format, as its codec hands it over. A number is
/// carried as the text that spells it.
#[derive(Debug)]
pub enum Json {
    Null,
    Bool(bool),
    Number(String),
    Text(String),
    Array(Vec<Json>),
    Object(Vec<(String, Json)>),
}

/// The texts of a list, where every item of it is a text.
pub open spec fn texts_of(items: Seq<Json>) -> Option<Seq<Seq<char>>>
    decreases items.len(),
{
    if items.len() == 0 {
        Some(Seq::empty())
    } else {
        match (texts_of(items.drop_last()), items.last()) {
            (Some(front), Json::Text(t)) => Some(front.push(t@)),
            _ => None,
        }
    }
}

/// What a value of the wire format means in a document: a text is a text,
/// and so are a number and a truth value, by their spelling; a list of texts
/// is a list; everything else is kept apart.
pub open spec fn value_of_json(json: Json) -> ValueModel {
    match json {
        Json::Null => ValueModel::Null,
        Json::Bool(flag) => ValueModel::Text(
            if flag {
                "true"@
            } else {
                "false"@
            },
        ),
        Json::Number(spelling) => ValueModel::Text(spelling@),
        Json::Text(text) => ValueModel::Text(text@),
        Json::Array(items) => match texts_of(items@) {
            Some(texts) => ValueModel::List(texts),
            None => ValueModel::Other,
        },
        Json::Object(_) => ValueModel::Other,
    }
}

/// The entry that a field of an object means.
pub open spec fn entry_of_field(field: (String, Json)) -> EntryModel {
    EntryModel { key: field.0@, value: value_of_json(field.1) }
}

/// The value of the wire format that stands for a value of a document.
pub open spec fn json_of_value(value: ValueModel) -> ValueModel {
    match value {
        ValueModel::Other => ValueModel::Null,
        v => v,
    }
}

fn texts(items: &Vec<Json>) -> (r: Option<Vec<String>>)
    ensures
        match texts_of(items@) {
            Some(t) => r matches Some(v) && texts_model(v@) == t,
            None => r is None,
        },
{
    let mut out: Vec<String> = Vec::new();
    let mut i: usize = 0;
    assert(items@.take(0) =~= Seq::<Json>::empty());
    assert(texts_model(out@) =~= Seq::<Seq<char>>::empty());
    while i < items.len()
        invariant
            0 <= i <= items.len(),
            texts_of(items@.take(i as int)) == Some(texts_model(out@)),
        decreases items.len() - i,
    {
        let ghost before = out@;
        proof {
            let next = items@.take(i + 1);
            assert(next.drop_last() =~= items@.take(i as int));
            assert(next.last() == items@[i as int]);
        }
        match &items[i] {
            Json::Text(t) => {
                out.push(t.clone());
                assert(texts_model(out@) =~= texts_model(before).push(t@));
            },
            _ => {
                proof {
                    lemma_texts_need_every_item(items@, i + 1);
                }
                return None;
            },
        }
        i += 1;
    }
    assert(items@.take(items.len() as int) =~= items@);
    Some(out)
}

/// A list whose beginning is not all texts is not all texts.
pub proof fn lemma_texts_need_every_item(items: Seq<Json>, k: int)
    requires
        0 <= k <= items.len(),
        texts_of(items.take(k)) is None,
    ensures
        texts_of(items) is None,
    decreases items.len(),
{
    if k == items.len() {
        assert(items.take(k) =~= items);
    } else {
        assert(items.drop_last().take(k) =~= items.take(k));
        lemma_texts_need_every_item(items.drop_last(), k);
    }
}

impl Value {
    /// The value that a value of the wire format means.
    pub fn from_json(json: &Json) -> (r: Value)
        ensures
            r@ == value_of_json(*json),
    {
        match json {
            Json::Null => Value::Null,
            Json::Bool(flag) => {
                if *flag {
                    Value::Text("true".to_string())
                } else {
                    Value::Text("false".to_string())
                }
            },
            Json::Number(spelling) => Value::Text(spelling.clone()),
            Json::Text(text) => Value::Text(text.clone()),
            Json::Array(items) => match texts(items) {
                Some(list) => Value::List(list),
                None => Value::Other,
            },
            Json::Object(_) => Value::Other,
        }
    }
}

impl Document {
    /// The document that a value of the wire format means: a mapping for an
    /// object, with its fields in their order.
    pub fn from_json(json: &Json) -> (r: Document)
        ensures
            match *json {
                Json::Object(fields) => r matches Document::Mapping(entries) && entries_model(
                    entries@,
                ) == fields@.map_values(|f: (String, Json)| entry_of_field(f)),
                _ => r is NotMapping,
            },
    {
        match json {
            Json::Object(fields) => {
                let mut entries: Vec<Entry> = Vec::new();
                let ghost wanted = fields@.map_values(|f: (String, Json)| entry_of_field(f));
                let mut i: usize = 0;
                while i < fields.len()
                    invariant
                        0 <= i <= fields.len(),
                        wanted == fields@.map_values(|f: (String, Json)| entry_of_field(f)),
                        entries_model(entries@) =~= wanted.take(i as int),
                    decreases fields.len() - i,
                {
                    let ghost before = entries@;
                    let entry = Entry {
                        key: fields[i].0.clone(),
                        value: Value::from_json(&fields[i].1),
                    };
                    assert(entry@ == entry_of_field(fields@[i as int]));
                    entries.push(entry);
                    assert(entries_model(entries@) =~= entries_model(before).push(wanted[i as int]));
                    i += 1;
                }
                assert(wanted.take(fields.len() as int) =~= wanted);
                Document::Mapping(entries)
            },
            _ => Document::NotMapping,
        }
    }
}

/// What a list of documents holds: for each, its entries, or nothing where
/// it is no mapping.
pub open spec fn document_model(document: Document) -> Option<Seq<EntryModel>> {
    match document {
        Document::Mapping(entries) => Some(entries_model(entries@)),
        Document::NotMapping => None,
    }
}

/// What a value of the wire format holds as a document.
pub open spec fn document_of_json(json: Json) -> Option<Seq<EntryModel>> {
    match json {
        Json::Object(fields) => Some(fields@.map_values(|f: (String, Json)| entry_of_field(f))),
        _ => None,
    }
}

impl Decoded {
    /// The documents that the values of a body mean, in their order.
    pub fn from_json(values: &Vec<Json>) -> (r: Decoded)
        ensures
            r matches Decoded::Documents(documents) && documents@.map_values(
                |d: Document| document_model(d),
            ) == values@.map_values(|j: Json| document_of_json(j)),
    {
        let mut documents: Vec<Document> = Vec::new();
        let ghost wanted = values@.map_values(|j: Json| document_of_json(j));
        let mut i: usize = 0;
        while i < values.len()
            invariant
                0 <= i <= values.len(),
                wanted == values@.map_values(|j: Json| document_of_json(j)),
                documents@.map_values(|d: Document| document_model(d)) =~= wanted.take(i as int),
            decreases values.len() - i,
        {
            let ghost before = documents@;
            let document = Document::from_json(&values[i]);
            assert(document_model(document) == wanted[i as int]);
            documents.push(document);
            assert(documents@.map_values(|d: Document| document_model(d)) =~= before.map_values(
                |d: Document| document_model(d),
            ).push(wanted[i as int]));
            i += 1;
        }
        assert(wanted.take(values.len() as int) =~= wanted);
        Decoded::Documents(documents)
    }
}

impl Json {
    /// The value of the wire format that stands for the value of a document:
    /// texts and lists as they are, and the empty value for everything else.
    pub fn from_value(value: &Value) -> (r: Json)
        ensures
            match *value {
                Value::Text(text) => r matches Json::Text(t) && t@ == text@,
                Value::List(list) => r matches Json::Array(items) && texts_of(items@) == Some(
                    texts_model(list@),
                ),
                _ => r is Null,
            },
    {
        match value {
            Value::Text(text) => Json::Text(text.clone()),
            Value::List(list) => {
                let mut items: Vec<Json> = Vec::new();
                let mut i: usize = 0;
                assert(texts_model(list@).take(0) =~= Seq::<Seq<char>>::empty());
                while i < list.len()
                    invariant
                        0 <= i <= list.len(),
                        items@.len() == i,
                        texts_of(items@) == Some(texts_model(list@).take(i as int)),
                    decreases list.len() - i,
                {
                    let ghost before = items@;
                    items.push(Json::Text(list[i].clone()));
                    proof {
                        assert(items@.drop_last() =~= before);
                        assert(texts_model(list@).take(i + 1) =~= texts_model(list@).take(
                            i as int,
                        ).push(list@[i as int]@));
                    }
                    i += 1;
                }
                assert(texts_model(list@).take(list.len() as int) =~= texts_model(list@));
                Json::Array(items)
            },
            _ => Json::Null,
        }
    }

    /// The object of the wire format that stands for a document: one field
    /// for each entry, in their order.
    pub fn from_entries(entries: &Vec<Entry>) -> (r: Json)
        ensures
            r matches Json::Object(fields) && fields@.len() == entries@.len() && forall|i: int|
                0 <= i < fields@.len() ==> (#[trigger] fields@[i]).0@ == entries@[i].key@
                    && value_of_json(fields@[i].1) == json_of_value(entries@[i].value@),
    {
        let mut fields: Vec<(String, Json)> = Vec::new();
        let mut i: usize = 0;
        while i < entries.len()
            invariant
                0 <= i <= entries.len(),
                fields@.len() == i,
                forall|j: int|
                    0 <= j < fields@.len() ==> (#[trigger] fields@[j]).0@ == entries@[j].key@
                        && value_of_json(fields@[j].1) == json_of_value(entries@[j].value@),
            decreases entries.len() - i,
        {
            let json = Json::from_value(&entries[i].value);
            fields.push((entries[i].key.clone(), json));
            i += 1;
        }
        Json::Object(fields)
    }
}

/// What is written for a document is read back as that document, but for
/// values that are neither texts nor lists, which are written as the empty
/// value.
pub proof fn law_written_document_reads_back(entries: Seq<Entry>, fields: Seq<(String, Json)>)
    requires
        fields.len() == entries.len(),
        forall|i: int|
            0 <= i < fields.len() ==> (#[trigger] fields[i]).0@ == entries[i].key@
                && value_of_json(fields[i].1) == json_of_value(entries[i].value@),
        forall|i: int| 0 <= i < entries.len() ==> !((#[trigger] entries[i]).value@ is Other),
    ensures
        fields.map_values(|f: (String, Json)| entry_of_field(f)) == entries_model(entries),
{
    assert(fields.map_values(|f: (String, Json)| entry_of_field(f)) =~= entries_model(entries));
}

} // verus!
