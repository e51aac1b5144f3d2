//! The one response that answers each request.

use crate::device::{device_entry, is_device_entry};
use crate::document::{entries_model, texts_model, Entry, EntryModel, Value, ValueModel};
use crate::protocol::{field_key, key_of, Field, Reason};
use vstd::prelude::*;
use vstd::string::{StrSliceExecFns, StringExecFns};

verus! {

/// The answer to a request.
#[derive(Debug)]
pub enum Response {
    /// The request was served; the entries are the data, in order.
    Success(Vec<Entry>),
    /// The request was not served, for the reason that the message gives.
    Error(String),
}

/// What a response holds.
pub enum ResponseModel {
    Success(Seq<EntryModel>),
    Error(Seq<char>),
}

impl View for Response {
    type V = ResponseModel;

    open spec fn view(&self) -> ResponseModel {
        match self {
            Response::Success(entries) => ResponseModel::Success(entries_model(entries@)),
            Response::Error(message) => ResponseModel::Error(message@),
        }
    }
}

/// The key that carries the error message of a response.
pub const ERROR_KEY: &'static str = "error";

/// The document of a response: the data followed by the key `error`, which is
/// empty on success and holds the message otherwise.
pub open spec fn response_document(response: ResponseModel) -> Seq<EntryModel> {
    match response {
        ResponseModel::Success(entries) => entries.push(
            EntryModel { key: "error"@, value: ValueModel::Null },
        ),
        ResponseModel::Error(message) => seq![
            EntryModel { key: "error"@, value: ValueModel::Text(message) },
        ],
    }
}

/// What is wrong with a request, in words.
pub open spec fn reason_text(reason: Reason) -> Seq<char> {
    match reason {
        Reason::Incomplete => "request ended before the end-of-document line"@,
        Reason::TooLarge => "request is too large"@,
        Reason::Malformed => "request is not a document"@,
        Reason::NoDocument => "request holds no document"@,
        Reason::ManyDocuments => "request holds more than one document"@,
        Reason::NotAMapping => "request is not a mapping"@,
        Reason::Missing(field) => "key is missing: "@ + field_key(field),
        Reason::NotText(field) => "key does not hold a text: "@ + field_key(field),
        Reason::UnknownRequest => "request is not known"@,
        Reason::DriverNotSupported => "driver is not supported"@,
        Reason::UnsafeName(field) => "name is not a file name: "@ + field_key(field),
        Reason::NotANumber => "value is not an unsigned number"@,
    }
}

fn about(prefix: &str, field: Field) -> (r: String)
    ensures
        r@ == prefix@ + field_key(field),
{
    let mut text = String::from_str(prefix);
    text.append(key_of(field));
    text
}

/// Says in words what is wrong with a request.
pub fn describe(reason: Reason) -> (r: String)
    ensures
        r@ == reason_text(reason),
{
    match reason {
        Reason::Incomplete => String::from_str("request ended before the end-of-document line"),
        Reason::TooLarge => String::from_str("request is too large"),
        Reason::Malformed => String::from_str("request is not a document"),
        Reason::NoDocument => String::from_str("request holds no document"),
        Reason::ManyDocuments => String::from_str("request holds more than one document"),
        Reason::NotAMapping => String::from_str("request is not a mapping"),
        Reason::Missing(field) => about("key is missing: ", field),
        Reason::NotText(field) => about("key does not hold a text: ", field),
        Reason::UnknownRequest => String::from_str("request is not known"),
        Reason::DriverNotSupported => String::from_str("driver is not supported"),
        Reason::UnsafeName(field) => about("name is not a file name: ", field),
        Reason::NotANumber => String::from_str("value is not an unsigned number"),
    }
}

/// The message of the response to an invalid request: the reason, and after
/// a colon the detail, where there is one.
pub open spec fn invalid_text(reason: Reason, detail: Seq<char>) -> Seq<char> {
    if detail.len() == 0 {
        reason_text(reason)
    } else {
        reason_text(reason) + ": "@ + detail
    }
}

/// Why an attribute could not be read or written.
#[derive(Debug)]
pub enum AttributeError {
    /// The device refused the value as invalid.
    Einval { attribute: String },
    /// Reading failed; `data` says how.
    Read { attribute: String, data: String },
    /// Writing failed; `data` says how.
    Write { attribute: String, data: String },
    /// The device's files could not be opened; `data` says why.
    DeviceNotAccessible { data: String },
}

/// The message for a failed access to an attribute.
pub open spec fn attribute_error_text(e: AttributeError) -> Seq<char> {
    match e {
        AttributeError::Einval { attribute } => "Wrote invalid value to attribute "@ + attribute@
            + " (EINVAL)"@,
        AttributeError::Read { attribute, data } => "Failed to read attribute "@ + attribute@
            + ": "@ + data@,
        AttributeError::Write { attribute, data } => "Failed to write attribute "@ + attribute@
            + ": "@ + data@,
        AttributeError::DeviceNotAccessible { data } => "Device not accessible: "@ + data@,
    }
}

fn concat_three(a: &str, b: &str, c: &str) -> (r: String)
    ensures
        r@ == a@ + b@ + c@,
{
    let mut text = String::from_str(a);
    text.append(b);
    text.append(c);
    text
}

impl AttributeError {
    /// The message for this error.
    pub fn message(&self) -> (r: String)
        ensures
            r@ == attribute_error_text(*self),
    {
        match self {
            AttributeError::Einval { attribute } => concat_three(
                "Wrote invalid value to attribute ",
                attribute.as_str(),
                " (EINVAL)",
            ),
            AttributeError::Read { attribute, data } => {
                let mut text = concat_three("Failed to read attribute ", attribute.as_str(), ": ");
                text.append(data.as_str());
                text
            },
            AttributeError::Write { attribute, data } => {
                let mut text = concat_three("Failed to write attribute ", attribute.as_str(), ": ");
                text.append(data.as_str());
                text
            },
            AttributeError::DeviceNotAccessible { data } => {
                let mut text = String::from_str("Device not accessible: ");
                text.append(data.as_str());
                text
            },
        }
    }
}

/// One entry of a directory.
#[derive(Debug)]
pub struct DirEntry {
    pub name: String,
    pub is_dir: bool,
}

/// The entries found in the directory of one driver.
#[derive(Debug)]
pub struct Listing {
    pub driver: String,
    pub entries: Vec<DirEntry>,
}

/// The names of the devices among the entries of a driver's directory, in
/// the order of the entries.
pub open spec fn devices_in(entries: Seq<DirEntry>) -> Seq<Seq<char>>
    decreases entries.len(),
{
    if entries.len() == 0 {
        Seq::empty()
    } else {
        let rest = devices_in(entries.drop_last());
        if is_device_entry(entries.last().name@, entries.last().is_dir) {
            rest.push(entries.last().name@)
        } else {
            rest
        }
    }
}

/// The entry of a response that lists the devices of one driver.
pub open spec fn listing_entry(listing: Listing) -> EntryModel {
    EntryModel {
        key: listing.driver@,
        value: ValueModel::List(devices_in(listing.entries@)),
    }
}

/// The names of the devices among `entries`.
pub fn devices(entries: &Vec<DirEntry>) -> (r: Vec<String>)
    ensures
        texts_model(r@) == devices_in(entries@),
{
    let mut out: Vec<String> = Vec::new();
    let mut i: usize = 0;
    assert(entries@.take(0) =~= Seq::<DirEntry>::empty());
    assert(texts_model(out@) =~= Seq::<Seq<char>>::empty());
    while i < entries.len()
        invariant
            0 <= i <= entries.len(),
            texts_model(out@) == devices_in(entries@.take(i as int)),
        decreases entries.len() - i,
    {
        let ghost before = out@;
        proof {
            let next = entries@.take(i + 1);
            assert(next.drop_last() =~= entries@.take(i as int));
            assert(next.last() == entries@[i as int]);
        }
        if device_entry(entries[i].name.as_str(), entries[i].is_dir) {
            let name = entries[i].name.clone();
            out.push(name);
            assert(texts_model(out@) =~= texts_model(before).push(entries@[i as int].name@));
        }
        i += 1;
    }
    assert(entries@.take(entries.len() as int) =~= entries@);
    out
}

impl Response {
    /// The response to a request that is not served.
    pub fn invalid(reason: Reason, detail: &str) -> (r: Response)
        ensures
            r@ == ResponseModel::Error(invalid_text(reason, detail@)),
    {
        let mut text = describe(reason);
        if detail.unicode_len() > 0 {
            text.append(": ");
            text.append(detail);
        }
        Response::Error(text)
    }

    /// The response to a read of `attribute`: its value under its name, or
    /// the error's message.
    pub fn get(attribute: &str, outcome: &Result<String, AttributeError>) -> (r: Response)
        ensures
            match *outcome {
                Ok(value) => r@ == ResponseModel::Success(
                    seq![EntryModel { key: attribute@, value: ValueModel::Text(value@) }],
                ),
                Err(e) => r@ == ResponseModel::Error(attribute_error_text(e)),
            },
    {
        match outcome {
            Ok(value) => {
                let mut entries: Vec<Entry> = Vec::new();
                entries.push(
                    Entry { key: String::from_str(attribute), value: Value::Text(value.clone()) },
                );
                assert(entries_model(entries@) =~= seq![
                    EntryModel { key: attribute@, value: ValueModel::Text(value@) },
                ]);
                Response::Success(entries)
            },
            Err(e) => Response::Error(e.message()),
        }
    }

    /// The response to a write: no data, or the error's message.
    pub fn set(outcome: &Result<(), AttributeError>) -> (r: Response)
        ensures
            match *outcome {
                Ok(_) => r@ == ResponseModel::Success(Seq::empty()),
                Err(e) => r@ == ResponseModel::Error(attribute_error_text(e)),
            },
    {
        match outcome {
            Ok(_) => {
                let entries: Vec<Entry> = Vec::new();
                assert(entries_model(entries@) =~= Seq::<EntryModel>::empty());
                Response::Success(entries)
            },
            Err(e) => Response::Error(e.message()),
        }
    }

    /// The response that lists the devices: one entry for each driver, in
    /// the order given, with the names of its devices. A driver without
    /// devices has an empty list.
    pub fn list(listings: &Vec<Listing>) -> (r: Response)
        ensures
            r@ == ResponseModel::Success(listings@.map_values(|l: Listing| listing_entry(l))),
    {
        let mut entries: Vec<Entry> = Vec::new();
        let mut i: usize = 0;
        let ghost wanted = listings@.map_values(|l: Listing| listing_entry(l));
        while i < listings.len()
            invariant
                0 <= i <= listings.len(),
                wanted == listings@.map_values(|l: Listing| listing_entry(l)),
                entries_model(entries@) =~= wanted.take(i as int),
            decreases listings.len() - i,
        {
            let ghost before = entries@;
            let names = devices(&listings[i].entries);
            let entry = Entry { key: listings[i].driver.clone(), value: Value::List(names) };
            assert(entry@ == listing_entry(listings@[i as int]));
            entries.push(entry);
            assert(entries_model(entries@) =~= entries_model(before).push(wanted[i as int]));
            i += 1;
        }
        assert(wanted.take(listings.len() as int) =~= wanted);
        Response::Success(entries)
    }

    /// The document that goes back to the client.
    pub fn into_document(self) -> (r: Vec<Entry>)
        ensures
            entries_model(r@) == response_document(self@),
    {
        match self {
            Response::Success(entries) => {
                let mut entries = entries;
                let ghost before = entries@;
                entries.push(Entry { key: String::from_str(ERROR_KEY), value: Value::Null });
                assert(entries_model(entries@) =~= entries_model(before).push(
                    EntryModel { key: "error"@, value: ValueModel::Null },
                ));
                entries
            },
            Response::Error(message) => {
                let mut entries: Vec<Entry> = Vec::new();
                let ghost text = message@;
                entries.push(Entry { key: String::from_str(ERROR_KEY), value: Value::Text(message) });
                assert(entries_model(entries@) =~= seq![
                    EntryModel { key: "error"@, value: ValueModel::Text(text) },
                ]);
                entries
            },
        }
    }

    /// Whether the request was served.
    pub fn is_success(&self) -> (r: bool)
        ensures
            r == (self@ is Success),
    {
        match self {
            Response::Success(_) => true,
            Response::Error(_) => false,
        }
    }
}

/// Every response gives a document that ends with the key `error`: empty
/// after success, the message after an error, in which case the document
/// holds nothing else.
pub proof fn law_every_response_reports_error(response: ResponseModel)
    ensures
        response_document(response).len() >= 1,
        response_document(response).last().key == "error"@,
        response is Success ==> response_document(response).last().value == ValueModel::Null,
        response matches ResponseModel::Error(m) ==> response_document(response) == seq![
            EntryModel { key: "error"@, value: ValueModel::Text(m) },
        ],
{
}

} // verus!
