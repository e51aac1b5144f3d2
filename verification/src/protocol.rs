//! Requests and responses of the wire protocol.
//!
//! A client sends one document: a mapping whose key `request` selects what is
//! asked for. Whatever arrives, exactly one response goes back: the data, or
//! an error that says what was wrong. Names that end up in a path are checked
//! here, so that no request reaches outside the attribute tree.

use crate::decimal::{parse_bounded, parse_within};
use crate::device::{
    attribute_file, bare_name, is_bare_name, is_supported_driver, law_attribute_stays_in_tree,
    law_supported_drivers_are_bare, supported_driver, Device,
};
use crate::document::{
    entries_model, find, lookup, Decoded, Document, Entry, EntryModel, Value, ValueModel,
};
use crate::text::{ascii_bytes, ascii_bytes_of, is_ascii_text, text_eq};
use vstd::prelude::*;
use vstd::string::StringExecFns;

verus! {

/// The keys that a request may hold.
#[derive(Clone, Copy, Debug, PartialEq, Eq, Structural)]
pub enum Field {
    Request,
    Driver,
    Device,
    Attribute,
    Value,
}

/// Why a request is not served.
#[derive(Clone, Copy, Debug, PartialEq, Eq, Structural)]
pub enum Reason {
    /// The input ended before the end-of-document line.
    Incomplete,
    /// The body is larger than a request may be.
    TooLarge,
    /// The body is no document.
    Malformed,
    /// The body holds no document.
    NoDocument,
    /// The body holds more than one document.
    ManyDocuments,
    /// The document is not a mapping.
    NotAMapping,
    /// A required key is missing.
    Missing(Field),
    /// The value of a key is not a text.
    NotText(Field),
    /// The key `request` names no known request.
    UnknownRequest,
    /// The driver is not one this service controls.
    DriverNotSupported,
    /// The name is not a single file name.
    UnsafeName(Field),
    /// The value is not an unsigned number.
    NotANumber,
}

/// What a client asks for.
#[derive(Debug)]
#[allow(inconsistent_fields)]
pub enum Request {
    Get { driver: String, device: String, attribute: String },
    ListDrivers,
    SetAttribute { driver: String, device: String, attribute: String, value: String },
    SetUpdateInterval { driver: String, device: String, value: u64 },
    Invalid { reason: Reason },
}

/// What a request holds.
#[allow(inconsistent_fields)]
pub enum RequestModel {
    Get { driver: Seq<char>, device: Seq<char>, attribute: Seq<char> },
    ListDrivers,
    SetAttribute { driver: Seq<char>, device: Seq<char>, attribute: Seq<char>, value: Seq<char> },
    SetUpdateInterval { driver: Seq<char>, device: Seq<char>, value: u64 },
    Invalid { reason: Reason },
}

impl View for Request {
    type V = RequestModel;

    open spec fn view(&self) -> RequestModel {
        match self {
            Request::Get { driver, device, attribute } => RequestModel::Get {
                driver: driver@,
                device: device@,
                attribute: attribute@,
            },
            Request::ListDrivers => RequestModel::ListDrivers,
            Request::SetAttribute { driver, device, attribute, value } => RequestModel::SetAttribute {
                driver: driver@,
                device: device@,
                attribute: attribute@,
                value: value@,
            },
            Request::SetUpdateInterval { driver, device, value } => RequestModel::SetUpdateInterval {
                driver: driver@,
                device: device@,
                value: *value,
            },
            Request::Invalid { reason } => RequestModel::Invalid { reason: *reason },
        }
    }
}

/// The key under which a field is sent.
pub open spec fn field_key(field: Field) -> Seq<char> {
    match field {
        Field::Request => "request"@,
        Field::Driver => "driver"@,
        Field::Device => "device"@,
        Field::Attribute => "attribute"@,
        Field::Value => "value"@,
    }
}

/// The text under a key: the key must be there and hold a text.
pub open spec fn text_of(entries: Seq<EntryModel>, field: Field) -> Result<Seq<char>, Reason> {
    match lookup(entries, field_key(field)) {
        None => Err(Reason::Missing(field)),
        Some(ValueModel::Text(t)) => Ok(t),
        Some(_) => Err(Reason::NotText(field)),
    }
}

/// The driver and device of a request: a supported driver, and a device that
/// is a single file name.
pub open spec fn device_of(entries: Seq<EntryModel>) -> Result<(Seq<char>, Seq<char>), Reason> {
    match text_of(entries, Field::Driver) {
        Err(r) => Err(r),
        Ok(driver) => if !is_supported_driver(driver) {
            Err(Reason::DriverNotSupported)
        } else {
            match text_of(entries, Field::Device) {
                Err(r) => Err(r),
                Ok(device) => if !is_bare_name(device) {
                    Err(Reason::UnsafeName(Field::Device))
                } else {
                    Ok((driver, device))
                },
            }
        },
    }
}

/// The attribute of a request: a single file name.
pub open spec fn attribute_of(entries: Seq<EntryModel>) -> Result<Seq<char>, Reason> {
    match text_of(entries, Field::Attribute) {
        Err(r) => Err(r),
        Ok(attribute) => if !is_bare_name(attribute) {
            Err(Reason::UnsafeName(Field::Attribute))
        } else {
            Ok(attribute)
        },
    }
}

/// The update interval that a text spells: digits only, within 64 bits.
pub open spec fn interval_of(text: Seq<char>) -> Option<u64> {
    if !is_ascii_text(text) {
        None
    } else {
        match parse_within(ascii_bytes_of(text), 0xffff_ffff_ffff_ffff) {
            Some(v) => Some(v as u64),
            None => None,
        }
    }
}

/// The request `get`.
pub open spec fn get_of(entries: Seq<EntryModel>) -> RequestModel {
    match device_of(entries) {
        Err(reason) => RequestModel::Invalid { reason },
        Ok((driver, device)) => match attribute_of(entries) {
            Err(reason) => RequestModel::Invalid { reason },
            Ok(attribute) => RequestModel::Get { driver, device, attribute },
        },
    }
}

/// The request `set`.
pub open spec fn set_of(entries: Seq<EntryModel>) -> RequestModel {
    match device_of(entries) {
        Err(reason) => RequestModel::Invalid { reason },
        Ok((driver, device)) => match attribute_of(entries) {
            Err(reason) => RequestModel::Invalid { reason },
            Ok(attribute) => match text_of(entries, Field::Value) {
                Err(reason) => RequestModel::Invalid { reason },
                Ok(value) => RequestModel::SetAttribute { driver, device, attribute, value },
            },
        },
    }
}

/// The request `set-update-interval`.
pub open spec fn set_update_interval_of(entries: Seq<EntryModel>) -> RequestModel {
    match device_of(entries) {
        Err(reason) => RequestModel::Invalid { reason },
        Ok((driver, device)) => match text_of(entries, Field::Value) {
            Err(reason) => RequestModel::Invalid { reason },
            Ok(text) => match interval_of(text) {
                None => RequestModel::Invalid { reason: Reason::NotANumber },
                Some(value) => RequestModel::SetUpdateInterval { driver, device, value },
            },
        },
    }
}

/// The request that a mapping spells.
pub open spec fn request_of(entries: Seq<EntryModel>) -> RequestModel {
    match text_of(entries, Field::Request) {
        Err(reason) => RequestModel::Invalid { reason },
        Ok(kind) => if kind == "list-drivers"@ {
            RequestModel::ListDrivers
        } else if kind == "get"@ {
            get_of(entries)
        } else if kind == "set"@ {
            set_of(entries)
        } else if kind == "set-update-interval"@ {
            set_update_interval_of(entries)
        } else {
            RequestModel::Invalid { reason: Reason::UnknownRequest }
        },
    }
}

/// The request that a decoded body spells: it must hold exactly one
/// document, and that a mapping.
pub open spec fn request_of_decoded(decoded: Decoded) -> RequestModel {
    match decoded {
        Decoded::Malformed(_) => RequestModel::Invalid { reason: Reason::Malformed },
        Decoded::Documents(documents) => if documents@.len() == 0 {
            RequestModel::Invalid { reason: Reason::NoDocument }
        } else if documents@.len() > 1 {
            RequestModel::Invalid { reason: Reason::ManyDocuments }
        } else {
            match documents@[0] {
                Document::NotMapping => RequestModel::Invalid { reason: Reason::NotAMapping },
                Document::Mapping(entries) => request_of(entries_model(entries@)),
            }
        },
    }
}

/// The key under which a field is sent.
pub fn key_of(field: Field) -> (r: &'static str)
    ensures
        r@ == field_key(field),
{
    match field {
        Field::Request => "request",
        Field::Driver => "driver",
        Field::Device => "device",
        Field::Attribute => "attribute",
        Field::Value => "value",
    }
}

fn text_field<'a>(entries: &'a Vec<Entry>, field: Field) -> (r: Result<&'a str, Reason>)
    ensures
        match text_of(entries_model(entries@), field) {
            Ok(t) => r matches Ok(s) && s@ == t,
            Err(reason) => r == Err::<&str, Reason>(reason),
        },
{
    match find(entries, key_of(field)) {
        None => Err(Reason::Missing(field)),
        Some(Value::Text(t)) => Ok(t.as_str()),
        Some(_) => Err(Reason::NotText(field)),
    }
}

fn device_fields<'a>(entries: &'a Vec<Entry>) -> (r: Result<(&'a str, &'a str), Reason>)
    ensures
        match device_of(entries_model(entries@)) {
            Ok((driver, device)) => r matches Ok(pair) && pair.0@ == driver && pair.1@ == device,
            Err(reason) => r == Err::<(&str, &str), Reason>(reason),
        },
{
    let driver: &str = match text_field(entries, Field::Driver) {
        Ok(driver) => driver,
        Err(reason) => {
            return Err(reason);
        },
    };
    if !supported_driver(driver) {
        return Err(Reason::DriverNotSupported);
    }
    let device: &str = match text_field(entries, Field::Device) {
        Ok(device) => device,
        Err(reason) => {
            return Err(reason);
        },
    };
    if !bare_name(device) {
        return Err(Reason::UnsafeName(Field::Device));
    }
    Ok((driver, device))
}

fn attribute_field<'a>(entries: &'a Vec<Entry>) -> (r: Result<&'a str, Reason>)
    ensures
        match attribute_of(entries_model(entries@)) {
            Ok(t) => r matches Ok(s) && s@ == t,
            Err(reason) => r == Err::<&str, Reason>(reason),
        },
{
    let attribute: &str = match text_field(entries, Field::Attribute) {
        Ok(attribute) => attribute,
        Err(reason) => {
            return Err(reason);
        },
    };
    if !bare_name(attribute) {
        return Err(Reason::UnsafeName(Field::Attribute));
    }
    Ok(attribute)
}

/// Reads an update interval.
pub fn parse_interval(text: &str) -> (r: Option<u64>)
    ensures
        r == interval_of(text@),
{
    match ascii_bytes(text) {
        None => None,
        Some(bytes) => parse_bounded(bytes.as_slice(), 0xffff_ffff_ffff_ffff),
    }
}

fn invalid(reason: Reason) -> (r: Request)
    ensures
        r@ == (RequestModel::Invalid { reason }),
{
    Request::Invalid { reason }
}

fn parse_get(entries: &Vec<Entry>) -> (r: Request)
    ensures
        r@ == get_of(entries_model(entries@)),
{
    match device_fields(entries) {
        Err(reason) => invalid(reason),
        Ok((driver, device)) => match attribute_field(entries) {
            Err(reason) => invalid(reason),
            Ok(attribute) => Request::Get {
                driver: String::from_str(driver),
                device: String::from_str(device),
                attribute: String::from_str(attribute),
            },
        },
    }
}

fn parse_set(entries: &Vec<Entry>) -> (r: Request)
    ensures
        r@ == set_of(entries_model(entries@)),
{
    match device_fields(entries) {
        Err(reason) => invalid(reason),
        Ok((driver, device)) => match attribute_field(entries) {
            Err(reason) => invalid(reason),
            Ok(attribute) => match text_field(entries, Field::Value) {
                Err(reason) => invalid(reason),
                Ok(value) => Request::SetAttribute {
                    driver: String::from_str(driver),
                    device: String::from_str(device),
                    attribute: String::from_str(attribute),
                    value: String::from_str(value),
                },
            },
        },
    }
}

fn parse_set_update_interval(entries: &Vec<Entry>) -> (r: Request)
    ensures
        r@ == set_update_interval_of(entries_model(entries@)),
{
    match device_fields(entries) {
        Err(reason) => invalid(reason),
        Ok((driver, device)) => match text_field(entries, Field::Value) {
            Err(reason) => invalid(reason),
            Ok(text) => match parse_interval(text) {
                None => invalid(Reason::NotANumber),
                Some(value) => Request::SetUpdateInterval {
                    driver: String::from_str(driver),
                    device: String::from_str(device),
                    value,
                },
            },
        },
    }
}

impl Request {
    /// Reads a request from the entries of a mapping.
    pub fn parse(entries: &Vec<Entry>) -> (r: Request)
        ensures
            r@ == request_of(entries_model(entries@)),
    {
        let kind: &str = match text_field(entries, Field::Request) {
            Ok(kind) => kind,
            Err(reason) => {
                return invalid(reason);
            },
        };
        if text_eq(kind, "list-drivers") {
            Request::ListDrivers
        } else if text_eq(kind, "get") {
            parse_get(entries)
        } else if text_eq(kind, "set") {
            parse_set(entries)
        } else if text_eq(kind, "set-update-interval") {
            parse_set_update_interval(entries)
        } else {
            invalid(Reason::UnknownRequest)
        }
    }

    /// Reads a request from what the codec made of a body.
    pub fn from_decoded(decoded: &Decoded) -> (r: Request)
        ensures
            r@ == request_of_decoded(*decoded),
    {
        match decoded {
            Decoded::Malformed(_) => invalid(Reason::Malformed),
            Decoded::Documents(documents) => {
                if documents.len() == 0 {
                    invalid(Reason::NoDocument)
                } else if documents.len() > 1 {
                    invalid(Reason::ManyDocuments)
                } else {
                    match &documents[0] {
                        Document::NotMapping => invalid(Reason::NotAMapping),
                        Document::Mapping(entries) => Request::parse(entries),
                    }
                }
            },
        }
    }

    /// The device that the request is about, if it is about one.
    pub fn device(&self) -> (r: Option<Device>)
        ensures
            match self@ {
                RequestModel::Get { driver, device, .. } => r matches Some(d) && d.driver_name()
                    == driver && d.device_name() == device,
                RequestModel::SetAttribute { driver, device, .. } => r matches Some(d) && d.driver_name()
                    == driver && d.device_name() == device,
                RequestModel::SetUpdateInterval { driver, device, .. } => r matches Some(d)
                    && d.driver_name() == driver && d.device_name() == device,
                _ => r is None,
            },
    {
        match self {
            Request::Get { driver, device, .. } => Some(
                Device::new(driver.as_str(), device.as_str()),
            ),
            Request::SetAttribute { driver, device, .. } => Some(
                Device::new(driver.as_str(), device.as_str()),
            ),
            Request::SetUpdateInterval { driver, device, .. } => Some(
                Device::new(driver.as_str(), device.as_str()),
            ),
            _ => None,
        }
    }
}

/// The attribute through which the update interval is set.
pub const UPDATE_INTERVAL: &'static str = "update_interval";

/// The file that a request reads or writes.
pub open spec fn target_of(request: RequestModel) -> Option<Seq<char>> {
    match request {
        RequestModel::Get { driver, device, attribute } => Some(
            attribute_file(driver, device, attribute),
        ),
        RequestModel::SetAttribute { driver, device, attribute, .. } => Some(
            attribute_file(driver, device, attribute),
        ),
        RequestModel::SetUpdateInterval { driver, device, .. } => Some(
            attribute_file(driver, device, "update_interval"@),
        ),
        _ => None,
    }
}

impl Request {
    /// The file that the request reads or writes, if it is about one.
    pub fn target(&self) -> (r: Option<String>)
        ensures
            match target_of(self@) {
                Some(path) => r matches Some(p) && p@ == path,
                None => r is None,
            },
    {
        match self {
            Request::Get { driver, device, attribute } => Some(
                Device::new(driver.as_str(), device.as_str()).attribute_path(attribute.as_str()),
            ),
            Request::SetAttribute { driver, device, attribute, .. } => Some(
                Device::new(driver.as_str(), device.as_str()).attribute_path(attribute.as_str()),
            ),
            Request::SetUpdateInterval { driver, device, .. } => Some(
                Device::new(driver.as_str(), device.as_str()).attribute_path(UPDATE_INTERVAL),
            ),
            _ => None,
        }
    }
}

/// Every request that is served names a supported driver, and a device and an
/// attribute that are single file names: no request leads out of the
/// attribute tree.
pub proof fn law_served_requests_are_path_safe(entries: Seq<EntryModel>)
    ensures
        match request_of(entries) {
            RequestModel::Get { driver, device, attribute } => is_supported_driver(driver)
                && is_bare_name(device) && is_bare_name(attribute),
            RequestModel::SetAttribute { driver, device, attribute, .. } => is_supported_driver(driver)
                && is_bare_name(device) && is_bare_name(attribute),
            RequestModel::SetUpdateInterval { driver, device, .. } => is_supported_driver(driver)
                && is_bare_name(device),
            _ => true,
        },
{
}

/// The file that a served request reads or writes lies in the attribute
/// tree: its path is the drivers directory followed by the driver, the
/// device, the attributes directory and the attribute, each after one
/// separator, and each of them a single file name.
pub proof fn law_targets_stay_in_tree(entries: Seq<EntryModel>)
    ensures
        match request_of(entries) {
            RequestModel::Get { driver, device, attribute } => target_of(request_of(entries))
                == Some(tree_path(driver, device, attribute)),
            RequestModel::SetAttribute { driver, device, attribute, .. } => target_of(
                request_of(entries),
            ) == Some(tree_path(driver, device, attribute)),
            RequestModel::SetUpdateInterval { driver, device, .. } => target_of(
                request_of(entries),
            ) == Some(tree_path(driver, device, "update_interval"@)),
            _ => target_of(request_of(entries)) is None,
        },
{
    law_served_requests_are_path_safe(entries);
    match request_of(entries) {
        RequestModel::Get { driver, device, attribute } => {
            law_supported_drivers_are_bare(driver);
            law_attribute_stays_in_tree(driver, device, attribute);
        },
        RequestModel::SetAttribute { driver, device, attribute, .. } => {
            law_supported_drivers_are_bare(driver);
            law_attribute_stays_in_tree(driver, device, attribute);
        },
        RequestModel::SetUpdateInterval { driver, device, .. } => {
            law_supported_drivers_are_bare(driver);
            reveal_strlit("update_interval");
            let name = "update_interval"@;
            assert(is_bare_name(name)) by {
                assert forall|i: int| 0 <= i < name.len() implies name[i] != '/' by {}
            }
            law_attribute_stays_in_tree(driver, device, name);
        },
        _ => {},
    }
}

/// The path in the attribute tree that is made of the given names.
pub open spec fn tree_path(driver: Seq<char>, device: Seq<char>, attribute: Seq<char>) -> Seq<
    char,
> {
    "/sys/bus/usb/drivers"@ + seq!['/'] + driver + seq!['/'] + device + seq!['/'] + "kraken"@
        + seq!['/'] + attribute
}

/// A name with a separator in it, and the names "." and "..", are never
/// single file names.
pub proof fn law_traversal_is_not_bare(name: Seq<char>)
    requires
        name.contains('/') || name == seq!['.'] || name == seq!['.', '.'] || name.len() == 0,
    ensures
        !is_bare_name(name),
{
}

/// Whatever the body was, the outcome is a request: a body that is no
/// document, holds several documents or none, or is no mapping, gives an
/// invalid request with the reason.
pub proof fn law_broken_input_is_invalid(decoded: Decoded)
    ensures
        decoded is Malformed ==> request_of_decoded(decoded) == (RequestModel::Invalid {
            reason: Reason::Malformed,
        }),
        decoded matches Decoded::Documents(d) && d@.len() > 1 ==> request_of_decoded(decoded) == (
        RequestModel::Invalid { reason: Reason::ManyDocuments }),
        decoded matches Decoded::Documents(d) && d@.len() == 0 ==> request_of_decoded(decoded) == (
        RequestModel::Invalid { reason: Reason::NoDocument }),
        decoded matches Decoded::Documents(d) && d@.len() == 1 && d@[0] is NotMapping
            ==> request_of_decoded(decoded) == (RequestModel::Invalid {
            reason: Reason::NotAMapping,
        }),
{
}

/// A mapping without the key `request` is an invalid request.
pub proof fn law_missing_discriminator_is_invalid(entries: Seq<EntryModel>)
    requires
        lookup(entries, "request"@) is None,
    ensures
        request_of(entries) == (RequestModel::Invalid { reason: Reason::Missing(Field::Request) }),
{
}

/// A mapping that asks for the list of drivers is served as such, whatever
/// else it holds.
pub proof fn law_list_drivers_is_served(entries: Seq<EntryModel>)
    requires
        lookup(entries, "request"@) == Some(ValueModel::Text("list-drivers"@)),
    ensures
        request_of(entries) == RequestModel::ListDrivers,
{
}

} // verus!
