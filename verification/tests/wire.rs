use krakend::attribute::{
    after_read, after_write, not_accessible, read_buffer, received, zeroed, Transfer, Verdict,
};
use krakend::device::{bare_name, device_entry, driver_dir, supported_driver, supported_drivers, Device, DeviceError};
use krakend::document::{find, Decoded, Document, Entry, Json, Value};
use krakend::framing::{frame_response, sentinel_line, FrameState, Framer, MAX_REQUEST_BYTES};
use krakend::protocol::{parse_interval, Field, Reason, Request};
use krakend::response::{describe, devices, AttributeError, DirEntry, Listing, Response};
use krakend::server::{Accepted, RequestConnection, RequestListener, Yield};
use krakend::text::{ascii_bytes, has_char, text_eq};

fn text(key: &str, value: &str) -> Entry {
    Entry { key: String::from(key), value: Value::Text(String::from(value)) }
}

fn mapping(entries: Vec<Entry>) -> Decoded {
    Decoded::Documents(vec![Document::Mapping(entries)])
}

fn reason_of(request: Request) -> Reason {
    match request {
        Request::Invalid { reason } => reason,
        other => panic!("unexpected: {:?}", other),
    }
}

fn message_of(response: &Response) -> &str {
    match response {
        Response::Error(message) => message,
        other => panic!("unexpected: {:?}", other),
    }
}

#[test]
fn non_document_is_an_error_response() {
    let decoded = Decoded::Malformed(String::from("expected value at line 1 column 1"));
    let reason = reason_of(Request::from_decoded(&decoded));
    assert_eq!(reason, Reason::Malformed);
    let response = Response::invalid(reason, "expected value at line 1 column 1");
    assert_eq!(
        message_of(&response),
        "request is not a document: expected value at line 1 column 1"
    );
}

#[test]
fn several_documents_are_an_error_response() {
    let decoded = Decoded::Documents(vec![
        Document::Mapping(vec![text("request", "list-drivers")]),
        Document::Mapping(vec![text("request", "list-drivers")]),
    ]);
    let reason = reason_of(Request::from_decoded(&decoded));
    assert_eq!(reason, Reason::ManyDocuments);
    assert_eq!(
        message_of(&Response::invalid(reason, "")),
        "request holds more than one document"
    );
    assert_eq!(
        reason_of(Request::from_decoded(&Decoded::Documents(Vec::new()))),
        Reason::NoDocument
    );
    assert_eq!(
        reason_of(Request::from_decoded(&Decoded::Documents(vec![Document::NotMapping]))),
        Reason::NotAMapping
    );
}

#[test]
fn missing_request_field_is_an_error_response() {
    let decoded = mapping(vec![text("driver", "kraken")]);
    let reason = reason_of(Request::from_decoded(&decoded));
    assert_eq!(reason, Reason::Missing(Field::Request));
    assert_eq!(message_of(&Response::invalid(reason, "")), "key is missing: request");
    let decoded = mapping(vec![Entry { key: String::from("request"), value: Value::Null }]);
    assert_eq!(reason_of(Request::from_decoded(&decoded)), Reason::NotText(Field::Request));
    let decoded = mapping(vec![text("request", "reboot")]);
    assert_eq!(reason_of(Request::from_decoded(&decoded)), Reason::UnknownRequest);
    let decoded = mapping(vec![text("request", "Get")]);
    assert_eq!(reason_of(Request::from_decoded(&decoded)), Reason::UnknownRequest);
}

#[test]
fn list_drivers_is_served() {
    match Request::from_decoded(&mapping(vec![text("request", "list-drivers")])) {
        Request::ListDrivers => {}
        other => panic!("unexpected: {:?}", other),
    }
    let listings = vec![
        Listing {
            driver: String::from("kraken"),
            entries: vec![
                DirEntry { name: String::from("1-2:1.0"), is_dir: true },
                DirEntry { name: String::from("bind"), is_dir: false },
                DirEntry { name: String::from("module"), is_dir: true },
                DirEntry { name: String::from("1-3:1.0"), is_dir: false },
                DirEntry { name: String::from("3-1:1.0"), is_dir: true },
            ],
        },
        Listing { driver: String::from("kraken_x62"), entries: Vec::new() },
    ];
    let response = Response::list(&listings);
    assert!(response.is_success());
    let document = response.into_document();
    assert_eq!(document.len(), 3);
    assert_eq!(document[0].key, "kraken");
    match &document[0].value {
        Value::List(names) => assert_eq!(names, &vec!["1-2:1.0", "3-1:1.0"]),
        other => panic!("unexpected: {:?}", other),
    }
    assert_eq!(document[1].key, "kraken_x62");
    match &document[1].value {
        Value::List(names) => assert!(names.is_empty()),
        other => panic!("unexpected: {:?}", other),
    }
    assert_eq!(document[2].key, "error");
    assert!(matches!(document[2].value, Value::Null));
    let empty = Response::list(&Vec::new()).into_document();
    assert_eq!(empty.len(), 1);
    assert_eq!(empty[0].key, "error");
}

#[test]
fn path_traversal_is_rejected() {
    let decoded = mapping(vec![
        text("request", "get"),
        text("driver", "x"),
        text("attribute", "../escape"),
    ]);
    let request = Request::from_decoded(&decoded);
    assert_eq!(request.target(), None);
    assert_eq!(reason_of(request), Reason::DriverNotSupported);
    let decoded = mapping(vec![
        text("request", "get"),
        text("driver", "kraken"),
        text("device", "1-2:1.0"),
        text("attribute", "../escape"),
    ]);
    let request = Request::from_decoded(&decoded);
    assert_eq!(request.target(), None);
    let reason = reason_of(request);
    assert_eq!(reason, Reason::UnsafeName(Field::Attribute));
    assert_eq!(message_of(&Response::invalid(reason, "")), "name is not a file name: attribute");
    for device in ["..", ".", "", "a/b", "/etc", "1-2:1.0/", "../kraken/1-2:1.0"] {
        let decoded = mapping(vec![
            text("request", "set"),
            text("driver", "kraken"),
            text("device", device),
            text("attribute", "speed"),
            text("value", "1"),
        ]);
        assert_eq!(
            reason_of(Request::from_decoded(&decoded)),
            Reason::UnsafeName(Field::Device)
        );
    }
}

#[test]
fn get_is_read() {
    let decoded = mapping(vec![
        text("attribute", "update_interval"),
        text("device", "1-2:1.0"),
        text("driver", "kraken_x62"),
        text("request", "get"),
        text("extra", "ignored"),
    ]);
    let request = Request::from_decoded(&decoded);
    assert_eq!(
        request.target(),
        Some(String::from("/sys/bus/usb/drivers/kraken_x62/1-2:1.0/kraken/update_interval"))
    );
    let device = request.device().unwrap();
    assert_eq!(device.driver(), "kraken_x62");
    assert_eq!(device.device(), "1-2:1.0");
    match request {
        Request::Get { driver, device, attribute } => {
            assert_eq!(driver, "kraken_x62");
            assert_eq!(device, "1-2:1.0");
            assert_eq!(attribute, "update_interval");
        }
        other => panic!("unexpected: {:?}", other),
    }
    let document = Response::get("update_interval", &Ok(String::from("500"))).into_document();
    assert_eq!(document.len(), 2);
    assert_eq!(document[0].key, "update_interval");
    assert!(matches!(&document[0].value, Value::Text(v) if v == "500"));
    assert_eq!(document[1].key, "error");
    assert!(matches!(document[1].value, Value::Null));
}

#[test]
fn set_is_written() {
    let decoded = mapping(vec![
        text("request", "set"),
        text("driver", "kraken"),
        text("device", "1-2:1.0"),
        text("attribute", "speed"),
        text("value", "70"),
    ]);
    match Request::from_decoded(&decoded) {
        Request::SetAttribute { driver, device, attribute, value } => {
            assert_eq!(driver, "kraken");
            assert_eq!(device, "1-2:1.0");
            assert_eq!(attribute, "speed");
            assert_eq!(value, "70");
        }
        other => panic!("unexpected: {:?}", other),
    }
    let decoded = mapping(vec![
        text("request", "set"),
        text("driver", "kraken"),
        text("device", "1-2:1.0"),
        text("attribute", "speed"),
    ]);
    assert_eq!(reason_of(Request::from_decoded(&decoded)), Reason::Missing(Field::Value));
    let document = Response::set(&Ok(())).into_document();
    assert_eq!(document.len(), 1);
    assert_eq!(document[0].key, "error");
    assert!(matches!(document[0].value, Value::Null));
}

#[test]
fn set_update_interval_is_a_number() {
    let build = |value: Value| {
        mapping(vec![
            text("request", "set-update-interval"),
            text("driver", "kraken"),
            text("device", "1-2:1.0"),
            Entry { key: String::from("value"), value },
        ])
    };
    let request = Request::from_decoded(&build(Value::Text(String::from("1500"))));
    assert_eq!(
        request.target(),
        Some(String::from("/sys/bus/usb/drivers/kraken/1-2:1.0/kraken/update_interval"))
    );
    match request {
        Request::SetUpdateInterval { driver, device, value } => {
            assert_eq!(driver, "kraken");
            assert_eq!(device, "1-2:1.0");
            assert_eq!(value, 1500);
        }
        other => panic!("unexpected: {:?}", other),
    }
    for bad in ["", "-1", "1.5", "fast", "18446744073709551616", "+1", "\u{661}"] {
        let request = Request::from_decoded(&build(Value::Text(String::from(bad))));
        assert_eq!(reason_of(request), Reason::NotANumber);
    }
    let request = Request::from_decoded(&build(Value::List(vec![String::from("1")])));
    assert_eq!(reason_of(request), Reason::NotText(Field::Value));
    let request = Request::from_decoded(&build(Value::Other));
    assert_eq!(reason_of(request), Reason::NotText(Field::Value));
    assert_eq!(parse_interval("18446744073709551615"), Some(u64::MAX));
    assert_eq!(parse_interval("0"), Some(0));
}

#[test]
fn missing_and_unsupported_names() {
    let decoded = mapping(vec![text("request", "get")]);
    assert_eq!(reason_of(Request::from_decoded(&decoded)), Reason::Missing(Field::Driver));
    let decoded = mapping(vec![text("request", "get"), text("driver", "kraken")]);
    assert_eq!(reason_of(Request::from_decoded(&decoded)), Reason::Missing(Field::Device));
    let decoded = mapping(vec![
        text("request", "get"),
        text("driver", "kraken"),
        text("device", "1-2:1.0"),
    ]);
    assert_eq!(reason_of(Request::from_decoded(&decoded)), Reason::Missing(Field::Attribute));
    let decoded = mapping(vec![
        text("request", "get"),
        text("driver", "usbhid"),
        text("device", "1-2:1.0"),
        text("attribute", "speed"),
    ]);
    assert_eq!(reason_of(Request::from_decoded(&decoded)), Reason::DriverNotSupported);
    let decoded = mapping(vec![
        text("request", "get"),
        text("driver", "usbhid"),
        text("driver", "kraken"),
        text("device", "1-2:1.0"),
        text("attribute", "speed"),
    ]);
    assert_eq!(reason_of(Request::from_decoded(&decoded)), Reason::DriverNotSupported);
}

#[test]
fn reasons_in_words() {
    assert_eq!(describe(Reason::Incomplete), "request ended before the end-of-document line");
    assert_eq!(describe(Reason::TooLarge), "request is too large");
    assert_eq!(describe(Reason::NoDocument), "request holds no document");
    assert_eq!(describe(Reason::NotAMapping), "request is not a mapping");
    assert_eq!(describe(Reason::NotText(Field::Driver)), "key does not hold a text: driver");
    assert_eq!(describe(Reason::Missing(Field::Device)), "key is missing: device");
    assert_eq!(describe(Reason::Missing(Field::Value)), "key is missing: value");
    assert_eq!(describe(Reason::UnknownRequest), "request is not known");
    assert_eq!(describe(Reason::DriverNotSupported), "driver is not supported");
    assert_eq!(describe(Reason::NotANumber), "value is not an unsigned number");
}

#[test]
fn attribute_errors_become_error_responses() {
    let error = AttributeError::Read {
        attribute: String::from("speed"),
        data: String::from("permission denied"),
    };
    assert_eq!(error.message(), "Failed to read attribute speed: permission denied");
    let response = Response::get("speed", &Err(error));
    assert!(!response.is_success());
    let document = response.into_document();
    assert_eq!(document.len(), 1);
    assert_eq!(document[0].key, "error");
    assert!(matches!(
        &document[0].value,
        Value::Text(m) if m == "Failed to read attribute speed: permission denied"
    ));
    let error = AttributeError::Write {
        attribute: String::from("speed"),
        data: String::from("no space"),
    };
    assert_eq!(
        message_of(&Response::set(&Err(error))),
        "Failed to write attribute speed: no space"
    );
    let error = AttributeError::Einval { attribute: String::from("speed") };
    assert_eq!(error.message(), "Wrote invalid value to attribute speed (EINVAL)");
    assert_eq!(not_accessible("no such file").message(), "Device not accessible: no such file");
}

#[test]
fn transfers_are_judged() {
    assert!(matches!(after_read(Transfer::Done(0), "speed", ""), Verdict::Complete));
    assert!(matches!(after_read(Transfer::Done(12), "speed", ""), Verdict::Complete));
    assert!(matches!(after_read(Transfer::Interrupted, "speed", ""), Verdict::Retry));
    match after_read(Transfer::Failed, "speed", "broken") {
        Verdict::Error(AttributeError::Read { attribute, data }) => {
            assert_eq!(attribute, "speed");
            assert_eq!(data, "broken");
        }
        other => panic!("unexpected: {:?}", other),
    }
    assert!(matches!(after_write(Transfer::Done(3), 3, "speed", ""), Verdict::Complete));
    assert!(matches!(after_write(Transfer::Interrupted, 3, "speed", ""), Verdict::Retry));
    match after_write(Transfer::Done(2), 3, "speed", "") {
        Verdict::Error(AttributeError::Write { attribute, data }) => {
            assert_eq!(attribute, "speed");
            assert_eq!(data, "failed to write entire value");
        }
        other => panic!("unexpected: {:?}", other),
    }
    match after_write(Transfer::InvalidInput, 3, "speed", "") {
        Verdict::Error(AttributeError::Einval { attribute }) => assert_eq!(attribute, "speed"),
        other => panic!("unexpected: {:?}", other),
    }
    match after_write(Transfer::Failed, 3, "speed", "broken") {
        Verdict::Error(AttributeError::Write { attribute, data }) => {
            assert_eq!(attribute, "speed");
            assert_eq!(data, "broken");
        }
        other => panic!("unexpected: {:?}", other),
    }
}

#[test]
fn devices_and_their_paths() {
    let device = Device::new("kraken", "1-2:1.0");
    assert_eq!(device.attributes_dir(), "/sys/bus/usb/drivers/kraken/1-2:1.0/kraken");
    assert_eq!(
        device.attribute_path("update_interval"),
        "/sys/bus/usb/drivers/kraken/1-2:1.0/kraken/update_interval"
    );
    assert_eq!(driver_dir("kraken_x62"), "/sys/bus/usb/drivers/kraken_x62");
    assert_eq!(supported_drivers(), vec!["kraken", "kraken_x62"]);
    assert!(Device::try_from("kraken", "1-2:1.0").is_ok());
    assert_eq!(Device::try_from("kraken_x62", "x").unwrap().device(), "x");
    assert_eq!(Device::try_from("usbhid", "1-2:1.0").err(), Some(DeviceError::DriverNotSupported));
    assert_eq!(Device::try_from("usbhid", "..").err(), Some(DeviceError::DriverNotSupported));
    assert_eq!(Device::try_from("kraken", "..").err(), Some(DeviceError::ParamsDeviceName));
    assert_eq!(Device::try_from("kraken", "a/b").err(), Some(DeviceError::ParamsDeviceName));
    assert_eq!(Device::try_from("kraken", "").err(), Some(DeviceError::ParamsDeviceName));
}

#[test]
fn names_are_checked() {
    assert!(supported_driver("kraken"));
    assert!(supported_driver("kraken_x62"));
    assert!(!supported_driver("Kraken"));
    assert!(!supported_driver("kraken_x6"));
    assert!(!supported_driver(""));
    for name in ["a", "1-2:1.0", "...", ".a", "a.", "..a", "speed", "\u{e4}"] {
        assert!(bare_name(name), "{}", name);
        assert_eq!(
            std::path::Path::new(name).file_name().and_then(|s| s.to_str()),
            Some(name)
        );
    }
    for name in ["", ".", "..", "/", "a/", "/a", "a/b", "../a", "a/.."] {
        assert!(!bare_name(name), "{}", name);
        assert_ne!(
            std::path::Path::new(name).file_name().and_then(|s| s.to_str()),
            Some(name)
        );
    }
    assert!(device_entry("1-2:1.0", true));
    assert!(!device_entry("1-2:1.0", false));
    assert!(!device_entry("module", true));
    let found = devices(&vec![
        DirEntry { name: String::from("a:b"), is_dir: true },
        DirEntry { name: String::from("ab"), is_dir: true },
        DirEntry { name: String::from(":"), is_dir: true },
    ]);
    assert_eq!(found, vec!["a:b", ":"]);
}

#[test]
fn texts_are_compared() {
    assert!(text_eq("", ""));
    assert!(text_eq("abc", "abc"));
    assert!(!text_eq("abc", "abd"));
    assert!(!text_eq("abc", "ab"));
    assert!(text_eq("\u{e4}b", "\u{e4}b"));
    assert!(has_char("a:b", ':'));
    assert!(!has_char("ab", ':'));
    assert!(!has_char("", ':'));
    assert_eq!(ascii_bytes("a1"), Some(vec![97, 49]));
    assert_eq!(ascii_bytes(""), Some(Vec::new()));
    assert_eq!(ascii_bytes("\u{e4}"), None);
}

#[test]
fn first_entry_under_a_key_is_found() {
    let entries = vec![text("a", "1"), text("b", "2"), text("a", "3")];
    assert!(matches!(find(&entries, "a"), Some(Value::Text(v)) if v == "1"));
    assert!(matches!(find(&entries, "b"), Some(Value::Text(v)) if v == "2"));
    assert!(find(&entries, "c").is_none());
    assert!(find(&Vec::new(), "a").is_none());
}

#[test]
fn body_is_what_precedes_the_sentinel() {
    let mut framer = Framer::new();
    assert_eq!(framer.push_line(b"request: get\n"), FrameState::Reading);
    assert_eq!(framer.push_line(b"driver: kraken\n"), FrameState::Reading);
    assert_eq!(framer.push_line(b"....\n"), FrameState::Reading);
    assert_eq!(framer.push_line(b"...\n"), FrameState::Complete);
    assert_eq!(framer.push_line(b"ignored\n"), FrameState::Complete);
    assert_eq!(framer.state(), FrameState::Complete);
    assert_eq!(framer.finish().unwrap(), b"request: get\ndriver: kraken\n....\n".to_vec());
}

#[test]
fn sentinel_lines() {
    assert!(sentinel_line(b"..."));
    assert!(sentinel_line(b"...\n"));
    assert!(sentinel_line(b"...\r\n"));
    assert!(!sentinel_line(b""));
    assert!(!sentinel_line(b"\n"));
    assert!(!sentinel_line(b"..\n"));
    assert!(!sentinel_line(b"....\n"));
    assert!(!sentinel_line(b" ...\n"));
    assert!(!sentinel_line(b"... \n"));
    assert!(!sentinel_line(b"...\n\n"));
    assert!(!sentinel_line(b"...\r"));
    assert!(!sentinel_line(b"a..\n"));
}

#[test]
fn input_that_ends_early_is_incomplete() {
    let mut framer = Framer::new();
    framer.push_line(b"request: get\n");
    assert_eq!(framer.finish(), Err(Reason::Incomplete));
    assert_eq!(Framer::new().finish(), Err(Reason::Incomplete));
}

#[test]
fn body_over_the_limit_is_too_large() {
    assert_eq!(MAX_REQUEST_BYTES, 65536);
    let mut framer = Framer::new();
    let line = vec![b'a'; 65536];
    assert_eq!(framer.push_line(&line), FrameState::Reading);
    assert_eq!(framer.push_line(b""), FrameState::Reading);
    assert_eq!(framer.push_line(b"a"), FrameState::TooLarge);
    assert_eq!(framer.push_line(b"...\n"), FrameState::TooLarge);
    assert_eq!(framer.finish(), Err(Reason::TooLarge));
    let mut framer = Framer::new();
    assert_eq!(framer.push_line(&vec![b'a'; 65537]), FrameState::TooLarge);
    let mut framer = Framer::new();
    assert_eq!(framer.push_line(&line), FrameState::Reading);
    assert_eq!(framer.push_line(b"...\n"), FrameState::Complete);
    assert_eq!(framer.finish().unwrap().len(), 65536);
}

#[test]
fn responses_end_with_the_sentinel() {
    assert_eq!(frame_response(b"error: null\n"), b"error: null\n...\n".to_vec());
    assert_eq!(frame_response(b"{\"error\":null}"), b"{\"error\":null}\n...\n".to_vec());
    assert_eq!(frame_response(b""), b"...\n".to_vec());
}

#[test]
fn one_connection_at_a_time() {
    let mut listener = RequestListener::new();
    assert!(listener.may_accept());
    assert_eq!(
        listener.next(Accepted::Connection, true),
        Some(Yield::Connection { read_timeout_ms: 250 })
    );
    assert!(!listener.may_accept());
    assert_eq!(listener.next(Accepted::Connection, true), None);
    listener.closed();
    assert!(listener.may_accept());
    assert_eq!(listener.next(Accepted::Failed, true), Some(Yield::Failure));
    assert!(listener.may_accept());
    assert_eq!(listener.next(Accepted::Connection, false), Some(Yield::Failure));
    assert!(listener.may_accept());
    assert_eq!(listener.next(Accepted::Interrupted, true), Some(Yield::End));
    assert!(!listener.may_accept());
    assert_eq!(listener.next(Accepted::Connection, true), None);
    listener.closed();
    assert!(!listener.may_accept());
}

#[test]
fn connection_is_read_judged_and_answered() {
    let mut connection = RequestConnection::new();
    assert_eq!(connection.read_line(b"{\"request\": \"list-drivers\"}\n"), FrameState::Reading);
    assert_eq!(connection.read_line(b"...\n"), FrameState::Complete);
    assert_eq!(connection.read_request().unwrap(), b"{\"request\": \"list-drivers\"}\n".to_vec());
    let decoded = mapping(vec![text("request", "list-drivers")]);
    assert!(matches!(RequestConnection::execute(&decoded, ""), Ok(Request::ListDrivers)));
    let decoded = Decoded::Malformed(String::from("EOF while parsing"));
    match RequestConnection::execute(&decoded, "EOF while parsing") {
        Err(response) => {
            assert_eq!(message_of(&response), "request is not a document: EOF while parsing")
        }
        other => panic!("unexpected: {:?}", other),
    }
    let decoded = mapping(vec![text("request", "get"), text("driver", "x")]);
    match RequestConnection::execute(&decoded, "") {
        Err(response) => assert_eq!(message_of(&response), "driver is not supported"),
        other => panic!("unexpected: {:?}", other),
    }
    assert_eq!(RequestConnection::write_response(b"{}"), b"{}\n...\n".to_vec());
}

#[test]
fn connection_that_ends_early_is_answered() {
    let mut connection = RequestConnection::new();
    connection.read_line(b"{\n");
    match connection.read_request() {
        Err(response) => assert_eq!(
            message_of(&response),
            "request ended before the end-of-document line"
        ),
        other => panic!("unexpected: {:?}", other),
    }
    let mut connection = RequestConnection::new();
    connection.read_line(&vec![b'a'; 70000]);
    match connection.read_request() {
        Err(response) => assert_eq!(message_of(&response), "request is too large"),
        other => panic!("unexpected: {:?}", other),
    }
}

#[test]
fn read_buffers() {
    assert_eq!(zeroed(0), Vec::<u8>::new());
    assert_eq!(zeroed(3), vec![0, 0, 0]);
    let buffer = read_buffer();
    assert!(buffer.iter().all(|b| *b == 0));
    assert_eq!(buffer.len(), page_size::get());
    assert_eq!(received(vec![1, 2, 3], 2), vec![1, 2]);
    assert_eq!(received(vec![1, 2, 3], 0), Vec::<u8>::new());
    assert_eq!(received(vec![1, 2, 3], 3), vec![1, 2, 3]);
    assert_eq!(received(vec![1, 2, 3], 9), vec![1, 2, 3]);
}

#[test]
fn wire_values_become_documents() {
    assert!(matches!(Value::from_json(&Json::Null), Value::Null));
    assert!(matches!(Value::from_json(&Json::Bool(true)), Value::Text(t) if t == "true"));
    assert!(matches!(Value::from_json(&Json::Bool(false)), Value::Text(t) if t == "false"));
    assert!(matches!(
        Value::from_json(&Json::Number(String::from("1500"))),
        Value::Text(t) if t == "1500"
    ));
    assert!(matches!(Value::from_json(&Json::Text(String::from("x"))), Value::Text(t) if t == "x"));
    assert!(matches!(Value::from_json(&Json::Array(Vec::new())), Value::List(l) if l.is_empty()));
    let list = Json::Array(vec![Json::Text(String::from("a")), Json::Text(String::from("b"))]);
    assert!(matches!(Value::from_json(&list), Value::List(l) if l == vec!["a", "b"]));
    let mixed = Json::Array(vec![Json::Text(String::from("a")), Json::Null]);
    assert!(matches!(Value::from_json(&mixed), Value::Other));
    let mixed = Json::Array(vec![Json::Number(String::from("1")), Json::Text(String::from("a"))]);
    assert!(matches!(Value::from_json(&mixed), Value::Other));
    assert!(matches!(Value::from_json(&Json::Object(Vec::new())), Value::Other));
    assert!(matches!(Document::from_json(&Json::Null), Document::NotMapping));
    assert!(matches!(Document::from_json(&Json::Array(Vec::new())), Document::NotMapping));
    assert!(matches!(Document::from_json(&Json::Text(String::from("x"))), Document::NotMapping));
    let object = Json::Object(vec![
        (String::from("request"), Json::Text(String::from("set-update-interval"))),
        (String::from("driver"), Json::Text(String::from("kraken"))),
        (String::from("device"), Json::Text(String::from("1-2:1.0"))),
        (String::from("value"), Json::Number(String::from("1500"))),
    ]);
    match Document::from_json(&object) {
        Document::Mapping(entries) => {
            assert_eq!(entries.len(), 4);
            assert_eq!(entries[0].key, "request");
            assert_eq!(entries[3].key, "value");
            assert!(matches!(&entries[3].value, Value::Text(t) if t == "1500"));
        }
        other => panic!("unexpected: {:?}", other),
    }
    match Request::from_decoded(&Decoded::from_json(&vec![object])) {
        Request::SetUpdateInterval { value, .. } => assert_eq!(value, 1500),
        other => panic!("unexpected: {:?}", other),
    }
    assert_eq!(
        reason_of(Request::from_decoded(&Decoded::from_json(&Vec::new()))),
        Reason::NoDocument
    );
    assert_eq!(
        reason_of(Request::from_decoded(&Decoded::from_json(&vec![Json::Null]))),
        Reason::NotAMapping
    );
    assert_eq!(
        reason_of(Request::from_decoded(&Decoded::from_json(&vec![Json::Null, Json::Null]))),
        Reason::ManyDocuments
    );
}

#[test]
fn documents_become_wire_values() {
    assert!(matches!(Json::from_value(&Value::Null), Json::Null));
    assert!(matches!(Json::from_value(&Value::Other), Json::Null));
    assert!(matches!(Json::from_value(&Value::Text(String::from("x"))), Json::Text(t) if t == "x"));
    match Json::from_value(&Value::List(vec![String::from("a"), String::from("b")])) {
        Json::Array(items) => {
            assert_eq!(items.len(), 2);
            assert!(matches!(&items[0], Json::Text(t) if t == "a"));
            assert!(matches!(&items[1], Json::Text(t) if t == "b"));
        }
        other => panic!("unexpected: {:?}", other),
    }
    let document = Response::get("speed", &Ok(String::from("70"))).into_document();
    match Json::from_entries(&document) {
        Json::Object(fields) => {
            assert_eq!(fields.len(), 2);
            assert_eq!(fields[0].0, "speed");
            assert!(matches!(&fields[0].1, Json::Text(t) if t == "70"));
            assert_eq!(fields[1].0, "error");
            assert!(matches!(fields[1].1, Json::Null));
        }
        other => panic!("unexpected: {:?}", other),
    }
    let back = Document::from_json(&Json::from_entries(&document));
    match back {
        Document::Mapping(entries) => {
            assert_eq!(entries.len(), 2);
            assert_eq!(entries[0].key, "speed");
            assert!(matches!(&entries[0].value, Value::Text(t) if t == "70"));
            assert!(matches!(entries[1].value, Value::Null));
        }
        other => panic!("unexpected: {:?}", other),
    }
}
