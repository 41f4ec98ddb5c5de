use hexagon_ort::fault::Fault;
use hexagon_ort::foreign::{DestructorCall, ForeignFn};
use hexagon_ort::ort::function::{
    decode_result, hexagon_ort_function_debug_print, hexagon_ort_function_dump_json,
    hexagon_ort_function_load_native, hexagon_ort_function_load_virtual, parse_encoding,
    verification_result, DecodeRequest, Encoding, LoadError, NativeFunction,
};
use hexagon_ort::ort::value::Value;

#[test]
fn parse_encoding_knows_three_tags() {
    assert_eq!(parse_encoding("json"), Some(Encoding::Json));
    assert_eq!(parse_encoding("msgpack"), Some(Encoding::MessagePack));
    assert_eq!(parse_encoding("messagepack"), Some(Encoding::MessagePack));
}

#[test]
fn parse_encoding_refuses_everything_else() {
    assert_eq!(parse_encoding(""), None);
    assert_eq!(parse_encoding("JSON"), None);
    assert_eq!(parse_encoding("json "), None);
    assert_eq!(parse_encoding("yaml"), None);
    assert_eq!(parse_encoding("msgpac"), None);
    assert_eq!(parse_encoding("message-pack"), None);
}

#[test]
fn unknown_encoding_fails_with_the_tag() {
    let r = hexagon_ort_function_load_virtual("yaml", b"a: 1");
    match r {
        Err(e) => {
            assert_eq!(e, LoadError::UnsupportedEncoding("yaml".to_string()));
            assert_eq!(e.diagnostic(), "Unsupported encoding: yaml");
        }
        Ok(_) => panic!("a request for an unknown encoding"),
    }
}

#[test]
fn msgpack_takes_the_bytes_as_they_are() {
    let code = [0x81u8, 0xff, 0xfe, 0x00];
    for tag in ["msgpack", "messagepack"] {
        match hexagon_ort_function_load_virtual(tag, &code) {
            Ok(DecodeRequest::MessagePack(bytes)) => assert_eq!(bytes, &code[..]),
            other => panic!("unexpected: {:?}", other),
        }
    }
}

#[test]
fn json_takes_the_bytes_as_text() {
    let code = "{\"basic_blocks\":[],\"note\":\"größe\"}";
    match hexagon_ort_function_load_virtual("json", code.as_bytes()) {
        Ok(DecodeRequest::Json(text)) => assert_eq!(text, code),
        other => panic!("unexpected: {:?}", other),
    }
}

#[test]
fn json_of_no_bytes_is_empty_text() {
    match hexagon_ort_function_load_virtual("json", b"") {
        Ok(DecodeRequest::Json(text)) => assert_eq!(text, ""),
        other => panic!("unexpected: {:?}", other),
    }
}

#[test]
fn json_that_is_not_utf8_fails() {
    let code = [b'{', 0xff, b'}'];
    match hexagon_ort_function_load_virtual("json", &code) {
        Err(LoadError::Utf8(text)) => {
            assert!(!text.is_empty());
            let line = LoadError::Utf8(text.clone()).diagnostic();
            assert_eq!(line, format!("UTF-8 decoding failed: {}", text));
        }
        other => panic!("unexpected: {:?}", other),
    }
}

#[test]
fn json_cut_inside_a_character_fails() {
    let whole = "größe".as_bytes();
    let cut = &whole[..3];
    assert!(matches!(
        hexagon_ort_function_load_virtual("json", cut),
        Err(LoadError::Utf8(_))
    ));
}

#[test]
fn invalid_json_yields_no_function_and_a_json_diagnostic() {
    let code = b"{not valid json";
    let text = match hexagon_ort_function_load_virtual("json", code) {
        Ok(DecodeRequest::Json(text)) => text,
        other => panic!("unexpected: {:?}", other),
    };
    let decoded: Result<serde_json::Value, String> =
        serde_json::from_str(text).map_err(|e| e.to_string());
    let description = decoded.clone().unwrap_err();
    match decode_result(Encoding::Json, decoded) {
        Err(e) => {
            assert_eq!(e, LoadError::Json(description.clone()));
            assert_eq!(
                e.diagnostic(),
                format!("JSON decoding failed: {}", description)
            );
            assert!(e.diagnostic().starts_with("JSON decoding failed: "));
        }
        Ok(_) => panic!("a body out of invalid text"),
    }
}

#[test]
fn truncated_msgpack_yields_no_function() {
    let whole = rmp_serde::to_vec(&vec![1u32, 2, 3]).unwrap();
    let cut = &whole[..whole.len() - 1];
    let bytes = match hexagon_ort_function_load_virtual("msgpack", cut) {
        Ok(DecodeRequest::MessagePack(bytes)) => bytes,
        other => panic!("unexpected: {:?}", other),
    };
    let decoded: Result<Vec<u32>, String> =
        rmp_serde::from_slice(bytes).map_err(|e| e.to_string());
    let description = decoded.clone().unwrap_err();
    match decode_result(Encoding::MessagePack, decoded) {
        Err(e) => {
            assert_eq!(e, LoadError::MessagePack(description.clone()));
            assert_eq!(
                e.diagnostic(),
                format!("MessagePack decoding failed: {}", description)
            );
        }
        Ok(_) => panic!("a body out of truncated bytes"),
    }
}

#[test]
fn a_body_round_trips_through_both_encodings() {
    let body: serde_json::Value =
        serde_json::from_str("{\"basic_blocks\":[{\"opcodes\":[\"Return\"]}]}").unwrap();

    let as_json = serde_json::to_string(&body).unwrap();
    let text = match hexagon_ort_function_load_virtual("json", as_json.as_bytes()) {
        Ok(DecodeRequest::Json(text)) => text,
        other => panic!("unexpected: {:?}", other),
    };
    let decoded: Result<serde_json::Value, String> =
        serde_json::from_str(text).map_err(|e| e.to_string());
    assert_eq!(decode_result(Encoding::Json, decoded), Ok(body.clone()));

    let as_msgpack = rmp_serde::to_vec(&body).unwrap();
    let bytes = match hexagon_ort_function_load_virtual("messagepack", &as_msgpack) {
        Ok(DecodeRequest::MessagePack(bytes)) => bytes,
        other => panic!("unexpected: {:?}", other),
    };
    let decoded: Result<serde_json::Value, String> =
        rmp_serde::from_slice(bytes).map_err(|e| e.to_string());
    assert_eq!(decode_result(Encoding::MessagePack, decoded), Ok(body));
}

#[test]
fn decode_result_passes_a_body_on() {
    assert_eq!(decode_result(Encoding::Json, Ok::<u8, String>(5)), Ok(5));
    assert_eq!(
        decode_result(Encoding::MessagePack, Ok::<u8, String>(6)),
        Ok(6)
    );
}

#[test]
fn decode_result_names_the_encoding_that_failed() {
    assert_eq!(
        decode_result::<u8>(Encoding::Json, Err("eof".to_string())),
        Err(LoadError::Json("eof".to_string()))
    );
    assert_eq!(
        decode_result::<u8>(Encoding::MessagePack, Err("eof".to_string())),
        Err(LoadError::MessagePack("eof".to_string()))
    );
}

#[test]
fn failed_verification_yields_no_function() {
    let r = verification_result::<u8>(Err(Fault::Vm("Invalid branch target(s)".to_string())));
    match r {
        Err(e) => {
            assert_eq!(
                e,
                LoadError::Verification("Invalid branch target(s)".to_string())
            );
            assert_eq!(
                e.diagnostic(),
                "CFG verification failed: Invalid branch target(s)"
            );
        }
        Ok(_) => panic!("a function out of a failed check"),
    }
}

#[test]
fn verification_that_failed_without_an_error_is_unknown() {
    let r = verification_result::<u8>(Err(Fault::Unknown));
    assert_eq!(
        r,
        Err(LoadError::Verification("Unknown error".to_string()))
    );
    assert_eq!(
        r.unwrap_err().diagnostic(),
        "CFG verification failed: Unknown error"
    );
}

#[test]
fn verification_passes_a_function_on() {
    assert_eq!(verification_result(Ok::<&str, Fault>("f")), Ok("f"));
}

#[test]
fn every_load_error_has_its_diagnostic() {
    let m = "m".to_string();
    assert_eq!(
        LoadError::UnsupportedEncoding(m.clone()).diagnostic(),
        "Unsupported encoding: m"
    );
    assert_eq!(
        LoadError::Utf8(m.clone()).diagnostic(),
        "UTF-8 decoding failed: m"
    );
    assert_eq!(
        LoadError::Json(m.clone()).diagnostic(),
        "JSON decoding failed: m"
    );
    assert_eq!(
        LoadError::MessagePack(m.clone()).diagnostic(),
        "MessagePack decoding failed: m"
    );
    assert_eq!(
        LoadError::Verification(m).diagnostic(),
        "CFG verification failed: m"
    );
}

#[test]
fn load_native_keeps_routine_and_datum() {
    let f = hexagon_ort_function_load_native(ForeignFn { addr: 0x1000 }, None, 77);
    assert_eq!(f.callback(), ForeignFn { addr: 0x1000 });
    assert_eq!(f.user_data(), 77);
}

#[test]
fn native_status_zero_yields_the_slot() {
    assert_eq!(
        NativeFunction::call_result(0, Value::Int(42)),
        Ok(Value::Int(42))
    );
    assert_eq!(NativeFunction::call_result(0, Value::Null), Ok(Value::Null));
}

#[test]
fn native_nonzero_status_becomes_an_error_of_the_machine() {
    for status in [1, -1, 2, i32::MAX, i32::MIN] {
        assert_eq!(
            NativeFunction::call_result(status, Value::Int(42)),
            Err(Fault::Vm("Native function returns error".to_string()))
        );
    }
}

#[test]
fn native_destructor_is_due_once() {
    let mut f =
        hexagon_ort_function_load_native(ForeignFn { addr: 1 }, Some(ForeignFn { addr: 2 }), 3);
    assert_eq!(
        f.release(),
        Some(DestructorCall {
            routine: ForeignFn { addr: 2 },
            data: 3
        })
    );
    assert_eq!(f.release(), None);
    assert_eq!(f.release(), None);
    assert_eq!(f.callback(), ForeignFn { addr: 1 });
    assert_eq!(f.user_data(), 3);
}

#[test]
fn native_destructor_is_due_though_never_called() {
    let mut f =
        hexagon_ort_function_load_native(ForeignFn { addr: 9 }, Some(ForeignFn { addr: 8 }), 0);
    assert!(f.release().is_some());
}

#[test]
fn native_without_destructor_owes_nothing() {
    let mut f = hexagon_ort_function_load_native(ForeignFn { addr: 1 }, None, 3);
    assert_eq!(f.release(), None);
}

#[test]
fn dump_json_needs_a_body_that_encodes() {
    assert_eq!(
        hexagon_ort_function_dump_json(Some(Ok::<String, String>("{}".to_string()))),
        Some("{}".to_string())
    );
    assert_eq!(
        hexagon_ort_function_dump_json(Some(Err::<String, String>("no".to_string()))),
        None
    );
    assert_eq!(hexagon_ort_function_dump_json::<String>(None), None);
}

#[test]
fn debug_print_shows_the_body_or_says_none() {
    assert_eq!(
        hexagon_ort_function_debug_print(Some("VirtualFunctionInfo { .. }".to_string())),
        "VirtualFunctionInfo { .. }"
    );
    assert_eq!(hexagon_ort_function_debug_print(None), "(not printable)");
}
