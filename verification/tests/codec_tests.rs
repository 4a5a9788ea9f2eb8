use contract_mcp::codec::{
    convert_parameters, convert_value, decode_function_result, dyn_sol_value_to_json,
    dyn_sol_values_to_json, encode_function_call, json_to_dyn_sol_value,
};
use contract_mcp::error::ErrorKind;
use contract_mcp::hexadecimal::to_prefixed_hex;
use contract_mcp::interface::{FunctionSignature, Parameter};
use contract_mcp::json::{JsonNumber, JsonValue};
use contract_mcp::soltype::SolType;
use contract_mcp::solvalue::SolValue;
use contract_mcp::word::U256;

fn text(s: &str) -> JsonValue {
    JsonValue::Text(s.to_string())
}

fn number(n: u64) -> JsonValue {
    JsonValue::Number(JsonNumber::Unsigned(n))
}

fn balance_of() -> FunctionSignature {
    FunctionSignature {
        name: "balanceOf".to_string(),
        inputs: vec![Parameter::new("owner", "address")],
        outputs: vec![Parameter::new("", "uint256")],
    }
}

fn transfer() -> FunctionSignature {
    FunctionSignature {
        name: "transfer".to_string(),
        inputs: vec![Parameter::new("to", "address"), Parameter::new("amount", "uint256")],
        outputs: vec![Parameter::new("", "bool")],
    }
}

/// Reads `v` against the type named `ty` and writes the typed value back.
fn there_and_back(v: &JsonValue, ty: &str) -> String {
    let typed = json_to_dyn_sol_value(v, ty).unwrap();
    dyn_sol_value_to_json(&typed).unwrap().to_text()
}

#[test]
fn round_trip_gives_the_documented_form() {
    assert_eq!(
        there_and_back(&text("0x742d35Cc6435C9c1c72c5E7b18BaB7e1DB7a5d6e"), "address"),
        "\"0x742d35cc6435c9c1c72c5e7b18bab7e1db7a5d6e\""
    );
    assert_eq!(
        there_and_back(&text("742D35CC6435C9C1C72C5E7B18BAB7E1DB7A5D6E"), "address"),
        "\"0x742d35cc6435c9c1c72c5e7b18bab7e1db7a5d6e\""
    );
    assert_eq!(there_and_back(&number(1000), "uint256"), "\"1000\"");
    assert_eq!(there_and_back(&text("1000"), "uint256"), "\"1000\"");
    assert_eq!(there_and_back(&text("0x3e8"), "uint256"), "\"1000\"");
    assert_eq!(there_and_back(&text("100"), "uint64"), "\"100\"");
    assert_eq!(
        there_and_back(&text("123456789012345678901234567890"), "uint256"),
        "\"123456789012345678901234567890\""
    );
    assert_eq!(there_and_back(&number(7), "int256"), "\"7\"");
    assert_eq!(
        there_and_back(&JsonValue::Number(JsonNumber::Negative(-7)), "int256"),
        "\"-7\""
    );
    assert_eq!(there_and_back(&text("-7"), "int64"), "\"-7\"");
    assert_eq!(there_and_back(&text("-0"), "int64"), "\"0\"");
    assert_eq!(there_and_back(&text("-0x10"), "int64"), "\"-16\"");
    assert_eq!(there_and_back(&JsonValue::Bool(true), "bool"), "true");
    assert_eq!(there_and_back(&text("héllo"), "string"), "\"héllo\"");
    assert_eq!(there_and_back(&text("0xDEADbeef"), "bytes"), "\"0xdeadbeef\"");
    assert_eq!(there_and_back(&text("deadbeef"), "bytes"), "\"0xdeadbeef\"");
    assert_eq!(there_and_back(&text("0x"), "bytes"), "\"0x\"");
    assert_eq!(there_and_back(&text("0xAB"), "bytes4"), "\"0xab000000\"");
    assert_eq!(there_and_back(&text("0x0102030405"), "bytes4"), "\"0x01020304\"");
    assert_eq!(there_and_back(&text("0x01020304"), "bytes4"), "\"0x01020304\"");
    assert_eq!(
        there_and_back(&text("0x01"), "bytes32"),
        "\"0x0100000000000000000000000000000000000000000000000000000000000000\""
    );
    assert_eq!(
        there_and_back(&JsonValue::Array(vec![number(1), text("0x2"), text("3")]), "uint256[]"),
        "[\"1\",\"2\",\"3\"]"
    );
    assert_eq!(
        there_and_back(
            &JsonValue::Array(vec![
                JsonValue::Array(vec![JsonValue::Bool(true)]),
                JsonValue::Array(vec![]),
            ]),
            "bool[][]"
        ),
        "[[true],[]]"
    );
}

#[test]
fn values_that_do_not_convert_say_why() {
    let cases: Vec<(JsonValue, &str, &str)> = vec![
        (number(1), "address", "Address must be a string"),
        (JsonValue::Number(JsonNumber::Negative(-1)), "uint256", "Invalid uint value"),
        (
            JsonValue::Number(JsonNumber::Real("1.5".to_string())),
            "uint256",
            "Invalid uint value",
        ),
        (text("abc"), "uint256", "Invalid uint string: abc"),
        (JsonValue::Bool(true), "uint8", "Uint must be a number or string"),
        (JsonValue::Number(JsonNumber::Real("1.5".to_string())), "int8", "Invalid int value"),
        (text("--1"), "int256", "Invalid int string: --1"),
        (JsonValue::Null, "int256", "Int must be a number or string"),
        (text("true"), "bool", "Bool parameter must be a boolean"),
        (number(1), "string", "String parameter must be a string"),
        (number(1), "bytes", "Bytes must be a hex string"),
        (text("0x1"), "bytes", "Invalid hex string: 0x1"),
        (number(1), "bytes32", "Bytes must be a hex string"),
        (text("0xzz"), "bytes32", "Invalid hex string: 0xzz"),
        (text("[]"), "uint256[]", "Array parameter must be an array"),
        (
            JsonValue::Array(vec![number(1), JsonValue::Bool(true)]),
            "uint256[]",
            "Uint must be a number or string",
        ),
        (number(1), "tuple", "Unsupported Solidity type: tuple"),
        (number(1), "uint256[2]", "Unsupported Solidity type: uint256[2]"),
    ];
    for (value, ty, said) in cases {
        assert_eq!(json_to_dyn_sol_value(&value, ty).unwrap_err(), said);
    }
    // What the address parser says is handed on.
    assert!(!json_to_dyn_sol_value(&text("0x12"), "address").unwrap_err().is_empty());
}

#[test]
fn signed_integers_stay_within_256_bits() {
    let most = format!("0x7{}", "f".repeat(63));
    let over = format!("0x8{}", "0".repeat(63));
    assert!(json_to_dyn_sol_value(&text(&most), "int256").is_ok());
    assert!(json_to_dyn_sol_value(&text(&over), "int256").is_err());
    assert!(json_to_dyn_sol_value(&text(&format!("-{}", over)), "int256").is_ok());
    assert!(json_to_dyn_sol_value(&text(&format!("-0x8{}1", "0".repeat(62))), "int256").is_err());
    match convert_value(&JsonValue::Number(JsonNumber::Negative(i64::MIN)), &SolType::Int(64)) {
        Ok(SolValue::Int(true, size, 64)) => assert_eq!(size.limbs, [1 << 63, 0, 0, 0]),
        _ => panic!("the least 64-bit integer"),
    }
}

#[test]
fn typed_values_are_written_as_untyped_ones() {
    assert_eq!(
        dyn_sol_value_to_json(&SolValue::Uint(U256 { limbs: [0, 1, 0, 0] }, 256)).unwrap().to_text(),
        "\"18446744073709551616\""
    );
    assert_eq!(
        dyn_sol_value_to_json(&SolValue::Int(true, U256::from_u64(5), 8)).unwrap().to_text(),
        "\"-5\""
    );
    let mut word = [0u8; 32];
    word[0] = 0xaa;
    word[1] = 0xbb;
    word[2] = 0xcc;
    assert_eq!(
        dyn_sol_value_to_json(&SolValue::FixedBytes(word, 2)).unwrap().to_text(),
        "\"0xaabb\""
    );
    assert_eq!(
        dyn_sol_value_to_json(&SolValue::FixedBytes(word, 0)).unwrap().to_text(),
        "\"0x\""
    );
    assert_eq!(
        dyn_sol_value_to_json(&SolValue::Tuple(vec![
            SolValue::Bool(false),
            SolValue::Text("x".to_string()),
            SolValue::Bytes(vec![1, 2]),
        ]))
        .unwrap()
        .to_text(),
        "[false,\"x\",\"0x0102\"]"
    );
    assert_eq!(
        dyn_sol_value_to_json(&SolValue::Unsupported("FixedArray([])".to_string())).unwrap_err(),
        "Unsupported DynSolValue type: FixedArray([])"
    );
    assert_eq!(
        dyn_sol_value_to_json(&SolValue::Array(vec![
            SolValue::Bool(true),
            SolValue::Unsupported("Function(..)".to_string()),
        ]))
        .unwrap_err(),
        "Unsupported DynSolValue type: Function(..)"
    );
}

#[test]
fn one_output_is_unwrapped_and_several_are_an_array() {
    assert_eq!(
        dyn_sol_values_to_json(&vec![SolValue::Bool(true)]).unwrap().to_text(),
        "true"
    );
    assert_eq!(
        dyn_sol_values_to_json(&vec![SolValue::Bool(true), SolValue::Bool(false)])
            .unwrap()
            .to_text(),
        "[true,false]"
    );
    assert_eq!(dyn_sol_values_to_json(&vec![]).unwrap().to_text(), "[]");
    assert_eq!(
        dyn_sol_values_to_json(&vec![SolValue::Array(vec![SolValue::Bool(true)])])
            .unwrap()
            .to_text(),
        "[true]"
    );
}

#[test]
fn a_call_is_encoded_as_selector_and_arguments() {
    let data = encode_function_call(
        &balance_of(),
        &JsonValue::Array(vec![text("0xAAAAaaaaAAAAaaaaAAAAaaaaAAAAaaaaAAAAaaaa")]),
    )
    .unwrap();
    assert_eq!(
        to_prefixed_hex(&data),
        "0x70a08231000000000000000000000000aaaaaaaaaaaaaaaaaaaaaaaaaaaaaaaaaaaaaaaa"
    );

    let data = encode_function_call(
        &transfer(),
        &JsonValue::Array(vec![text("0x1111111111111111111111111111111111111111"), number(1000)]),
    )
    .unwrap();
    assert_eq!(
        to_prefixed_hex(&data),
        "0xa9059cbb000000000000000000000000111111111111111111111111111111111111111100000000000000000000000000000000000000000000000000000000000003e8"
    );
}

#[test]
fn named_parameters_are_taken_in_the_order_of_the_inputs() {
    let by_name = encode_function_call(
        &transfer(),
        &JsonValue::Object(vec![
            ("amount".to_string(), text("1000")),
            ("to".to_string(), text("0x1111111111111111111111111111111111111111")),
            ("extra".to_string(), JsonValue::Null),
        ]),
    )
    .unwrap();
    let by_position = encode_function_call(
        &transfer(),
        &JsonValue::Array(vec![text("0x1111111111111111111111111111111111111111"), number(1000)]),
    )
    .unwrap();
    assert_eq!(by_name, by_position);
}

#[test]
fn integers_and_bytes_of_every_size_are_encoded() {
    let f = FunctionSignature {
        name: "f".to_string(),
        inputs: vec![
            Parameter::new("a", "uint8"),
            Parameter::new("b", "int16"),
            Parameter::new("c", "bytes4"),
            Parameter::new("d", "bytes"),
            Parameter::new("e", "string"),
            Parameter::new("g", "bool[]"),
        ],
        outputs: vec![],
    };
    let data = encode_function_call(
        &f,
        &JsonValue::Array(vec![
            number(255),
            text("-2"),
            text("0xdeadbeef"),
            text("0x0102"),
            text("hi"),
            JsonValue::Array(vec![JsonValue::Bool(true)]),
        ]),
    )
    .unwrap();
    let hex = to_prefixed_hex(&data);
    // Selector, then six head words.
    assert_eq!(&hex[10..74], "00000000000000000000000000000000000000000000000000000000000000ff");
    assert_eq!(&hex[74..138], "fffffffffffffffffffffffffffffffffffffffffffffffffffffffffffffffe");
    assert_eq!(&hex[138..202], "deadbeef00000000000000000000000000000000000000000000000000000000");
    assert_eq!(data.len(), 4 + 6 * 32 + 2 * 32 + 2 * 32 + 2 * 32);
}

#[test]
fn a_wrong_count_fails_before_anything_is_converted() {
    let e = encode_function_call(&transfer(), &JsonValue::Array(vec![text("not an address")]))
        .unwrap_err();
    assert_eq!(e.kind(), ErrorKind::ParameterFormat);
    assert_eq!(
        e.message(),
        "Parameter count mismatch for function 'transfer': expected 2 parameters, got 1.\nExpected parameters: [address to, uint256 amount]"
    );
    let e = encode_function_call(
        &balance_of(),
        &JsonValue::Array(vec![JsonValue::Null, JsonValue::Null, JsonValue::Null]),
    )
    .unwrap_err();
    assert_eq!(
        e.message(),
        "Parameter count mismatch for function 'balanceOf': expected 1 parameters, got 3.\nExpected parameters: [address owner]"
    );
    let e = convert_parameters(&transfer(), &JsonValue::Array(vec![])).unwrap_err();
    assert_eq!(e.kind(), ErrorKind::ParameterFormat);
}

#[test]
fn a_missing_field_is_named() {
    let e = encode_function_call(
        &transfer(),
        &JsonValue::Object(vec![(
            "to".to_string(),
            text("0x1111111111111111111111111111111111111111"),
        )]),
    )
    .unwrap_err();
    assert_eq!(e.kind(), ErrorKind::ParameterFormat);
    assert_eq!(
        e.message(),
        "Missing required parameter 'amount' of type 'uint256' for function 'transfer'.\nExpected parameters: {to: address, amount: uint256}"
    );
    // The missing field is named whatever the other fields hold.
    let e = encode_function_call(
        &transfer(),
        &JsonValue::Object(vec![("to".to_string(), number(5))]),
    )
    .unwrap_err();
    assert_eq!(e.kind(), ErrorKind::ParameterFormat);
    assert_eq!(
        e.message(),
        "Missing required parameter 'amount' of type 'uint256' for function 'transfer'.\nExpected parameters: {to: address, amount: uint256}"
    );
    // Of several missing fields the first declared one is named.
    let e = encode_function_call(
        &transfer(),
        &JsonValue::Object(vec![("extra".to_string(), JsonValue::Null)]),
    )
    .unwrap_err();
    assert_eq!(
        e.message(),
        "Missing required parameter 'to' of type 'address' for function 'transfer'.\nExpected parameters: {to: address, amount: uint256}"
    );
    // With every field there, the first one that does not convert is named.
    let e = encode_function_call(
        &transfer(),
        &JsonValue::Object(vec![
            ("amount".to_string(), JsonValue::Bool(true)),
            ("to".to_string(), number(5)),
        ]),
    )
    .unwrap_err();
    assert_eq!(
        e.message(),
        "Invalid parameter 'to' of type 'address': Address must be a string"
    );
}

#[test]
fn an_integer_is_held_to_the_bits_of_its_type() {
    let ok: Vec<(JsonValue, &str)> = vec![
        (number(255), "uint8"),
        (text("0xff"), "uint8"),
        (number(0), "uint8"),
        (text("65535"), "uint16"),
        (number(u64::MAX), "uint64"),
        (text(&format!("0x{}", "f".repeat(64))), "uint256"),
        (number(127), "int8"),
        (JsonValue::Number(JsonNumber::Negative(-128)), "int8"),
        (text("-128"), "int8"),
        (text("-32768"), "int16"),
        (JsonValue::Number(JsonNumber::Negative(i64::MIN)), "int64"),
        (number(i64::MAX as u64), "int64"),
        (text(&format!("-0x8{}", "0".repeat(63))), "int256"),
    ];
    for (value, ty) in ok {
        assert!(json_to_dyn_sol_value(&value, ty).is_ok());
    }
    let out: Vec<(JsonValue, &str, &str)> = vec![
        (number(256), "uint8", "Value out of range for uint8"),
        (number(300), "uint8", "Value out of range for uint8"),
        (text("0x100"), "uint8", "Value out of range for uint8"),
        (text("65536"), "uint16", "Value out of range for uint16"),
        (text("18446744073709551616"), "uint64", "Value out of range for uint64"),
        (text(&format!("0x1{}", "0".repeat(62))), "uint248", "Value out of range for uint248"),
        (number(128), "int8", "Value out of range for int8"),
        (JsonValue::Number(JsonNumber::Negative(-129)), "int8", "Value out of range for int8"),
        (text("-129"), "int8", "Value out of range for int8"),
        (text("32768"), "int16", "Value out of range for int16"),
        (number(1 << 63), "int64", "Value out of range for int64"),
        (text("-9223372036854775809"), "int64", "Value out of range for int64"),
    ];
    for (value, ty, said) in out {
        assert_eq!(json_to_dyn_sol_value(&value, ty).unwrap_err(), said);
    }
    let e = encode_function_call(
        &FunctionSignature {
            name: "f".to_string(),
            inputs: vec![Parameter::new("small", "uint8")],
            outputs: vec![],
        },
        &JsonValue::Array(vec![number(300)]),
    )
    .unwrap_err();
    assert_eq!(
        e.message(),
        "Invalid parameter #1 ('small' of type 'uint8'): Value out of range for uint8"
    );
}

#[test]
fn a_parameter_that_does_not_convert_is_named() {
    let e = encode_function_call(
        &transfer(),
        &JsonValue::Array(vec![
            text("0x1111111111111111111111111111111111111111"),
            JsonValue::Bool(true),
        ]),
    )
    .unwrap_err();
    assert_eq!(
        e.message(),
        "Invalid parameter #2 ('amount' of type 'uint256'): Uint must be a number or string"
    );
}

#[test]
fn parameters_of_another_shape_are_refused() {
    let e = encode_function_call(&transfer(), &text("x\"y")).unwrap_err();
    assert_eq!(e.kind(), ErrorKind::ParameterFormat);
    assert_eq!(
        e.message(),
        "Invalid parameter format for function 'transfer'. Parameters must be provided as either:\n1. Array: [value1, value2, ...]\n2. Object: {to: address, amount: uint256}\nProvided: \"x\\\"y\""
    );
    let e = encode_function_call(&transfer(), &JsonValue::Null).unwrap_err();
    assert!(e.message().ends_with("Provided: null"));
}

#[test]
fn a_type_that_the_encoder_does_not_know_fails_the_call() {
    let odd = FunctionSignature {
        name: "f".to_string(),
        inputs: vec![Parameter { name: "x".to_string(), ty: "uint256".to_string(), components: vec![] }],
        outputs: vec![],
    };
    // No parameters and no inputs encode to the selector alone.
    let none = FunctionSignature { name: "f".to_string(), inputs: vec![], outputs: vec![] };
    assert_eq!(encode_function_call(&none, &JsonValue::Array(vec![])).unwrap().len(), 4);
    assert_eq!(encode_function_call(&none, &JsonValue::Object(vec![])).unwrap().len(), 4);
    assert_eq!(
        encode_function_call(&odd, &JsonValue::Array(vec![number(1)])).unwrap().len(),
        36
    );
}

#[test]
fn a_response_is_decoded_against_the_outputs() {
    let mut one = vec![0u8; 32];
    one[30] = 0x03;
    one[31] = 0xe8;
    assert_eq!(decode_function_result(&balance_of(), &one).unwrap().to_text(), "\"1000\"");

    let mut yes = vec![0u8; 32];
    yes[31] = 1;
    assert_eq!(decode_function_result(&transfer(), &yes).unwrap().to_text(), "true");

    let two = FunctionSignature {
        name: "pair".to_string(),
        inputs: vec![],
        outputs: vec![Parameter::new("a", "uint256"), Parameter::new("b", "bool")],
    };
    let mut both = one.clone();
    both.extend_from_slice(&yes);
    assert_eq!(decode_function_result(&two, &both).unwrap().to_text(), "[\"1000\",true]");
}

#[test]
fn an_empty_response_is_no_value() {
    assert!(matches!(decode_function_result(&balance_of(), &[]), Ok(JsonValue::Null)));
}

#[test]
fn a_response_that_cannot_be_read_is_an_error() {
    let e = decode_function_result(&balance_of(), &[1, 2, 3]).unwrap_err();
    assert_eq!(e.kind(), ErrorKind::Decoding);
    assert!(e.message().starts_with("Failed to decode output: "));
}

#[test]
fn a_tuple_output_is_decoded_by_its_components() {
    let f = FunctionSignature {
        name: "get".to_string(),
        inputs: vec![],
        outputs: vec![Parameter {
            name: "".to_string(),
            ty: "tuple".to_string(),
            components: vec![Parameter::new("a", "uint8"), Parameter::new("b", "address")],
        }],
    };
    let mut data = vec![0u8; 64];
    data[31] = 9;
    data[63] = 0xff;
    assert_eq!(
        decode_function_result(&f, &data).unwrap().to_text(),
        "[\"9\",\"0x00000000000000000000000000000000000000ff\"]"
    );
}

#[test]
fn negative_and_fixed_outputs_are_decoded() {
    let f = FunctionSignature {
        name: "get".to_string(),
        inputs: vec![],
        outputs: vec![Parameter::new("a", "int256"), Parameter::new("b", "bytes2")],
    };
    let mut data = vec![0xffu8; 32];
    data[31] = 0xfe;
    let mut second = vec![0u8; 32];
    second[0] = 0xab;
    second[1] = 0xcd;
    data.extend_from_slice(&second);
    assert_eq!(decode_function_result(&f, &data).unwrap().to_text(), "[\"-2\",\"0xabcd\"]");
}

#[test]
fn what_is_encoded_is_decoded_to_its_documented_form() {
    let echo = FunctionSignature {
        name: "echo".to_string(),
        inputs: vec![
            Parameter::new("a", "address"),
            Parameter::new("b", "uint256"),
            Parameter::new("c", "int64"),
            Parameter::new("d", "bytes"),
            Parameter::new("e", "bytes3"),
            Parameter::new("f", "string[]"),
        ],
        outputs: vec![
            Parameter::new("a", "address"),
            Parameter::new("b", "uint256"),
            Parameter::new("c", "int64"),
            Parameter::new("d", "bytes"),
            Parameter::new("e", "bytes3"),
            Parameter::new("f", "string[]"),
        ],
    };
    let data = encode_function_call(
        &echo,
        &JsonValue::Array(vec![
            text("0xABCDEFabcdefABCDEFabcdefABCDEFabcdefABCD"),
            text("0xff"),
            JsonValue::Number(JsonNumber::Negative(-3)),
            text("0xCAFE"),
            text("0x01"),
            JsonValue::Array(vec![text("x"), text("")]),
        ]),
    )
    .unwrap();
    assert_eq!(
        decode_function_result(&echo, &data[4..]).unwrap().to_text(),
        "[\"0xabcdefabcdefabcdefabcdefabcdefabcdefabcd\",\"255\",\"-3\",\"0xcafe\",\"0x010000\",[\"x\",\"\"]]"
    );
}
