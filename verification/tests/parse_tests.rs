use ydcv::json::Json;
use ydcv::ydresponse::{ErrorCode, ParseError, YdBasic, YdResponse, YdWeb};

fn parse(s: &str) -> Result<YdResponse, ParseError> {
    YdResponse::new_raw(s.to_string())
}

#[test]
fn parses_full_response() {
    let r = parse(
        "{\"errorCode\":0,\"query\":\"good\",\"translation\":[\"好\"],\
         \"basic\":{\"explains\":[\"adj. 好的\"],\"phonetic\":\"gʊd\"},\
         \"web\":[{\"key\":\"good\",\"value\":[\"好的\",\"棒\"]}]}",
    )
    .unwrap();
    let expected = YdResponse {
        query: "good".to_string(),
        error_code: ErrorCode::Num(0),
        translation: Some(vec!["好".to_string()]),
        basic: Some(YdBasic {
            explains: vec!["adj. 好的".to_string()],
            phonetic: Some("gʊd".to_string()),
            us_phonetic: None,
            uk_phonetic: None,
        }),
        web: Some(vec![YdWeb {
            key: "good".to_string(),
            value: vec!["好的".to_string(), "棒".to_string()],
        }]),
    };
    assert_eq!(r, expected);
}

#[test]
fn parses_string_error_code() {
    let r = parse("{\"errorCode\":\"0\",\"query\":\"x\",\"translation\":[\"y\"]}").unwrap();
    assert_eq!(r.error_code, ErrorCode::Str("0".to_string()));
    assert!(r.error_code.is_success());
}

#[test]
fn parses_numeric_error_code() {
    let r = parse("{\"errorCode\":40,\"query\":\"x\"}").unwrap();
    assert_eq!(r.error_code, ErrorCode::Num(40));
    assert!(!r.error_code.is_success());
}

#[test]
fn fractional_error_code_is_never_success() {
    let r = parse("{\"errorCode\":0.0,\"query\":\"x\"}").unwrap();
    assert_eq!(r.error_code, ErrorCode::Other);
    assert!(!r.error_code.is_success());
}

#[test]
fn huge_error_code_is_never_success() {
    let r = parse("{\"errorCode\":18446744073709551615,\"query\":\"x\"}").unwrap();
    assert_eq!(r.error_code, ErrorCode::Other);
}

#[test]
fn error_code_success_values() {
    assert!(ErrorCode::Str("0".to_string()).is_success());
    assert!(ErrorCode::Num(0).is_success());
    assert!(!ErrorCode::Str("1".to_string()).is_success());
    assert!(!ErrorCode::Str("00".to_string()).is_success());
    assert!(!ErrorCode::Num(1).is_success());
    assert!(!ErrorCode::Other.is_success());
}

#[test]
fn null_optional_fields_parse_as_absent() {
    let r = parse(
        "{\"errorCode\":\"0\",\"query\":\"xyzzy\",\"translation\":null,\
         \"basic\":null,\"web\":null}",
    )
    .unwrap();
    assert_eq!(r.translation, None);
    assert_eq!(r.basic, None);
    assert_eq!(r.web, None);
}

#[test]
fn missing_optional_fields_parse_as_absent() {
    let r = parse("{\"errorCode\":0,\"query\":\"q\"}").unwrap();
    assert_eq!(r.translation, None);
    assert_eq!(r.basic, None);
    assert_eq!(r.web, None);
}

#[test]
fn camel_case_phonetic_fields_are_mapped() {
    let r = parse(
        "{\"errorCode\":0,\"query\":\"q\",\"basic\":{\"explains\":[],\
         \"usPhonetic\":\"us\",\"ukPhonetic\":\"uk\"}}",
    )
    .unwrap();
    let b = r.basic.unwrap();
    assert_eq!(b.us_phonetic, Some("us".to_string()));
    assert_eq!(b.uk_phonetic, Some("uk".to_string()));
    assert_eq!(b.phonetic, None);
    assert_eq!(b.explains, Vec::<String>::new());
}

#[test]
fn invalid_json_is_a_syntax_error() {
    assert_eq!(parse("not json at all"), Err(ParseError::Syntax));
    assert_eq!(parse(""), Err(ParseError::Syntax));
    assert_eq!(parse("{\"query\":"), Err(ParseError::Syntax));
}

#[test]
fn non_object_top_level_is_rejected() {
    assert_eq!(parse("[1,2,3]"), Err(ParseError::NotObject));
    assert_eq!(parse("\"hello\""), Err(ParseError::NotObject));
}

#[test]
fn missing_or_bad_query_is_rejected() {
    assert_eq!(parse("{\"errorCode\":0}"), Err(ParseError::BadQuery));
    assert_eq!(parse("{\"errorCode\":0,\"query\":5}"), Err(ParseError::BadQuery));
}

#[test]
fn missing_error_code_is_rejected() {
    assert_eq!(parse("{\"query\":\"x\"}"), Err(ParseError::MissingErrorCode));
}

#[test]
fn bad_translation_is_rejected() {
    assert_eq!(
        parse("{\"errorCode\":0,\"query\":\"x\",\"translation\":\"abc\"}"),
        Err(ParseError::BadTranslation)
    );
    assert_eq!(
        parse("{\"errorCode\":0,\"query\":\"x\",\"translation\":[\"a\",1]}"),
        Err(ParseError::BadTranslation)
    );
}

#[test]
fn bad_basic_is_rejected() {
    assert_eq!(
        parse("{\"errorCode\":0,\"query\":\"x\",\"basic\":5}"),
        Err(ParseError::BadBasic)
    );
    assert_eq!(
        parse("{\"errorCode\":0,\"query\":\"x\",\"basic\":{}}"),
        Err(ParseError::BadBasic)
    );
    assert_eq!(
        parse("{\"errorCode\":0,\"query\":\"x\",\"basic\":{\"explains\":[\"e\"],\"phonetic\":7}}"),
        Err(ParseError::BadBasic)
    );
}

#[test]
fn bad_web_is_rejected() {
    assert_eq!(parse("{\"errorCode\":0,\"query\":\"x\",\"web\":7}"), Err(ParseError::BadWeb));
    assert_eq!(
        parse("{\"errorCode\":0,\"query\":\"x\",\"web\":[{\"key\":\"k\"}]}"),
        Err(ParseError::BadWeb)
    );
    assert_eq!(
        parse("{\"errorCode\":0,\"query\":\"x\",\"web\":[{\"key\":1,\"value\":[]}]}"),
        Err(ParseError::BadWeb)
    );
}

#[test]
fn from_json_reads_a_plain_tree() {
    let tree = Json::Obj(vec![
        ("query".to_string(), Json::Str("hi".to_string())),
        ("errorCode".to_string(), Json::Int(0)),
        (
            "translation".to_string(),
            Json::Arr(vec![Json::Str("你好".to_string())]),
        ),
    ]);
    let r = YdResponse::from_json(&tree).unwrap();
    assert_eq!(r.query, "hi".to_string());
    assert_eq!(r.error_code, ErrorCode::Num(0));
    assert_eq!(r.translation, Some(vec!["你好".to_string()]));
}

#[test]
fn round_trip_preserves_the_model() {
    let source = "{\"errorCode\":\"0\",\"query\":\"good\",\"translation\":[\"好\",\"良い\"],\
         \"basic\":{\"explains\":[\"adj. 好的\",\"n. 好处\"],\"phonetic\":\"gʊd\",\
         \"usPhonetic\":\"gʊd\",\"ukPhonetic\":\"gud\"},\
         \"web\":[{\"key\":\"good\",\"value\":[\"好的\",\"棒\"]},{\"key\":\"good day\",\"value\":[]}]}";
    let first = parse(source).unwrap();
    let text = first.to_json_string();
    let second = parse(&text).unwrap();
    assert_eq!(first, second);
}

#[test]
fn round_trip_with_absent_fields() {
    let first = parse("{\"errorCode\":20,\"query\":\"x\"}").unwrap();
    let text = first.to_json_string();
    let second = parse(&text).unwrap();
    assert_eq!(first, second);
}

#[test]
fn serialized_text_is_valid_json() {
    let r = parse("{\"errorCode\":0,\"query\":\"q\",\"translation\":[\"t\"]}").unwrap();
    let text = r.to_json_string();
    let reparsed: serde_json::Value = serde_json::from_str(&text).unwrap();
    assert_eq!(reparsed["query"], serde_json::Value::String("q".to_string()));
    assert_eq!(reparsed["errorCode"], serde_json::Value::from(0i64));
}
