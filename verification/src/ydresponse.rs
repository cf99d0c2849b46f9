//! The response model of a dictionary lookup, parsed from JSON text.

use crate::json::{
    json_of, json_view, lemma_fields_view, lemma_items_view, lemma_obj_get_at, obj_get,
    parse_json, spec_fields_view, spec_items_view, spec_obj_get, text_of, to_json_text, Json,
    JsonView,
};
use vstd::prelude::*;

verus! {

broadcast use vstd::group_vstd_default;

/// The success-or-failure code of a response. The wire schema allows either
/// the string `"0"` or the number `0` as the success marker, so the code is
/// kept as a tagged union rather than coerced.
#[derive(Debug, PartialEq)]
pub enum ErrorCode {
    /// The code came as a JSON string.
    Str(String),
    /// The code came as a JSON number that fits a signed 64-bit integer.
    Num(i64),
    /// The code came as any other JSON value; never a success marker.
    Other,
}

/// The mathematical shape of an [`ErrorCode`].
pub ghost enum ErrorCodeView {
    Str(Seq<char>),
    Num(int),
    Other,
}

impl View for ErrorCode {
    type V = ErrorCodeView;

    open spec fn view(&self) -> ErrorCodeView {
        match self {
            ErrorCode::Str(s) => ErrorCodeView::Str(s@),
            ErrorCode::Num(n) => ErrorCodeView::Num(*n as int),
            ErrorCode::Other => ErrorCodeView::Other,
        }
    }
}

impl ErrorCodeView {
    /// Success is exactly the string `"0"` or the number `0`.
    pub open spec fn is_success(self) -> bool {
        self == ErrorCodeView::Str("0"@) || self == ErrorCodeView::Num(0)
    }
}

impl ErrorCode {
    /// Whether this code marks a successful lookup.
    pub fn is_success(&self) -> (r: bool)
        ensures
            r == self@.is_success(),
    {
        match self {
            ErrorCode::Str(s) => {
                let zero: String = "0".to_owned();
                *s == zero
            },
            ErrorCode::Num(n) => *n == 0i64,
            ErrorCode::Other => false,
        }
    }
}

/// Detailed dictionary entry of a response.
#[derive(Debug, PartialEq)]
pub struct YdBasic {
    /// Explanation strings, possibly empty.
    pub explains: Vec<String>,
    /// Single pronunciation, used when no region-specific one is available.
    pub phonetic: Option<String>,
    /// US pronunciation.
    pub us_phonetic: Option<String>,
    /// UK pronunciation.
    pub uk_phonetic: Option<String>,
}

/// The mathematical shape of a [`YdBasic`].
#[verifier::ext_equal]
pub ghost struct YdBasicView {
    pub explains: Seq<Seq<char>>,
    pub phonetic: Option<Seq<char>>,
    pub us_phonetic: Option<Seq<char>>,
    pub uk_phonetic: Option<Seq<char>>,
}

impl View for YdBasic {
    type V = YdBasicView;

    open spec fn view(&self) -> YdBasicView {
        YdBasicView {
            explains: self.explains.deep_view(),
            phonetic: self.phonetic.deep_view(),
            us_phonetic: self.us_phonetic.deep_view(),
            uk_phonetic: self.uk_phonetic.deep_view(),
        }
    }
}

impl DeepView for YdBasic {
    type V = YdBasicView;

    open spec fn deep_view(&self) -> YdBasicView {
        self.view()
    }
}

/// One web cross-reference entry of a response.
#[derive(Debug, PartialEq)]
pub struct YdWeb {
    /// The referenced term.
    pub key: String,
    /// Associated phrases, possibly empty.
    pub value: Vec<String>,
}

/// The mathematical shape of a [`YdWeb`].
#[verifier::ext_equal]
pub ghost struct YdWebView {
    pub key: Seq<char>,
    pub value: Seq<Seq<char>>,
}

impl View for YdWeb {
    type V = YdWebView;

    open spec fn view(&self) -> YdWebView {
        YdWebView { key: self.key@, value: self.value.deep_view() }
    }
}

impl DeepView for YdWeb {
    type V = YdWebView;

    open spec fn deep_view(&self) -> YdWebView {
        self.view()
    }
}

/// A full lookup response.
#[derive(Debug, PartialEq)]
pub struct YdResponse {
    /// The looked-up term; always present on the wire.
    pub query: String,
    /// Success indicator; always present on the wire.
    pub error_code: ErrorCode,
    /// Short translated phrases, in order.
    pub translation: Option<Vec<String>>,
    /// Detailed entry.
    pub basic: Option<YdBasic>,
    /// Web cross-reference entries, in order.
    pub web: Option<Vec<YdWeb>>,
}

/// The mathematical shape of a [`YdResponse`].
#[verifier::ext_equal]
pub ghost struct YdResponseView {
    pub query: Seq<char>,
    pub error_code: ErrorCodeView,
    pub translation: Option<Seq<Seq<char>>>,
    pub basic: Option<YdBasicView>,
    pub web: Option<Seq<YdWebView>>,
}

impl View for YdResponse {
    type V = YdResponseView;

    open spec fn view(&self) -> YdResponseView {
        YdResponseView {
            query: self.query@,
            error_code: self.error_code@,
            translation: self.translation.deep_view(),
            basic: self.basic.deep_view(),
            web: self.web.deep_view(),
        }
    }
}

/// Why parsing a response failed.
#[derive(Debug, Clone, Copy, PartialEq, Eq, Structural)]
pub enum ParseError {
    /// The text is not valid JSON.
    Syntax,
    /// The top-level JSON value is not an object.
    NotObject,
    /// The field `query` is missing or not a string.
    BadQuery,
    /// The field `errorCode` is missing.
    MissingErrorCode,
    /// The field `translation` is present but not an array of strings.
    BadTranslation,
    /// The field `basic` is present but not an object of the expected shape.
    BadBasic,
    /// The field `web` is present but not an array of web references.
    BadWeb,
}

/// The error code a JSON value stands for: a string stays a string, an
/// integer stays an integer, and anything else is an opaque non-success.
pub open spec fn spec_error_code_of(j: JsonView) -> ErrorCodeView {
    match j {
        JsonView::Str(s) => ErrorCodeView::Str(s),
        JsonView::Int(n) => ErrorCodeView::Num(n),
        _ => ErrorCodeView::Other,
    }
}

/// Whether every item of a JSON array is a string.
pub open spec fn spec_all_strings(items: Seq<JsonView>) -> bool {
    forall|i: int| 0 <= i < items.len() ==> items[i] is Str
}

/// The string carried by a JSON string value.
pub open spec fn spec_str_of(j: JsonView) -> Seq<char> {
    match j {
        JsonView::Str(s) => s,
        _ => Seq::empty(),
    }
}

/// The strings of an all-string JSON array, in order.
pub open spec fn spec_string_values(items: Seq<JsonView>) -> Seq<Seq<char>> {
    Seq::new(items.len(), |i: int| spec_str_of(items[i]))
}

/// The value of the optional field `key`: absent and `null` both mean "not
/// present".
pub open spec fn spec_opt_field(fields: Seq<(Seq<char>, JsonView)>, key: Seq<char>) -> Option<
    JsonView,
> {
    match spec_obj_get(fields, key) {
        None => None,
        Some(j) => if j is Null {
            None
        } else {
            Some(j)
        },
    }
}

/// The `translation` field: absent or null parses to "not present"; present,
/// it must be an array of strings.
pub open spec fn spec_translation_of(fields: Seq<(Seq<char>, JsonView)>) -> Result<
    Option<Seq<Seq<char>>>,
    ParseError,
> {
    match spec_opt_field(fields, "translation"@) {
        None => Ok(None),
        Some(j) => match j {
            JsonView::Arr(items) => if spec_all_strings(items) {
                Ok(Some(spec_string_values(items)))
            } else {
                Err(ParseError::BadTranslation)
            },
            _ => Err(ParseError::BadTranslation),
        },
    }
}

/// An optional pronunciation field of the detailed entry: absent or null
/// parses to "not present"; present, it must be a string.
pub open spec fn spec_opt_str_field(fields: Seq<(Seq<char>, JsonView)>, key: Seq<char>) -> Result<
    Option<Seq<char>>,
    ParseError,
> {
    match spec_opt_field(fields, key) {
        None => Ok(None),
        Some(JsonView::Str(s)) => Ok(Some(s)),
        Some(_) => Err(ParseError::BadBasic),
    }
}

/// The `basic` field: absent or null parses to "not present"; present, it
/// must be an object with a string array `explains` and optional string
/// pronunciations.
pub open spec fn spec_basic_of(fields: Seq<(Seq<char>, JsonView)>) -> Result<
    Option<YdBasicView>,
    ParseError,
> {
    match spec_opt_field(fields, "basic"@) {
        None => Ok(None),
        Some(JsonView::Obj(bf)) => match spec_obj_get(bf, "explains"@) {
            Some(JsonView::Arr(items)) => if spec_all_strings(items) {
                match (
                    spec_opt_str_field(bf, "phonetic"@),
                    spec_opt_str_field(bf, "usPhonetic"@),
                    spec_opt_str_field(bf, "ukPhonetic"@),
                ) {
                    (Ok(ph), Ok(us), Ok(uk)) => Ok(
                        Some(
                            YdBasicView {
                                explains: spec_string_values(items),
                                phonetic: ph,
                                us_phonetic: us,
                                uk_phonetic: uk,
                            },
                        ),
                    ),
                    _ => Err(ParseError::BadBasic),
                }
            } else {
                Err(ParseError::BadBasic)
            },
            _ => Err(ParseError::BadBasic),
        },
        Some(_) => Err(ParseError::BadBasic),
    }
}

/// One web cross-reference entry: an object with a string `key` and a string
/// array `value`, both required.
pub open spec fn spec_web_entry_of(j: JsonView) -> Result<YdWebView, ParseError> {
    match j {
        JsonView::Obj(wf) => match spec_obj_get(wf, "key"@) {
            Some(JsonView::Str(k)) => match spec_obj_get(wf, "value"@) {
                Some(JsonView::Arr(items)) => if spec_all_strings(items) {
                    Ok(YdWebView { key: k, value: spec_string_values(items) })
                } else {
                    Err(ParseError::BadWeb)
                },
                _ => Err(ParseError::BadWeb),
            },
            _ => Err(ParseError::BadWeb),
        },
        _ => Err(ParseError::BadWeb),
    }
}

/// The web entry a JSON value parses to, where it parses at all.
pub open spec fn spec_web_entry_val(j: JsonView) -> YdWebView {
    match spec_web_entry_of(j) {
        Ok(w) => w,
        Err(_) => YdWebView { key: Seq::empty(), value: Seq::empty() },
    }
}

/// The `web` field: absent or null parses to "not present"; present, it must
/// be an array of web cross-reference entries.
pub open spec fn spec_web_of(fields: Seq<(Seq<char>, JsonView)>) -> Result<
    Option<Seq<YdWebView>>,
    ParseError,
> {
    match spec_opt_field(fields, "web"@) {
        None => Ok(None),
        Some(j) => match j {
            JsonView::Arr(items) => if forall|i: int|
                0 <= i < items.len() ==> spec_web_entry_of(items[i]) is Ok {
                Ok(Some(Seq::new(items.len(), |i: int| spec_web_entry_val(items[i]))))
            } else {
                Err(ParseError::BadWeb)
            },
            _ => Err(ParseError::BadWeb),
        },
    }
}

/// The response a JSON tree parses to: a top-level object with a required
/// string `query`, a required `errorCode` of any shape, and the three
/// optional fields.
pub open spec fn spec_response_of(j: JsonView) -> Result<YdResponseView, ParseError> {
    match j {
        JsonView::Obj(fields) => match spec_obj_get(fields, "query"@) {
            Some(JsonView::Str(q)) => match spec_obj_get(fields, "errorCode"@) {
                Some(ec) => match spec_translation_of(fields) {
                    Ok(t) => match spec_basic_of(fields) {
                        Ok(b) => match spec_web_of(fields) {
                            Ok(w) => Ok(
                                YdResponseView {
                                    query: q,
                                    error_code: spec_error_code_of(ec),
                                    translation: t,
                                    basic: b,
                                    web: w,
                                },
                            ),
                            Err(e) => Err(e),
                        },
                        Err(e) => Err(e),
                    },
                    Err(e) => Err(e),
                },
                None => Err(ParseError::MissingErrorCode),
            },
            _ => Err(ParseError::BadQuery),
        },
        _ => Err(ParseError::NotObject),
    }
}

/// What parsing raw text yields: a syntax failure where the text is not
/// valid JSON, and the schema's verdict on the parsed tree otherwise.
pub open spec fn spec_parse(s: Seq<char>) -> Result<YdResponseView, ParseError> {
    match json_of(s) {
        None => Err(ParseError::Syntax),
        Some(j) => spec_response_of(j),
    }
}

/// Finds the value of the optional field `key`, treating `null` as absent.
fn get_opt_field<'a>(fields: &'a Vec<(String, Json)>, key: &str) -> (r: Option<&'a Json>)
    ensures
        match r {
            Some(j) => spec_opt_field(spec_fields_view(fields@), key@) == Some(j@),
            None => spec_opt_field(spec_fields_view(fields@), key@) is None,
        },
{
    match obj_get(fields, key) {
        None => None,
        Some(Json::Null) => None,
        Some(j) => Some(j),
    }
}

/// Copies the strings out of an all-string JSON array; rejects any other
/// array.
fn parse_string_array(items: &Vec<Json>) -> (r: Option<Vec<String>>)
    ensures
        match r {
            Some(v) => spec_all_strings(spec_items_view(items@)) && v.deep_view()
                == spec_string_values(spec_items_view(items@)),
            None => !spec_all_strings(spec_items_view(items@)),
        },
{
    let ghost iv = spec_items_view(items@);
    let mut out: Vec<String> = Vec::new();
    let mut i: usize = 0;
    while i < items.len()
        invariant
            i <= items.len(),
            iv == spec_items_view(items@),
            out.deep_view().len() == i as int,
            forall|j: int| 0 <= j < i ==> iv[j] is Str,
            forall|j: int| 0 <= j < i ==> out.deep_view()[j] == spec_str_of(iv[j]),
        decreases items.len() - i,
    {
        proof {
            lemma_items_view(items@);
        }
        let item = &items[i];
        match item {
            Json::Str(s) => {
                let ghost pre = out.deep_view();
                out.push(s.clone());
                proof {
                    assert(iv[i as int] == item@);
                    assert(out.deep_view() =~= pre.push(s@));
                }
            },
            _ => {
                proof {
                    assert(iv[i as int] == item@);
                    assert(!(iv[i as int] is Str));
                }
                return None;
            },
        }
        i += 1;
    }
    proof {
        lemma_items_view(items@);
        assert(out.deep_view() =~= spec_string_values(iv));
    }
    Some(out)
}

/// Parses the optional string field `key` of the detailed entry.
fn parse_opt_str(fields: &Vec<(String, Json)>, key: &str) -> (r: Result<
    Option<String>,
    ParseError,
>)
    ensures
        match r {
            Ok(v) => spec_opt_str_field(spec_fields_view(fields@), key@) == Ok::<
                _,
                ParseError,
            >(v.deep_view()),
            Err(e) => spec_opt_str_field(spec_fields_view(fields@), key@) == Err::<
                Option<Seq<char>>,
                _,
            >(e),
        },
{
    match get_opt_field(fields, key) {
        None => Ok(None),
        Some(Json::Str(s)) => Ok(Some(s.clone())),
        Some(_) => Err(ParseError::BadBasic),
    }
}

/// Parses the `translation` field.
fn parse_translation(fields: &Vec<(String, Json)>) -> (r: Result<Option<Vec<String>>, ParseError>)
    ensures
        match r {
            Ok(v) => spec_translation_of(spec_fields_view(fields@)) == Ok::<_, ParseError>(
                v.deep_view(),
            ),
            Err(e) => spec_translation_of(spec_fields_view(fields@)) == Err::<
                Option<Seq<Seq<char>>>,
                _,
            >(e),
        },
{
    match get_opt_field(fields, "translation") {
        None => Ok(None),
        Some(Json::Arr(items)) => match parse_string_array(items) {
            Some(v) => Ok(Some(v)),
            None => Err(ParseError::BadTranslation),
        },
        Some(_) => Err(ParseError::BadTranslation),
    }
}

/// Parses the `basic` field.
fn parse_basic(fields: &Vec<(String, Json)>) -> (r: Result<Option<YdBasic>, ParseError>)
    ensures
        match r {
            Ok(v) => spec_basic_of(spec_fields_view(fields@)) == Ok::<_, ParseError>(v.deep_view()),
            Err(e) => spec_basic_of(spec_fields_view(fields@)) == Err::<Option<YdBasicView>, _>(e),
        },
{
    let bf = match get_opt_field(fields, "basic") {
        None => {
            return Ok(None);
        },
        Some(Json::Obj(bf)) => bf,
        Some(_) => {
            return Err(ParseError::BadBasic);
        },
    };
    let explains = match obj_get(bf, "explains") {
        Some(Json::Arr(items)) => match parse_string_array(items) {
            Some(v) => v,
            None => {
                return Err(ParseError::BadBasic);
            },
        },
        _ => {
            return Err(ParseError::BadBasic);
        },
    };
    let phonetic = match parse_opt_str(bf, "phonetic") {
        Ok(v) => v,
        Err(e) => {
            return Err(e);
        },
    };
    let us_phonetic = match parse_opt_str(bf, "usPhonetic") {
        Ok(v) => v,
        Err(e) => {
            return Err(e);
        },
    };
    let uk_phonetic = match parse_opt_str(bf, "ukPhonetic") {
        Ok(v) => v,
        Err(e) => {
            return Err(e);
        },
    };
    Ok(Some(YdBasic { explains, phonetic, us_phonetic, uk_phonetic }))
}

/// Parses one web cross-reference entry.
fn parse_web_entry(j: &Json) -> (r: Result<YdWeb, ParseError>)
    ensures
        match r {
            Ok(w) => spec_web_entry_of(j@) == Ok::<_, ParseError>(w@),
            Err(e) => spec_web_entry_of(j@) == Err::<YdWebView, _>(e),
        },
{
    let wf = match j {
        Json::Obj(wf) => wf,
        _ => {
            return Err(ParseError::BadWeb);
        },
    };
    let key = match obj_get(wf, "key") {
        Some(Json::Str(k)) => k.clone(),
        _ => {
            return Err(ParseError::BadWeb);
        },
    };
    let value = match obj_get(wf, "value") {
        Some(Json::Arr(items)) => match parse_string_array(items) {
            Some(v) => v,
            None => {
                return Err(ParseError::BadWeb);
            },
        },
        _ => {
            return Err(ParseError::BadWeb);
        },
    };
    Ok(YdWeb { key, value })
}

/// Parses the `web` field.
fn parse_web(fields: &Vec<(String, Json)>) -> (r: Result<Option<Vec<YdWeb>>, ParseError>)
    ensures
        match r {
            Ok(v) => spec_web_of(spec_fields_view(fields@)) == Ok::<_, ParseError>(v.deep_view()),
            Err(e) => spec_web_of(spec_fields_view(fields@)) == Err::<Option<Seq<YdWebView>>, _>(
                e,
            ),
        },
{
    let items = match get_opt_field(fields, "web") {
        None => {
            return Ok(None);
        },
        Some(Json::Arr(items)) => items,
        Some(_) => {
            return Err(ParseError::BadWeb);
        },
    };
    let ghost iv = spec_items_view(items@);
    let mut out: Vec<YdWeb> = Vec::new();
    let mut i: usize = 0;
    while i < items.len()
        invariant
            i <= items.len(),
            iv == spec_items_view(items@),
            spec_opt_field(spec_fields_view(fields@), "web"@) == Some(JsonView::Arr(iv)),
            out.deep_view().len() == i as int,
            forall|j: int| 0 <= j < i ==> spec_web_entry_of(iv[j]) is Ok,
            forall|j: int| 0 <= j < i ==> out.deep_view()[j] == spec_web_entry_val(iv[j]),
        decreases items.len() - i,
    {
        proof {
            lemma_items_view(items@);
        }
        let item = &items[i];
        match parse_web_entry(item) {
            Ok(w) => {
                let ghost wv = w@;
                let ghost pre = out.deep_view();
                out.push(w);
                proof {
                    assert(iv[i as int] == item@);
                    assert(out.deep_view() =~= pre.push(wv));
                }
            },
            Err(_) => {
                proof {
                    assert(iv[i as int] == item@);
                    assert(!(spec_web_entry_of(iv[i as int]) is Ok));
                }
                return Err(ParseError::BadWeb);
            },
        }
        i += 1;
    }
    proof {
        lemma_items_view(items@);
        assert(out.deep_view() =~= Seq::new(iv.len(), |i: int| spec_web_entry_val(iv[i])));
    }
    Ok(Some(out))
}

impl YdResponse {
    /// Parses a JSON tree into the response model, exactly as
    /// `spec_response_of` describes.
    pub fn from_json(j: &Json) -> (r: Result<YdResponse, ParseError>)
        ensures
            match r {
                Ok(resp) => spec_response_of(j@) == Ok::<_, ParseError>(resp@),
                Err(e) => spec_response_of(j@) == Err::<YdResponseView, _>(e),
            },
    {
        let fields = match j {
            Json::Obj(fields) => fields,
            _ => {
                return Err(ParseError::NotObject);
            },
        };
        let query = match obj_get(fields, "query") {
            Some(Json::Str(q)) => q.clone(),
            _ => {
                return Err(ParseError::BadQuery);
            },
        };
        let error_code = match obj_get(fields, "errorCode") {
            Some(Json::Str(s)) => ErrorCode::Str(s.clone()),
            Some(Json::Int(n)) => ErrorCode::Num(*n),
            Some(_) => ErrorCode::Other,
            None => {
                return Err(ParseError::MissingErrorCode);
            },
        };
        let translation = match parse_translation(fields) {
            Ok(v) => v,
            Err(e) => {
                return Err(e);
            },
        };
        let basic = match parse_basic(fields) {
            Ok(v) => v,
            Err(e) => {
                return Err(e);
            },
        };
        let web = match parse_web(fields) {
            Ok(v) => v,
            Err(e) => {
                return Err(e);
            },
        };
        Ok(YdResponse { query, error_code, translation, basic, web })
    }

    /// Parses the raw JSON text of a lookup response into the response
    /// model. Returns `Ok` exactly when the text is valid JSON whose shape
    /// matches the schema, as `spec_parse` describes.
    pub fn new_raw(result: String) -> (r: Result<YdResponse, ParseError>)
        ensures
            match r {
                Ok(resp) => spec_parse(result@) == Ok::<_, ParseError>(resp@),
                Err(e) => spec_parse(result@) == Err::<YdResponseView, _>(e),
            },
    {
        let j = match parse_json(result.as_str()) {
            Ok(j) => j,
            Err(_) => {
                return Err(ParseError::Syntax);
            },
        };
        Self::from_json(&j)
    }
}

/// The JSON string values of a string sequence, in order.
pub open spec fn spec_strs_json(t: Seq<Seq<char>>) -> Seq<JsonView> {
    Seq::new(t.len(), |i: int| JsonView::Str(t[i]))
}

/// An optional string serialized as a JSON value: `null` where absent.
pub open spec fn spec_json_of_opt_str(s: Option<Seq<char>>) -> JsonView {
    match s {
        None => JsonView::Null,
        Some(v) => JsonView::Str(v),
    }
}

/// An error code serialized back to the JSON shape it was read from; a code
/// whose original value was not kept becomes `null`.
pub open spec fn spec_json_of_error_code(e: ErrorCodeView) -> JsonView {
    match e {
        ErrorCodeView::Str(s) => JsonView::Str(s),
        ErrorCodeView::Num(n) => JsonView::Int(n),
        ErrorCodeView::Other => JsonView::Null,
    }
}

/// A detailed entry serialized as a JSON object.
pub open spec fn spec_json_of_basic(b: YdBasicView) -> JsonView {
    JsonView::Obj(
        seq![
            ("explains"@, JsonView::Arr(spec_strs_json(b.explains))),
            ("phonetic"@, spec_json_of_opt_str(b.phonetic)),
            ("usPhonetic"@, spec_json_of_opt_str(b.us_phonetic)),
            ("ukPhonetic"@, spec_json_of_opt_str(b.uk_phonetic)),
        ],
    )
}

/// A web cross-reference entry serialized as a JSON object.
pub open spec fn spec_json_of_web_entry(w: YdWebView) -> JsonView {
    JsonView::Obj(
        seq![("key"@, JsonView::Str(w.key)), ("value"@, JsonView::Arr(spec_strs_json(w.value)))],
    )
}

/// A whole response serialized as a JSON object, with the wire field names;
/// absent optional fields become `null`.
pub open spec fn spec_json_of_response(r: YdResponseView) -> JsonView {
    JsonView::Obj(
        seq![
            ("query"@, JsonView::Str(r.query)),
            ("errorCode"@, spec_json_of_error_code(r.error_code)),
            (
                "translation"@,
                match r.translation {
                    None => JsonView::Null,
                    Some(t) => JsonView::Arr(spec_strs_json(t)),
                },
            ),
            (
                "basic"@,
                match r.basic {
                    None => JsonView::Null,
                    Some(b) => spec_json_of_basic(b),
                },
            ),
            (
                "web"@,
                match r.web {
                    None => JsonView::Null,
                    Some(ws) => JsonView::Arr(
                        Seq::new(ws.len(), |i: int| spec_json_of_web_entry(ws[i])),
                    ),
                },
            ),
        ],
    )
}

/// Serializes a string vector as JSON string values.
fn strings_to_json(v: &Vec<String>) -> (r: Vec<Json>)
    ensures
        spec_items_view(r@) == spec_strs_json(v.deep_view()),
{
    let mut out: Vec<Json> = Vec::new();
    let mut i: usize = 0;
    while i < v.len()
        invariant
            i <= v.len(),
            out@.len() == i as int,
            forall|j: int| 0 <= j < i ==> json_view(out@[j]) == JsonView::Str(v.deep_view()[j]),
        decreases v.len() - i,
    {
        let s = &v[i];
        out.push(Json::Str(s.clone()));
        i += 1;
    }
    proof {
        lemma_items_view(out@);
        assert(spec_items_view(out@) =~= spec_strs_json(v.deep_view()));
    }
    out
}

/// Serializes an optional string, `null` where absent.
fn opt_str_to_json(s: &Option<String>) -> (r: Json)
    ensures
        r@ == spec_json_of_opt_str(s.deep_view()),
{
    match s {
        None => Json::Null,
        Some(v) => Json::Str(v.clone()),
    }
}

/// Serializes an error code back to its JSON shape.
fn error_code_to_json(e: &ErrorCode) -> (r: Json)
    ensures
        r@ == spec_json_of_error_code(e@),
{
    match e {
        ErrorCode::Str(s) => Json::Str(s.clone()),
        ErrorCode::Num(n) => Json::Int(*n),
        ErrorCode::Other => Json::Null,
    }
}

/// Serializes a detailed entry as a JSON object.
fn basic_to_json(b: &YdBasic) -> (r: Json)
    ensures
        r@ == spec_json_of_basic(b@),
{
    let mut f: Vec<(String, Json)> = Vec::new();
    f.push(("explains".to_owned(), Json::Arr(strings_to_json(&b.explains))));
    f.push(("phonetic".to_owned(), opt_str_to_json(&b.phonetic)));
    f.push(("usPhonetic".to_owned(), opt_str_to_json(&b.us_phonetic)));
    f.push(("ukPhonetic".to_owned(), opt_str_to_json(&b.uk_phonetic)));
    let ghost fv = f@;
    let r = Json::Obj(f);
    proof {
        lemma_fields_view(fv);
        assert(spec_fields_view(fv) =~= spec_json_of_basic(b@)->Obj_0);
    }
    r
}

/// Serializes one web cross-reference entry as a JSON object.
fn web_entry_to_json(w: &YdWeb) -> (r: Json)
    ensures
        r@ == spec_json_of_web_entry(w@),
{
    let mut f: Vec<(String, Json)> = Vec::new();
    f.push(("key".to_owned(), Json::Str(w.key.clone())));
    f.push(("value".to_owned(), Json::Arr(strings_to_json(&w.value))));
    let ghost fv = f@;
    let r = Json::Obj(f);
    proof {
        lemma_fields_view(fv);
        assert(spec_fields_view(fv) =~= spec_json_of_web_entry(w@)->Obj_0);
    }
    r
}

/// Serializes the web cross-reference entries as JSON objects.
fn web_to_json(ws: &Vec<YdWeb>) -> (r: Vec<Json>)
    ensures
        spec_items_view(r@) == Seq::new(
            ws.deep_view().len(),
            |i: int| spec_json_of_web_entry(ws.deep_view()[i]),
        ),
{
    let mut out: Vec<Json> = Vec::new();
    let mut i: usize = 0;
    while i < ws.len()
        invariant
            i <= ws.len(),
            out@.len() == i as int,
            forall|j: int|
                0 <= j < i ==> json_view(out@[j]) == spec_json_of_web_entry(ws.deep_view()[j]),
        decreases ws.len() - i,
    {
        let w = &ws[i];
        out.push(web_entry_to_json(w));
        i += 1;
    }
    proof {
        lemma_items_view(out@);
        assert(spec_items_view(out@) =~= Seq::new(
            ws.deep_view().len(),
            |i: int| spec_json_of_web_entry(ws.deep_view()[i]),
        ));
    }
    out
}

impl YdResponse {
    /// Serializes the model back into a JSON tree, exactly as
    /// `spec_json_of_response` describes.
    pub fn to_json(&self) -> (r: Json)
        ensures
            r@ == spec_json_of_response(self@),
    {
        let translation = match &self.translation {
            None => Json::Null,
            Some(t) => Json::Arr(strings_to_json(t)),
        };
        let basic = match &self.basic {
            None => Json::Null,
            Some(b) => basic_to_json(b),
        };
        let web = match &self.web {
            None => Json::Null,
            Some(ws) => Json::Arr(web_to_json(ws)),
        };
        let mut f: Vec<(String, Json)> = Vec::new();
        f.push(("query".to_owned(), Json::Str(self.query.clone())));
        f.push(("errorCode".to_owned(), error_code_to_json(&self.error_code)));
        f.push(("translation".to_owned(), translation));
        f.push(("basic".to_owned(), basic));
        f.push(("web".to_owned(), web));
        let ghost fv = f@;
        let r = Json::Obj(f);
        proof {
            lemma_fields_view(fv);
            assert(spec_fields_view(fv) =~= spec_json_of_response(self@)->Obj_0);
        }
        r
    }

    /// Renders the model as JSON text, through the serialized tree.
    pub fn to_json_string(&self) -> (r: String)
        ensures
            r@ == text_of(spec_json_of_response(self@)),
    {
        let j = self.to_json();
        to_json_text(&j)
    }
}

/// Round trip: parsing the JSON tree that serializing a response produces
/// yields that same response.
pub proof fn lemma_round_trip(r: YdResponseView)
    ensures
        spec_response_of(spec_json_of_response(r)) == Ok::<YdResponseView, ParseError>(r),
{
    reveal_strlit("query");
    reveal_strlit("errorCode");
    reveal_strlit("translation");
    reveal_strlit("basic");
    reveal_strlit("web");
    reveal_strlit("explains");
    reveal_strlit("phonetic");
    reveal_strlit("usPhonetic");
    reveal_strlit("ukPhonetic");
    reveal_strlit("key");
    reveal_strlit("value");
    assert("query"@.len() == 5);
    assert("errorCode"@.len() == 9);
    assert("translation"@.len() == 11);
    assert("basic"@.len() == 5);
    assert("web"@.len() == 3);
    assert("query"@[0] == 'q');
    assert("basic"@[0] == 'b');
    let fields = spec_json_of_response(r)->Obj_0;
    assert(fields.len() == 5);
    lemma_obj_get_at(fields, "query"@, 0);
    lemma_obj_get_at(fields, "errorCode"@, 1);
    lemma_obj_get_at(fields, "translation"@, 2);
    lemma_obj_get_at(fields, "basic"@, 3);
    lemma_obj_get_at(fields, "web"@, 4);
    // the error code survives the round trip
    assert(spec_error_code_of(spec_json_of_error_code(r.error_code)) == r.error_code);
    // the translation field survives the round trip
    match r.translation {
        None => {
            assert(spec_translation_of(fields) == Ok::<Option<Seq<Seq<char>>>, ParseError>(None));
        },
        Some(t) => {
            lemma_strings_round_trip(t);
            assert(spec_translation_of(fields) == Ok::<Option<Seq<Seq<char>>>, ParseError>(
                Some(t),
            ));
        },
    }
    // the basic field survives the round trip
    match r.basic {
        None => {
            assert(spec_basic_of(fields) == Ok::<Option<YdBasicView>, ParseError>(None));
        },
        Some(b) => {
            lemma_basic_round_trip(b);
            assert(spec_basic_of(fields) == Ok::<Option<YdBasicView>, ParseError>(Some(b)));
        },
    }
    // the web field survives the round trip
    match r.web {
        None => {
            assert(spec_web_of(fields) == Ok::<Option<Seq<YdWebView>>, ParseError>(None));
        },
        Some(ws) => {
            let entries = Seq::new(ws.len(), |i: int| spec_json_of_web_entry(ws[i]));
            assert forall|i: int| 0 <= i < entries.len() implies spec_web_entry_of(entries[i])
                is Ok by {
                lemma_web_entry_round_trip(ws[i]);
            }
            assert forall|i: int|
                0 <= i < entries.len() implies spec_web_entry_val(entries[i]) == ws[i] by {
                lemma_web_entry_round_trip(ws[i]);
            }
            assert(Seq::new(entries.len(), |i: int| spec_web_entry_val(entries[i])) =~= ws);
            assert(spec_web_of(fields) == Ok::<Option<Seq<YdWebView>>, ParseError>(Some(ws)));
        },
    }
    assert(spec_response_of(spec_json_of_response(r))->Ok_0 =~= r);
}

/// Serializing strings as JSON strings and reading them back is identity.
proof fn lemma_strings_round_trip(t: Seq<Seq<char>>)
    ensures
        spec_all_strings(spec_strs_json(t)),
        spec_string_values(spec_strs_json(t)) == t,
{
    assert(spec_string_values(spec_strs_json(t)) =~= t);
}

/// A serialized detailed entry parses back to itself.
proof fn lemma_basic_round_trip(b: YdBasicView)
    ensures
        spec_json_of_basic(b) matches JsonView::Obj(bf) && spec_obj_get(bf, "explains"@)
            == Some(JsonView::Arr(spec_strs_json(b.explains))) && spec_opt_str_field(
            bf,
            "phonetic"@,
        ) == Ok::<Option<Seq<char>>, ParseError>(b.phonetic) && spec_opt_str_field(
            bf,
            "usPhonetic"@,
        ) == Ok::<Option<Seq<char>>, ParseError>(b.us_phonetic) && spec_opt_str_field(
            bf,
            "ukPhonetic"@,
        ) == Ok::<Option<Seq<char>>, ParseError>(b.uk_phonetic),
        spec_all_strings(spec_strs_json(b.explains)),
        spec_string_values(spec_strs_json(b.explains)) == b.explains,
{
    reveal_strlit("explains");
    reveal_strlit("phonetic");
    reveal_strlit("usPhonetic");
    reveal_strlit("ukPhonetic");
    assert("explains"@.len() == 8);
    assert("phonetic"@.len() == 8);
    assert("usPhonetic"@.len() == 10);
    assert("ukPhonetic"@.len() == 10);
    assert("explains"@[0] == 'e');
    assert("phonetic"@[0] == 'p');
    assert("usPhonetic"@[1] == 's');
    assert("ukPhonetic"@[1] == 'k');
    let bf = spec_json_of_basic(b)->Obj_0;
    assert(bf.len() == 4);
    lemma_obj_get_at(bf, "explains"@, 0);
    lemma_obj_get_at(bf, "phonetic"@, 1);
    lemma_obj_get_at(bf, "usPhonetic"@, 2);
    lemma_obj_get_at(bf, "ukPhonetic"@, 3);
    lemma_strings_round_trip(b.explains);
}

/// A serialized web cross-reference entry parses back to itself.
proof fn lemma_web_entry_round_trip(w: YdWebView)
    ensures
        spec_web_entry_of(spec_json_of_web_entry(w)) == Ok::<YdWebView, ParseError>(w),
{
    reveal_strlit("key");
    reveal_strlit("value");
    assert("key"@.len() == 3);
    assert("value"@.len() == 5);
    let wf = spec_json_of_web_entry(w)->Obj_0;
    assert(wf.len() == 2);
    lemma_obj_get_at(wf, "key"@, 0);
    lemma_obj_get_at(wf, "value"@, 1);
    lemma_strings_round_trip(w.value);
    assert(spec_web_entry_of(spec_json_of_web_entry(w))->Ok_0 =~= w);
}

} // verus!
