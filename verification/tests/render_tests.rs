use ydcv::formatters::{AnsiFormatter, PlainFormatter};
use ydcv::ydresponse::YdResponse;

fn parse(s: &str) -> YdResponse {
    YdResponse::new_raw(s.to_string()).unwrap()
}

#[test]
fn full_entry_with_phonetic_and_explanation() {
    let r = parse(
        "{\"errorCode\":0,\"query\":\"good\",\"translation\":[\"好\"],\
         \"basic\":{\"explains\":[\"adj. 好的\"],\"phonetic\":\"gʊd\"}}",
    );
    let plain = r.explain(&PlainFormatter);
    assert_eq!(plain, "good [gʊd] 好\n  Word Explanation:\n     * adj. 好的");
    let ansi = r.explain(&AnsiFormatter);
    assert!(ansi.starts_with("\u{1b}[4mgood\u{1b}[0m"));
    assert!(ansi.contains("[\u{1b}[33mgʊd\u{1b}[0m]"));
    assert!(ansi.contains("好"));
    assert!(ansi.contains("\u{1b}[36m  Word Explanation:\u{1b}[0m"));
    assert!(ansi.contains("     * adj. 好的"));
}

#[test]
fn empty_response_renders_no_result() {
    let r = parse(
        "{\"errorCode\":\"0\",\"query\":\"xyzzy\",\"translation\":null,\
         \"basic\":null,\"web\":null}",
    );
    assert_eq!(r.explain(&PlainFormatter), " -- No result for this query.");
    let ansi = r.explain(&AnsiFormatter);
    assert_eq!(ansi, "\u{1b}[31m -- No result for this query.\u{1b}[0m");
    assert!(!ansi.contains('\n'));
}

#[test]
fn translation_only_renders_three_lines() {
    let r = parse(
        "{\"errorCode\":0,\"query\":\"hello\",\"translation\":[\"foo\",\"bar\"]}",
    );
    assert_eq!(r.explain(&PlainFormatter), "hello\n  Translation:\n    foo；bar");
}

#[test]
fn success_with_content_never_says_no_result() {
    let inputs = [
        "{\"errorCode\":0,\"query\":\"q\",\"translation\":[\"t\"]}",
        "{\"errorCode\":\"0\",\"query\":\"q\",\"basic\":{\"explains\":[\"e\"]}}",
        "{\"errorCode\":0,\"query\":\"q\",\"web\":[{\"key\":\"k\",\"value\":[\"v\"]}]}",
    ];
    for s in inputs {
        let out = parse(s).explain(&PlainFormatter);
        assert!(!out.contains("No result for this query"), "{}", out);
    }
}

#[test]
fn failure_code_renders_no_result_despite_content() {
    let r = parse(
        "{\"errorCode\":40,\"query\":\"good\",\"translation\":[\"好\"],\
         \"basic\":{\"explains\":[\"adj. 好的\"],\"phonetic\":\"gʊd\"},\
         \"web\":[{\"key\":\"good\",\"value\":[\"好的\"]}]}",
    );
    assert_eq!(r.explain(&PlainFormatter), " -- No result for this query.");
    let r2 = parse("{\"errorCode\":\"1\",\"query\":\"q\",\"translation\":[\"t\"]}");
    assert_eq!(r2.explain(&PlainFormatter), " -- No result for this query.");
}

#[test]
fn region_pair_outranks_single_phonetic() {
    let r = parse(
        "{\"errorCode\":0,\"query\":\"word\",\"translation\":[\"词\"],\
         \"basic\":{\"explains\":[],\"phonetic\":\"ph\",\
         \"usPhonetic\":\"us\",\"ukPhonetic\":\"uk\"}}",
    );
    let out = r.explain(&PlainFormatter);
    assert_eq!(out, "word  UK: [uk], US: [us] 词");
    assert!(!out.contains("[ph]"));
}

#[test]
fn single_phonetic_used_when_region_pair_absent() {
    let r = parse(
        "{\"errorCode\":0,\"query\":\"word\",\"translation\":[\"词\"],\
         \"basic\":{\"explains\":[],\"phonetic\":\"ph\"}}",
    );
    assert_eq!(r.explain(&PlainFormatter), "word [ph] 词");
}

#[test]
fn no_phonetic_renders_no_brackets() {
    let r = parse(
        "{\"errorCode\":0,\"query\":\"word\",\"translation\":[\"词\"],\
         \"basic\":{\"explains\":[]}}",
    );
    assert_eq!(r.explain(&PlainFormatter), "word  词");
}

#[test]
fn header_joins_translation_with_ascii_semicolon() {
    let r = parse(
        "{\"errorCode\":0,\"query\":\"q\",\"translation\":[\"a\",\"b\"],\
         \"basic\":{\"explains\":[]}}",
    );
    let out = r.explain(&PlainFormatter);
    assert!(out.contains("a; b"));
    assert!(!out.contains("a；b"));
}

#[test]
fn web_values_join_with_fullwidth_semicolon() {
    let r = parse(
        "{\"errorCode\":0,\"query\":\"q\",\"translation\":[\"t\"],\
         \"web\":[{\"key\":\"k1\",\"value\":[\"v1\",\"v2\"]},\
         {\"key\":\"k2\",\"value\":[]}]}",
    );
    let out = r.explain(&PlainFormatter);
    assert_eq!(
        out,
        "q  t\n  Web Reference:\n     * k1\n       v1；v2\n     * k2\n       "
    );
}

#[test]
fn empty_explains_omits_word_explanation_block() {
    let r = parse(
        "{\"errorCode\":0,\"query\":\"q\",\"translation\":[\"t\"],\
         \"basic\":{\"explains\":[],\"phonetic\":\"p\"}}",
    );
    let out = r.explain(&PlainFormatter);
    assert_eq!(out, "q [p] t");
    assert!(!out.contains("Word Explanation"));
}

#[test]
fn missing_translation_renders_empty_tail_in_header() {
    let r = parse(
        "{\"errorCode\":0,\"query\":\"q\",\"basic\":{\"explains\":[\"e1\",\"e2\"]}}",
    );
    assert_eq!(
        r.explain(&PlainFormatter),
        "q  \n  Word Explanation:\n     * e1\n     * e2"
    );
}

#[test]
fn web_keys_are_value_highlighted() {
    let r = parse(
        "{\"errorCode\":0,\"query\":\"q\",\"translation\":[\"t\"],\
         \"web\":[{\"key\":\"k\",\"value\":[\"v\"]}]}",
    );
    let ansi = r.explain(&AnsiFormatter);
    assert!(ansi.contains("     * \u{1b}[33mk\u{1b}[0m"));
    assert!(ansi.contains("       \u{1b}[35mv\u{1b}[0m"));
}
