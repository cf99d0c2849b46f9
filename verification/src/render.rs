//! Rendering a response as a human-readable, styled multi-line report.

use crate::formatters::Formatter;
use crate::strutil::{join_strings, spec_join};
use crate::ydresponse::{YdBasicView, YdResponse, YdResponseView, YdWebView};
use vstd::prelude::*;
use vstd::string::StringExecFns;

verus! {

broadcast use vstd::group_vstd_default;

/// Whether a response renders as the one-line "no result" message: a
/// non-success code, or none of the three content fields present.
pub open spec fn spec_is_no_result(r: YdResponseView) -> bool {
    !r.error_code.is_success() || (r.translation is None && r.basic is None && r.web is None)
}

/// The single line of the "no result" rendering.
pub open spec fn spec_no_result_line<F: Formatter>(f: &F) -> Seq<char> {
    f.spec_red(" -- No result for this query."@)
}

/// The phonetic annotation of the header line: the region pair where both
/// region pronunciations are present, else the single pronunciation in
/// brackets, else nothing.
pub open spec fn spec_phonetic<F: Formatter>(f: &F, basic: Option<YdBasicView>) -> Seq<char> {
    match basic {
        None => Seq::empty(),
        Some(b) => match (b.us_phonetic, b.uk_phonetic) {
            (Some(us), Some(uk)) => " UK: ["@ + f.spec_yellow(uk) + "], US: ["@ + f.spec_yellow(
                us,
            ) + "]"@,
            _ => match b.phonetic {
                Some(p) => "["@ + f.spec_yellow(p) + "]"@,
                None => Seq::empty(),
            },
        },
    }
}

/// The translation entries joined with `"; "`, or nothing where absent.
pub open spec fn spec_translation_joined(t: Option<Seq<Seq<char>>>) -> Seq<char> {
    match t {
        None => Seq::empty(),
        Some(t) => spec_join(t, "; "@),
    }
}

/// The header line of a full entry: the underlined query, the phonetic
/// annotation, and the plain-styled joined translation, space-separated.
pub open spec fn spec_header_line<F: Formatter>(f: &F, r: YdResponseView) -> Seq<char> {
    f.spec_underline(r.query) + " "@ + spec_phonetic(f, r.basic) + " "@ + f.spec_plain(
        spec_translation_joined(r.translation),
    )
}

/// One bulleted explanation line.
pub open spec fn spec_explain_line<F: Formatter>(f: &F, e: Seq<char>) -> Seq<char> {
    f.spec_plain("     * "@ + e)
}

/// The Word Explanation block: a heading and one bulleted line per
/// explanation, or nothing where the entry is absent or has no explanations.
pub open spec fn spec_explain_lines<F: Formatter>(f: &F, basic: Option<YdBasicView>) -> Seq<
    Seq<char>,
> {
    match basic {
        Some(b) => if b.explains.len() > 0 {
            seq![f.spec_cyan("  Word Explanation:"@)] + Seq::new(
                b.explains.len(),
                |i: int| spec_explain_line(f, b.explains[i]),
            )
        } else {
            Seq::empty()
        },
        None => Seq::empty(),
    }
}

/// The bulleted key line of one web cross-reference entry.
pub open spec fn spec_web_key_line<F: Formatter>(f: &F, w: YdWebView) -> Seq<char> {
    "     * "@ + f.spec_yellow(w.key)
}

/// The value line of one web cross-reference entry: its phrases each
/// secondarily highlighted, joined with the full-width semicolon.
pub open spec fn spec_web_value_line<F: Formatter>(f: &F, w: YdWebView) -> Seq<char> {
    "       "@ + spec_join(Seq::new(w.value.len(), |i: int| f.spec_purple(w.value[i])), "；"@)
}

/// The Web Reference block: a heading, then a key line and a value line per
/// entry, or nothing where the field is absent or empty.
pub open spec fn spec_web_lines<F: Formatter>(f: &F, web: Option<Seq<YdWebView>>) -> Seq<
    Seq<char>,
> {
    match web {
        Some(ws) => if ws.len() > 0 {
            seq![f.spec_cyan("  Web Reference:"@)] + Seq::new(
                2 * ws.len(),
                |i: int|
                    if i % 2 == 0 {
                        spec_web_key_line(f, ws[i / 2])
                    } else {
                        spec_web_value_line(f, ws[i / 2])
                    },
            )
        } else {
            Seq::empty()
        },
        None => Seq::empty(),
    }
}

/// The three lines of the translation-only rendering: underlined query, the
/// Translation heading, and the entries joined with the full-width
/// semicolon.
pub open spec fn spec_translation_only_lines<F: Formatter>(f: &F, r: YdResponseView) -> Seq<
    Seq<char>,
> {
    seq![
        f.spec_underline(r.query),
        f.spec_cyan("  Translation:"@),
        "    "@ + spec_join(
            match r.translation {
                Some(t) => t,
                None => Seq::empty(),
            },
            "；"@,
        ),
    ]
}

/// The lines of a full entry: the header, then the Word Explanation block,
/// then the Web Reference block.
pub open spec fn spec_full_lines<F: Formatter>(f: &F, r: YdResponseView) -> Seq<Seq<char>> {
    seq![spec_header_line(f, r)] + spec_explain_lines(f, r.basic) + spec_web_lines(f, r.web)
}

/// The lines of a response with a result: translation-only where `basic`
/// and `web` are both absent, the full entry otherwise.
pub open spec fn spec_found_lines<F: Formatter>(f: &F, r: YdResponseView) -> Seq<Seq<char>> {
    if r.basic is None && r.web is None {
        spec_translation_only_lines(f, r)
    } else {
        spec_full_lines(f, r)
    }
}

/// All lines of the rendering of a response.
pub open spec fn spec_lines<F: Formatter>(f: &F, r: YdResponseView) -> Seq<Seq<char>> {
    if spec_is_no_result(r) {
        seq![spec_no_result_line(f)]
    } else {
        spec_found_lines(f, r)
    }
}

/// The full rendering of a response: its lines joined with newlines.
pub open spec fn spec_explain<F: Formatter>(f: &F, r: YdResponseView) -> Seq<char> {
    spec_join(spec_lines(f, r), "\n"@)
}

impl YdResponse {
    /// Renders the response as a styled text report, exactly as
    /// `spec_explain` describes.
    pub fn explain<F: Formatter>(&self, fmt: &F) -> (r: String)
        ensures
            r@ == spec_explain(fmt, self@),
    {
        let mut lines: Vec<String> = Vec::new();
        if !self.error_code.is_success() || (self.basic.is_none() && self.web.is_none()
            && self.translation.is_none()) {
            lines.push(fmt.red(" -- No result for this query."));
            proof {
                assert(lines.deep_view() =~= spec_lines(fmt, self@));
            }
            return join_strings(&lines, "\n");
        }
        if self.basic.is_none() && self.web.is_none() {
            lines.push(fmt.underline(self.query.as_str()));
            lines.push(fmt.cyan("  Translation:"));
            let joined = match &self.translation {
                Some(t) => join_strings(t, "；"),
                None => {
                    proof {
                        assert(false);
                    }
                    String::new()
                },
            };
            let mut third = "    ".to_owned();
            third.append(joined.as_str());
            lines.push(third);
            proof {
                assert(lines.deep_view() =~= spec_translation_only_lines(fmt, self@));
            }
            return join_strings(&lines, "\n");
        }
        let phonetic: String = match &self.basic {
            Some(basic) => match (&basic.us_phonetic, &basic.uk_phonetic) {
                (Some(us), Some(uk)) => {
                    let mut p = " UK: [".to_owned();
                    p.append(fmt.yellow(uk.as_str()).as_str());
                    p.append("], US: [");
                    p.append(fmt.yellow(us.as_str()).as_str());
                    p.append("]");
                    p
                },
                _ => match &basic.phonetic {
                    Some(ph) => {
                        let mut p = "[".to_owned();
                        p.append(fmt.yellow(ph.as_str()).as_str());
                        p.append("]");
                        p
                    },
                    None => String::new(),
                },
            },
            None => String::new(),
        };
        proof {
            assert(phonetic@ =~= spec_phonetic(fmt, self@.basic));
        }
        let joined = match &self.translation {
            Some(t) => join_strings(t, "; "),
            None => String::new(),
        };
        let mut header = fmt.underline(self.query.as_str());
        header.append(" ");
        header.append(phonetic.as_str());
        header.append(" ");
        header.append(fmt.plain(joined.as_str()).as_str());
        proof {
            assert(header@ =~= spec_header_line(fmt, self@));
        }
        lines.push(header);
        let ghost with_header = lines.deep_view();
        match &self.basic {
            Some(basic) => {
                if basic.explains.len() > 0 {
                    lines.push(fmt.cyan("  Word Explanation:"));
                    let ghost bv = basic@;
                    let mut i: usize = 0;
                    while i < basic.explains.len()
                        invariant
                            i <= basic.explains.len(),
                            bv == basic@,
                            lines.deep_view() =~= with_header + seq![
                                fmt.spec_cyan("  Word Explanation:"@),
                            ] + Seq::new(i as nat, |k: int| spec_explain_line(fmt, bv.explains[k])),
                        decreases basic.explains.len() - i,
                    {
                        let e = &basic.explains[i];
                        let mut line = "     * ".to_owned();
                        line.append(e.as_str());
                        let ghost pre = lines.deep_view();
                        lines.push(fmt.plain(line.as_str()));
                        proof {
                            assert(lines.deep_view() =~= pre.push(
                                spec_explain_line(fmt, bv.explains[i as int]),
                            ));
                            assert(lines.deep_view() =~= with_header + seq![
                                fmt.spec_cyan("  Word Explanation:"@),
                            ] + Seq::new(
                                (i + 1) as nat,
                                |k: int| spec_explain_line(fmt, bv.explains[k]),
                            ));
                        }
                        i += 1;
                    }
                    proof {
                        assert(Seq::new(
                            basic@.explains.len(),
                            |k: int| spec_explain_line(fmt, basic@.explains[k]),
                        ) =~= Seq::new(
                            bv.explains.len(),
                            |k: int| spec_explain_line(fmt, bv.explains[k]),
                        ));
                        assert(lines.deep_view() =~= with_header + spec_explain_lines(
                            fmt,
                            self@.basic,
                        ));
                    }
                } else {
                    proof {
                        assert(lines.deep_view() =~= with_header + spec_explain_lines(
                            fmt,
                            self@.basic,
                        ));
                    }
                }
            },
            None => {
                proof {
                    assert(lines.deep_view() =~= with_header + spec_explain_lines(
                        fmt,
                        self@.basic,
                    ));
                }
            },
        }
        let ghost with_explains = lines.deep_view();
        match &self.web {
            Some(web) => {
                if web.len() > 0 {
                    lines.push(fmt.cyan("  Web Reference:"));
                    let ghost wv = web.deep_view();
                    let mut i: usize = 0;
                    while i < web.len()
                        invariant
                            i <= web.len(),
                            wv == web.deep_view(),
                            lines.deep_view() =~= with_explains + seq![
                                fmt.spec_cyan("  Web Reference:"@),
                            ] + Seq::new(
                                (2 * i) as nat,
                                |k: int|
                                    if k % 2 == 0 {
                                        spec_web_key_line(fmt, wv[k / 2])
                                    } else {
                                        spec_web_value_line(fmt, wv[k / 2])
                                    },
                            ),
                        decreases web.len() - i,
                    {
                        let item = &web[i];
                        let mut key_line = "     * ".to_owned();
                        key_line.append(fmt.yellow(item.key.as_str()).as_str());
                        let mut styled: Vec<String> = Vec::new();
                        let mut k: usize = 0;
                        while k < item.value.len()
                            invariant
                                k <= item.value.len(),
                                styled.deep_view() =~= Seq::new(
                                    k as nat,
                                    |m: int| fmt.spec_purple(item.value.deep_view()[m]),
                                ),
                            decreases item.value.len() - k,
                        {
                            let ghost pre_styled = styled.deep_view();
                            styled.push(fmt.purple(item.value[k].as_str()));
                            proof {
                                assert(styled.deep_view() =~= pre_styled.push(
                                    fmt.spec_purple(item.value.deep_view()[k as int]),
                                ));
                            }
                            k += 1;
                        }
                        let mut value_line = "       ".to_owned();
                        value_line.append(join_strings(&styled, "；").as_str());
                        proof {
                            assert(item.value.deep_view() =~= wv[i as int].value);
                            assert(Seq::new(
                                item.value.deep_view().len(),
                                |m: int| fmt.spec_purple(item.value.deep_view()[m]),
                            ) =~= Seq::new(
                                wv[i as int].value.len(),
                                |m: int| fmt.spec_purple(wv[i as int].value[m]),
                            ));
                            assert(key_line@ =~= spec_web_key_line(fmt, wv[i as int]));
                            assert(value_line@ =~= spec_web_value_line(fmt, wv[i as int]));
                        }
                        let ghost pre = lines.deep_view();
                        lines.push(key_line);
                        lines.push(value_line);
                        proof {
                            assert(lines.deep_view() =~= pre.push(
                                spec_web_key_line(fmt, wv[i as int]),
                            ).push(spec_web_value_line(fmt, wv[i as int])));
                            assert(lines.deep_view() =~= with_explains + seq![
                                fmt.spec_cyan("  Web Reference:"@),
                            ] + Seq::new(
                                (2 * (i + 1)) as nat,
                                |k: int|
                                    if k % 2 == 0 {
                                        spec_web_key_line(fmt, wv[k / 2])
                                    } else {
                                        spec_web_value_line(fmt, wv[k / 2])
                                    },
                            ));
                        }
                        i += 1;
                    }
                    proof {
                        assert(lines.deep_view() =~= with_explains + spec_web_lines(
                            fmt,
                            self@.web,
                        ));
                    }
                } else {
                    proof {
                        assert(lines.deep_view() =~= with_explains + spec_web_lines(
                            fmt,
                            self@.web,
                        ));
                    }
                }
            },
            None => {
                proof {
                    assert(lines.deep_view() =~= with_explains + spec_web_lines(fmt, self@.web));
                }
            },
        }
        proof {
            assert(lines.deep_view() =~= spec_full_lines(fmt, self@));
            assert(lines.deep_view() =~= spec_lines(fmt, self@));
        }
        join_strings(&lines, "\n")
    }
}

/// A successful lookup that carries any content never renders the "no
/// result" line: its lines are the found rendering.
pub proof fn lemma_success_has_result<F: Formatter>(f: &F, r: YdResponseView)
    requires
        r.error_code.is_success(),
        r.translation is Some || r.basic is Some || r.web is Some,
    ensures
        spec_lines(f, r) == spec_found_lines(f, r),
        spec_explain(f, r) == spec_join(spec_found_lines(f, r), "\n"@),
{
}

/// A non-success code renders exactly the one "no result" line, whatever
/// the other fields hold.
pub proof fn lemma_failure_renders_no_result<F: Formatter>(f: &F, r: YdResponseView)
    requires
        !r.error_code.is_success(),
    ensures
        spec_lines(f, r) == seq![spec_no_result_line(f)],
        spec_explain(f, r) == f.spec_red(" -- No result for this query."@),
{
    assert(spec_join(seq![spec_no_result_line(f)], "\n"@) == spec_no_result_line(f));
}

/// With `basic` and `web` both absent but a translation present, a
/// successful response renders exactly the three translation-only lines;
/// no phonetic annotation and no block heading other than the Translation
/// heading appears.
pub proof fn lemma_translation_only<F: Formatter>(f: &F, r: YdResponseView)
    requires
        r.error_code.is_success(),
        r.basic is None,
        r.web is None,
        r.translation is Some,
    ensures
        spec_lines(f, r) == seq![
            f.spec_underline(r.query),
            f.spec_cyan("  Translation:"@),
            "    "@ + spec_join(r.translation->0, "；"@),
        ],
{
    assert(spec_translation_only_lines(f, r) =~= seq![
        f.spec_underline(r.query),
        f.spec_cyan("  Translation:"@),
        "    "@ + spec_join(r.translation->0, "；"@),
    ]);
}

/// Phonetic selection is deterministic: where both region pronunciations
/// are present, the region pair is rendered, whether or not the single
/// `phonetic` field is also present.
pub proof fn lemma_phonetic_priority<F: Formatter>(f: &F, b: YdBasicView)
    requires
        b.us_phonetic is Some,
        b.uk_phonetic is Some,
    ensures
        spec_phonetic(f, Some(b)) == " UK: ["@ + f.spec_yellow(b.uk_phonetic->0) + "], US: ["@
            + f.spec_yellow(b.us_phonetic->0) + "]"@,
{
}

/// Joining is stable: the header line joins translation entries with
/// `"; "`, the translation-only line and the web value lines join with the
/// full-width `"；"`.
pub proof fn lemma_join_separators<F: Formatter>(f: &F, r: YdResponseView, w: YdWebView)
    requires
        r.translation is Some,
    ensures
        spec_header_line(f, r) == f.spec_underline(r.query) + " "@ + spec_phonetic(f, r.basic)
            + " "@ + f.spec_plain(spec_join(r.translation->0, "; "@)),
        spec_translation_only_lines(f, r)[2] == "    "@ + spec_join(r.translation->0, "；"@),
        spec_web_value_line(f, w) == "       "@ + spec_join(
            Seq::new(w.value.len(), |i: int| f.spec_purple(w.value[i])),
            "；"@,
        ),
{
}

} // verus!
