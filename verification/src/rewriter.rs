//! The event-stream rewriter: a state machine that walks one document's
//! markup events, buffers the text of recognized code-block regions, replaces
//! each region with highlighted HTML (plus an artifact reference when
//! rendering), passes everything else through, and collects the render
//! requests and missing-tag diagnostics the walk produced.

use vstd::prelude::*;
use vstd::string::*;

use crate::events::{MdEvent, MdEventV};
use crate::hash::{cache_key, sha256_hex_of};
use crate::highlight::{highlight, spec_highlight, spec_highlight_ok, Highlighter};
use crate::render::{RenderRequest, RenderRequestV};
use crate::settings::PreprocessSettings;
use crate::tags::{
    is_typst_codeblock, lang_unspecified, lang_unspecified_v, recognized_v, resolve_lang,
    resolved_lang_v,
};
use crate::text::{contains_sub, spec_contains};

verus! {

/// The rewriter's state after some prefix of the event stream: the events
/// emitted so far, the active code-block accumulator (if any), the render
/// requests issued, the missing-tag diagnostics counted, and whether every
/// tokenization needed so far succeeded.
pub ghost struct RewriteStateV {
    pub out: Seq<MdEventV>,
    pub acc: Option<Seq<char>>,
    pub renders: Seq<RenderRequestV>,
    pub warnings: nat,
    pub hl_ok: bool,
}

/// Outcome of rewriting a stream: the final state, or the structural failure
/// hit when a recognized block ends with no active accumulator, carrying the
/// events collected up to that point and whether every tokenization before
/// the break succeeds.
pub ghost enum RewriteOutcomeV {
    Done(RewriteStateV),
    Broken(Seq<MdEventV>, bool),
}

/// The artifact reference embedded after a rendered block's highlighted code.
pub open spec fn image_html_v(key: Seq<char>) -> Seq<char> {
    "<div style=\"\n                                    text-align: center;\n                                    padding: 0.5em;\n                                    background: var(--quote-bg);\n                                    \"><img align=\"middle\" src=\"typst-img/"@ + key + ".svg\" alt=\"Rendered image\" style=\"\n                                    background: white;\n                                    max-width: 500pt;\n                                    width: 100%;\n                                \"></div>"@
}

/// The exact artifact-reference HTML for a cache key, mirroring
/// [`image_html_v`].
pub fn image_html(key: &str) -> (r: String)
    ensures
        r@ == image_html_v(key@),
{
    let mut s = String::from_str("<div style=\"\n                                    text-align: center;\n                                    padding: 0.5em;\n                                    background: var(--quote-bg);\n                                    \"><img align=\"middle\" src=\"typst-img/");
    s.append(key);
    s.append(".svg\" alt=\"Rendered image\" style=\"\n                                    background: white;\n                                    max-width: 500pt;\n                                    width: 100%;\n                                \"></div>");
    s
}

/// The single HTML event that replaces a recognized code block: the
/// highlighted code, the artifact reference when rendering is on, wrapped
/// together in one container element.
pub open spec fn block_replacement_html_v(
    grammar: Seq<char>,
    text: Seq<char>,
    render_it: bool,
) -> Seq<char> {
    let body = if render_it {
        spec_highlight(grammar, text, false) + image_html_v(sha256_hex_of(text))
    } else {
        spec_highlight(grammar, text, false)
    };
    "<div style=\"margin-bottom: 0.5em\">"@ + body + "</div>"@
}

/// One transition of the rewriter on one event.
pub open spec fn rewrite_step(
    st: RewriteStateV,
    ev: MdEventV,
    settings: PreprocessSettings,
    grammar: Seq<char>,
) -> RewriteOutcomeV {
    match ev {
        MdEventV::CodeBlockStart(kind) => if recognized_v(kind, settings) {
            RewriteOutcomeV::Done(
                RewriteStateV {
                    out: st.out,
                    acc: Some(Seq::empty()),
                    renders: st.renders,
                    warnings: st.warnings,
                    hl_ok: st.hl_ok,
                },
            )
        } else {
            RewriteOutcomeV::Done(
                RewriteStateV {
                    out: st.out.push(ev),
                    acc: st.acc,
                    renders: st.renders,
                    warnings: st.warnings,
                    hl_ok: st.hl_ok,
                },
            )
        },
        MdEventV::CodeBlockEnd(kind) => {
            let warnings = if settings.warn_not_specified && lang_unspecified_v(kind) {
                st.warnings + 1
            } else {
                st.warnings
            };
            if recognized_v(kind, settings) {
                match st.acc {
                    None => RewriteOutcomeV::Broken(st.out, st.hl_ok),
                    Some(text) => {
                        let lang = resolved_lang_v(kind, settings)->Some_0;
                        let render_it = settings.render && !spec_contains(lang, "norender"@);
                        let renders = if render_it {
                            st.renders.push(
                                RenderRequestV {
                                    text: text,
                                    key: sha256_hex_of(text),
                                    preamble: !spec_contains(lang, "nopreamble"@),
                                },
                            )
                        } else {
                            st.renders
                        };
                        RewriteOutcomeV::Done(
                            RewriteStateV {
                                out: st.out.push(
                                    MdEventV::Html(block_replacement_html_v(grammar, text, render_it)),
                                ).push(MdEventV::HardBreak),
                                acc: None,
                                renders: renders,
                                warnings: warnings,
                                hl_ok: st.hl_ok && spec_highlight_ok(grammar, text, false),
                            },
                        )
                    },
                }
            } else {
                RewriteOutcomeV::Done(
                    RewriteStateV {
                        out: st.out.push(ev),
                        acc: st.acc,
                        renders: st.renders,
                        warnings: warnings,
                        hl_ok: st.hl_ok,
                    },
                )
            }
        },
        MdEventV::Text(t) => match st.acc {
            Some(buffered) => RewriteOutcomeV::Done(
                RewriteStateV {
                    out: st.out,
                    acc: Some(buffered + t),
                    renders: st.renders,
                    warnings: st.warnings,
                    hl_ok: st.hl_ok,
                },
            ),
            None => RewriteOutcomeV::Done(
                RewriteStateV {
                    out: st.out.push(ev),
                    acc: st.acc,
                    renders: st.renders,
                    warnings: st.warnings,
                    hl_ok: st.hl_ok,
                },
            ),
        },
        MdEventV::InlineCode(code) => if settings.highlight_inline {
            RewriteOutcomeV::Done(
                RewriteStateV {
                    out: st.out.push(MdEventV::Html(spec_highlight(grammar, code, true))),
                    acc: st.acc,
                    renders: st.renders,
                    warnings: st.warnings,
                    hl_ok: st.hl_ok && spec_highlight_ok(grammar, code, true),
                },
            )
        } else {
            RewriteOutcomeV::Done(
                RewriteStateV {
                    out: st.out.push(ev),
                    acc: st.acc,
                    renders: st.renders,
                    warnings: st.warnings,
                    hl_ok: st.hl_ok,
                },
            )
        },
        _ => RewriteOutcomeV::Done(
            RewriteStateV {
                out: st.out.push(ev),
                acc: st.acc,
                renders: st.renders,
                warnings: st.warnings,
                hl_ok: st.hl_ok,
            },
        ),
    }
}

/// The rewriter's state after a whole event stream, folding [`rewrite_step`]
/// over it from the front; a structural failure stops the fold.
pub open spec fn rewrite_fold(
    events: Seq<MdEventV>,
    settings: PreprocessSettings,
    grammar: Seq<char>,
) -> RewriteOutcomeV
    decreases events.len(),
{
    if events.len() == 0 {
        RewriteOutcomeV::Done(
            RewriteStateV {
                out: Seq::empty(),
                acc: None,
                renders: Seq::empty(),
                warnings: 0,
                hl_ok: true,
            },
        )
    } else {
        match rewrite_fold(events.drop_last(), settings, grammar) {
            RewriteOutcomeV::Done(st) => rewrite_step(st, events.last(), settings, grammar),
            RewriteOutcomeV::Broken(out, ok) => RewriteOutcomeV::Broken(out, ok),
        }
    }
}

/// Why rewriting a document failed.
#[derive(Debug, PartialEq)]
pub enum RewriteError {
    /// The end of a recognized code block arrived with no active accumulator:
    /// the parser's start/end events did not pair as expected. Carries the
    /// document's name and the events collected so far, for diagnosis.
    BrokenStructure { chapter: String, collected: Vec<MdEvent> },
    /// The highlight engine's tokenizer failed.
    HighlightFailed,
}

/// The result of rewriting one document's events.
#[derive(Debug)]
pub struct RewriteOutput {
    /// The rewritten event stream.
    pub events: Vec<MdEvent>,
    /// The renders the stream requires, in order of appearance.
    pub renders: Vec<RenderRequest>,
    /// How many missing-tag diagnostics are due for this document.
    pub warnings: usize,
}

/// Once the fold has hit the structural failure, the failure is the fold's
/// outcome for every extension of the stream.
proof fn lemma_broken_persists(
    evs: Seq<MdEventV>,
    settings: PreprocessSettings,
    grammar: Seq<char>,
    k: int,
)
    requires
        0 <= k <= evs.len(),
        rewrite_fold(evs.take(k), settings, grammar) matches RewriteOutcomeV::Broken(_, _),
    ensures
        rewrite_fold(evs, settings, grammar) == rewrite_fold(evs.take(k), settings, grammar),
    decreases evs.len() - k,
{
    if k == evs.len() {
        assert(evs.take(k) =~= evs);
    } else {
        assert(evs.take(k + 1).drop_last() =~= evs.take(k));
        lemma_broken_persists(evs, settings, grammar, k + 1);
    }
}

/// Once some prefix of the fold holds a failed tokenization, so does the
/// whole fold, whether it ends done or broken.
proof fn lemma_hl_failure_persists(
    evs: Seq<MdEventV>,
    settings: PreprocessSettings,
    grammar: Seq<char>,
    k: int,
)
    requires
        0 <= k <= evs.len(),
        rewrite_fold(evs.take(k), settings, grammar) matches RewriteOutcomeV::Done(st)
            && !st.hl_ok,
    ensures
        (rewrite_fold(evs, settings, grammar) matches RewriteOutcomeV::Broken(_, ok) && !ok) || (
        rewrite_fold(evs, settings, grammar) matches RewriteOutcomeV::Done(st2) && !st2.hl_ok),
    decreases evs.len() - k,
{
    if k == evs.len() {
        assert(evs.take(k) =~= evs);
    } else {
        assert(evs.take(k + 1).drop_last() =~= evs.take(k));
        match rewrite_fold(evs.take(k + 1), settings, grammar) {
            RewriteOutcomeV::Done(st1) => {
                assert(!st1.hl_ok);
                lemma_hl_failure_persists(evs, settings, grammar, k + 1);
            },
            RewriteOutcomeV::Broken(_, _) => {
                lemma_broken_persists(evs, settings, grammar, k + 1);
            },
        }
    }
}

/// An event the rewriter passes through untouched: not a boundary of a
/// recognized code block, and not an inline code span while inline
/// highlighting is on.
pub open spec fn neutral_event_v(ev: MdEventV, settings: PreprocessSettings) -> bool {
    match ev {
        MdEventV::CodeBlockStart(kind) => !recognized_v(kind, settings),
        MdEventV::CodeBlockEnd(kind) => !recognized_v(kind, settings),
        MdEventV::InlineCode(_) => !settings.highlight_inline,
        _ => true,
    }
}

/// Non-code content is preserved: a stream holding no recognized code-block
/// boundary (and no inline code span while inline highlighting is on)
/// rewrites to exactly itself, with no render requests, no open accumulator,
/// no structural failure, and no tokenization needed (so none can fail).
pub proof fn lemma_passthrough_preserved(
    evs: Seq<MdEventV>,
    settings: PreprocessSettings,
    grammar: Seq<char>,
)
    requires
        forall|i: int| 0 <= i < evs.len() ==> neutral_event_v(#[trigger] evs[i], settings),
    ensures
        rewrite_fold(evs, settings, grammar) matches RewriteOutcomeV::Done(st) && {
            &&& st.out == evs
            &&& st.acc is None
            &&& st.renders == Seq::<RenderRequestV>::empty()
            &&& st.hl_ok
        },
    decreases evs.len(),
{
    if evs.len() > 0 {
        assert(forall|i: int|
            0 <= i < evs.drop_last().len() ==> neutral_event_v(
                #[trigger] evs.drop_last()[i],
                settings,
            ));
        lemma_passthrough_preserved(evs.drop_last(), settings, grammar);
        assert(neutral_event_v(evs.last(), settings));
        match rewrite_fold(evs, settings, grammar) {
            RewriteOutcomeV::Done(st) => {
                assert(st.out =~= evs);
            },
            RewriteOutcomeV::Broken(_, _) => {
                assert(false);
            },
        }
    } else {
        match rewrite_fold(evs, settings, grammar) {
            RewriteOutcomeV::Done(st) => {
                assert(st.out =~= evs);
            },
            RewriteOutcomeV::Broken(_, _) => {
                assert(false);
            },
        }
    }
}

/// The missing-tag diagnostic line for a document, as the caller reports it.
pub fn warning_message(chapter: &str) -> (r: String)
    ensures
        r@ == "Codeblock language not specified in "@ + chapter@,
{
    let mut s = String::from_str("Codeblock language not specified in ");
    s.append(chapter);
    s
}

/// Rewrites one document's event stream. The outcome is pinned by the fold of
/// [`rewrite_step`] over the stream:
///
/// - when the fold is done and every tokenization it needs succeeds, the call
///   returns exactly the fold's events, render requests (each keyed by its
///   text's digest) and diagnostic count;
/// - when the fold hits the structural failure and every tokenization before
///   the break succeeds, the call reports exactly that failure, naming the
///   document and carrying the events collected so far;
/// - the tokenizer failure is reported exactly when some tokenization the
///   fold needs (before any break) fails.
pub fn rewrite_events(
    h: &Highlighter,
    events: &Vec<MdEvent>,
    settings: &PreprocessSettings,
    chapter: &str,
) -> (r: Result<RewriteOutput, RewriteError>)
    ensures
        (r matches Ok(o) ==> rewrite_fold(events.deep_view(), *settings, h.grammar())
            matches RewriteOutcomeV::Done(st) && {
            &&& st.hl_ok
            &&& o.events.deep_view() == st.out
            &&& o.renders.deep_view() == st.renders
            &&& o.warnings as nat == st.warnings
        }),
        (rewrite_fold(events.deep_view(), *settings, h.grammar())
            matches RewriteOutcomeV::Done(st) && st.hl_ok ==> r is Ok),
        (r matches Err(e) ==> match e {
            RewriteError::BrokenStructure { chapter: c, collected } => rewrite_fold(
                events.deep_view(),
                *settings,
                h.grammar(),
            ) matches RewriteOutcomeV::Broken(out, ok) && {
                &&& ok
                &&& collected.deep_view() == out
                &&& c@ == chapter@
            },
            RewriteError::HighlightFailed => (rewrite_fold(
                events.deep_view(),
                *settings,
                h.grammar(),
            ) matches RewriteOutcomeV::Done(st) && !st.hl_ok) || (rewrite_fold(
                events.deep_view(),
                *settings,
                h.grammar(),
            ) matches RewriteOutcomeV::Broken(_, ok) && !ok),
        }),
        (rewrite_fold(events.deep_view(), *settings, h.grammar())
            matches RewriteOutcomeV::Broken(out, ok) ==> (ok ==> (r matches Err(e)
            && e matches RewriteError::BrokenStructure { chapter: c, collected }
            && collected.deep_view() == out && c@ == chapter@))),
{
    let ghost evs = events.deep_view();
    let ghost g = h.grammar();
    let n = events.len();
    let mut out: Vec<MdEvent> = Vec::new();
    let mut renders: Vec<RenderRequest> = Vec::new();
    let mut warnings: usize = 0;
    let mut acc_active: bool = false;
    let mut acc_text: String = String::new();

    proof {
        assert(evs.take(0) =~= Seq::<MdEventV>::empty());
        assert(out.deep_view() =~= Seq::<MdEventV>::empty());
        assert(renders.deep_view() =~= Seq::<RenderRequestV>::empty());
    }

    let mut idx: usize = 0;
    while idx < n
        invariant
            n == events.len(),
            evs == events.deep_view(),
            g == h.grammar(),
            0 <= idx <= n,
            warnings <= idx,
            rewrite_fold(evs.take(idx as int), *settings, g) == RewriteOutcomeV::Done(
                RewriteStateV {
                    out: out.deep_view(),
                    acc: if acc_active {
                        Some(acc_text@)
                    } else {
                        None
                    },
                    renders: renders.deep_view(),
                    warnings: warnings as nat,
                    hl_ok: true,
                },
            ),
        decreases n - idx,
    {
        let ghost prev = RewriteStateV {
            out: out.deep_view(),
            acc: if acc_active {
                Some(acc_text@)
            } else {
                None
            },
            renders: renders.deep_view(),
            warnings: warnings as nat,
            hl_ok: true,
        };
        proof {
            assert(evs.take(idx + 1).drop_last() =~= evs.take(idx as int));
            assert(evs.take(idx + 1).last() == evs[idx as int]);
            assert(rewrite_fold(evs.take(idx + 1), *settings, g) == rewrite_step(
                prev,
                evs[idx as int],
                *settings,
                g,
            ));
        }
        let ev = &events[idx];
        proof {
            assert(ev.deep_view() == evs[idx as int]);
        }
        match ev {
            MdEvent::CodeBlockStart(kind) => {
                let lang_opt = resolve_lang(kind, settings);
                let recog = match &lang_opt {
                    Some(l) => is_typst_codeblock(l.as_str()),
                    None => false,
                };
                proof {
                    assert(recog == recognized_v(kind@, *settings));
                }
                if recog {
                    acc_active = true;
                    acc_text = String::new();
                } else {
                    out.push(ev.clone());
                    proof {
                        assert(out.deep_view() =~= prev.out.push(evs[idx as int]));
                    }
                }
            },
            MdEvent::CodeBlockEnd(kind) => {
                if settings.warn_not_specified && lang_unspecified(kind) {
                    warnings = warnings + 1;
                }
                let lang_opt = resolve_lang(kind, settings);
                let recog = match &lang_opt {
                    Some(l) => is_typst_codeblock(l.as_str()),
                    None => false,
                };
                proof {
                    assert(recog == recognized_v(kind@, *settings));
                }
                if recog {
                    let lang = match lang_opt {
                        Some(l) => l,
                        None => {
                            proof {
                                assert(false);
                            }
                            String::new()
                        },
                    };
                    if !acc_active {
                        proof {
                            lemma_broken_persists(evs, *settings, g, idx + 1);
                        }
                        return Err(
                            RewriteError::BrokenStructure {
                                chapter: String::from_str(chapter),
                                collected: out,
                            },
                        );
                    }
                    let text = acc_text;
                    acc_active = false;
                    acc_text = String::new();
                    let mut html = match highlight(h, text.as_str(), false) {
                        Some(x) => x,
                        None => {
                            proof {
                                lemma_hl_failure_persists(evs, *settings, g, idx + 1);
                            }
                            return Err(RewriteError::HighlightFailed);
                        },
                    };
                    let render_it = settings.render && !contains_sub(lang.as_str(), "norender");
                    if render_it {
                        let key = cache_key(text.as_str());
                        let img = image_html(key.as_str());
                        html.append(img.as_str());
                        let preamble = !contains_sub(lang.as_str(), "nopreamble");
                        renders.push(RenderRequest { text, key, preamble });
                        proof {
                            assert(renders.deep_view() =~= prev.renders.push(
                                RenderRequestV {
                                    text: prev.acc->Some_0,
                                    key: sha256_hex_of(prev.acc->Some_0),
                                    preamble: !spec_contains(
                                        resolved_lang_v(kind@, *settings)->Some_0,
                                        "nopreamble"@,
                                    ),
                                },
                            ));
                        }
                    }
                    let mut wrapped = String::from_str("<div style=\"margin-bottom: 0.5em\">");
                    wrapped.append(html.as_str());
                    wrapped.append("</div>");
                    proof {
                        assert(wrapped@ == block_replacement_html_v(g, prev.acc->Some_0, render_it));
                    }
                    out.push(MdEvent::Html(wrapped));
                    out.push(MdEvent::HardBreak);
                    proof {
                        assert(out.deep_view() =~= prev.out.push(
                            MdEventV::Html(block_replacement_html_v(g, prev.acc->Some_0, render_it)),
                        ).push(MdEventV::HardBreak));
                    }
                } else {
                    out.push(ev.clone());
                    proof {
                        assert(out.deep_view() =~= prev.out.push(evs[idx as int]));
                    }
                }
            },
            MdEvent::Text(s) => {
                if acc_active {
                    acc_text.append(s.as_str());
                } else {
                    out.push(ev.clone());
                    proof {
                        assert(out.deep_view() =~= prev.out.push(evs[idx as int]));
                    }
                }
            },
            MdEvent::InlineCode(code) => {
                if settings.highlight_inline {
                    let html = match highlight(h, code.as_str(), true) {
                        Some(x) => x,
                        None => {
                            proof {
                                lemma_hl_failure_persists(evs, *settings, g, idx + 1);
                            }
                            return Err(RewriteError::HighlightFailed);
                        },
                    };
                    out.push(MdEvent::Html(html));
                    proof {
                        assert(out.deep_view() =~= prev.out.push(
                            MdEventV::Html(spec_highlight(g, code@, true)),
                        ));
                    }
                } else {
                    out.push(ev.clone());
                    proof {
                        assert(out.deep_view() =~= prev.out.push(evs[idx as int]));
                    }
                }
            },
            _ => {
                out.push(ev.clone());
                proof {
                    assert(out.deep_view() =~= prev.out.push(evs[idx as int]));
                }
            },
        }
        idx = idx + 1;
    }
    proof {
        assert(evs.take(n as int) =~= evs);
    }
    Ok(RewriteOutput { events: out, renders, warnings })
}

} // verus!
