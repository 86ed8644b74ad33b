//! Markdown preprocessing library for Typst code blocks: recognizes
//! language-tagged code-block regions in a parsed event stream, highlights
//! their text as HTML, and plans content-addressed rendering work for an
//! external typesetting compiler.

use vstd::prelude::*;

mod events;
mod hash;
mod highlight;
mod render;
mod rewriter;
mod settings;
mod tags;
mod text;

pub use events::{BlockKind, BlockKindV, MdEvent, MdEventV};
pub use hash::{cache_key, is_lower_hex_digit, lemma_cache_key_deterministic, sha256_hex_of};
pub use highlight::{
    block_html_of, block_ok, grammar_ok, highlight, inline_html_of, inline_ok,
    lemma_highlight_strips_trailing_newline, loaded_grammar, spec_highlight, spec_highlight_ok,
    Highlighter,
};
pub use render::{
    artifact_file_name, artifact_subdir, compiler_args, compiler_input,
    lemma_render_cache_idempotent, plan_render, preamble_v, source_file_name, source_subdir,
    spec_compiler_input, CompileJob, RenderRequest, RenderRequestV,
};
pub use rewriter::{
    block_replacement_html_v, image_html, image_html_v, lemma_passthrough_preserved,
    neutral_event_v, rewrite_events, rewrite_fold, rewrite_step, warning_message,
    RewriteError, RewriteOutcomeV, RewriteOutput, RewriteStateV,
};
pub use settings::PreprocessSettings;
pub use tags::{
    is_typst_codeblock, is_typst_tag, lang_unspecified, lang_unspecified_v, recognized_v,
    resolve_lang, resolved_lang_v,
};
pub use text::{
    contains_sub, eq_str, replace_sub, spec_contains, spec_contains_at, spec_replace,
    strip_newline, strip_trailing_newline,
};

verus! {

/// The preprocessor itself; its host-tool plumbing lives outside the library.
pub struct TypstHighlight;

impl TypstHighlight {
    /// The name under which the preprocessor is registered.
    pub fn name(&self) -> (r: &'static str)
        ensures
            r@ == "typst-highlight"@,
    {
        "typst-highlight"
    }

    /// The preprocessor supports exactly the HTML renderer.
    pub fn supports_renderer(&self, renderer: &str) -> (r: bool)
        ensures
            r == (renderer@ == "html"@),
    {
        text::eq_str(renderer, "html")
    }
}

} // verus!
