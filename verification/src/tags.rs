//! Language-tag resolution for code blocks and recognition of the target
//! markup language.

use vstd::prelude::*;
use vstd::string::*;

use crate::events::{BlockKind, BlockKindV};
use crate::settings::PreprocessSettings;
use crate::text::{contains_sub, spec_contains};

verus! {

/// A tag identifies the target language when it contains either accepted
/// spelling of the language name.
pub open spec fn is_typst_tag(s: Seq<char>) -> bool {
    spec_contains(s, "typ"@) || spec_contains(s, "typst"@)
}

/// The language a code block resolves to: a fenced block's own non-empty tag,
/// else the default tag when untagged blocks are treated as the target
/// language, else nothing.
pub open spec fn resolved_lang_v(kind: BlockKindV, settings: PreprocessSettings) -> Option<
    Seq<char>,
> {
    match kind {
        BlockKindV::Fenced(tag) => if tag.len() > 0 {
            Some(tag)
        } else if settings.typst_default {
            Some("typ"@)
        } else {
            None
        },
        BlockKindV::Indented => if settings.typst_default {
            Some("typ"@)
        } else {
            None
        },
    }
}

/// A block that carries no language tag — a fenced block with an empty tag,
/// or an indented block: the fallback path, on which a missing-tag diagnostic
/// is due.
pub open spec fn lang_unspecified_v(kind: BlockKindV) -> bool {
    match kind {
        BlockKindV::Fenced(tag) => tag.len() == 0,
        BlockKindV::Indented => true,
    }
}

/// A block is recognized when its resolved language identifies the target
/// markup language.
pub open spec fn recognized_v(kind: BlockKindV, settings: PreprocessSettings) -> bool {
    resolved_lang_v(kind, settings) matches Some(lang) && is_typst_tag(lang)
}

/// Whether a resolved tag identifies the target markup language.
pub fn is_typst_codeblock(s: &str) -> (r: bool)
    ensures
        r == is_typst_tag(s@),
{
    contains_sub(s, "typ") || contains_sub(s, "typst")
}

/// Resolves the language of a code block, mirroring [`resolved_lang_v`].
pub fn resolve_lang(kind: &BlockKind, settings: &PreprocessSettings) -> (r: Option<String>)
    ensures
        match resolved_lang_v(kind@, *settings) {
            Some(lang) => r matches Some(l) && l@ == lang,
            None => r is None,
        },
{
    match kind {
        BlockKind::Fenced(tag) => {
            if !tag.as_str().is_empty() {
                Some(tag.clone())
            } else if settings.typst_default {
                Some(String::from_str("typ"))
            } else {
                None
            }
        },
        BlockKind::Indented => {
            if settings.typst_default {
                Some(String::from_str("typ"))
            } else {
                None
            }
        },
    }
}

/// Whether a code-block end must be counted as a missing-tag diagnostic,
/// mirroring [`lang_unspecified_v`].
pub fn lang_unspecified(kind: &BlockKind) -> (r: bool)
    ensures
        r == lang_unspecified_v(kind@),
{
    match kind {
        BlockKind::Fenced(tag) => tag.as_str().is_empty(),
        BlockKind::Indented => true,
    }
}

} // verus!
