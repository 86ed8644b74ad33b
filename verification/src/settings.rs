//! The immutable configuration snapshot read once per run.

use vstd::prelude::*;

verus! {

/// Rendering settings, fixed for a whole run and passed by reference.
#[derive(Clone, Copy, Debug)]
pub struct PreprocessSettings {
    /// Replace inline code spans with highlighted HTML.
    pub highlight_inline: bool,
    /// Treat untagged code blocks as the target language.
    pub typst_default: bool,
    /// Invoke the external renderer for recognized blocks.
    pub render: bool,
    /// Report code blocks that carry no language tag.
    pub warn_not_specified: bool,
}

impl PreprocessSettings {
    /// Builds the snapshot from the host tool's four boolean options; the
    /// `disable_inline` option is stored inverted.
    pub fn new(
        disable_inline: bool,
        typst_default: bool,
        render: bool,
        warn_not_specified: bool,
    ) -> (r: PreprocessSettings)
        ensures
            r.highlight_inline == !disable_inline,
            r.typst_default == typst_default,
            r.render == render,
            r.warn_not_specified == warn_not_specified,
    {
        PreprocessSettings {
            highlight_inline: !disable_inline,
            typst_default,
            render,
            warn_not_specified,
        }
    }
}

} // verus!
