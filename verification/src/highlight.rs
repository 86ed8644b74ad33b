//! The highlight engine adapter: a tokenizer and a fixed color theme wrapped
//! into a deterministic `text -> HTML fragment` function for inline and block
//! modes.

use vstd::prelude::*;
use vstd::string::*;

use crate::text::{replace_sub, spec_replace, strip_newline, strip_trailing_newline};

verus! {

#[verifier::external_type_specification]
#[verifier::external_body]
pub struct ExSyntaxSet(syntect::parsing::SyntaxSet);

#[verifier::external_type_specification]
#[verifier::external_body]
pub struct ExTheme(syntect::highlighting::Theme);

/// The grammar source text a syntax set was built from.
pub uninterp spec fn loaded_grammar(syntaxes: syntect::parsing::SyntaxSet) -> Seq<char>;

/// Whether a grammar definition source parses: loading is deterministic, so
/// this is a function of the source text alone.
pub uninterp spec fn grammar_ok(grammar: Seq<char>) -> bool;

/// The styled HTML body that block-mode tokenization produces for a text, as
/// a function of the loaded grammar and the text alone (the theme is the
/// library's fixed one).
pub uninterp spec fn block_html_of(grammar: Seq<char>, text: Seq<char>) -> Seq<char>;

/// Whether block-mode tokenization of a text succeeds; tokenization is
/// deterministic, so this too is a function of the loaded grammar and the
/// text alone.
pub uninterp spec fn block_ok(grammar: Seq<char>, text: Seq<char>) -> bool;

/// The styled HTML body that inline-mode (single line) tokenization produces
/// for a text, as a function of the loaded grammar and the text alone.
pub uninterp spec fn inline_html_of(grammar: Seq<char>, text: Seq<char>) -> Seq<char>;

/// Whether inline-mode tokenization of a text succeeds, as a function of the
/// loaded grammar and the text alone.
pub uninterp spec fn inline_ok(grammar: Seq<char>, text: Seq<char>) -> bool;

/// Relies on syntect's `SyntaxDefinition::load_from_str` and
/// `SyntaxSetBuilder::build`: the returned set holds the bundled defaults plus
/// the definition parsed from `grammar`, so it is determined by `grammar`
/// alone, and parsing succeeds or fails deterministically for a given source.
#[verifier::external_body]
fn build_syntaxes(grammar: &str) -> (r: Option<syntect::parsing::SyntaxSet>)
    ensures
        r is Some <==> grammar_ok(grammar@),
        r matches Some(syntaxes) ==> loaded_grammar(syntaxes) == grammar@,
{
    let def = match syntect::parsing::syntax_definition::SyntaxDefinition::load_from_str(
        grammar,
        true,
        None,
    ) {
        Ok(d) => d,
        Err(_) => return None,
    };
    let mut builder = syntect::parsing::SyntaxSet::load_defaults_nonewlines().into_builder();
    builder.add(def);
    Some(builder.build())
}

/// Relies on syntect's `ThemeSet::load_defaults`, whose bundled set always
/// contains the `Solarized (dark)` theme, so the lookup always succeeds; that
/// theme's foreground is overridden with the color passed in, a sentinel a
/// later exact-text substitution targets.
#[verifier::external_body]
fn build_theme(r: u8, g: u8, b: u8, a: u8) -> (t: Option<syntect::highlighting::Theme>)
    ensures
        t is Some,
{
    let themes = syntect::highlighting::ThemeSet::load_defaults();
    let mut theme = themes.themes.get("Solarized (dark)")?.clone();
    theme.settings.foreground = Some(syntect::highlighting::Color { r, g, b, a });
    Some(theme)
}

/// The highlight engine: a grammar set and the fixed theme, loaded once and
/// shared through a whole run.
pub struct Highlighter {
    syntaxes: syntect::parsing::SyntaxSet,
    theme: syntect::highlighting::Theme,
}

/// Relies on syntect's `HighlightLines::highlight_line` and
/// `append_highlighted_html_for_styled_line` over the last loaded syntax and
/// the library's fixed theme. The tokenizer carries state from line to line,
/// so one call covers the whole block; highlighting is deterministic, making
/// both the result and whether tokenization succeeds functions of the loaded
/// grammar and the text alone. Returns `None` exactly when tokenization
/// fails.
#[verifier::external_body]
fn syntect_block_html(h: &Highlighter, text: &str) -> (r: Option<String>)
    ensures
        r is Some <==> block_ok(loaded_grammar(h.syntaxes), text@),
        r matches Some(html) ==> html@ == block_html_of(loaded_grammar(h.syntaxes), text@),
{
    let syntax = h.syntaxes.syntaxes().last()?;
    let mut lines = syntect::easy::HighlightLines::new(syntax, &h.theme);
    let mut html = String::new();
    for line in syntect::util::LinesWithEndings::from(text) {
        let regions = lines.highlight_line(line, &h.syntaxes).ok()?;
        syntect::html::append_highlighted_html_for_styled_line(
            &regions[..],
            syntect::html::IncludeBackground::No,
            &mut html,
        ).ok()?;
    }
    Some(html)
}

/// Relies on syntect's `HighlightLines::highlight_line` and
/// `styled_line_to_highlighted_html` over the last loaded syntax and the
/// library's fixed theme: the whole span is tokenized as one line, and both
/// the result and whether tokenization succeeds are functions of the loaded
/// grammar and the text alone. Returns `None` exactly when tokenization
/// fails.
#[verifier::external_body]
fn syntect_inline_html(h: &Highlighter, text: &str) -> (r: Option<String>)
    ensures
        r is Some <==> inline_ok(loaded_grammar(h.syntaxes), text@),
        r matches Some(html) ==> html@ == inline_html_of(loaded_grammar(h.syntaxes), text@),
{
    let syntax = h.syntaxes.syntaxes().last()?;
    let mut lines = syntect::easy::HighlightLines::new(syntax, &h.theme);
    let regions = lines.highlight_line(text, &h.syntaxes).ok()?;
    syntect::html::styled_line_to_highlighted_html(
        &regions[..],
        syntect::html::IncludeBackground::No,
    ).ok()
}

impl Highlighter {
    /// The grammar source this engine was built from.
    pub closed spec fn grammar(&self) -> Seq<char> {
        loaded_grammar(self.syntaxes)
    }

    /// Builds the engine from a grammar definition source: the bundled
    /// default syntaxes plus the given grammar, and the fixed theme with its
    /// foreground overridden by the sentinel color. Returns `None` exactly
    /// when the grammar source is malformed.
    pub fn new(grammar: &str) -> (r: Option<Highlighter>)
        ensures
            r is Some <==> grammar_ok(grammar@),
            r matches Some(h) ==> h.grammar() == grammar@,
    {
        let syntaxes = match build_syntaxes(grammar) {
            Some(s) => s,
            None => return None,
        };
        let theme = match build_theme(27, 223, 51, 99) {
            Some(t) => t,
            None => return None,
        };
        Some(Highlighter { syntaxes, theme })
    }
}

/// The HTML fragment `highlight` returns: the text with one trailing line
/// feed stripped, tokenized in the requested mode, wrapped in the mode's
/// fixed markup, with the sentinel foreground color replaced by a CSS
/// variable reference.
pub open spec fn spec_highlight(grammar: Seq<char>, s: Seq<char>, inline: bool) -> Seq<char> {
    let t = strip_newline(s);
    let wrapped = if inline {
        "<code class=\"hljs\">"@ + inline_html_of(grammar, t) + "</code>"@
    } else {
        "<pre style=\"margin: 0\"><code class=\"language-typ hljs\">"@ + block_html_of(grammar, t)
            + "</code></pre>\n"@
    };
    spec_replace(wrapped, "#1bdf3363"@, "var(--fg)"@)
}

/// Whether `highlight` succeeds on a text: exactly when tokenizing the
/// newline-stripped text in the requested mode succeeds.
pub open spec fn spec_highlight_ok(grammar: Seq<char>, s: Seq<char>, inline: bool) -> bool {
    if inline {
        inline_ok(grammar, strip_newline(s))
    } else {
        block_ok(grammar, strip_newline(s))
    }
}

/// Highlights a text as an HTML fragment: inline mode wraps a single
/// tokenized line in an inline code element; block mode wraps the tokenized
/// lines in a preformatted, language-tagged block. Returns `None` exactly
/// when the engine's tokenizer fails on the newline-stripped text.
pub fn highlight(h: &Highlighter, s: &str, inline: bool) -> (r: Option<String>)
    ensures
        r is Some <==> spec_highlight_ok(h.grammar(), s@, inline),
        r matches Some(html) ==> html@ == spec_highlight(h.grammar(), s@, inline),
{
    let t = strip_trailing_newline(s);
    let body = if inline {
        syntect_inline_html(h, t.as_str())
    } else {
        syntect_block_html(h, t.as_str())
    };
    let body = match body {
        Some(b) => b,
        None => return None,
    };
    let mut wrapped = if inline {
        String::from_str("<code class=\"hljs\">")
    } else {
        String::from_str("<pre style=\"margin: 0\"><code class=\"language-typ hljs\">")
    };
    wrapped.append(body.as_str());
    if inline {
        wrapped.append("</code>");
    } else {
        wrapped.append("</code></pre>\n");
    }
    Some(replace_sub(wrapped.as_str(), "#1bdf3363", "var(--fg)"))
}

/// Trailing-newline normalization: a text without a final line feed and the
/// same text with one appended highlight to identical HTML fragments, and
/// highlighting succeeds on one exactly when it succeeds on the other.
pub proof fn lemma_highlight_strips_trailing_newline(
    grammar: Seq<char>,
    t: Seq<char>,
    inline: bool,
)
    requires
        t.len() == 0 || t.last() != '\n',
    ensures
        spec_highlight(grammar, t, inline) == spec_highlight(grammar, t.push('\n'), inline),
        spec_highlight_ok(grammar, t, inline) == spec_highlight_ok(grammar, t.push('\n'), inline),
{
    assert(t.push('\n').drop_last() =~= t);
}

} // verus!
