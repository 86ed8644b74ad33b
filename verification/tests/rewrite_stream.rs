use typst_highlight::{
    rewrite_events, warning_message, BlockKind, Highlighter, MdEvent, PreprocessSettings,
    RewriteError,
};

const GRAMMAR: &str =
    "name: Typst\nscope: source.typst\ncontexts:\n  main:\n    - match: 'let'\n      scope: keyword.control.typst\n";

const KEY_OF_LET: &str = "a6d869f64914396740b41915370a7accd650a69d77fc76f82e37f415531fe3a8";

fn engine() -> Highlighter {
    Highlighter::new(GRAMMAR).expect("grammar should load")
}

fn typ_block(text: &str) -> Vec<MdEvent> {
    vec![
        MdEvent::CodeBlockStart(BlockKind::Fenced("typ".to_string())),
        MdEvent::Text(text.to_string()),
        MdEvent::CodeBlockEnd(BlockKind::Fenced("typ".to_string())),
    ]
}

#[test]
fn typ_block_without_rendering_becomes_one_highlighted_html_event() {
    let h = engine();
    let settings = PreprocessSettings::new(false, false, false, false);
    let out = rewrite_events(&h, &typ_block("let x = 1\n"), &settings, "ch").expect("rewrite");
    assert_eq!(out.events.len(), 2);
    assert_eq!(out.events[1], MdEvent::HardBreak);
    match &out.events[0] {
        MdEvent::Html(html) => {
            assert!(html.starts_with(
                "<div style=\"margin-bottom: 0.5em\"><pre style=\"margin: 0\"><code class=\"language-typ hljs\">"
            ));
            assert!(html.ends_with("</code></pre>\n</div>"));
            assert!(!html.contains("<img"));
        }
        other => panic!("expected an HTML replacement, got {:?}", other),
    }
    assert!(out.renders.is_empty());
    assert_eq!(out.warnings, 0);
}

#[test]
fn rendering_emits_artifact_reference_and_request_synchronously() {
    let h = engine();
    let settings = PreprocessSettings::new(false, false, true, false);
    let out = rewrite_events(&h, &typ_block("let x = 1\n"), &settings, "ch").expect("rewrite");
    assert_eq!(out.renders.len(), 1);
    assert_eq!(out.renders[0].text, "let x = 1\n");
    assert_eq!(out.renders[0].key, KEY_OF_LET);
    assert!(out.renders[0].preamble);
    match &out.events[0] {
        MdEvent::Html(html) => {
            assert!(html.contains(&format!("src=\"typst-img/{}.svg\"", KEY_OF_LET)));
        }
        other => panic!("expected an HTML replacement, got {:?}", other),
    }
}

#[test]
fn identical_blocks_request_the_same_artifact() {
    let h = engine();
    let settings = PreprocessSettings::new(false, false, true, false);
    let mut events = typ_block("let x = 1\n");
    events.extend(typ_block("let x = 1\n"));
    let out = rewrite_events(&h, &events, &settings, "ch").expect("rewrite");
    assert_eq!(out.renders.len(), 2);
    assert_eq!(out.renders[0].key, out.renders[1].key);
}

#[test]
fn norender_tag_suppresses_rendering_only() {
    let h = engine();
    let settings = PreprocessSettings::new(false, false, true, false);
    let events = vec![
        MdEvent::CodeBlockStart(BlockKind::Fenced("typ,norender".to_string())),
        MdEvent::Text("let x = 1\n".to_string()),
        MdEvent::CodeBlockEnd(BlockKind::Fenced("typ,norender".to_string())),
    ];
    let out = rewrite_events(&h, &events, &settings, "ch").expect("rewrite");
    assert!(out.renders.is_empty());
    match &out.events[0] {
        MdEvent::Html(html) => assert!(!html.contains("<img")),
        other => panic!("expected an HTML replacement, got {:?}", other),
    }
}

#[test]
fn nopreamble_tag_marks_the_request() {
    let h = engine();
    let settings = PreprocessSettings::new(false, false, true, false);
    let events = vec![
        MdEvent::CodeBlockStart(BlockKind::Fenced("typst-nopreamble".to_string())),
        MdEvent::Text("let x = 1\n".to_string()),
        MdEvent::CodeBlockEnd(BlockKind::Fenced("typst-nopreamble".to_string())),
    ];
    let out = rewrite_events(&h, &events, &settings, "ch").expect("rewrite");
    assert_eq!(out.renders.len(), 1);
    assert!(!out.renders[0].preamble);
}

#[test]
fn indented_block_is_recognized_when_default_is_on() {
    let h = engine();
    let settings = PreprocessSettings::new(false, true, false, false);
    let events = vec![
        MdEvent::CodeBlockStart(BlockKind::Indented),
        MdEvent::Text("let x = 1\n".to_string()),
        MdEvent::CodeBlockEnd(BlockKind::Indented),
    ];
    let out = rewrite_events(&h, &events, &settings, "ch").expect("rewrite");
    assert_eq!(out.events.len(), 2);
    assert!(matches!(&out.events[0], MdEvent::Html(_)));
}

#[test]
fn document_without_recognized_blocks_passes_through_unchanged() {
    let h = engine();
    let settings = PreprocessSettings::new(true, false, true, false);
    let events = vec![
        MdEvent::Other(0),
        MdEvent::Text("hello ".to_string()),
        MdEvent::InlineCode("x+1".to_string()),
        MdEvent::CodeBlockStart(BlockKind::Fenced("python".to_string())),
        MdEvent::Text("print(1)\n".to_string()),
        MdEvent::CodeBlockEnd(BlockKind::Fenced("python".to_string())),
        MdEvent::Html("<b>kept</b>".to_string()),
        MdEvent::HardBreak,
        MdEvent::Other(1),
    ];
    let out = rewrite_events(&h, &events, &settings, "ch").expect("rewrite");
    assert_eq!(out.events, events);
    assert!(out.renders.is_empty());
    assert_eq!(out.warnings, 0);
}

#[test]
fn inline_code_is_highlighted_when_enabled() {
    let h = engine();
    let settings = PreprocessSettings::new(false, false, false, false);
    let events = vec![MdEvent::InlineCode("x+1".to_string())];
    let out = rewrite_events(&h, &events, &settings, "ch").expect("rewrite");
    assert_eq!(out.events.len(), 1);
    match &out.events[0] {
        MdEvent::Html(html) => {
            assert!(html.starts_with("<code class=\"hljs\">"));
            assert!(html.ends_with("</code>"));
        }
        other => panic!("expected an HTML replacement, got {:?}", other),
    }
}

#[test]
fn inline_code_is_left_alone_when_disabled() {
    let h = engine();
    let settings = PreprocessSettings::new(true, false, false, false);
    let events = vec![MdEvent::InlineCode("x+1".to_string())];
    let out = rewrite_events(&h, &events, &settings, "ch").expect("rewrite");
    assert_eq!(out.events, events);
}

#[test]
fn unpaired_end_of_recognized_block_fails_with_document_name() {
    let h = engine();
    let settings = PreprocessSettings::new(false, false, false, false);
    let events = vec![
        MdEvent::Text("before".to_string()),
        MdEvent::CodeBlockEnd(BlockKind::Fenced("typ".to_string())),
    ];
    match rewrite_events(&h, &events, &settings, "broken chapter") {
        Err(RewriteError::BrokenStructure { chapter, collected }) => {
            assert_eq!(chapter, "broken chapter");
            assert_eq!(collected, vec![MdEvent::Text("before".to_string())]);
        }
        other => panic!("expected a structural failure, got {:?}", other),
    }
}

#[test]
fn tokenizer_failure_fails_the_rewrite() {
    let broken =
        "name: B\nscope: source.b\ncontexts:\n  main:\n    - match: 'x'\n      push: missing\n";
    let h = Highlighter::new(broken).expect("grammar should load");
    let settings = PreprocessSettings::new(false, false, false, false);
    let events = vec![MdEvent::InlineCode("x".to_string())];
    match rewrite_events(&h, &events, &settings, "ch") {
        Err(RewriteError::HighlightFailed) => {}
        other => panic!("expected a highlighting failure, got {:?}", other),
    }
}

#[test]
fn untagged_fences_are_counted_when_warnings_are_on() {
    let h = engine();
    let settings = PreprocessSettings::new(false, false, false, true);
    let events = vec![
        MdEvent::CodeBlockStart(BlockKind::Fenced(String::new())),
        MdEvent::Text("plain\n".to_string()),
        MdEvent::CodeBlockEnd(BlockKind::Fenced(String::new())),
    ];
    let out = rewrite_events(&h, &events, &settings, "ch").expect("rewrite");
    assert_eq!(out.warnings, 1);
    assert_eq!(out.events, events);
    assert_eq!(warning_message("ch"), "Codeblock language not specified in ch");
}

#[test]
fn indented_blocks_are_counted_when_warnings_are_on() {
    let h = engine();
    let settings = PreprocessSettings::new(false, false, false, true);
    let events = vec![
        MdEvent::CodeBlockStart(BlockKind::Indented),
        MdEvent::Text("plain\n".to_string()),
        MdEvent::CodeBlockEnd(BlockKind::Indented),
    ];
    let out = rewrite_events(&h, &events, &settings, "ch").expect("rewrite");
    assert_eq!(out.warnings, 1);
    assert_eq!(out.events, events);
}

#[test]
fn untagged_fence_with_default_is_rewritten_and_counted() {
    let h = engine();
    let settings = PreprocessSettings::new(false, true, false, true);
    let events = vec![
        MdEvent::CodeBlockStart(BlockKind::Fenced(String::new())),
        MdEvent::Text("let x = 1\n".to_string()),
        MdEvent::CodeBlockEnd(BlockKind::Fenced(String::new())),
    ];
    let out = rewrite_events(&h, &events, &settings, "ch").expect("rewrite");
    assert_eq!(out.warnings, 1);
    assert!(matches!(&out.events[0], MdEvent::Html(_)));
}

#[test]
fn text_inside_recognized_block_is_buffered_not_emitted() {
    let h = engine();
    let settings = PreprocessSettings::new(false, false, true, false);
    let events = vec![
        MdEvent::CodeBlockStart(BlockKind::Fenced("typ".to_string())),
        MdEvent::Text("let a\n".to_string()),
        MdEvent::Text("let b\n".to_string()),
        MdEvent::CodeBlockEnd(BlockKind::Fenced("typ".to_string())),
    ];
    let out = rewrite_events(&h, &events, &settings, "ch").expect("rewrite");
    assert_eq!(out.events.len(), 2);
    assert_eq!(out.renders.len(), 1);
    assert_eq!(out.renders[0].text, "let a\nlet b\n");
}
