use typst_highlight::{
    is_typst_codeblock, lang_unspecified, resolve_lang, BlockKind, PreprocessSettings,
};

fn settings(typst_default: bool) -> PreprocessSettings {
    PreprocessSettings::new(false, typst_default, false, false)
}

#[test]
fn recognized_tags() {
    assert!(is_typst_codeblock("typ"));
    assert!(is_typst_codeblock("typst"));
    assert!(is_typst_codeblock("typ,norender"));
    assert!(is_typst_codeblock("typst-nopreamble"));
}

#[test]
fn unrecognized_tags() {
    assert!(!is_typst_codeblock("python"));
    assert!(!is_typst_codeblock(""));
    assert!(!is_typst_codeblock("rust"));
}

#[test]
fn fenced_tag_is_used_verbatim() {
    let s = settings(false);
    assert_eq!(resolve_lang(&BlockKind::Fenced("rust".to_string()), &s), Some("rust".to_string()));
    assert_eq!(
        resolve_lang(&BlockKind::Fenced("typ,norender".to_string()), &s),
        Some("typ,norender".to_string())
    );
}

#[test]
fn empty_fence_falls_back_to_default_only_when_enabled() {
    assert_eq!(resolve_lang(&BlockKind::Fenced(String::new()), &settings(false)), None);
    assert_eq!(
        resolve_lang(&BlockKind::Fenced(String::new()), &settings(true)),
        Some("typ".to_string())
    );
}

#[test]
fn indented_block_falls_back_to_default_only_when_enabled() {
    assert_eq!(resolve_lang(&BlockKind::Indented, &settings(false)), None);
    assert_eq!(resolve_lang(&BlockKind::Indented, &settings(true)), Some("typ".to_string()));
}

#[test]
fn untagged_blocks_count_as_unspecified() {
    assert!(lang_unspecified(&BlockKind::Fenced(String::new())));
    assert!(!lang_unspecified(&BlockKind::Fenced("typ".to_string())));
    assert!(lang_unspecified(&BlockKind::Indented));
}
