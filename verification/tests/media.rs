use bot::{extract, file_url, Content, MediaKind, MediaReference};

fn reference(file_id: &str, kind: MediaKind) -> MediaReference {
    MediaReference { file_id: file_id.to_string(), kind }
}

#[test]
fn a_photo_yields_one_reference_for_each_variant() {
    for n in 0..6usize {
        let variants: Vec<String> = (0..n).map(|i| format!("photo-{}", i)).collect();
        let references = extract(&Content::Photo(variants.clone()));
        assert_eq!(references.len(), n);
        for (i, r) in references.iter().enumerate() {
            assert_eq!(r, &reference(&variants[i], MediaKind::Photo));
        }
    }
}

#[test]
fn photo_variants_keep_their_order() {
    let content = Content::Photo(vec!["small".to_string(), "medium".to_string(), "large".to_string()]);
    assert_eq!(
        extract(&content),
        vec![
            reference("small", MediaKind::Photo),
            reference("medium", MediaKind::Photo),
            reference("large", MediaKind::Photo),
        ]
    );
}

#[test]
fn text_yields_nothing() {
    assert_eq!(extract(&Content::Text("hello".to_string())), vec![]);
    assert_eq!(extract(&Content::Text(String::new())), vec![]);
    assert_eq!(extract(&Content::Text("/pause".to_string())), vec![]);
}

#[test]
fn unknown_content_yields_nothing() {
    assert_eq!(extract(&Content::Other), vec![]);
}

#[test]
fn a_single_file_yields_one_reference() {
    assert_eq!(extract(&Content::Video("v1".to_string())), vec![reference("v1", MediaKind::Video)]);
    assert_eq!(extract(&Content::Audio("a1".to_string())), vec![reference("a1", MediaKind::Audio)]);
    assert_eq!(extract(&Content::Voice("n1".to_string())), vec![reference("n1", MediaKind::Voice)]);
    assert_eq!(
        extract(&Content::Animation("g1".to_string())),
        vec![reference("g1", MediaKind::Animation)]
    );
}

#[test]
fn extraction_leaves_the_content_as_it_was() {
    let content = Content::Photo(vec!["a".to_string(), "b".to_string()]);
    let first = extract(&content);
    let second = extract(&content);
    assert_eq!(first, second);
    assert_eq!(content, Content::Photo(vec!["a".to_string(), "b".to_string()]));
}

#[test]
fn file_url_joins_token_and_path() {
    assert_eq!(
        file_url("123:abc", "photos/file_7.jpg"),
        "https://api.telegram.org/file/bot123:abc/photos/file_7.jpg"
    );
    assert_eq!(file_url("", ""), "https://api.telegram.org/file/bot/");
    assert_eq!(file_url("t", "d\u{e9}j\u{e0}/vu"), "https://api.telegram.org/file/bott/d\u{e9}j\u{e0}/vu");
}
