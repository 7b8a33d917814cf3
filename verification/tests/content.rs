use slight::content::{
    DiffSummary, NormalizedContent, NormalizedToolContent, ResourceContent, TerminalRef, ToolLocation,
    WireContentBlock, WireEmbeddedResource, WireResourceLink, WireToolCallContent, WireToolCallLocation,
};

#[test]
fn text_block_converts_to_text() {
    let block = WireContentBlock::Text { text: "hello".to_string() };
    assert_eq!(
        NormalizedContent::from_wire(&block),
        Some(NormalizedContent::Text { text: "hello".to_string() })
    );
}

#[test]
fn image_block_keeps_base64_and_mime_type() {
    let block = WireContentBlock::Image {
        data: "aGVsbG8=".to_string(),
        mime_type: "image/png".to_string(),
        uri: Some("file:///tmp/x.png".to_string()),
    };
    match NormalizedContent::from_wire(&block).unwrap() {
        NormalizedContent::Image { data_base64, mime_type, uri } => {
            assert_eq!(data_base64, "aGVsbG8=");
            assert_eq!(mime_type, "image/png");
            assert_eq!(uri.as_deref(), Some("file:///tmp/x.png"));
        }
        other => panic!("expected image, got {other:?}"),
    }
}

#[test]
fn audio_block_keeps_base64_and_mime_type() {
    let block = WireContentBlock::Audio { data: "YXVkaW8=".to_string(), mime_type: "audio/mpeg".to_string() };
    assert_eq!(
        NormalizedContent::from_wire(&block),
        Some(NormalizedContent::Audio {
            data_base64: "YXVkaW8=".to_string(),
            mime_type: "audio/mpeg".to_string(),
        })
    );
    assert_eq!(NormalizedContent::from_wire(&block).unwrap().text_fallback(), "");
}

#[test]
fn resource_link_summarizes_fields() {
    let block = WireContentBlock::ResourceLink(WireResourceLink {
        uri: "file:///work/src/main.rs".to_string(),
        name: "src/main.rs".to_string(),
        mime_type: Some("text/x-rust".to_string()),
        title: Some("main.rs".to_string()),
        description: None,
        size: Some(120),
    });
    match NormalizedContent::from_wire(&block).unwrap() {
        NormalizedContent::ResourceLink(summary) => {
            assert_eq!(summary.name, "src/main.rs");
            assert_eq!(summary.uri, "file:///work/src/main.rs");
            assert_eq!(summary.title.as_deref(), Some("main.rs"));
            assert_eq!(summary.size, Some(120));
        }
        other => panic!("expected resource link, got {other:?}"),
    }
}

#[test]
fn embedded_text_resource_converts() {
    let block = WireContentBlock::Resource(WireEmbeddedResource::Text {
        uri: "file:///work/src/main.rs".to_string(),
        text: "fn main() {}".to_string(),
        mime_type: None,
    });
    match NormalizedContent::from_wire(&block).unwrap() {
        NormalizedContent::Resource(ResourceContent::Text { text, uri, .. }) => {
            assert_eq!(text, "fn main() {}");
            assert_eq!(uri, "file:///work/src/main.rs");
        }
        other => panic!("expected text resource, got {other:?}"),
    }
}

#[test]
fn embedded_blob_resource_converts() {
    let block = WireContentBlock::Resource(WireEmbeddedResource::Blob {
        uri: "file:///work/blob.bin".to_string(),
        blob: "AAAA".to_string(),
        mime_type: None,
    });
    match NormalizedContent::from_wire(&block).unwrap() {
        NormalizedContent::Resource(ResourceContent::Blob { data_base64, uri, .. }) => {
            assert_eq!(data_base64, "AAAA");
            assert_eq!(uri, "file:///work/blob.bin");
        }
        other => panic!("expected blob resource, got {other:?}"),
    }
}

#[test]
fn tool_call_diff_and_terminal_convert() {
    let diff = WireToolCallContent::Diff {
        path: "/work/src/main.rs".to_string(),
        old_text: Some("fn main() {}".to_string()),
        new_text: "fn main() {}".to_string(),
    };
    let terminal = WireToolCallContent::Terminal { terminal_id: "term-1".to_string() };
    assert_eq!(
        NormalizedToolContent::from_wire(&diff),
        Some(NormalizedToolContent::Diff(DiffSummary {
            path: "/work/src/main.rs".to_string(),
            old_text: Some("fn main() {}".to_string()),
            new_text: "fn main() {}".to_string(),
        }))
    );
    assert_eq!(
        NormalizedToolContent::from_wire(&terminal),
        Some(NormalizedToolContent::Terminal(TerminalRef { terminal_id: "term-1".to_string() }))
    );
}

#[test]
fn tool_call_text_content_converts() {
    let content = WireToolCallContent::Content(WireContentBlock::Text { text: "output".to_string() });
    assert_eq!(
        NormalizedToolContent::from_wire(&content),
        Some(NormalizedToolContent::Content(Box::new(NormalizedContent::Text { text: "output".to_string() })))
    );
}

#[test]
fn location_includes_optional_line() {
    let location = WireToolCallLocation { path: "/work/src/main.rs".to_string(), line: Some(42) };
    assert_eq!(
        ToolLocation::from_wire(&location),
        ToolLocation { path: "/work/src/main.rs".to_string(), line: Some(42) }
    );
}

#[test]
fn unknown_blocks_are_dropped() {
    assert_eq!(NormalizedContent::from_wire(&WireContentBlock::Unknown), None);
    assert_eq!(NormalizedToolContent::from_wire(&WireToolCallContent::Unknown), None);
}

#[test]
fn location_detail_appends_line() {
    let location = WireToolCallLocation { path: "/work/src/main.rs".to_string(), line: Some(42) };
    assert_eq!(slight::content::location_detail(&location), "/work/src/main.rs:42");
    let bare = WireToolCallLocation { path: "/work/src/main.rs".to_string(), line: None };
    assert_eq!(slight::content::location_detail(&bare), "/work/src/main.rs");
}

#[test]
fn blob_without_mime_type_is_labelled_as_octet_stream() {
    let content = NormalizedContent::Resource(ResourceContent::Blob {
        uri: "file:///work/blob.bin".to_string(),
        data_base64: "AAAA".to_string(),
        mime_type: None,
    });
    let block = slight::session_types::ContentBlock::from_normalized(&content);
    assert_eq!(block.data_base64.as_deref(), Some("AAAA"));
    assert_eq!(block.mime_type.as_deref(), Some("application/octet-stream"));
    assert_eq!(block.id.len(), 36);
}
