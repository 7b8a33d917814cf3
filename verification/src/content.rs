//! Normalized, agent-neutral rich content and tool-update summaries.
//!
//! ACP content blocks are tagged payloads: text, image, audio, resource links
//! and embedded resources; tool calls add diffs, terminal references and file
//! locations. The `Wire*` types hold exactly the fields of those ACP payloads
//! that the host reads, and the `Normalized*` types are the flattened forms
//! that the rest of the host consumes. Unknown variants are dropped; binary
//! payloads stay base64 strings labelled with their MIME type.

use vstd::prelude::*;

verus! {

/// An ACP resource link as carried on the wire.
#[derive(Debug, Clone, PartialEq, Eq)]
pub struct WireResourceLink {
    pub uri: String,
    pub name: String,
    pub mime_type: Option<String>,
    pub title: Option<String>,
    pub description: Option<String>,
    pub size: Option<i64>,
}

/// The contents of an ACP embedded resource.
#[derive(Debug, Clone, PartialEq, Eq)]
pub enum WireEmbeddedResource {
    Text { uri: String, text: String, mime_type: Option<String> },
    Blob { uri: String, blob: String, mime_type: Option<String> },
    /// A resource variant this host does not model.
    Unknown,
}

/// An ACP content block as carried on the wire.
#[derive(Debug, Clone, PartialEq, Eq)]
pub enum WireContentBlock {
    Text { text: String },
    Image { data: String, mime_type: String, uri: Option<String> },
    Audio { data: String, mime_type: String },
    ResourceLink(WireResourceLink),
    Resource(WireEmbeddedResource),
    /// A content variant this host does not model.
    Unknown,
}

/// An ACP tool-call content entry as carried on the wire.
#[derive(Debug, Clone, PartialEq, Eq)]
pub enum WireToolCallContent {
    Content(WireContentBlock),
    Diff { path: String, old_text: Option<String>, new_text: String },
    Terminal { terminal_id: String },
    /// A tool content variant this host does not model.
    Unknown,
}

/// An ACP tool-call location as carried on the wire.
#[derive(Debug, Clone, PartialEq, Eq)]
pub struct WireToolCallLocation {
    pub path: String,
    pub line: Option<u32>,
}

/// A normalized content block carried by a message or tool-call update.
#[derive(Debug, Clone, PartialEq, Eq)]
pub enum NormalizedContent {
    /// Plain or Markdown text.
    Text { text: String },
    /// Base64-encoded image data with its MIME type.
    Image { data_base64: String, mime_type: String, uri: Option<String> },
    /// Base64-encoded audio data with its MIME type.
    Audio { data_base64: String, mime_type: String },
    /// A reference to a resource the agent can read, without its contents.
    ResourceLink(ResourceLinkSummary),
    /// Resource contents embedded directly in the message.
    Resource(ResourceContent),
}

/// A resource reference the agent can read.
#[derive(Debug, Clone, PartialEq, Eq)]
pub struct ResourceLinkSummary {
    pub uri: String,
    pub name: String,
    pub mime_type: Option<String>,
    pub title: Option<String>,
    pub description: Option<String>,
    pub size: Option<i64>,
}

/// Embedded resource contents, either text or base64-encoded binary.
#[derive(Debug, Clone, PartialEq, Eq)]
pub enum ResourceContent {
    Text { uri: String, text: String, mime_type: Option<String> },
    Blob { uri: String, data_base64: String, mime_type: Option<String> },
}

/// Normalized content produced by a tool call.
#[derive(Debug, Clone, PartialEq, Eq)]
pub enum NormalizedToolContent {
    /// A standard content block (text, image, audio, or resource).
    Content(Box<NormalizedContent>),
    /// A file modification shown as a diff.
    Diff(DiffSummary),
    /// A reference to a terminal that produced output.
    Terminal(TerminalRef),
}

/// A normalized file diff from a tool call.
#[derive(Debug, Clone, PartialEq, Eq)]
pub struct DiffSummary {
    pub path: String,
    pub old_text: Option<String>,
    pub new_text: String,
}

/// A reference to a terminal that produced tool output.
#[derive(Debug, Clone, PartialEq, Eq)]
pub struct TerminalRef {
    pub terminal_id: String,
}

/// A file location touched by a tool call.
#[derive(Debug, Clone, PartialEq, Eq)]
pub struct ToolLocation {
    pub path: String,
    pub line: Option<u32>,
}

/// The summary of a wire resource link: every field carried over.
pub open spec fn spec_link_summary(link: WireResourceLink) -> ResourceLinkSummary {
    ResourceLinkSummary {
        uri: link.uri,
        name: link.name,
        mime_type: link.mime_type,
        title: link.title,
        description: link.description,
        size: link.size,
    }
}

/// `res` is the normalized contents of an embedded resource; a variant the
/// host does not model becomes an empty text resource.
pub open spec fn resource_content_of(resource: WireEmbeddedResource, res: ResourceContent) -> bool {
    match resource {
        WireEmbeddedResource::Text { uri, text, mime_type } =>
            res == ResourceContent::Text { uri, text, mime_type },
        WireEmbeddedResource::Blob { uri, blob, mime_type } =>
            res == ResourceContent::Blob { uri, data_base64: blob, mime_type },
        WireEmbeddedResource::Unknown => res matches ResourceContent::Text { uri, text, mime_type }
            && uri@ == Seq::<char>::empty() && text@ == Seq::<char>::empty() && mime_type is None,
    }
}

/// `res` is the normalized form of one wire content block: `None` exactly
/// for unknown variants, otherwise the same fields under their normalized
/// names.
pub open spec fn content_from_wire(block: WireContentBlock, res: Option<NormalizedContent>) -> bool {
    match block {
        WireContentBlock::Text { text } => res == Some(NormalizedContent::Text { text }),
        WireContentBlock::Image { data, mime_type, uri } =>
            res == Some(NormalizedContent::Image { data_base64: data, mime_type, uri }),
        WireContentBlock::Audio { data, mime_type } =>
            res == Some(NormalizedContent::Audio { data_base64: data, mime_type }),
        WireContentBlock::ResourceLink(link) =>
            res == Some(NormalizedContent::ResourceLink(spec_link_summary(link))),
        WireContentBlock::Resource(resource) =>
            res matches Some(NormalizedContent::Resource(rc)) && resource_content_of(resource, rc),
        WireContentBlock::Unknown => res is None,
    }
}

/// `res` is the normalized form of one wire tool-call content entry: `None`
/// for unknown variants and for content blocks that normalize to nothing.
pub open spec fn tool_content_from_wire(content: WireToolCallContent, res: Option<NormalizedToolContent>) -> bool {
    match content {
        WireToolCallContent::Content(block) => match res {
            Some(NormalizedToolContent::Content(c)) => content_from_wire(block, Some(*c)),
            Some(_) => false,
            None => content_from_wire(block, None),
        },
        WireToolCallContent::Diff { path, old_text, new_text } =>
            res == Some(NormalizedToolContent::Diff(DiffSummary { path, old_text, new_text })),
        WireToolCallContent::Terminal { terminal_id } =>
            res == Some(NormalizedToolContent::Terminal(TerminalRef { terminal_id })),
        WireToolCallContent::Unknown => res is None,
    }
}

/// The text shown for a content block by clients that only render text:
/// media is empty, a resource link is its title (or name) followed by its URI
/// in parentheses, a text resource is its text and a blob resource its URI.
pub open spec fn spec_text_fallback(content: NormalizedContent) -> Seq<char> {
    match content {
        NormalizedContent::Text { text } => text@,
        NormalizedContent::Image { .. } => Seq::empty(),
        NormalizedContent::Audio { .. } => Seq::empty(),
        NormalizedContent::ResourceLink(link) => match link.title {
            Some(title) => title@ + " ("@ + link.uri@ + ")"@,
            None => link.name@ + " ("@ + link.uri@ + ")"@,
        },
        NormalizedContent::Resource(ResourceContent::Text { text, .. }) => text@,
        NormalizedContent::Resource(ResourceContent::Blob { uri, .. }) => uri@,
    }
}

fn clone_opt_string(s: &Option<String>) -> (res: Option<String>)
    ensures
        res == *s,
{
    match s {
        Some(v) => Some(v.clone()),
        None => None,
    }
}

impl ResourceLinkSummary {
    pub fn from_wire_link(link: &WireResourceLink) -> (res: Self)
        ensures
            res == spec_link_summary(*link),
    {
        ResourceLinkSummary {
            uri: link.uri.clone(),
            name: link.name.clone(),
            mime_type: clone_opt_string(&link.mime_type),
            title: clone_opt_string(&link.title),
            description: clone_opt_string(&link.description),
            size: link.size,
        }
    }
}

impl ResourceContent {
    pub fn from_embedded(resource: &WireEmbeddedResource) -> (res: Self)
        ensures
            resource_content_of(*resource, res),
    {
        match resource {
            WireEmbeddedResource::Text { uri, text, mime_type } => ResourceContent::Text {
                uri: uri.clone(),
                text: text.clone(),
                mime_type: clone_opt_string(mime_type),
            },
            WireEmbeddedResource::Blob { uri, blob, mime_type } => ResourceContent::Blob {
                uri: uri.clone(),
                data_base64: blob.clone(),
                mime_type: clone_opt_string(mime_type),
            },
            WireEmbeddedResource::Unknown => ResourceContent::Text {
                uri: String::new(),
                text: String::new(),
                mime_type: None,
            },
        }
    }
}

impl NormalizedContent {
    /// Converts one conformant ACP content block, dropping unknown variants.
    pub fn from_wire(block: &WireContentBlock) -> (res: Option<Self>)
        ensures
            content_from_wire(*block, res),
    {
        match block {
            WireContentBlock::Text { text } => Some(NormalizedContent::Text { text: text.clone() }),
            WireContentBlock::Image { data, mime_type, uri } => Some(NormalizedContent::Image {
                data_base64: data.clone(),
                mime_type: mime_type.clone(),
                uri: clone_opt_string(uri),
            }),
            WireContentBlock::Audio { data, mime_type } => Some(NormalizedContent::Audio {
                data_base64: data.clone(),
                mime_type: mime_type.clone(),
            }),
            WireContentBlock::ResourceLink(link) => Some(
                NormalizedContent::ResourceLink(ResourceLinkSummary::from_wire_link(link)),
            ),
            WireContentBlock::Resource(resource) => Some(
                NormalizedContent::Resource(ResourceContent::from_embedded(resource)),
            ),
            WireContentBlock::Unknown => None,
        }
    }

    /// A plain-text representation for clients that only understand text.
    pub fn text_fallback(&self) -> (res: String)
        ensures
            res@ == spec_text_fallback(*self),
    {
        match self {
            NormalizedContent::Text { text } => text.clone(),
            NormalizedContent::Image { .. } => String::new(),
            NormalizedContent::Audio { .. } => String::new(),
            NormalizedContent::ResourceLink(link) => {
                let mut res = match &link.title {
                    Some(title) => title.clone(),
                    None => link.name.clone(),
                };
                res.append(" (");
                res.append(link.uri.as_str());
                res.append(")");
                res
            },
            NormalizedContent::Resource(ResourceContent::Text { text, .. }) => text.clone(),
            NormalizedContent::Resource(ResourceContent::Blob { uri, .. }) => uri.clone(),
        }
    }

    /// A structurally equal copy of this content block.
    pub fn duplicate(&self) -> (res: Self)
        ensures
            res == *self,
    {
        match self {
            NormalizedContent::Text { text } => NormalizedContent::Text { text: text.clone() },
            NormalizedContent::Image { data_base64, mime_type, uri } => NormalizedContent::Image {
                data_base64: data_base64.clone(),
                mime_type: mime_type.clone(),
                uri: clone_opt_string(uri),
            },
            NormalizedContent::Audio { data_base64, mime_type } => NormalizedContent::Audio {
                data_base64: data_base64.clone(),
                mime_type: mime_type.clone(),
            },
            NormalizedContent::ResourceLink(link) => NormalizedContent::ResourceLink(
                ResourceLinkSummary {
                    uri: link.uri.clone(),
                    name: link.name.clone(),
                    mime_type: clone_opt_string(&link.mime_type),
                    title: clone_opt_string(&link.title),
                    description: clone_opt_string(&link.description),
                    size: link.size,
                },
            ),
            NormalizedContent::Resource(ResourceContent::Text { uri, text, mime_type }) =>
                NormalizedContent::Resource(ResourceContent::Text {
                    uri: uri.clone(),
                    text: text.clone(),
                    mime_type: clone_opt_string(mime_type),
                }),
            NormalizedContent::Resource(ResourceContent::Blob { uri, data_base64, mime_type }) =>
                NormalizedContent::Resource(ResourceContent::Blob {
                    uri: uri.clone(),
                    data_base64: data_base64.clone(),
                    mime_type: clone_opt_string(mime_type),
                }),
        }
    }
}

impl NormalizedToolContent {
    /// Converts one conformant ACP tool-call content entry, dropping unknown
    /// variants.
    pub fn from_wire(content: &WireToolCallContent) -> (res: Option<Self>)
        ensures
            tool_content_from_wire(*content, res),
    {
        match content {
            WireToolCallContent::Content(block) => match NormalizedContent::from_wire(block) {
                Some(c) => Some(NormalizedToolContent::Content(Box::new(c))),
                None => None,
            },
            WireToolCallContent::Diff { path, old_text, new_text } => Some(
                NormalizedToolContent::Diff(DiffSummary {
                    path: path.clone(),
                    old_text: clone_opt_string(old_text),
                    new_text: new_text.clone(),
                }),
            ),
            WireToolCallContent::Terminal { terminal_id } => Some(
                NormalizedToolContent::Terminal(TerminalRef { terminal_id: terminal_id.clone() }),
            ),
            WireToolCallContent::Unknown => None,
        }
    }
}

impl ToolLocation {
    pub fn from_wire(location: &WireToolCallLocation) -> (res: Self)
        ensures
            res.path == location.path,
            res.line == location.line,
    {
        ToolLocation { path: location.path.clone(), line: location.line }
    }
}

/// The human-readable detail of a tool location: its path, followed by a
/// colon and the line number when one is known.
pub open spec fn spec_location_detail(path: Seq<char>, line: Option<u32>) -> Seq<char> {
    match line {
        Some(l) => path + ":"@ + crate::text::spec_decimal(l as nat),
        None => path,
    }
}

/// The detail string shown for a tool call's first location.
pub fn location_detail(location: &WireToolCallLocation) -> (res: String)
    ensures
        res@ == spec_location_detail(location.path@, location.line),
{
    match location.line {
        Some(line) => {
            let mut res = location.path.clone();
            res.append(":");
            let digits = crate::text::decimal_u64(line as u64);
            res.append(digits.as_str());
            res
        },
        None => location.path.clone(),
    }
}

} // verus!
