//! The fixed version-3 wire schema for source maps, and the conversion of
//! the internal source-map model's encoded form into it.
//!
//! Downstream consumers validate against a fixed schema: `version` is always
//! exactly 3, `sources` and `sourcesContent` are index-aligned whenever both
//! are present, and `ignoreList` stays absent because the underlying model
//! does not expose it.

use vstd::prelude::*;

verus! {

/// A source map in the fixed wire schema.
#[derive(Debug, Clone)]
pub struct SourceMap {
    /// The name of the generated file, if one was recorded.
    pub file: Option<String>,
    /// The symbol names referenced by the mappings.
    pub names: Vec<String>,
    /// An optional root prepended to every source path.
    pub source_root: Option<String>,
    /// The original sources referenced by the mappings.
    pub sources: Vec<Option<String>>,
    /// The content of each original source, index-aligned with `sources`
    /// when present.
    pub sources_content: Option<Vec<Option<String>>>,
    /// Always exactly 3.
    pub version: u32,
    /// Always absent: the underlying model does not expose it.
    pub ignore_list: Option<Vec<u32>>,
    /// The VLQ-encoded mapping segments.
    pub mappings: String,
}

impl SourceMap {
    /// The wire schema's invariants: the version is fixed at 3, and when
    /// `sources_content` is present it is index-aligned with `sources`.
    pub open spec fn wf(self) -> bool {
        &&& self.version == 3
        &&& (self.sources_content matches Some(c) ==> c@.len() == self.sources@.len())
    }
}

/// `sources` and `sources_content` of a well-formed wire map have equal
/// length whenever both are present.
pub proof fn lemma_sources_content_aligned(m: SourceMap)
    requires
        m.wf(),
    ensures
        m.sources_content matches Some(c) ==> c@.len() == m.sources@.len(),
{
}

/// The encoded form of the internal source-map model, as the mapping encoder
/// emits it: plain owned fields, mappings already rendered as one VLQ
/// segment string.
#[derive(Debug, Clone)]
pub struct EncodedParts {
    /// The name of the generated file, if one was recorded.
    pub file: Option<String>,
    /// The VLQ-encoded mapping segments.
    pub mappings: String,
    /// An optional root prepended to every source path.
    pub source_root: Option<String>,
    /// The original sources referenced by the mappings.
    pub sources: Vec<String>,
    /// The content of each original source.
    pub sources_content: Option<Vec<Option<String>>>,
    /// The symbol names referenced by the mappings.
    pub names: Vec<String>,
}

/// Convert the encoder's output to the wire schema: every field is copied
/// verbatim, each source is wrapped in `Some`, the version is fixed at 3,
/// and `ignore_list` is left absent.
pub fn to_wire(parts: EncodedParts) -> (r: SourceMap)
    requires
        parts.sources_content matches Some(c) ==> c@.len() == parts.sources@.len(),
    ensures
        r.wf(),
        r.version == 3,
        r.ignore_list is None,
        r.file == parts.file,
        r.names == parts.names,
        r.source_root == parts.source_root,
        r.mappings == parts.mappings,
        r.sources_content == parts.sources_content,
        r.sources@.len() == parts.sources@.len(),
        forall|i: int| 0 <= i < r.sources@.len() ==> r.sources@[i] == Some(parts.sources@[i]),
{
    let mut wrapped: Vec<Option<String>> = Vec::new();
    let mut i: usize = 0;
    while i < parts.sources.len()
        invariant
            i <= parts.sources@.len(),
            wrapped@.len() == i,
            forall|j: int| 0 <= j < i ==> wrapped@[j] == Some(parts.sources@[j]),
        decreases parts.sources@.len() - i,
    {
        wrapped.push(Some(parts.sources[i].clone()));
        i = i + 1;
    }
    SourceMap {
        file: parts.file,
        names: parts.names,
        source_root: parts.source_root,
        sources: wrapped,
        sources_content: parts.sources_content,
        version: 3,
        ignore_list: None,
        mappings: parts.mappings,
    }
}

} // verus!
