//! Versioned exchange formats: exported single graphs and copied graph fragments.

use vstd::prelude::*;
use crate::document::{GraphDocument, GraphEdge, GraphNode, NodePosition};
use crate::text::{decimal_text, push_char, push_decimal, str_equal};

verus! {

/// Stable file-format identifier for exported graph documents.
pub const GRAPH_EXCHANGE_FORMAT: &'static str = "animation_builder_graph";

/// Current version of the single-graph exchange file format.
pub const GRAPH_EXCHANGE_VERSION: u32 = 1;

/// Stable clipboard-format identifier for copied graph fragments.
pub const GRAPH_CLIPBOARD_FRAGMENT_FORMAT: &'static str = "animation_builder_graph_fragment";

/// Current version of the clipboard fragment format.
pub const GRAPH_CLIPBOARD_FRAGMENT_VERSION: u32 = 1;

/// Selects how an imported graph should behave when its ID already exists locally.
#[derive(Debug, Clone, Copy, PartialEq, Eq, Structural)]
pub enum GraphImportCollisionPolicy {
    PreserveIfFree,
    ImportCopy,
    OverwriteExisting,
}

/// Reports how an import operation affected local graph storage.
#[derive(Debug, Clone, Copy, PartialEq, Eq, Structural)]
pub enum GraphImportMode {
    Imported,
    Overwritten,
}

/// The outcome of checking a format header: `Ok` when both the format identifier and the
/// version are the supported ones, else the message naming the first mismatch.
pub open spec fn header_check(
    kind: Seq<char>,
    format: Seq<char>,
    version: u32,
    expected_format: Seq<char>,
    expected_version: u32,
) -> Result<(), Seq<char>> {
    if format != expected_format {
        Err("Unsupported graph "@ + kind + " format '"@ + format + "'"@)
    } else if version != expected_version {
        Err("Unsupported graph "@ + kind + " version "@ + decimal_text(version as nat))
    } else {
        Ok(())
    }
}

fn check_header(
    kind: &str,
    format: &str,
    version: u32,
    expected_format: &str,
    expected_version: u32,
) -> (result: Result<(), String>)
    ensures
        match header_check(kind@, format@, version, expected_format@, expected_version) {
            Ok(()) => result is Ok,
            Err(message) => result matches Err(text) && text@ == message,
        },
{
    if !str_equal(format, expected_format) {
        let mut message = "Unsupported graph ".to_owned();
        message.append(kind);
        message.append(" format '");
        message.append(format);
        message.append("'");
        return Err(message);
    }
    if version != expected_version {
        let mut message = "Unsupported graph ".to_owned();
        message.append(kind);
        message.append(" version ");
        push_decimal(&mut message, version as u64);
        return Err(message);
    }
    Ok(())
}

/// The versioned clipboard format for a copied graph fragment.
#[derive(Debug, Clone)]
pub struct GraphClipboardFragment {
    pub format: String,
    pub version: u32,
    pub origin: NodePosition,
    pub nodes: Vec<GraphNode>,
    pub edges: Vec<GraphEdge>,
}

impl GraphClipboardFragment {
    /// Wraps a copied node fragment in the current clipboard header.
    pub fn new(origin: NodePosition, nodes: Vec<GraphNode>, edges: Vec<GraphEdge>) -> (fragment:
        Self)
        ensures
            fragment.format@ == GRAPH_CLIPBOARD_FRAGMENT_FORMAT@,
            fragment.version == GRAPH_CLIPBOARD_FRAGMENT_VERSION,
            fragment.origin == origin,
            fragment.nodes == nodes,
            fragment.edges == edges,
    {
        GraphClipboardFragment {
            format: GRAPH_CLIPBOARD_FRAGMENT_FORMAT.to_owned(),
            version: GRAPH_CLIPBOARD_FRAGMENT_VERSION,
            origin,
            nodes,
            edges,
        }
    }

    /// Validates that the clipboard header matches the supported format and version.
    pub fn validate_header(&self) -> (result: Result<(), String>)
        ensures
            match header_check(
                "clipboard"@,
                self.format@,
                self.version,
                GRAPH_CLIPBOARD_FRAGMENT_FORMAT@,
                GRAPH_CLIPBOARD_FRAGMENT_VERSION,
            ) {
                Ok(()) => result is Ok,
                Err(message) => result matches Err(text) && text@ == message,
            },
    {
        check_header(
            "clipboard",
            self.format.as_str(),
            self.version,
            GRAPH_CLIPBOARD_FRAGMENT_FORMAT,
            GRAPH_CLIPBOARD_FRAGMENT_VERSION,
        )
    }
}

/// The versioned on-disk exchange format for a single exported graph.
#[derive(Debug, Clone)]
pub struct GraphExchangeFile {
    pub format: String,
    pub version: u32,
    pub document: GraphDocument,
}

impl GraphExchangeFile {
    /// Wraps a graph document in the current exchange file header.
    pub fn new(document: GraphDocument) -> (file: Self)
        ensures
            file.format@ == GRAPH_EXCHANGE_FORMAT@,
            file.version == GRAPH_EXCHANGE_VERSION,
            file.document == document,
    {
        GraphExchangeFile {
            format: GRAPH_EXCHANGE_FORMAT.to_owned(),
            version: GRAPH_EXCHANGE_VERSION,
            document,
        }
    }

    /// Validates that the exchange header matches the supported format and version.
    pub fn validate_header(&self) -> (result: Result<(), String>)
        ensures
            match header_check(
                "exchange"@,
                self.format@,
                self.version,
                GRAPH_EXCHANGE_FORMAT@,
                GRAPH_EXCHANGE_VERSION,
            ) {
                Ok(()) => result is Ok,
                Err(message) => result matches Err(text) && text@ == message,
            },
    {
        check_header(
            "exchange",
            self.format.as_str(),
            self.version,
            GRAPH_EXCHANGE_FORMAT,
            GRAPH_EXCHANGE_VERSION,
        )
    }
}

/// A freshly wrapped exchange file passes its own header check.
pub proof fn lemma_new_exchange_file_header_valid(file: GraphExchangeFile)
    requires
        file.format@ == GRAPH_EXCHANGE_FORMAT@,
        file.version == GRAPH_EXCHANGE_VERSION,
    ensures
        header_check("exchange"@, file.format@, file.version, GRAPH_EXCHANGE_FORMAT@, GRAPH_EXCHANGE_VERSION) is Ok,
{
}

/// A freshly wrapped clipboard fragment passes its own header check.
pub proof fn lemma_new_fragment_header_valid(fragment: GraphClipboardFragment)
    requires
        fragment.format@ == GRAPH_CLIPBOARD_FRAGMENT_FORMAT@,
        fragment.version == GRAPH_CLIPBOARD_FRAGMENT_VERSION,
    ensures
        header_check(
            "clipboard"@,
            fragment.format@,
            fragment.version,
            GRAPH_CLIPBOARD_FRAGMENT_FORMAT@,
            GRAPH_CLIPBOARD_FRAGMENT_VERSION,
        ) is Ok,
{
}

/// Whether `c` is an ASCII letter or digit.
pub open spec fn is_ascii_alphanumeric(c: char) -> bool {
    ('a' <= c && c <= 'z') || ('A' <= c && c <= 'Z') || ('0' <= c && c <= '9')
}

/// `name` with every character but ASCII letters and digits replaced by `_`.
pub open spec fn underscored(name: Seq<char>) -> Seq<char> {
    name.map_values(|c: char| if is_ascii_alphanumeric(c) { c } else { '_' })
}

/// `s` without leading `_`.
pub open spec fn trim_start_underscores(s: Seq<char>) -> Seq<char>
    decreases s.len(),
{
    if s.len() > 0 && s[0] == '_' {
        trim_start_underscores(s.skip(1))
    } else {
        s
    }
}

/// `s` without trailing `_`.
pub open spec fn trim_end_underscores(s: Seq<char>) -> Seq<char>
    decreases s.len(),
{
    if s.len() > 0 && s.last() == '_' {
        trim_end_underscores(s.drop_last())
    } else {
        s
    }
}

/// `s` with every run of `_` collapsed to one.
pub open spec fn collapse_underscores(s: Seq<char>) -> Seq<char>
    decreases s.len(),
{
    if s.len() == 0 {
        s
    } else {
        let earlier = collapse_underscores(s.drop_last());
        if s.last() == '_' && earlier.len() > 0 && earlier.last() == '_' {
            earlier
        } else {
            earlier.push(s.last())
        }
    }
}

/// The export filename of a graph name: non-alphanumeric characters become `_`, outer `_` are
/// trimmed, runs of `_` collapse to one, an empty result becomes `graph`, and the
/// `.animation-graph.json` extension is appended.
pub open spec fn export_filename(graph_name: Seq<char>) -> Seq<char> {
    let stem = collapse_underscores(
        trim_end_underscores(trim_start_underscores(underscored(graph_name))),
    );
    (if stem.len() == 0 {
        "graph"@
    } else {
        stem
    }) + ".animation-graph.json"@
}

/// Sanitizes a graph name for use as an export filename.
///
/// Non-alphanumeric characters are collapsed to underscores, empty names fall back to `graph`,
/// and the result always ends with the `.animation-graph.json` extension.
pub fn sanitize_graph_export_filename(graph_name: &str) -> (filename: String)
    ensures
        filename@ == export_filename(graph_name@),
{
    let length = graph_name.unicode_len();
    let ghost mapped = underscored(graph_name@);
    let mut replaced = String::new();
    let mut i: usize = 0;
    while i < length
        invariant
            length == graph_name@.len(),
            i <= length,
            mapped == underscored(graph_name@),
            replaced@ == mapped.take(i as int),
        decreases length - i,
    {
        let c = graph_name.get_char(i);
        let keep = ('a' <= c && c <= 'z') || ('A' <= c && c <= 'Z') || ('0' <= c && c <= '9');
        push_char(&mut replaced, if keep { c } else { '_' });
        assert(replaced@ =~= mapped.take(i + 1));
        i = i + 1;
    }
    assert(mapped.take(i as int) =~= mapped);
    let mut start: usize = 0;
    assert(mapped.skip(0) =~= mapped);
    while start < length && replaced.as_str().get_char(start) == '_'
        invariant
            length == mapped.len(),
            replaced@ == mapped,
            start <= length,
            trim_start_underscores(mapped) == trim_start_underscores(mapped.skip(start as int)),
        decreases length - start,
    {
        assert(mapped.skip(start as int).skip(1) =~= mapped.skip(start + 1));
        start = start + 1;
    }
    let ghost front = mapped.skip(start as int);
    assert(trim_start_underscores(mapped) == front);
    let mut end: usize = length;
    assert(front =~= mapped.subrange(start as int, end as int));
    while end > start && replaced.as_str().get_char(end - 1) == '_'
        invariant
            length == mapped.len(),
            replaced@ == mapped,
            start <= end <= length,
            front == mapped.skip(start as int),
            trim_end_underscores(front) == trim_end_underscores(mapped.subrange(start as int, end as int)),
        decreases end,
    {
        assert(mapped.subrange(start as int, end as int).drop_last() =~= mapped.subrange(
            start as int,
            end - 1,
        ));
        end = end - 1;
    }
    let ghost trimmed = mapped.subrange(start as int, end as int);
    let mut stem = String::new();
    let mut k: usize = start;
    assert(trimmed.take(0) =~= Seq::<char>::empty());
    while k < end
        invariant
            start <= k <= end <= length,
            length == mapped.len(),
            replaced@ == mapped,
            trimmed == mapped.subrange(start as int, end as int),
            stem@ == collapse_underscores(trimmed.take(k - start)),
        decreases end - k,
    {
        let c = replaced.as_str().get_char(k);
        assert(trimmed.take(k - start + 1).drop_last() =~= trimmed.take(k - start));
        assert(trimmed.take(k - start + 1).last() == c);
        let skip = c == '_' && stem.as_str().unicode_len() > 0 && stem.as_str().get_char(
            stem.as_str().unicode_len() - 1,
        ) == '_';
        if !skip {
            push_char(&mut stem, c);
        }
        k = k + 1;
    }
    assert(trimmed.take(end - start) =~= trimmed);
    let mut filename = if stem.as_str().unicode_len() == 0 {
        "graph".to_owned()
    } else {
        stem
    };
    filename.append(".animation-graph.json");
    filename
}

/// Every export filename carries the `.animation-graph.json` extension and a non-empty stem.
pub proof fn lemma_export_filename_shape(graph_name: Seq<char>)
    ensures
        export_filename(graph_name).len() > ".animation-graph.json"@.len(),
        crate::text::ends_with_text(export_filename(graph_name), ".animation-graph.json"@),
{
    reveal_strlit("graph");
    let stem = collapse_underscores(
        trim_end_underscores(trim_start_underscores(underscored(graph_name))),
    );
    let head = if stem.len() == 0 {
        "graph"@
    } else {
        stem
    };
    let ext = ".animation-graph.json"@;
    assert(export_filename(graph_name) == head + ext);
    assert((head + ext).subrange(head.len() as int, (head + ext).len() as int) =~= ext);
}

} // verus!
