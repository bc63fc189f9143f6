//! The decisions behind the read-only API: who may call it, how a project
//! that cannot be loaded is reported, which documents may be read, and the
//! shapes of the graph and generation-status answers.

use vstd::prelude::*;
use crate::path::{
    has_parent_component, has_parent_dir, is_absolute, join_path, law_join_stays_under_base,
    parent_dir_text, path_components, path_join, path_starts_with, starts_with_path,
};
use crate::text::str_equal;

verus! {

/// HTTP status of an answer refused for want of a session.
pub const STATUS_UNAUTHORIZED: u16 = 401;
/// HTTP status of a malformed or forbidden request.
pub const STATUS_BAD_REQUEST: u16 = 400;
/// HTTP status of a missing document.
pub const STATUS_NOT_FOUND: u16 = 404;
/// HTTP status of project metadata that cannot be loaded.
pub const STATUS_UNPROCESSABLE_ENTITY: u16 = 422;
/// HTTP status of a failure on the server's side.
pub const STATUS_INTERNAL_SERVER_ERROR: u16 = 500;

/// One problem found in the project's metadata.
#[derive(Debug)]
pub struct MetadataErrorEntry {
    pub file: String,
    pub line: Option<u32>,
    pub column: Option<u32>,
    pub code: String,
    pub message: String,
}

/// The structured body of a metadata failure.
#[derive(Debug)]
pub struct MetadataErrorResponse {
    pub kind: String,
    pub summary: String,
    pub errors: Vec<MetadataErrorEntry>,
}

/// Why loading the project failed.
#[derive(Debug)]
pub enum LoadFailure {
    /// The metadata did not parse; one entry per problem.
    Parse(Vec<MetadataErrorEntry>),
    /// The metadata was written for another schema version.
    VersionMismatch { message: String },
    /// The metadata could not be read.
    Io { message: String },
}

/// A refused API request.
#[derive(Debug)]
pub enum ApiError {
    Unauthorized,
    BadRequest,
    NotFound,
    /// Metadata that cannot be loaded, with a structured body.
    Metadata(MetadataErrorResponse),
    /// A failure on the server's side, with a plain-text body.
    Internal(String),
}

/// The HTTP status of a refusal.
pub open spec fn status_of(e: ApiError) -> u16 {
    match e {
        ApiError::Unauthorized => STATUS_UNAUTHORIZED,
        ApiError::BadRequest => STATUS_BAD_REQUEST,
        ApiError::NotFound => STATUS_NOT_FOUND,
        ApiError::Metadata(_) => STATUS_UNPROCESSABLE_ENTITY,
        ApiError::Internal(_) => STATUS_INTERNAL_SERVER_ERROR,
    }
}

impl ApiError {
    /// The HTTP status of the refusal.
    pub fn status(&self) -> (r: u16)
        ensures
            r == status_of(*self),
    {
        match self {
            ApiError::Unauthorized => STATUS_UNAUTHORIZED,
            ApiError::BadRequest => STATUS_BAD_REQUEST,
            ApiError::NotFound => STATUS_NOT_FOUND,
            ApiError::Metadata(_) => STATUS_UNPROCESSABLE_ENTITY,
            ApiError::Internal(_) => STATUS_INTERNAL_SERVER_ERROR,
        }
    }
}

/// Admits a request only with a session cookie that the session store
/// accepted: `None` when no cookie was sent, else whether it is valid.
pub fn require_session(session_cookie_valid: Option<bool>) -> (r: Result<(), ApiError>)
    ensures
        r is Ok <==> session_cookie_valid == Some(true),
        r matches Err(e) ==> e is Unauthorized,
{
    match session_cookie_valid {
        Some(true) => Ok(()),
        _ => Err(ApiError::Unauthorized),
    }
}

/// The decimal digit character for `d < 10`.
pub open spec fn digit_char(d: nat) -> char {
    (48 + d) as char
}

/// The decimal text of `n`, most significant digit first.
pub open spec fn decimal_text(n: nat) -> Seq<char>
    decreases n,
{
    if n < 10 {
        seq![digit_char(n)]
    } else {
        decimal_text(n / 10).push(digit_char(n % 10))
    }
}

/// The number a text of decimal digits stands for.
pub open spec fn digits_value(t: Seq<char>) -> int
    decreases t.len(),
{
    if t.len() == 0 {
        0
    } else {
        digits_value(t.drop_last()) * 10 + (t.last() as int - '0' as int)
    }
}

/// The decimal text of every number is made of the digits `0`-`9`, begins
/// with a non-zero digit unless the number is zero, and stands for the
/// number: it is the number's one canonical decimal writing.
pub proof fn law_decimal_text_is_canonical(n: nat)
    ensures
        decimal_text(n).len() >= 1,
        forall|i: int| 0 <= i < decimal_text(n).len() ==> '0' <= #[trigger] decimal_text(n)[i] <= '9',
        n > 0 ==> decimal_text(n)[0] != '0',
        digits_value(decimal_text(n)) == n,
    decreases n,
{
    assert('0' as int == 48);
    if n < 10 {
        let t = decimal_text(n);
        assert(t.last() as int == 48 + n);
        assert(t.drop_last() =~= Seq::<char>::empty());
        assert(digits_value(t.drop_last()) == 0);
        assert(digits_value(t) == digits_value(t.drop_last()) * 10 + (t.last() as int - '0' as int));
    } else {
        law_decimal_text_is_canonical(n / 10);
        let d = (n % 10) as nat;
        assert(digit_char(d) as int == 48 + d);
        assert(n == (n / 10) * 10 + d);
        let t = decimal_text(n);
        let h = decimal_text(n / 10);
        assert(t.drop_last() =~= h);
        assert(t.last() == digit_char(d));
        assert(digits_value(t) == digits_value(h) * 10 + (t.last() as int - '0' as int));
        assert(digits_value(h) == n / 10);
        assert forall|i: int| 0 <= i < t.len() implies '0' <= #[trigger] t[i] <= '9' by {
            if i < h.len() {
                assert(t[i] == h[i]);
            }
        }
        assert(t[0] == h[0]);
    }
}

/// The single-character text of a decimal digit.
fn digit_text(d: usize) -> (r: &'static str)
    requires
        d < 10,
    ensures
        r@ == seq![digit_char(d as nat)],
{
    proof {
        reveal_strlit("0");
        reveal_strlit("1");
        reveal_strlit("2");
        reveal_strlit("3");
        reveal_strlit("4");
        reveal_strlit("5");
        reveal_strlit("6");
        reveal_strlit("7");
        reveal_strlit("8");
        reveal_strlit("9");
    }
    let r = if d == 0 {
        "0"
    } else if d == 1 {
        "1"
    } else if d == 2 {
        "2"
    } else if d == 3 {
        "3"
    } else if d == 4 {
        "4"
    } else if d == 5 {
        "5"
    } else if d == 6 {
        "6"
    } else if d == 7 {
        "7"
    } else if d == 8 {
        "8"
    } else {
        "9"
    };
    assert(r@ =~= seq![digit_char(d as nat)]);
    r
}

/// The decimal text of `n`, most significant digit first.
pub fn usize_decimal(n: usize) -> (r: String)
    ensures
        r@ == decimal_text(n as nat),
    decreases n,
{
    if n < 10 {
        digit_text(n).to_owned()
    } else {
        let mut t = usize_decimal(n / 10);
        t.append(digit_text(n % 10));
        t
    }
}

/// The kind every metadata failure body carries.
pub open spec fn metadata_error_kind() -> Seq<char> {
    "metadata_error"@
}

/// The summary of a project without a `metadata/` directory.
pub open spec fn missing_metadata_summary(project_root: Seq<char>) -> Seq<char> {
    "no metadata/ directory found at "@ + project_root
}

/// The summary of metadata that failed to parse with `count` problems.
pub open spec fn parse_failure_summary(count: nat) -> Seq<char> {
    "Project metadata could not be loaded: "@ + decimal_text(count) + " parse error(s)"@
}

/// The body of an I/O failure while loading.
pub open spec fn io_failure_text(message: Seq<char>) -> Seq<char> {
    "I/O error while loading project: "@ + message
}

/// The summary text for a project root without a `metadata/` directory
/// (`project_root` as it is displayed).
pub fn missing_metadata_text(project_root: &str) -> (r: String)
    ensures
        r@ == missing_metadata_summary(project_root@),
{
    let mut s = "no metadata/ directory found at ".to_owned();
    s.append(project_root);
    s
}

/// The answer for a project root without a `metadata/` directory.
pub fn missing_metadata_dir(project_root: &str) -> (r: ApiError)
    ensures
        r matches ApiError::Metadata(body) && body.kind@ == metadata_error_kind()
            && body.summary@ == missing_metadata_summary(project_root@)
            && body.errors@.len() == 0,
{
    ApiError::Metadata(MetadataErrorResponse {
        kind: "metadata_error".to_owned(),
        summary: missing_metadata_text(project_root),
        errors: Vec::new(),
    })
}

/// The answer for a project whose metadata could not be loaded: parse and
/// version failures are reported with a structured body (status 422), a
/// read failure as a server-side error (status 500).
pub fn load_failure_response(failure: LoadFailure) -> (r: ApiError)
    ensures
        match failure {
            LoadFailure::Parse(entries) => r matches ApiError::Metadata(body)
                && body.kind@ == metadata_error_kind()
                && body.summary@ == parse_failure_summary(entries@.len())
                && body.errors@ == entries@,
            LoadFailure::VersionMismatch { message } => r matches ApiError::Metadata(body)
                && body.kind@ == metadata_error_kind()
                && body.summary@ == message@
                && body.errors@.len() == 1
                && body.errors@[0].file@.len() == 0
                && body.errors@[0].line is None
                && body.errors@[0].column is None
                && body.errors@[0].code@ == "META-VER-MISMATCH"@
                && body.errors@[0].message@ == message@,
            LoadFailure::Io { message } => r matches ApiError::Internal(text)
                && text@ == io_failure_text(message@),
        },
{
    match failure {
        LoadFailure::Parse(entries) => {
            let mut summary = "Project metadata could not be loaded: ".to_owned();
            let count = usize_decimal(entries.len());
            summary.append(count.as_str());
            summary.append(" parse error(s)");
            ApiError::Metadata(MetadataErrorResponse {
                kind: "metadata_error".to_owned(),
                summary,
                errors: entries,
            })
        },
        LoadFailure::VersionMismatch { message } => {
            let entry = MetadataErrorEntry {
                file: String::new(),
                line: None,
                column: None,
                code: "META-VER-MISMATCH".to_owned(),
                message: message.clone(),
            };
            let mut errors: Vec<MetadataErrorEntry> = Vec::new();
            errors.push(entry);
            ApiError::Metadata(MetadataErrorResponse {
                kind: "metadata_error".to_owned(),
                summary: message,
                errors,
            })
        },
        LoadFailure::Io { message } => {
            let mut text = "I/O error while loading project: ".to_owned();
            text.append(message.as_str());
            ApiError::Internal(text)
        },
    }
}

/// The version of the API contract that this server speaks.
pub const API_CONTRACT_VERSION: &'static str = "1";

/// The answer of `/api/v1/version`.
#[derive(Debug)]
pub struct VersionInfo {
    pub engine_version: String,
    pub api_contract_version: String,
    pub compatibility: String,
}

/// The version answer of an engine whose version is `engine_version`.
pub fn version_info(engine_version: String) -> (r: VersionInfo)
    ensures
        r.engine_version == engine_version,
        r.api_contract_version@ == API_CONTRACT_VERSION@,
        r.compatibility@ == "current"@,
{
    VersionInfo {
        engine_version,
        api_contract_version: API_CONTRACT_VERSION.to_owned(),
        compatibility: "current".to_owned(),
    }
}

/// What the graph reads of an entity.
#[derive(Debug)]
pub struct EntitySummary {
    pub id: String,
    pub name: String,
    pub domain: String,
}

/// What the graph reads of a relationship.
#[derive(Debug)]
pub struct RelationshipSummary {
    pub id: String,
    pub from_entity: String,
    pub to_entity: String,
}

/// A node of the entity graph.
#[derive(Debug)]
pub struct GraphNode {
    pub id: String,
    pub name: String,
    pub domain: String,
}

/// An edge of the entity graph.
#[derive(Debug)]
pub struct GraphEdge {
    pub id: String,
    pub from: String,
    pub to: String,
}

/// The answer of `/api/v1/graph`.
#[derive(Debug)]
pub struct Graph {
    pub nodes: Vec<GraphNode>,
    pub edges: Vec<GraphEdge>,
}

/// A node stands for the entity it was made from.
pub open spec fn node_of(n: GraphNode, e: EntitySummary) -> bool {
    n.id == e.id && n.name == e.name && n.domain == e.domain
}

/// An edge stands for the relationship it was made from.
pub open spec fn edge_of(g: GraphEdge, r: RelationshipSummary) -> bool {
    g.id == r.id && g.from == r.from_entity && g.to == r.to_entity
}

/// One node per entity and one edge per relationship, in their order.
pub fn build_graph(entities: &Vec<EntitySummary>, relationships: &Vec<RelationshipSummary>) -> (r: Graph)
    ensures
        r.nodes@.len() == entities@.len(),
        forall|i: int| 0 <= i < entities@.len() ==> node_of(#[trigger] r.nodes@[i], entities@[i]),
        r.edges@.len() == relationships@.len(),
        forall|i: int| 0 <= i < relationships@.len() ==> edge_of(#[trigger] r.edges@[i], relationships@[i]),
{
    let mut nodes: Vec<GraphNode> = Vec::new();
    let mut i: usize = 0;
    while i < entities.len()
        invariant
            i <= entities@.len(),
            nodes@.len() == i,
            forall|j: int| 0 <= j < i ==> node_of(#[trigger] nodes@[j], entities@[j]),
        decreases entities@.len() - i,
    {
        let e = &entities[i];
        nodes.push(GraphNode { id: e.id.clone(), name: e.name.clone(), domain: e.domain.clone() });
        i = i + 1;
    }
    let mut edges: Vec<GraphEdge> = Vec::new();
    let mut k: usize = 0;
    while k < relationships.len()
        invariant
            k <= relationships@.len(),
            edges@.len() == k,
            forall|j: int| 0 <= j < k ==> edge_of(#[trigger] edges@[j], relationships@[j]),
        decreases relationships@.len() - k,
    {
        let rel = &relationships[k];
        edges.push(GraphEdge { id: rel.id.clone(), from: rel.from_entity.clone(), to: rel.to_entity.clone() });
        k = k + 1;
    }
    Graph { nodes, edges }
}

/// What the generation status reads of a generation manifest.
#[derive(Debug)]
pub struct ManifestSummary {
    pub engine_version: String,
    pub artifact_count: usize,
    pub warnings: Vec<String>,
}

/// The answer of `/api/v1/generation-status`.
#[derive(Debug)]
pub struct GenerationStatus {
    pub has_generation: bool,
    pub engine_version: String,
    pub artifact_count: usize,
    pub warnings: Vec<String>,
    pub last_generated_epoch: Option<u64>,
    pub generated_dir_exists: bool,
}

/// The generation status from the manifest (if one could be read), the
/// manifest's modification time in seconds since the epoch (if known) and
/// whether the generated directory exists. Without a manifest nothing has
/// been generated: no engine version, no artifacts, no warnings.
pub fn generation_status(
    manifest: Option<ManifestSummary>,
    last_generated_epoch: Option<u64>,
    generated_dir_exists: bool,
) -> (r: GenerationStatus)
    ensures
        r.has_generation == manifest is Some,
        r.last_generated_epoch == last_generated_epoch,
        r.generated_dir_exists == generated_dir_exists,
        manifest matches Some(m) ==> r.engine_version == m.engine_version
            && r.artifact_count == m.artifact_count && r.warnings@ == m.warnings@,
        manifest is None ==> r.engine_version@.len() == 0 && r.artifact_count == 0
            && r.warnings@.len() == 0,
{
    match manifest {
        Some(m) => GenerationStatus {
            has_generation: true,
            engine_version: m.engine_version,
            artifact_count: m.artifact_count,
            warnings: m.warnings,
            last_generated_epoch,
            generated_dir_exists,
        },
        None => GenerationStatus {
            has_generation: false,
            engine_version: String::new(),
            artifact_count: 0,
            warnings: Vec::new(),
            last_generated_epoch,
            generated_dir_exists,
        },
    }
}

/// Whether a requested document may be read from `docs_dir`: it names no
/// parent directory, and joined onto `docs_dir` it still lies under it.
pub open spec fn doc_request_accepted(docs_dir: Seq<char>, requested: Seq<char>) -> bool {
    !has_parent_component(requested) && path_starts_with(path_join(docs_dir, requested), docs_dir)
}

/// The file to read for a request of `requested` under `docs_dir`, or a
/// refusal as a bad request.
pub fn resolve_doc_request(docs_dir: &str, requested: &str) -> (r: Result<String, ApiError>)
    ensures
        r is Ok <==> doc_request_accepted(docs_dir@, requested@),
        r matches Ok(full) ==> full@ == path_join(docs_dir@, requested@),
        r matches Err(e) ==> e is BadRequest,
{
    if has_parent_dir(requested) {
        return Err(ApiError::BadRequest);
    }
    let full = join_path(docs_dir, requested);
    if !starts_with_path(full.as_str(), docs_dir) {
        return Err(ApiError::BadRequest);
    }
    Ok(full)
}

/// A request that names a parent directory is refused; every request that
/// is accepted reads a file under the documents directory, and the
/// components past the directory's own hold no parent step.
pub proof fn law_doc_request_stays_in_docs_dir(docs_dir: Seq<char>, requested: Seq<char>)
    ensures
        has_parent_component(requested) ==> !doc_request_accepted(docs_dir, requested),
        doc_request_accepted(docs_dir, requested) ==> ({
            let full = path_components(path_join(docs_dir, requested));
            let base = path_components(docs_dir);
            &&& base.is_prefix_of(full)
            &&& !full.subrange(base.len() as int, full.len() as int).contains(parent_dir_text())
        }),
{
    if doc_request_accepted(docs_dir, requested) {
        let full = path_components(path_join(docs_dir, requested));
        let base = path_components(docs_dir);
        let extra = full.subrange(base.len() as int, full.len() as int);
        if is_absolute(requested) || docs_dir.len() == 0 {
            assert(path_join(docs_dir, requested) == requested);
            if extra.contains(parent_dir_text()) {
                let k = choose|k: int| 0 <= k < extra.len() && extra[k] == parent_dir_text();
                assert(full[k + base.len()] == parent_dir_text());
                assert(full.contains(parent_dir_text()));
            }
        } else {
            law_join_stays_under_base(docs_dir, requested);
        }
    }
}

/// Every relative request that names no parent directory is accepted
/// under a non-empty documents directory.
pub proof fn law_relative_doc_request_accepted(docs_dir: Seq<char>, requested: Seq<char>)
    requires
        docs_dir.len() > 0,
        !is_absolute(requested),
        !has_parent_component(requested),
    ensures
        doc_request_accepted(docs_dir, requested),
{
    law_join_stays_under_base(docs_dir, requested);
}

/// Whether a file extension marks a document that the listing shows.
pub open spec fn is_listed_extension(ext: Seq<char>) -> bool {
    ext == "md"@ || ext == "html"@ || ext == "svg"@
}

/// The listing shows exactly the extensions `md`, `html` and `svg`.
pub proof fn law_listed_extensions(ext: Seq<char>)
    ensures
        is_listed_extension(ext) <==> (ext == seq!['m', 'd'] || ext == seq!['h', 't', 'm', 'l']
            || ext == seq!['s', 'v', 'g']),
{
    reveal_strlit("md");
    reveal_strlit("html");
    reveal_strlit("svg");
    assert("md"@ =~= seq!['m', 'd']);
    assert("html"@ =~= seq!['h', 't', 'm', 'l']);
    assert("svg"@ =~= seq!['s', 'v', 'g']);
}

/// A document of the listing: its path under the documents directory and
/// its kind, which is its extension.
#[derive(Debug)]
pub struct DocEntry {
    pub path: String,
    pub kind: String,
}

/// The listing entry for a file at `relative_path` (under the documents
/// directory) with extension `extension`, if the listing shows it.
pub fn doc_entry(relative_path: String, extension: String) -> (r: Option<DocEntry>)
    ensures
        r is Some <==> is_listed_extension(extension@),
        r matches Some(d) ==> d.path == relative_path && d.kind == extension,
{
    let listed = str_equal(extension.as_str(), "md") || str_equal(extension.as_str(), "html")
        || str_equal(extension.as_str(), "svg");
    if listed {
        Some(DocEntry { path: relative_path, kind: extension })
    } else {
        None
    }
}

} // verus!
