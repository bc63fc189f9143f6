use know_now::api::{
    build_graph, doc_entry, generation_status, load_failure_response, missing_metadata_dir,
    require_session, resolve_doc_request, version_info, ApiError, EntitySummary, LoadFailure,
    ManifestSummary, MetadataErrorEntry, RelationshipSummary,
};

fn entry(file: &str, code: &str) -> MetadataErrorEntry {
    MetadataErrorEntry {
        file: file.to_owned(),
        line: Some(3),
        column: Some(7),
        code: code.to_owned(),
        message: "unknown field `not_a_real_field`".to_owned(),
    }
}

#[test]
fn session_gate() {
    assert!(require_session(Some(true)).is_ok());
    let e = require_session(Some(false)).unwrap_err();
    assert!(matches!(e, ApiError::Unauthorized));
    assert_eq!(e.status(), 401);
    assert!(matches!(require_session(None), Err(ApiError::Unauthorized)));
}

#[test]
fn missing_metadata_is_422() {
    let e = missing_metadata_dir("/tmp/project");
    assert_eq!(e.status(), 422);
    match e {
        ApiError::Metadata(body) => {
            assert_eq!(body.kind, "metadata_error");
            assert_eq!(body.summary, "no metadata/ directory found at /tmp/project");
            assert!(body.summary.contains("no metadata/ directory"));
            assert!(body.errors.is_empty());
        }
        other => panic!("unexpected {other:?}"),
    }
}

#[test]
fn parse_failure_is_422_with_entries() {
    let e = load_failure_response(LoadFailure::Parse(vec![
        entry("project.yml", "META-PAR-DESER"),
        entry("entities.yml", "META-PAR-DESER"),
    ]));
    assert_eq!(e.status(), 422);
    match e {
        ApiError::Metadata(body) => {
            assert_eq!(body.kind, "metadata_error");
            assert_eq!(body.summary, "Project metadata could not be loaded: 2 parse error(s)");
            assert!(body.summary.contains("parse error"));
            assert_eq!(body.errors.len(), 2);
            assert_eq!(body.errors[0].code, "META-PAR-DESER");
            assert_eq!(body.errors[0].file, "project.yml");
            assert!(body.errors[0].message.contains("not_a_real_field"));
        }
        other => panic!("unexpected {other:?}"),
    }
}

#[test]
fn parse_failure_counts_in_decimal() {
    let many: Vec<MetadataErrorEntry> = (0..12).map(|_| entry("a.yml", "X")).collect();
    match load_failure_response(LoadFailure::Parse(many)) {
        ApiError::Metadata(body) => {
            assert_eq!(body.summary, "Project metadata could not be loaded: 12 parse error(s)")
        }
        other => panic!("unexpected {other:?}"),
    }
    match load_failure_response(LoadFailure::Parse(Vec::new())) {
        ApiError::Metadata(body) => {
            assert_eq!(body.summary, "Project metadata could not be loaded: 0 parse error(s)")
        }
        other => panic!("unexpected {other:?}"),
    }
}

#[test]
fn version_mismatch_is_422_with_one_entry() {
    let e = load_failure_response(LoadFailure::VersionMismatch {
        message: "metadata version 2.0 is not supported".to_owned(),
    });
    assert_eq!(e.status(), 422);
    match e {
        ApiError::Metadata(body) => {
            assert_eq!(body.summary, "metadata version 2.0 is not supported");
            assert_eq!(body.errors.len(), 1);
            assert_eq!(body.errors[0].code, "META-VER-MISMATCH");
            assert_eq!(body.errors[0].file, "");
            assert_eq!(body.errors[0].line, None);
            assert_eq!(body.errors[0].column, None);
            assert_eq!(body.errors[0].message, "metadata version 2.0 is not supported");
        }
        other => panic!("unexpected {other:?}"),
    }
}

#[test]
fn io_failure_is_500() {
    let e = load_failure_response(LoadFailure::Io { message: "permission denied".to_owned() });
    assert_eq!(e.status(), 500);
    match e {
        ApiError::Internal(text) => {
            assert_eq!(text, "I/O error while loading project: permission denied")
        }
        other => panic!("unexpected {other:?}"),
    }
}

#[test]
fn other_statuses() {
    assert_eq!(ApiError::BadRequest.status(), 400);
    assert_eq!(ApiError::NotFound.status(), 404);
}

#[test]
fn version_answer() {
    let v = version_info("0.3.1".to_owned());
    assert_eq!(v.engine_version, "0.3.1");
    assert_eq!(v.api_contract_version, "1");
    assert_eq!(v.compatibility, "current");
}

#[test]
fn graph_projects_entities_and_relationships() {
    let entities = vec![
        EntitySummary { id: "e1".into(), name: "customer".into(), domain: "sales".into() },
        EntitySummary { id: "e2".into(), name: "order".into(), domain: "sales".into() },
    ];
    let rels = vec![RelationshipSummary {
        id: "r1".into(),
        from_entity: "e1".into(),
        to_entity: "e2".into(),
    }];
    let g = build_graph(&entities, &rels);
    assert_eq!(g.nodes.len(), 2);
    assert_eq!(g.nodes[0].id, "e1");
    assert_eq!(g.nodes[0].name, "customer");
    assert_eq!(g.nodes[1].domain, "sales");
    assert_eq!(g.edges.len(), 1);
    assert_eq!(g.edges[0].from, "e1");
    assert_eq!(g.edges[0].to, "e2");
    assert_eq!(g.edges[0].id, "r1");
    let empty = build_graph(&Vec::new(), &Vec::new());
    assert!(empty.nodes.is_empty() && empty.edges.is_empty());
}

#[test]
fn generation_status_with_and_without_manifest() {
    let s = generation_status(
        Some(ManifestSummary {
            engine_version: "0.3.1".into(),
            artifact_count: 4,
            warnings: vec!["w".into()],
        }),
        Some(1_700_000_000),
        true,
    );
    assert!(s.has_generation);
    assert_eq!(s.engine_version, "0.3.1");
    assert_eq!(s.artifact_count, 4);
    assert_eq!(s.warnings, vec!["w".to_owned()]);
    assert_eq!(s.last_generated_epoch, Some(1_700_000_000));
    assert!(s.generated_dir_exists);

    let none = generation_status(None, None, false);
    assert!(!none.has_generation);
    assert_eq!(none.engine_version, "");
    assert_eq!(none.artifact_count, 0);
    assert!(none.warnings.is_empty());
    assert_eq!(none.last_generated_epoch, None);
    assert!(!none.generated_dir_exists);
}

#[test]
fn doc_requests() {
    let docs = "/p/generated/docs";
    assert_eq!(resolve_doc_request(docs, "a/b.md").unwrap(), "/p/generated/docs/a/b.md");
    assert_eq!(resolve_doc_request(docs, "./x.md").unwrap(), "/p/generated/docs/./x.md");
    assert!(matches!(resolve_doc_request(docs, "../secret"), Err(ApiError::BadRequest)));
    assert!(matches!(resolve_doc_request(docs, "a/../../x"), Err(ApiError::BadRequest)));
    assert!(matches!(resolve_doc_request(docs, "/etc/passwd"), Err(ApiError::BadRequest)));
    assert_eq!(
        resolve_doc_request(docs, "/p/generated/docs/in.md").unwrap(),
        "/p/generated/docs/in.md"
    );
    assert_eq!(resolve_doc_request(docs, "..x/y.md").unwrap(), "/p/generated/docs/..x/y.md");
}

#[test]
fn doc_listing_kinds() {
    for ext in ["md", "html", "svg"] {
        let d = doc_entry(format!("a.{ext}"), ext.to_owned()).unwrap();
        assert_eq!(d.kind, ext);
        assert_eq!(d.path, format!("a.{ext}"));
    }
    for ext in ["txt", "MD", "", "mdx", "json"] {
        assert!(doc_entry("x".to_owned(), ext.to_owned()).is_none());
    }
}
