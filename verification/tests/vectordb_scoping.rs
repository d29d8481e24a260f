use backend::api::vectordb::{delete_outcome, documents_for_storage, user_scoped_filter, user_scoped_metadata};
use backend::config::QdrantConfig;
use backend::models::error::AppError;
use backend::models::vectordb::{DeleteDocumentsRequest, Document, DocumentInput, SearchQuery};
use backend::services::vectordb::qdrant::{
    build_delete_filter, build_point_payload, build_search_filter, metadata_from_payload,
    search_hit, search_outcome, CollectionAction, CollectionReply, DocumentData, FilterCondition, PointKey, QdrantFilter,
    QdrantService, ScoredPayload,
};
use backend::string_map::StringMap;

const OWNER_PAYLOAD_KEY: &str = "_owner_user_id";

fn map_of(entries: &[(&str, &str)]) -> StringMap {
    let mut m = StringMap::new();
    for (k, v) in entries {
        m.insert(k.to_string(), v.to_string());
    }
    m
}

fn filter_contains_match(filter: &QdrantFilter, key: &str, value: &str) -> bool {
    filter.must.iter().any(|c| match c {
        FilterCondition::MatchKeyword { key: k, value: v } => k == key && v == value,
        _ => false,
    })
}

fn filter_contains_has_id(filter: &QdrantFilter, ids: &[String]) -> bool {
    filter.must.iter().any(|c| match c {
        FilterCondition::HasIds { ids: got } => got.as_slice() == ids,
        _ => false,
    })
}

fn service() -> QdrantService {
    let client = qdrant_client::Qdrant::from_url("http://localhost:6334")
        .skip_compatibility_check()
        .build()
        .expect("client");
    QdrantService::new(client, &QdrantConfig::default())
}

#[test]
fn user_scoped_filter_overrides_client_user_id() {
    let client_filter = map_of(&[("topic", "\"billing\""), ("user_id", "\"attacker\"")]);

    let scoped = user_scoped_filter(Some(&client_filter), "real-user");

    assert_eq!(scoped.get("topic").map(String::as_str), Some("\"billing\""));
    assert_eq!(scoped.get("user_id").map(String::as_str), Some("\"real-user\""));
}

#[test]
fn user_scoped_metadata_injects_owner_id() {
    let documents = vec![Document {
        text: "internal notes".to_string(),
        title: Some("ops".to_string()),
        metadata: map_of(&[("team", "\"search\"")]),
    }];

    let scoped = user_scoped_metadata(&documents, "user-123");
    assert_eq!(scoped.len(), 1);
    assert_eq!(scoped[0].get("team").map(String::as_str), Some("\"search\""));
    assert_eq!(scoped[0].get("user_id").map(String::as_str), Some("\"user-123\""));
}

#[test]
fn user_scoped_filter_without_client_filter() {
    let scoped = user_scoped_filter(None, "u\"q");
    assert_eq!(scoped.len(), 1);
    assert_eq!(scoped.get("user_id").map(String::as_str), Some("\"u\\\"q\""));
}

#[test]
fn test_document_validation() {
    let valid_doc = Document {
        text: "Hello world".to_string(),
        title: Some("Test".to_string()),
        metadata: StringMap::new(),
    };
    assert!(valid_doc.validate().is_ok());

    let invalid_doc = Document {
        text: String::new(),
        title: None,
        metadata: StringMap::new(),
    };
    assert!(invalid_doc.validate().is_err());

    let whitespace_doc = Document {
        text: "   \t  ".to_string(),
        title: None,
        metadata: StringMap::new(),
    };
    assert!(whitespace_doc.validate().is_err());
}

#[test]
fn document_batch_validation() {
    let input = DocumentInput {
        documents: vec![],
        embedding_model: "m".to_string(),
    };
    assert!(input.validate().is_err());
    let input = DocumentInput {
        documents: vec![Document {
            text: "ok".to_string(),
            title: None,
            metadata: StringMap::new(),
        }],
        embedding_model: "m".to_string(),
    };
    assert!(input.validate().is_ok());
}

#[test]
fn search_query_limits() {
    let q = |text: &str, limit: u32| SearchQuery {
        query_text: text.to_string(),
        embedding_model: "m".to_string(),
        limit,
        filter_metadata: None,
    };
    assert!(q("hello", 10).validate().is_ok());
    assert!(q("hello", 0).validate().is_err());
    assert!(q("hello", 101).validate().is_err());
    assert!(q("  ", 10).validate().is_err());
}

#[test]
fn delete_request_needs_ids() {
    let r = DeleteDocumentsRequest { document_ids: vec![] };
    assert!(r.validate().is_err());
    let r = DeleteDocumentsRequest { document_ids: vec!["a".to_string()] };
    assert!(r.validate().is_ok());
}

#[test]
fn point_payload_stores_owner_after_metadata() {
    let doc = DocumentData {
        text: "secret document".to_string(),
        title: Some("Secret".to_string()),
    };
    let metadata = map_of(&[(OWNER_PAYLOAD_KEY, "\"attacker-user\""), ("category", "\"notes\"")]);

    let payload = build_point_payload(&doc, Some(&metadata), "real-user");

    assert_eq!(
        payload.get(OWNER_PAYLOAD_KEY).map(String::as_str),
        Some("real-user")
    );
    assert_eq!(payload.get("category").map(String::as_str), Some("\"notes\""));
}

#[test]
fn point_payload_holds_document_json() {
    let doc = DocumentData {
        text: "t".to_string(),
        title: None,
    };
    let payload = build_point_payload(&doc, None, "o");
    assert_eq!(payload.len(), 2);
    let json: serde_json::Value =
        serde_json::from_str(payload.get("document").expect("document")).unwrap();
    assert_eq!(json["text"], "t");
    assert!(json.get("title").is_none());
}

#[test]
fn search_filter_always_requires_owner() {
    let metadata_filter = map_of(&[("category", "\"notes\"")]);

    let filter = build_search_filter("owner-user", Some(&metadata_filter));

    assert_eq!(filter.must.len(), 2);
    assert!(filter_contains_match(&filter, OWNER_PAYLOAD_KEY, "owner-user"));
    assert!(filter_contains_match(&filter, "category", "notes"));
}

#[test]
fn search_filter_drops_client_owner_condition() {
    let metadata_filter = map_of(&[(OWNER_PAYLOAD_KEY, "\"attacker\"")]);
    let filter = build_search_filter("owner-user", Some(&metadata_filter));
    assert_eq!(filter.must.len(), 1);
    assert!(filter_contains_match(&filter, OWNER_PAYLOAD_KEY, "owner-user"));
    assert!(!filter_contains_match(&filter, OWNER_PAYLOAD_KEY, "attacker"));
}

#[test]
fn search_filter_trims_every_surrounding_quote() {
    let metadata_filter = map_of(&[("n", "42"), ("q", "\"\"x\"\""), ("e", "\"\"")]);
    let filter = build_search_filter("o", Some(&metadata_filter));
    assert_eq!(filter.must.len(), 4);
    assert!(filter_contains_match(&filter, "n", "42"));
    assert!(filter_contains_match(&filter, "q", "x"));
    assert!(filter_contains_match(&filter, "e", ""));
}

#[test]
fn delete_filter_requires_owner_and_ids() {
    let ids = vec!["11111111-1111-4111-8111-111111111111".to_string()];

    let filter = build_delete_filter("owner-user", &ids);

    assert_eq!(filter.must.len(), 2);
    assert!(filter_contains_match(&filter, OWNER_PAYLOAD_KEY, "owner-user"));
    assert!(filter_contains_has_id(&filter, &ids));
}

#[test]
fn owner_payload_is_not_returned_as_metadata() {
    let payload = vec![
        (OWNER_PAYLOAD_KEY.to_string(), Some("owner-user".to_string())),
        ("category".to_string(), Some("notes".to_string())),
    ];

    let metadata = metadata_from_payload(&payload);

    assert!(!metadata.contains_key(OWNER_PAYLOAD_KEY));
    assert_eq!(metadata.get("category").map(String::as_str), Some("\"notes\""));
}

#[test]
fn non_string_payload_values_are_not_metadata() {
    let payload = vec![("n".to_string(), None), ("s".to_string(), Some("v".to_string()))];
    let metadata = metadata_from_payload(&payload);
    assert_eq!(metadata.len(), 1);
    assert!(!metadata.contains_key("n"));
}

#[test]
fn search_hit_reads_document_and_metadata() {
    let point = ScoredPayload {
        id: PointKey::Num(42),
        payload: vec![
            (
                "document".to_string(),
                Some("{\"text\":\"hello\",\"title\":\"T\"}".to_string()),
            ),
            (OWNER_PAYLOAD_KEY.to_string(), Some("u".to_string())),
            ("tag".to_string(), Some("x".to_string())),
        ],
    };
    let hit = search_hit(&point);
    assert_eq!(hit.id, "42");
    assert_eq!(hit.document.text, "hello");
    assert_eq!(hit.document.title.as_deref(), Some("T"));
    assert_eq!(hit.metadata.len(), 1);
    assert_eq!(hit.metadata.get("tag").map(String::as_str), Some("\"x\""));
}

#[test]
fn search_hit_with_unreadable_document() {
    let point = ScoredPayload {
        id: PointKey::Missing,
        payload: vec![("document".to_string(), Some("not json".to_string()))],
    };
    let hit = search_hit(&point);
    assert_eq!(hit.id, "");
    assert_eq!(hit.document.text, "");
    assert!(hit.document.title.is_none());
    assert_eq!(hit.metadata.len(), 0);
}

#[test]
fn stored_document_reads_back() {
    let doc = DocumentData {
        text: "body \"quoted\"".to_string(),
        title: Some("Title".to_string()),
    };
    let metadata = map_of(&[("k", "\"v\"")]);
    let payload = build_point_payload(&doc, Some(&metadata), "me");
    let point = ScoredPayload {
        id: PointKey::Uuid("abc".to_string()),
        payload: payload
            .entries
            .iter()
            .map(|(k, v)| (k.clone(), Some(v.clone())))
            .collect(),
    };
    let hit = search_hit(&point);
    assert_eq!(hit.id, "abc");
    assert_eq!(hit.document.text, doc.text);
    assert_eq!(hit.document.title, doc.title);
    assert!(!hit.metadata.contains_key(OWNER_PAYLOAD_KEY));
    assert_eq!(
        hit.metadata.get("k").map(String::as_str),
        Some("\"\\\"v\\\"\"")
    );
}

#[test]
fn search_failure_is_reported() {
    match search_outcome(Err("timeout".to_string())) {
        Err(AppError::ExternalService(m)) => assert_eq!(m, "Search failed: timeout"),
        _ => panic!("expected an external service error"),
    }
    let hits = search_outcome(Ok(vec![])).ok().expect("hits");
    assert!(hits.is_empty());
}

#[test]
fn add_plan_checks_counts() {
    let svc = service();
    let docs = vec![DocumentData {
        text: "a".to_string(),
        title: None,
    }];
    match svc.plan_add_documents("o", &docs, &vec![], None) {
        Err(AppError::BadRequest(m)) => assert_eq!(
            m,
            "Number of documents (1) must match number of embeddings (0)"
        ),
        _ => panic!("expected a count mismatch"),
    }
    match svc.plan_add_documents("o", &vec![], &vec![], None) {
        Err(AppError::BadRequest(m)) => assert_eq!(m, "No documents provided"),
        _ => panic!("expected no documents"),
    }
}

#[test]
fn add_plan_gives_ids_and_owned_payloads() {
    let svc = service();
    let docs = vec![
        DocumentData {
            text: "a".to_string(),
            title: None,
        },
        DocumentData {
            text: "b".to_string(),
            title: Some("B".to_string()),
        },
    ];
    let metas = vec![map_of(&[("x", "1")])];
    let plan = svc
        .plan_add_documents("owner", &docs, &vec![3, 3], Some(&metas))
        .ok()
        .expect("plan");
    assert_eq!(plan.vector_size, 3);
    assert_eq!(plan.ids.len(), 2);
    for id in &plan.ids {
        assert_eq!(id.len(), 36);
        let chars: Vec<char> = id.chars().collect();
        assert_eq!(chars[14], '4');
        assert!(matches!(chars[19], '8' | '9' | 'a' | 'b'));
        assert!(chars.iter().enumerate().all(|(i, c)| if [8, 13, 18, 23].contains(&i) {
            *c == '-'
        } else {
            c.is_ascii_digit() || ('a'..='f').contains(c)
        }));
    }
    assert_ne!(plan.ids[0], plan.ids[1]);
    assert_eq!(plan.payloads[0].get("x").map(String::as_str), Some("1"));
    assert!(!plan.payloads[1].contains_key("x"));
    for p in &plan.payloads {
        assert_eq!(p.get(OWNER_PAYLOAD_KEY).map(String::as_str), Some("owner"));
    }
}

#[test]
fn collection_lookup_and_deletion() {
    let svc = service();
    assert_eq!(svc.collection_name(), "default_collection");
    assert!(matches!(
        svc.collection_missing(Ok(vec!["other".to_string()])),
        Ok(true)
    ));
    assert!(matches!(
        svc.collection_missing(Ok(vec!["default_collection".to_string()])),
        Ok(false)
    ));
    assert!(QdrantService::delete_filter_for("o", &vec![]).is_none());
    assert!(QdrantService::delete_filter_for("o", &vec!["i".to_string()]).is_some());
    assert!(matches!(QdrantService::documents_deleted(Ok(())), Ok(true)));
    assert!(matches!(
        svc.ensure_collection_step(CollectionReply::Listed(Ok(vec!["other".to_string()]))),
        CollectionAction::Create
    ));
    assert!(matches!(
        svc.ensure_collection_step(CollectionReply::Listed(Ok(vec!["default_collection".to_string()]))),
        CollectionAction::Finish(Ok(()))
    ));
    match svc.ensure_collection_step(CollectionReply::Created(Err("no".to_string()))) {
        CollectionAction::Finish(Err(AppError::ExternalService(m))) => {
            assert_eq!(m, "Failed to create collection: no")
        }
        _ => panic!("expected a creation error"),
    }
    match QdrantService::documents_deleted(Err("boom".to_string())) {
        Err(AppError::ExternalService(m)) => assert_eq!(m, "Failed to delete documents: boom"),
        _ => panic!("expected an error"),
    }
}

#[test]
fn qdrant_connection_defaults_to_local() {
    let c = QdrantService::connection(&QdrantConfig::default());
    assert_eq!(c.url, "http://localhost:6334");
    assert!(!c.configured);
    let cfg = QdrantConfig {
        url: Some("http://q".to_string()),
        api_key: Some("k".to_string()),
        collection_name: "c".to_string(),
    };
    let c = QdrantService::connection(&cfg);
    assert_eq!(c.url, "http://q");
    assert_eq!(c.api_key.as_deref(), Some("k"));
    assert!(matches!(c.build_error("x"), AppError::Configuration(ref m) if m == "Failed to connect to Qdrant: x"));
}

#[test]
fn documents_copied_for_storage_and_delete_answer() {
    let docs = vec![Document {
        text: "t".to_string(),
        title: Some("T".to_string()),
        metadata: StringMap::new(),
    }];
    let data = documents_for_storage(&docs);
    assert_eq!(data[0].text, "t");
    assert_eq!(data[0].title.as_deref(), Some("T"));
    assert!(matches!(delete_outcome(true), Ok(204)));
    assert!(matches!(delete_outcome(false), Err(AppError::BadRequest(_))));
}
