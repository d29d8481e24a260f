use backend::config::{
    CorsConfig, EnvVars, Environment, LlmConfig, QdrantConfig, ServerConfig, Settings,
    SupabaseConfig,
};

#[test]
fn test_environment_parsing() {
    assert_eq!(
        "development".parse::<Environment>().unwrap(),
        Environment::Development
    );
    assert_eq!(
        "production".parse::<Environment>().unwrap(),
        Environment::Production
    );
}

#[test]
fn test_environment_aliases() {
    assert_eq!(
        "dev".parse::<Environment>().unwrap(),
        Environment::Development
    );
    assert_eq!(
        "prod".parse::<Environment>().unwrap(),
        Environment::Production
    );
    assert_eq!(
        "stage".parse::<Environment>().unwrap(),
        Environment::Staging
    );
    assert_eq!(
        "staging".parse::<Environment>().unwrap(),
        Environment::Staging
    );
}

#[test]
fn test_environment_invalid_value() {
    assert!("invalid".parse::<Environment>().is_err());
}

#[test]
fn test_llm_config_has_openai() {
    let config = LlmConfig {
        openai_api_key: Some("test_key".to_string()),
        anthropic_api_key: None,
    };
    assert!(config.has_openai());
    assert!(!config.has_anthropic());

    let empty_config = LlmConfig {
        openai_api_key: Some(String::new()),
        anthropic_api_key: None,
    };
    assert!(!empty_config.has_openai());

    let whitespace = LlmConfig {
        openai_api_key: Some("   \t  ".to_string()),
        anthropic_api_key: None,
    };
    assert!(!whitespace.has_openai());
}

#[test]
fn test_llm_config_has_anthropic() {
    let config = LlmConfig {
        openai_api_key: None,
        anthropic_api_key: Some("test_key".to_string()),
    };
    assert!(!config.has_openai());
    assert!(config.has_anthropic());

    let empty_config = LlmConfig {
        openai_api_key: None,
        anthropic_api_key: Some(String::new()),
    };
    assert!(!empty_config.has_anthropic());

    let whitespace = LlmConfig {
        openai_api_key: None,
        anthropic_api_key: Some("   \n  ".to_string()),
    };
    assert!(!whitespace.has_anthropic());
}

fn sample_settings(service_key: &str, openai: &str) -> Settings {
    Settings {
        environment: Environment::Development,
        server: ServerConfig::default(),
        cors: CorsConfig::default(),
        supabase: SupabaseConfig {
            url: "https://x.supabase.co".to_string(),
            service_key: service_key.to_string(),
            anon_key: None,
            jwt_secret: None,
        },
        llm: LlmConfig {
            openai_api_key: Some(openai.to_string()),
            anthropic_api_key: None,
        },
        qdrant: QdrantConfig {
            url: None,
            api_key: None,
            collection_name: "c".to_string(),
        },
    }
}

#[test]
fn config_debug_does_not_contain_secrets() {
    let settings = sample_settings("super-secret", "sk-openai");
    let dbg = settings.debug_string();
    assert!(!dbg.contains("super-secret"), "{dbg}");
    assert!(!dbg.contains("sk-openai"), "{dbg}");
}

#[test]
fn debug_text_is_the_same_whatever_the_secrets() {
    let a = sample_settings("first-secret", "sk-one").debug_string();
    let b = sample_settings("second-secret", "sk-two").debug_string();
    assert_eq!(a, b);
}

#[test]
fn debug_text_matches_struct_debug_layout() {
    let settings = sample_settings("super-secret", "sk-openai");
    assert_eq!(
        settings.debug_string(),
        "Settings { environment: Development, server: ServerConfig { host: \"0.0.0.0\", port: 8000 }, \
         cors: CorsConfig { origins: [\"http://localhost:3000\"] }, \
         supabase: SupabaseConfig { url: \"https://x.supabase.co\", service_key: \"<REDACTED>\", anon_key: None, jwt_secret: None }, \
         llm: LlmConfig { openai_api_key: Some(\"<REDACTED>\"), anthropic_api_key: None }, \
         qdrant: QdrantConfig { url: None, api_key: None, collection_name: \"c\" } }"
    );
}

#[test]
fn qdrant_debug_shows_url_and_hides_key() {
    let q = QdrantConfig {
        url: Some("http://q:6334".to_string()),
        api_key: Some("qk".to_string()),
        collection_name: "docs".to_string(),
    };
    assert_eq!(
        q.debug_string(),
        "QdrantConfig { url: Some(\"http://q:6334\"), api_key: Some(\"<REDACTED>\"), collection_name: \"docs\" }"
    );
}

#[test]
fn blank_llm_key_shows_as_unset() {
    let llm = LlmConfig {
        openai_api_key: Some("  ".to_string()),
        anthropic_api_key: Some("ak".to_string()),
    };
    assert_eq!(
        llm.debug_string(),
        "LlmConfig { openai_api_key: None, anthropic_api_key: Some(\"<REDACTED>\") }"
    );
}

#[test]
fn cors_debug_lists_every_origin() {
    let cors = CorsConfig {
        origins: vec!["http://a".to_string(), "http://b".to_string()],
    };
    assert_eq!(
        cors.debug_string(),
        "CorsConfig { origins: [\"http://a\", \"http://b\"] }"
    );
    let empty = CorsConfig { origins: vec![] };
    assert_eq!(empty.debug_string(), "CorsConfig { origins: [] }");
}

#[test]
fn environment_parsing_ignores_case() {
    assert_eq!(
        "PRODUCTION".parse::<Environment>().unwrap(),
        Environment::Production
    );
    assert_eq!(Environment::Staging.to_string(), "staging");
}

#[test]
fn invalid_environment_error_names_the_value() {
    let err = "qa".parse::<Environment>().unwrap_err();
    assert!(err.to_string().contains("qa"), "{}", err.to_string());
}

fn vars() -> EnvVars {
    EnvVars {
        environment: None,
        host: None,
        port: None,
        cors_origins: None,
        supabase_url: Some("https://x.supabase.co".to_string()),
        supabase_service_key: Some("service".to_string()),
        supabase_anon_key: None,
        supabase_jwt_secret: None,
        openai_api_key: None,
        anthropic_api_key: None,
        qdrant_url: None,
        qdrant_api_key: None,
        qdrant_collection_name: None,
    }
}

#[test]
fn settings_from_minimal_vars_use_defaults() {
    let s = Settings::from_vars(vars()).unwrap();
    assert_eq!(s.environment, Environment::Development);
    assert_eq!(s.server.host, "0.0.0.0");
    assert_eq!(s.server.port, 8000);
    assert_eq!(s.cors.origins, vec!["http://localhost:3000".to_string()]);
    assert_eq!(s.supabase.url, "https://x.supabase.co");
    assert_eq!(s.qdrant.collection_name, "default_collection");
}

#[test]
fn settings_require_supabase_url() {
    let mut v = vars();
    v.supabase_url = None;
    assert!(Settings::from_vars(v).is_err());
}

#[test]
fn settings_reject_bad_port() {
    let mut v = vars();
    v.port = Some("80x".to_string());
    assert!(Settings::from_vars(v).is_err());
    let mut v = vars();
    v.port = Some("70000".to_string());
    assert!(Settings::from_vars(v).is_err());
}

#[test]
fn settings_split_and_trim_origins() {
    let mut v = vars();
    v.cors_origins = Some(" http://a , ,http://b".to_string());
    v.port = Some("9000".to_string());
    let s = Settings::from_vars(v).unwrap();
    assert_eq!(
        s.cors.origins,
        vec!["http://a".to_string(), "http://b".to_string()]
    );
    assert_eq!(s.server.port, 9000);
}
