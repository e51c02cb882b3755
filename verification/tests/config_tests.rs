use wikcli::config::bearer_token;
use wikcli::config::wiki_config;
use wikcli::config::ConfigError;
use wikcli::config::GlobalOpts;
use wikcli::config::WikcliConfig;
use wikcli::error::BatchPhase;
use wikcli::error::MissingField;
use wikcli::error::WikiError;
use wikcli::queries::extract_title;
use wikcli::queries::GetWikiTitle;
use wikcli::queries::SiteConfig;
use wikcli::queries::SiteQuery;

fn empty_cfg() -> WikcliConfig {
    WikcliConfig::default()
}

fn globals(api_key: Option<&str>, endpoint: Option<&str>) -> GlobalOpts {
    GlobalOpts {
        api_key: api_key.map(|s| s.to_string()),
        endpoint: endpoint.map(|s| s.to_string()),
        no_http2_prior_knowledge: false,
        no_force_https: false,
    }
}

#[test]
fn command_line_wins_over_config_file() {
    let cfg = WikcliConfig {
        api_key: Some("file-key".to_string()),
        endpoint: Some("file-endpoint".to_string()),
        no_http2_prior_knowledge: None,
        no_force_https: None,
    };
    let w = wiki_config(&cfg, &globals(Some("cli-key"), Some("cli-endpoint"))).unwrap();
    assert_eq!(w.api_key, "cli-key");
    assert_eq!(w.endpoint, "cli-endpoint");
    assert!(w.http2);
    assert!(w.https);
}

#[test]
fn config_file_fills_missing_command_line_values() {
    let cfg = WikcliConfig {
        api_key: Some("file-key".to_string()),
        endpoint: Some("file-endpoint".to_string()),
        no_http2_prior_knowledge: None,
        no_force_https: None,
    };
    let w = wiki_config(&cfg, &globals(None, None)).unwrap();
    assert_eq!(w.api_key, "file-key");
    assert_eq!(w.endpoint, "file-endpoint");
}

#[test]
fn missing_api_key_is_reported_first() {
    let r = wiki_config(&empty_cfg(), &globals(None, Some("e")));
    assert_eq!(r.unwrap_err(), ConfigError::MissingApiKey);
    let r = wiki_config(&empty_cfg(), &globals(None, None));
    assert_eq!(r.unwrap_err(), ConfigError::MissingApiKey);
}

#[test]
fn missing_endpoint_is_an_error() {
    let r = wiki_config(&empty_cfg(), &globals(Some("k"), None));
    assert_eq!(r.unwrap_err(), ConfigError::MissingEndpoint);
}

#[test]
fn transport_features_can_be_switched_off_from_either_side() {
    let mut cfg = empty_cfg();
    cfg.api_key = Some("k".to_string());
    cfg.endpoint = Some("e".to_string());

    let mut g = globals(None, None);
    g.no_http2_prior_knowledge = true;
    let w = wiki_config(&cfg, &g).unwrap();
    assert!(!w.http2);
    assert!(w.https);

    cfg.no_force_https = Some(true);
    let w = wiki_config(&cfg, &globals(None, None)).unwrap();
    assert!(w.http2);
    assert!(!w.https);

    // an explicit `false` in the file leaves the command line in charge
    cfg.no_force_https = Some(false);
    let mut g = globals(None, None);
    g.no_force_https = true;
    let w = wiki_config(&cfg, &g).unwrap();
    assert!(!w.https);
}

#[test]
fn default_config_is_empty() {
    let cfg = WikcliConfig::default();
    assert!(cfg.api_key.is_none());
    assert!(cfg.endpoint.is_none());
    assert!(cfg.no_http2_prior_knowledge.is_none());
    assert!(cfg.no_force_https.is_none());
}

#[test]
fn bearer_token_prefixes_the_key() {
    assert_eq!(bearer_token("secret"), "Bearer secret");
    assert_eq!(bearer_token(""), "Bearer ");
}

#[test]
fn title_extraction_reports_first_missing_level() {
    assert_eq!(extract_title(None).unwrap_err(), WikiError::BackendContract(MissingField::Data));
    assert_eq!(
        extract_title(Some(GetWikiTitle { site: None })).unwrap_err(),
        WikiError::BackendContract(MissingField::Site)
    );
    assert_eq!(
        extract_title(Some(GetWikiTitle { site: Some(SiteQuery { config: None }) })).unwrap_err(),
        WikiError::BackendContract(MissingField::Config)
    );
    assert_eq!(
        extract_title(Some(GetWikiTitle {
            site: Some(SiteQuery { config: Some(SiteConfig { title: None }) })
        }))
        .unwrap_err(),
        WikiError::BackendContract(MissingField::Title)
    );
    assert_eq!(
        extract_title(Some(GetWikiTitle {
            site: Some(SiteQuery { config: Some(SiteConfig { title: Some("Wiki".to_string()) }) })
        }))
        .unwrap(),
        "Wiki"
    );
}

#[test]
fn error_descriptions_name_the_failure() {
    assert_eq!(
        WikiError::AllRequestsFailed(BatchPhase::Transport).describe(),
        "All the requests failed."
    );
    assert!(WikiError::PartialRequestFailure(BatchPhase::Transport)
        .describe()
        .contains("partially complete"));
    assert!(WikiError::AllRequestsFailed(BatchPhase::Decode).describe().contains("JSON"));
    assert_eq!(WikiError::BackendContract(MissingField::Title).describe(), "No title");
    assert!(ConfigError::MissingApiKey.describe().contains("API key"));
    assert!(ConfigError::MissingEndpoint.describe().contains("endpoint"));
}
