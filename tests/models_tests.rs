use wx_uploader::accounts::{AccountMap, WeChatAccount};
use wx_uploader::models::{
    is_valid_code_highlighter, is_valid_theme, AiProvider, AiProviderConfig, Config, ConfigFile,
    GlobalSettings,
};
use wx_uploader::Error;

fn account(name: &str, app_id: &str, app_secret: &str, description: Option<&str>) -> WeChatAccount {
    WeChatAccount {
        name: name.to_string(),
        app_id: app_id.to_string(),
        app_secret: app_secret.to_string(),
        description: description.map(|d| d.to_string()),
    }
}

#[test]
fn test_config_creation() {
    let ai_provider = Some(AiProvider::openai("test_openai_key".to_string()));
    let config = Config::new(
        "test_app_id".to_string(),
        "test_secret".to_string(),
        ai_provider,
        true,
    );

    assert_eq!(config.wechat_account.app_id, "test_app_id");
    assert_eq!(config.wechat_account.app_secret, "test_secret");
    assert_eq!(config.wechat_account.name, "main");
    assert!(config.ai_provider.is_some());
    assert_eq!(config.ai_provider.as_ref().unwrap().api_key(), "test_openai_key");
    assert!(config.verbose);
    assert_eq!(config.available_accounts.len(), 1);
}

#[test]
fn test_config_with_verbose() {
    let mut config = Config::new(
        "test_app_id".to_string(),
        "test_secret".to_string(),
        None,
        false,
    );

    config.verbose = true;
    assert!(config.verbose);
}

#[test]
fn config_with_verbose_builder_sets_flag() {
    let config = Config::new("id".to_string(), "secret".to_string(), None, false).with_verbose(true);
    assert!(config.verbose);
    assert_eq!(config.wechat_account.app_id, "id");
}

#[test]
fn test_config_validation() {
    let valid_config = Config::new("app_id".to_string(), "secret".to_string(), None, false);
    assert!(valid_config.validate().is_ok());

    // Test with empty app_id
    let mut accounts = AccountMap::new();
    accounts.insert("test".to_string(), account("test", "", "secret", None));
    let empty_app_id = Config::new_with_accounts(accounts, "test", None, false);
    assert!(empty_app_id.is_ok());
    assert!(empty_app_id.unwrap().validate().is_err());

    // Test with empty app_secret
    let mut accounts = AccountMap::new();
    accounts.insert("test".to_string(), account("test", "app_id", "", None));
    let empty_secret = Config::new_with_accounts(accounts, "test", None, false);
    assert!(empty_secret.is_ok());
    assert!(empty_secret.unwrap().validate().is_err());
}

#[test]
fn validation_reports_each_fault() {
    let blank_id = Config::new("  \t".to_string(), "secret".to_string(), None, false);
    assert_eq!(
        blank_id.validate(),
        Err(Error::EmptyAppId { account: "main".to_string() })
    );

    let blank_secret = Config::new("id".to_string(), "\n".to_string(), None, false);
    assert_eq!(
        blank_secret.validate(),
        Err(Error::EmptyAppSecret { account: "main".to_string() })
    );

    // an account other than the active one has an empty credential
    let mut accounts = AccountMap::new();
    accounts.insert("good".to_string(), account("good", "id", "secret", None));
    accounts.insert("bad".to_string(), account("bad", "id", " ", None));
    let config = Config::new_with_accounts(accounts, "good", None, false).unwrap();
    assert_eq!(
        config.validate(),
        Err(Error::EmptyAppSecret { account: "bad".to_string() })
    );
}

#[test]
fn test_ai_provider_creation() {
    let openai_provider = AiProvider::openai("test_key".to_string());
    assert_eq!(openai_provider.api_key(), "test_key");
    assert_eq!(openai_provider.name(), "OpenAI");

    let gemini_provider = AiProvider::gemini("test_key".to_string());
    assert_eq!(gemini_provider.api_key(), "test_key");
    assert_eq!(gemini_provider.name(), "Gemini");
}

#[test]
fn test_theme_validation() {
    assert!(is_valid_theme("lapis"));
    assert!(is_valid_theme("default"));
    assert!(!is_valid_theme("invalid"));
    assert!(!is_valid_theme(""));
}

#[test]
fn test_code_highlighter_validation() {
    assert!(is_valid_code_highlighter("github"));
    assert!(is_valid_code_highlighter("monokai"));
    assert!(!is_valid_code_highlighter("invalid"));
    assert!(!is_valid_code_highlighter(""));
}

#[test]
fn every_whitelisted_name_passes() {
    for t in ["default", "lapis", "maize", "orangeheart", "phycat", "pie", "purple", "rainbow"] {
        assert!(is_valid_theme(t), "{}", t);
    }
    for h in [
        "github",
        "github-dark",
        "vscode",
        "atom-one-light",
        "atom-one-dark",
        "solarized-light",
        "solarized-dark",
        "monokai",
        "dracula",
        "xcode",
    ] {
        assert!(is_valid_code_highlighter(h), "{}", h);
    }
    assert!(!is_valid_theme("Lapis"));
    assert!(!is_valid_code_highlighter("vs2015"));
}

#[test]
fn test_account_switching() {
    let mut accounts = AccountMap::new();
    accounts.insert("test1".to_string(), account("test1", "app1", "secret1", None));
    accounts.insert("test2".to_string(), account("test2", "app2", "secret2", None));

    let mut config = Config::new_with_accounts(accounts, "test1", None, false).unwrap();

    assert_eq!(config.wechat_account.name, "test1");
    assert_eq!(config.wechat_account.app_id, "app1");

    // Test switching accounts
    config.switch_account("test2").unwrap();
    assert_eq!(config.wechat_account.name, "test2");
    assert_eq!(config.wechat_account.app_id, "app2");

    // Test switching to non-existent account
    let result = config.switch_account("nonexistent");
    assert!(result.is_err());
}

#[test]
fn switching_to_unknown_account_lists_names_and_keeps_active() {
    let mut accounts = AccountMap::new();
    accounts.insert("a".to_string(), account("a", "1", "x", None));
    accounts.insert("b".to_string(), account("b", "2", "y", None));
    let mut config = Config::new_with_accounts(accounts, "b", None, false).unwrap();
    let err = config.switch_account("zzz").unwrap_err();
    assert_eq!(
        err,
        Error::AccountNotFound {
            name: "zzz".to_string(),
            available: vec!["a".to_string(), "b".to_string()],
        }
    );
    assert_eq!(config.wechat_account.name, "b");
    assert_eq!(config.available_accounts.len(), 2);
}

#[test]
fn test_multi_account_config() {
    let mut accounts = AccountMap::new();
    accounts.insert(
        "personal".to_string(),
        account("personal", "personal_app_id", "personal_secret", Some("Personal account")),
    );
    accounts.insert(
        "work".to_string(),
        account("work", "work_app_id", "work_secret", Some("Work account")),
    );

    let config = Config::new_with_accounts(accounts, "personal", None, false).unwrap();

    assert_eq!(config.wechat_account.name, "personal");
    assert_eq!(config.available_accounts.len(), 2);

    let account_list = config.list_accounts();
    assert_eq!(account_list.len(), 2);

    // Validate configuration
    assert!(config.validate().is_ok());
}

#[test]
fn inserting_an_existing_name_replaces_in_place() {
    let mut accounts = AccountMap::new();
    accounts.insert("a".to_string(), account("a", "1", "x", None));
    accounts.insert("b".to_string(), account("b", "2", "y", None));
    accounts.insert("a".to_string(), account("a", "3", "z", None));
    assert_eq!(accounts.len(), 2);
    assert_eq!(accounts.names(), vec!["a".to_string(), "b".to_string()]);
    assert_eq!(accounts.get("a").unwrap().app_id, "3");
    assert!(accounts.get("c").is_none());
}

#[test]
fn new_with_unknown_default_fails() {
    let mut accounts = AccountMap::new();
    accounts.insert("only".to_string(), account("only", "1", "x", None));
    let err = Config::new_with_accounts(accounts, "other", None, false).unwrap_err();
    assert_eq!(
        err,
        Error::AccountNotFound { name: "other".to_string(), available: vec!["only".to_string()] }
    );
}

#[test]
fn test_config_from_env() {
    let config = Config::from_env_values(
        Some("test_id".to_string()),
        Some("test_secret".to_string()),
        None,
        Some("test_openai".to_string()),
        None,
    )
    .unwrap();
    assert_eq!(config.wechat_account.app_id, "test_id");
    assert_eq!(config.wechat_account.app_secret, "test_secret");
    assert_eq!(config.wechat_account.name, "default");
    assert!(config.ai_provider.is_some());
    assert_eq!(config.ai_provider.unwrap().api_key(), "test_openai");
    assert_eq!(config.available_accounts.len(), 1);
}

#[test]
fn test_config_from_env_gemini() {
    let config = Config::from_env_values(
        Some("test_id".to_string()),
        Some("test_secret".to_string()),
        Some("gemini".to_string()),
        None,
        Some("test_gemini".to_string()),
    )
    .unwrap();
    assert_eq!(config.wechat_account.app_id, "test_id");
    assert_eq!(config.wechat_account.app_secret, "test_secret");
    assert_eq!(config.wechat_account.name, "default");
    assert!(config.ai_provider.is_some());

    let provider = config.ai_provider.unwrap();
    assert_eq!(provider.api_key(), "test_gemini");
    assert_eq!(provider.name(), "Gemini");
    assert_eq!(config.available_accounts.len(), 1);
}

#[test]
fn test_config_from_env_missing_required() {
    let result = Config::from_env_values(None, None, None, None, None);
    assert!(result.is_err());
    assert_eq!(
        result.unwrap_err(),
        Error::MissingEnvVar { var: "WECHAT_APP_ID".to_string() }
    );
    let result = Config::from_env_values(Some("id".to_string()), None, None, None, None);
    assert_eq!(
        result.unwrap_err(),
        Error::MissingEnvVar { var: "WECHAT_APP_SECRET".to_string() }
    );
}

#[test]
fn env_selector_is_case_insensitive_and_needs_a_key() {
    let config = Config::from_env_values(
        Some("id".to_string()),
        Some("s".to_string()),
        Some("GeMiNi".to_string()),
        Some("openai-key".to_string()),
        Some("gemini-key".to_string()),
    )
    .unwrap();
    assert_eq!(config.ai_provider, Some(AiProvider::gemini("gemini-key".to_string())));

    // selector names Gemini but only an OpenAI key exists: no provider
    let config = Config::from_env_values(
        Some("id".to_string()),
        Some("s".to_string()),
        Some("gemini".to_string()),
        Some("openai-key".to_string()),
        None,
    )
    .unwrap();
    assert_eq!(config.ai_provider, None);
}

fn config_file(names: &[&str], default_account: Option<&str>) -> ConfigFile {
    let mut accounts = AccountMap::new();
    for n in names {
        accounts.insert(n.to_string(), account(n, &format!("{}_id", n), &format!("{}_secret", n), None));
    }
    ConfigFile {
        accounts,
        default_account: default_account.map(|d| d.to_string()),
        ai_provider: None,
        settings: None,
    }
}

#[test]
fn from_file_with_no_accounts_fails() {
    let file = config_file(&[], None);
    let r = Config::from_config_file(file, None, None, "c.yaml".to_string());
    assert_eq!(r.unwrap_err(), Error::EmptyAccountSet);
}

#[test]
fn from_file_unknown_account_lists_names() {
    let file = config_file(&["work", "personal"], None);
    let r = Config::from_config_file(file, Some("nope"), None, "c.yaml".to_string());
    assert_eq!(
        r.unwrap_err(),
        Error::AccountNotFound {
            name: "nope".to_string(),
            available: vec!["work".to_string(), "personal".to_string()],
        }
    );
}

#[test]
fn from_file_selection_order() {
    // neither requested nor default: the first declared account
    let file = config_file(&["work", "personal"], None);
    let c = Config::from_config_file(file, None, None, "c.yaml".to_string()).unwrap();
    assert_eq!(c.wechat_account.name, "work");
    assert_eq!(c.config_file_path, Some("c.yaml".to_string()));

    // the file's default
    let file = config_file(&["work", "personal"], Some("personal"));
    let c = Config::from_config_file(file, None, None, "c.yaml".to_string()).unwrap();
    assert_eq!(c.wechat_account.name, "personal");

    // the request wins over the default
    let file = config_file(&["work", "personal"], Some("personal"));
    let c = Config::from_config_file(file, Some("work"), None, "c.yaml".to_string()).unwrap();
    assert_eq!(c.wechat_account.app_id, "work_id");
    assert_eq!(c.available_accounts.len(), 2);
}

#[test]
fn from_file_provider_block_overrides_environment() {
    let mut file = config_file(&["a"], None);
    file.ai_provider = Some(AiProviderConfig {
        provider: "Gemini".to_string(),
        api_key: "file-key".to_string(),
        base_url: Some("https://example.test".to_string()),
    });
    file.settings = Some(GlobalSettings {
        verbose: Some(true),
        default_theme: None,
        default_code_highlighter: None,
    });
    let env = Some(AiProvider::openai("env-key".to_string()));
    let c = Config::from_config_file(file, None, env, "c.yaml".to_string()).unwrap();
    assert_eq!(
        c.ai_provider,
        Some(AiProvider::Gemini {
            api_key: "file-key".to_string(),
            base_url: Some("https://example.test".to_string()),
        })
    );
    assert!(c.verbose);

    let file = config_file(&["a"], None);
    let env = Some(AiProvider::openai("env-key".to_string()));
    let c = Config::from_config_file(file, None, env, "c.yaml".to_string()).unwrap();
    assert_eq!(c.ai_provider, Some(AiProvider::openai("env-key".to_string())));
    assert!(!c.verbose);

    let mut file = config_file(&["a"], None);
    file.ai_provider = Some(AiProviderConfig {
        provider: "mistral".to_string(),
        api_key: "k".to_string(),
        base_url: None,
    });
    let r = Config::from_config_file(file, None, None, "c.yaml".to_string());
    assert_eq!(r.unwrap_err(), Error::UnsupportedProvider { name: "mistral".to_string() });
}

#[test]
fn cli_overrides_replace_provider() {
    let base = Config::new("id".to_string(), "s".to_string(), None, false);
    let c = base
        .apply_overrides(Some("gemini"), None, None, Some("g".to_string()), true)
        .unwrap();
    assert_eq!(c.ai_provider, Some(AiProvider::gemini("g".to_string())));
    assert!(c.verbose);

    let base = Config::new("id".to_string(), "s".to_string(), None, false);
    let err = base.apply_overrides(Some("openai"), None, None, None, false).unwrap_err();
    assert_eq!(err, Error::MissingEnvVar { var: "OPENAI_API_KEY".to_string() });

    let base = Config::new("id".to_string(), "s".to_string(), None, false);
    let c = base.apply_overrides(None, Some("explicit".to_string()), None, None, false).unwrap();
    assert_eq!(c.ai_provider, Some(AiProvider::openai("explicit".to_string())));

    let base = Config::new(" ".to_string(), "s".to_string(), None, false);
    let err = base.apply_overrides(None, None, None, None, false).unwrap_err();
    assert_eq!(err, Error::EmptyAppId { account: "main".to_string() });
}

#[test]
fn test_error_creation() {
    let path = "test.md".to_string();

    let file_not_found = Error::file_not_found(path.clone());
    assert!(matches!(file_not_found, Error::FileNotFound { .. }));
    assert!(file_not_found.to_string().contains("test.md"));

    let invalid_format = Error::invalid_format(path.clone(), "malformed YAML".to_string());
    assert!(matches!(invalid_format, Error::InvalidFormat { .. }));
    assert!(invalid_format.to_string().contains("malformed YAML"));

    let missing_env = Error::missing_env_var("WECHAT_APP_ID".to_string());
    assert!(matches!(missing_env, Error::MissingEnvVar { .. }));
    assert!(missing_env.to_string().contains("WECHAT_APP_ID"));

    let openai_error = Error::openai("API rate limit exceeded".to_string());
    assert!(matches!(openai_error, Error::OpenAI { .. }));
    assert!(openai_error.to_string().contains("rate limit"));

    let cover_error = Error::cover_image(path.clone(), "download failed".to_string());
    assert!(matches!(cover_error, Error::CoverImage { .. }));
    assert!(cover_error.to_string().contains("download failed"));

    let markdown_error = Error::markdown_parse(path.clone(), "invalid frontmatter".to_string());
    assert!(matches!(markdown_error, Error::MarkdownParse { .. }));
    assert!(markdown_error.to_string().contains("invalid frontmatter"));

    let config_error = Error::config("invalid configuration".to_string());
    assert!(matches!(config_error, Error::Config { .. }));
    assert!(config_error.to_string().contains("invalid configuration"));

    let generic_error = Error::generic("something went wrong".to_string());
    assert!(matches!(generic_error, Error::Generic { .. }));
    assert!(generic_error.to_string().contains("something went wrong"));

    let wechat_error = Error::wechat("denied".to_string());
    assert_eq!(wechat_error.to_string(), "WeChat API error: denied");
}
