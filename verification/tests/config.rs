use xmpp_webhook::config::{
    AppSettings, Environment, RepoSettings, UnsupportedEnvironment, WebhookSettings,
};

#[test]
fn environment_names() {
    assert_eq!(Environment::Local.as_str(), "local");
    assert_eq!(Environment::Production.as_str(), "production");
}

#[test]
fn environment_is_read_whatever_its_case() {
    assert_eq!(Environment::try_from("local".to_string()).unwrap(), Environment::Local);
    assert_eq!(Environment::try_from("LOCAL".to_string()).unwrap(), Environment::Local);
    assert_eq!(Environment::try_from("Production".to_string()).unwrap(), Environment::Production);
}

#[test]
fn unsupported_environment_is_refused() {
    let error = Environment::try_from("Staging".to_string()).unwrap_err();
    assert_eq!(error.name, "staging");
    assert_eq!(
        error.message(),
        "staging is not a supported environment.\n          Use either `local` or `production`."
    );
}

#[test]
fn a_name_in_lower_case_is_matched_as_it_is() {
    assert_eq!(Environment::from_lowercase("production".to_string()).unwrap(), Environment::Production);
    let error: UnsupportedEnvironment = Environment::from_lowercase("LOCAL".to_string()).unwrap_err();
    assert_eq!(error.name, "LOCAL");
}

#[test]
fn address_joins_host_and_port() {
    let settings = AppSettings {
        port: 8000,
        host: "127.0.0.1".to_string(),
        base_url: "http://127.0.0.1".to_string(),
    };
    assert_eq!(settings.address(), "127.0.0.1:8000");
    let any_port = AppSettings { port: 0, host: "localhost".to_string(), base_url: String::new() };
    assert_eq!(any_port.address(), "localhost:0");
}

#[test]
fn rooms_follow_the_repositories() {
    let a = jid::BareJid::new("a@conference.example.org").unwrap();
    let b = jid::BareJid::new("b@conference.example.org").unwrap();
    let settings = WebhookSettings {
        repos: vec![
            RepoSettings { repo: "org/one".to_string(), room: a.clone() },
            RepoSettings { repo: "org/two".to_string(), room: b.clone() },
            RepoSettings { repo: "org/three".to_string(), room: a.clone() },
        ],
    };
    assert_eq!(settings.rooms(), vec![a.clone(), b, a]);
    assert!(WebhookSettings { repos: Vec::new() }.rooms().is_empty());
}
