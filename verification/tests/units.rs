use env_url::assemble::assemble;
use env_url::env::Env;
use env_url::keys::{component_key, component_override_key, url_key, url_override_key, Component};
use env_url::parts::UrlParts;

fn parts(
    scheme: &str,
    host: &str,
    port: &str,
    path: &str,
    query: &str,
    userinfo: &str,
) -> UrlParts {
    UrlParts {
        scheme: scheme.to_string(),
        host: host.to_string(),
        port: port.to_string(),
        path: path.to_string(),
        query: query.to_string(),
        userinfo: userinfo.to_string(),
    }
}

#[test]
fn assembles_all_four_templates() {
    assert_eq!(
        assemble(&parts("redis", "h", "1", "/p", "q=1", "u:pw")),
        "redis://u:pw@h:1/p?q=1"
    );
    assert_eq!(assemble(&parts("redis", "h", "1", "/p", "", "u:pw")), "redis://u:pw@h:1/p");
    assert_eq!(assemble(&parts("redis", "h", "1", "/p", "q=1", "")), "redis://h:1/p?q=1");
    assert_eq!(assemble(&parts("redis", "h", "1", "/p", "", "")), "redis://h:1/p");
}

#[test]
fn assembles_bare_colon_for_empty_port() {
    assert_eq!(assemble(&parts("redis", "h", "", "", "", "")), "redis://h:");
}

#[test]
fn derives_key_names_from_prefix() {
    assert_eq!(url_key("REDIS"), "REDIS_URL");
    assert_eq!(url_override_key("REDIS"), "REDIS_URL_ENV");
    assert_eq!(component_key("REDIS", Component::Scheme), "REDIS_SCHEME");
    assert_eq!(component_key("REDIS", Component::Host), "REDIS_HOST");
    assert_eq!(component_key("REDIS", Component::Port), "REDIS_PORT");
    assert_eq!(component_key("REDIS", Component::Path), "REDIS_PATH");
    assert_eq!(component_key("REDIS", Component::Query), "REDIS_QUERY");
    assert_eq!(component_key("REDIS", Component::Userinfo), "REDIS_USERINFO");
    assert_eq!(component_override_key("REDIS", Component::Host), "REDIS_HOST_ENV");
}

#[test]
fn env_lookup_finds_last_binding() {
    let mut env = Env::new();
    assert_eq!(env.get("A"), None);
    env.set("A".to_string(), "1".to_string());
    env.set("B".to_string(), "2".to_string());
    env.set("A".to_string(), "3".to_string());
    assert_eq!(env.get("A"), Some("3".to_string()));
    assert_eq!(env.get("B"), Some("2".to_string()));
    assert_eq!(env.get("C"), None);
}
