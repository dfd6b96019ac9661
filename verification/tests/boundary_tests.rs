use spord_tracker::config::default_config;
use spord_tracker::config::get_config_location;
use spord_tracker::session::login_response;
use spord_tracker::session::mint_identity;
use spord_tracker::session::parse_identity;
use spord_tracker::session::redirect_target;
use spord_tracker::session::user_logged_in;
use spord_tracker::templates::template_footer;
use spord_tracker::templates::template_header;
use spord_tracker::templates::template_index;
use spord_tracker::templates::template_login;

#[test]
fn identity_token_round_trips() {
    let token = mint_identity("alice");
    assert_eq!(token, "user:alice".to_string());
    assert_eq!(parse_identity(&token), Some("alice".to_string()));
}

#[test]
fn identity_without_prefix_means_not_logged_in() {
    assert_eq!(parse_identity("alice"), None);
    assert_eq!(parse_identity("usr:alice"), None);
    assert_eq!(parse_identity("use"), None);
    assert_eq!(parse_identity(""), None);
    // The bare prefix is a logged-in user with an empty name.
    assert_eq!(parse_identity("user:"), Some(String::new()));
}

#[test]
fn logged_in_needs_a_present_wellformed_identity() {
    assert_eq!(user_logged_in(None), None);
    assert_eq!(user_logged_in(Some("garbage")), None);
    assert_eq!(user_logged_in(Some("user:bob")), Some("bob".to_string()));
}

#[test]
fn redirect_accepts_only_site_local_targets() {
    assert_eq!(redirect_target(Some("/orders")), "/orders".to_string());
    assert_eq!(redirect_target(Some("/")), "/".to_string());
    assert_eq!(
        redirect_target(Some("https://example.com/")),
        "/".to_string()
    );
    assert_eq!(redirect_target(Some("")), "/".to_string());
    assert_eq!(redirect_target(None), "/".to_string());
}

#[test]
fn login_response_mints_token_only_on_success() {
    let (token, location) = login_response(true, "alice", Some("/orders"));
    assert_eq!(token, Some("user:alice".to_string()));
    assert_eq!(location, "/orders".to_string());

    let (token, location) = login_response(true, "alice", Some("evil://x"));
    assert_eq!(token, Some("user:alice".to_string()));
    assert_eq!(location, "/".to_string());

    let (token, location) = login_response(false, "alice", Some("/orders"));
    assert_eq!(token, None);
    assert_eq!(location, "/login".to_string());
}

#[test]
fn header_carries_the_title_and_pages_are_assembled() {
    let header = template_header("Index");
    assert!(header.contains("<title>Index</title>"));
    let footer = template_footer();
    assert!(footer.contains("</html>"));

    let index = template_index();
    assert!(index.starts_with(&header));
    assert!(index.ends_with(&footer));
    assert!(index.contains("<div id=\"spords\">"));

    let login = template_login();
    assert!(login.contains("<title>Login</title>"));
    assert!(login.contains("action=\"/api/user/login\""));
    assert!(login.ends_with(&footer));
}

#[test]
fn default_configuration_is_exact() {
    let config = default_config();
    assert_eq!(config.log.level, "info".to_string());
    assert_eq!(config.log.dir, None);
    assert!(config.log.stdout);
    assert_eq!(config.log.fileskept, None);
    assert_eq!(config.sql.location, "spord-tracker.db".to_string());
    assert_eq!(config.web.listen, "127.0.0.1:8080".to_string());
    assert_eq!(config.web.https, Some(false));
    assert_eq!(config.web.key_file, Some("key.crt".to_string()));
    assert_eq!(config.web.privkey_file, Some("privkey.key".to_string()));
    assert_eq!(get_config_location(), "config.json".to_string());
}
