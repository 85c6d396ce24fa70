use active_campaign::client::{create_builder, init_client};
use active_campaign::config::{Config, API_BASE_URL_VAR, API_KEY_VAR, API_TOKEN_HEADER};

#[test]
fn a_key_that_can_be_a_header_value_is_accepted() {
    let config = Config::new("https://example.test/api/3".to_owned(), "abc DEF\t123~ü".to_owned()).unwrap();
    assert_eq!(config.get_base_url(), "https://example.test/api/3");
    assert_eq!(config.get_api_key(), "abc DEF\t123~ü");
    assert!(Config::new(String::new(), String::new()).is_some());
}

#[test]
fn a_key_with_control_characters_is_refused() {
    assert!(Config::new("https://example.test".to_owned(), "line\nbreak".to_owned()).is_none());
    assert!(Config::new("https://example.test".to_owned(), "nul\0".to_owned()).is_none());
    assert!(Config::new("https://example.test".to_owned(), "del\u{7f}".to_owned()).is_none());
    assert!(Config::new("https://example.test".to_owned(), "\u{1f}".to_owned()).is_none());
}

#[test]
fn the_client_sends_the_key_as_api_token() {
    let config = Config::new("https://example.test/api/3".to_owned(), "SECRET-REDACTED".to_owned()).unwrap();
    assert_eq!(init_client(&config), vec![("Api-Token".to_owned(), "SECRET-REDACTED".to_owned())]);
    let builder = create_builder(&config);
    assert_eq!(builder.get_base_url(), "https://example.test/api/3");
    assert_eq!(builder.get_headers(), vec![("Api-Token".to_owned(), "SECRET-REDACTED".to_owned())]);
    assert_eq!(API_TOKEN_HEADER, "Api-Token");
    assert_eq!(API_BASE_URL_VAR, "ACTIVECAMPAIGN_API_BASE_URL");
    assert_eq!(API_KEY_VAR, "ACTIVECAMPAIGN_API_KEY");
}
