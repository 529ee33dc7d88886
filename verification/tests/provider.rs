use bleep::provider::{pool_region, refresh_url};

#[test]
fn region_is_what_stands_before_the_first_underscore() {
    assert_eq!(pool_region("us-east-1_AbCdEfGhI"), Some("us-east-1".to_string()));
    assert_eq!(pool_region("eu-west-2_x_y_z"), Some("eu-west-2".to_string()));
    assert_eq!(pool_region("a_b"), Some("a".to_string()));
}

#[test]
fn region_may_be_empty() {
    assert_eq!(pool_region("_pool"), Some(String::new()));
    assert_eq!(pool_region("_"), Some(String::new()));
    assert_eq!(pool_region("__"), Some(String::new()));
}

#[test]
fn id_that_ends_in_an_underscore_has_a_region() {
    assert_eq!(pool_region("eu-central-1_"), Some("eu-central-1".to_string()));
}

#[test]
fn id_without_underscore_names_no_region() {
    assert_eq!(pool_region("us-east-1"), None);
    assert_eq!(pool_region(""), None);
    assert_eq!(pool_region("us-east-1-AbCd"), None);
}

#[test]
fn region_is_cut_by_characters_not_bytes() {
    assert_eq!(pool_region("zürich-1_pool"), Some("zürich-1".to_string()));
    assert_eq!(pool_region("日本_東京"), Some("日本".to_string()));
}

#[test]
fn refresh_url_appends_path_and_token() {
    assert_eq!(
        refresh_url("https://auth.example.com", "refresh-1"),
        "https://auth.example.com/refresh_token?refresh_token=refresh-1"
    );
}

#[test]
fn refresh_url_takes_base_and_token_as_they_are() {
    assert_eq!(refresh_url("", ""), "/refresh_token?refresh_token=");
    assert_eq!(
        refresh_url("http://localhost:8080/", "a b&c"),
        "http://localhost:8080//refresh_token?refresh_token=a b&c"
    );
}
