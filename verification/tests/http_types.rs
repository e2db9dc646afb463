use road_trip_backend::config::AuthConfig;
use road_trip_backend::requests::{
    default_message_type, default_page, default_page_size, MessageType, SendMessageRequest,
};
use road_trip_backend::response::{error, success};
use road_trip_backend::session_cookie::{
    create_logout_cookie, create_session_cookie, same_site_of, SameSite, SessionCookie,
};

fn auth(same_site: &str, secure: bool, domain: Option<&str>, days: u64) -> AuthConfig {
    AuthConfig {
        session_secret: "0123456789abcdef0123456789abcdef".to_string(),
        cookie_name: "session_token".to_string(),
        cookie_domain: domain.map(|d| d.to_string()),
        cookie_secure: secure,
        cookie_same_site: same_site.to_string(),
        session_expiration_days: days,
    }
}

#[test]
fn session_cookie_carries_the_token_for_the_configured_days() {
    let cookie = create_session_cookie("abc123", &auth("Lax", true, Some("example.org"), 7));
    assert_eq!(
        cookie,
        SessionCookie {
            name: "session_token".to_string(),
            value: "abc123".to_string(),
            http_only: true,
            max_age_seconds: 604_800,
            path: "/".to_string(),
            same_site: Some(SameSite::Lax),
            secure: true,
            domain: Some("example.org".to_string()),
        }
    );
    let cookie = create_session_cookie("", &auth("whatever", false, None, 0));
    assert_eq!(
        cookie,
        SessionCookie {
            name: "session_token".to_string(),
            value: String::new(),
            http_only: true,
            max_age_seconds: 0,
            path: "/".to_string(),
            same_site: Some(SameSite::Strict),
            secure: false,
            domain: None,
        }
    );
    let longest = (i64::MAX as u64) / 86_400;
    let cookie = create_session_cookie("t", &auth("None", false, None, longest));
    assert_eq!(cookie.max_age_seconds, (longest * 86_400) as i64);
    assert_eq!(cookie.same_site, Some(SameSite::CrossSite));
}

#[test]
fn same_site_goes_by_the_exact_name() {
    assert_eq!(same_site_of("Lax"), SameSite::Lax);
    assert_eq!(same_site_of("None"), SameSite::CrossSite);
    assert_eq!(same_site_of("Strict"), SameSite::Strict);
    assert_eq!(same_site_of("lax"), SameSite::Strict);
    assert_eq!(same_site_of("none"), SameSite::Strict);
    assert_eq!(same_site_of(""), SameSite::Strict);
    assert_eq!(same_site_of("Lax "), SameSite::Strict);
}

#[test]
fn logout_cookie_is_empty_and_expires_at_once() {
    let cookie = create_logout_cookie(&auth("Lax", true, Some("example.org"), 7));
    assert_eq!(
        cookie,
        SessionCookie {
            name: "session_token".to_string(),
            value: String::new(),
            http_only: true,
            max_age_seconds: 0,
            path: "/".to_string(),
            same_site: None,
            secure: true,
            domain: Some("example.org".to_string()),
        }
    );
    let cookie = create_logout_cookie(&auth("Strict", false, None, 7));
    assert!(!cookie.secure);
    assert_eq!(cookie.domain, None);
}

#[test]
fn defaults_of_the_message_interface() {
    assert_eq!(default_message_type(), "text");
    assert_eq!(default_page(), 0);
    assert_eq!(default_page_size(), 20);
}

#[test]
fn kind_of_a_message_goes_by_what_it_holds() {
    let request = |text: Option<&str>, image: Option<&str>| SendMessageRequest {
        text: text.map(|t| t.to_string()),
        image_url: image.map(|t| t.to_string()),
        message_type: "image".to_string(),
    };
    assert_eq!(request(Some("hi"), None).kind(), Some(MessageType::Text));
    assert_eq!(request(Some("hi"), Some("u")).kind(), Some(MessageType::Text));
    assert_eq!(request(None, Some("u")).kind(), Some(MessageType::Image));
    assert_eq!(request(None, None).kind(), None);
    assert_eq!(MessageType::Text.name(), "text");
    assert_eq!(MessageType::Image.name(), "image");
}

#[test]
fn plain_answers_hold_their_text() {
    assert_eq!(success("done".to_string()).message, "done");
    assert_eq!(error("failed".to_string()).error, "failed");
}
