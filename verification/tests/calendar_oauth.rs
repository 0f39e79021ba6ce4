use inmonea_backend::http::HttpStatus;
use inmonea_backend::system::{google_connect_url, oauth_state_user};

const USER: u128 = 0x67e55044_10b1_426f_9247_bb680e5fe0c8;
const REDIRECT: &str = "http://localhost:3000/api/calendar/google/callback";

fn settings(redirect: &str) -> Option<(String, String, String)> {
    Some(("client-1.apps.googleusercontent.com".to_string(), "secret".to_string(), redirect.to_string()))
}

#[test]
fn connect_url_carries_client_scopes_and_user_state() {
    let url = google_connect_url(settings(REDIRECT), USER).unwrap().unwrap();
    assert!(url.starts_with(
        "https://accounts.google.com/o/oauth2/v2/auth?response_type=code&client_id=client-1.apps.googleusercontent.com&state="
    ));
    assert!(url.ends_with(
        "&redirect_uri=http%3A%2F%2Flocalhost%3A3000%2Fapi%2Fcalendar%2Fgoogle%2Fcallback\
         &scope=https%3A%2F%2Fwww.googleapis.com%2Fauth%2Fcalendar+https%3A%2F%2Fwww.googleapis.com%2Fauth%2Fuserinfo.email\
         &state=67e55044-10b1-426f-9247-bb680e5fe0c8&access_type=offline&prompt=consent"
    ));
    assert!(!url.contains("secret"));
}

#[test]
fn connect_url_draws_a_fresh_csrf_token() {
    let a = google_connect_url(settings(REDIRECT), USER).unwrap().unwrap();
    let b = google_connect_url(settings(REDIRECT), USER).unwrap().unwrap();
    assert_ne!(a, b);
}

#[test]
fn connect_url_unconfigured_is_503() {
    assert!(matches!(google_connect_url(None, USER), Err(HttpStatus::ServiceUnavailable)));
}

#[test]
fn connect_url_with_unparsable_redirect_is_none() {
    assert!(matches!(google_connect_url(settings("not a url"), USER), Ok(None)));
}

#[test]
fn oauth_state_reads_back_the_user() {
    assert!(matches!(oauth_state_user("67e55044-10b1-426f-9247-bb680e5fe0c8"), Ok(USER)));
    assert!(matches!(oauth_state_user("67E5504410B1426F9247BB680E5FE0C8"), Ok(USER)));
    assert!(matches!(oauth_state_user("not-a-uuid"), Err(HttpStatus::BadRequest)));
    assert!(matches!(oauth_state_user(""), Err(HttpStatus::BadRequest)));
}

#[test]
fn connect_state_round_trips_through_the_callback() {
    let url = google_connect_url(settings(REDIRECT), USER).unwrap().unwrap();
    let marker = "&state=";
    let state = url.rsplit(marker).next().unwrap().split('&').next().unwrap();
    assert!(matches!(oauth_state_user(state), Ok(USER)));
}
