use stat_api_rs::common::errors::LocoError;
use stat_api_rs::services::user_agent::{browser_label, UAParser};
use ua_parser::user_agent::Parser;
use ua_parser::{Extractor, Regexes};

fn parser() -> UAParser {
    let regexes = Regexes {
        user_agent_parsers: vec![
            Parser { regex: r"(Firefox)/(\d+)\.(\d+)".into(), ..Default::default() },
            Parser { regex: r"(Curly)/(\d+)".into(), ..Default::default() },
            Parser { regex: r"(Lynx)".into(), ..Default::default() },
        ],
        os_parsers: vec![],
        device_parsers: vec![],
    };
    let extractor: Extractor<'static> = Extractor::try_from(regexes).ok().unwrap();
    UAParser::from_extractor(extractor)
}

#[test]
fn labels_of_found_browsers() {
    assert_eq!(browser_label(None), "Unknown");
    assert_eq!(
        browser_label(Some(("Chrome".to_string(), Some("120".to_string()), Some("1".to_string())))),
        "Chrome 120.1"
    );
    assert_eq!(browser_label(Some(("Chrome".to_string(), Some("120".to_string()), None))), "Chrome 120");
    assert_eq!(browser_label(Some(("Chrome".to_string(), None, Some("1".to_string())))), "Chrome");
}

#[test]
fn parse_ua_with_rules() {
    let p = parser();
    assert_eq!(
        p.parse_ua("Mozilla/5.0 (X11; Linux x86_64) Firefox/121.0").ok(),
        Some("Firefox 121.0".to_string())
    );
    assert_eq!(p.parse_ua("Curly/8").ok(), Some("Curly 8".to_string()));
    assert_eq!(p.parse_ua("Lynx").ok(), Some("Lynx".to_string()));
    match p.parse_ua("nothing at all") {
        Err(LocoError::BadRequest(m)) => assert_eq!(m, "Unknown user agent"),
        _ => panic!("an unknown user agent is refused"),
    }
}

#[test]
fn login_stores_the_labelled_token() {
    let p = parser();
    let t = stat_api_rs::models::refresh_tokens::login_refresh_token(&p, 7, "Curly/8", "10.0.0.1".to_string(), 60)
        .ok()
        .unwrap();
    assert_eq!(t.user_id, 7);
    assert_eq!(t.browser.as_deref(), Some("Curly 8"));
    assert_eq!(t.user_ip.as_deref(), Some("10.0.0.1"));
    assert_eq!(t.expires_in, 60);
    assert!(!t.revoked);
}

#[test]
fn login_with_an_unknown_browser_is_refused() {
    let p = parser();
    match stat_api_rs::models::refresh_tokens::login_refresh_token(&p, 7, "nothing at all", "10.0.0.1".to_string(), 60) {
        Err(LocoError::BadRequest(m)) => assert_eq!(m, "Unknown user agent"),
        _ => panic!("an unknown user agent is refused"),
    }
}
