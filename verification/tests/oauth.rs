use calendario_app::oauth::verifier_from_indices;
use calendario_app::oauth::{
    authorization_url, choose_client_id, choose_refresh_token, has_refresh_token, hex_lower,
    loopback_redirect_uri, oauth_callback_outcome, oauth_state, pkce_challenge_s256,
    pkce_verifier, random_state, refresh_token_of_answer, resolve_oauth_token_bridge_url,
    second_word_of, stored_refresh_token, token_exchange_error,
    try_complete_oauth_from_deep_link, EMBEDDED_GOOGLE_OAUTH_CLIENT_ID, FAIL_HTML, OK_HTML,
};

fn some(s: &str) -> Option<String> {
    Some(s.to_string())
}

#[test]
fn hex_of_bytes() {
    assert_eq!(hex_lower(&[0x00, 0xab, 0xff, 0x10]), "00abff10");
    assert_eq!(hex_lower(&[]), "");
}

#[test]
fn verifier_has_64_unreserved_characters() {
    let v = pkce_verifier();
    assert_eq!(v.chars().count(), 64);
    assert!(v.chars().all(|c| c.is_ascii_alphanumeric() || "-._~".contains(c)));
    assert_ne!(pkce_verifier(), v);
}

#[test]
fn challenge_matches_rfc_7636_example() {
    assert_eq!(
        pkce_challenge_s256("dBjftJeZ4CVP-mB92K27uhbUJU1p1r_wW1gFWFOEjXk"),
        "E9Melhoa2OwvFrEMTJguCHaoeK1t8URWbuGJSstw-cM"
    );
}

#[test]
fn state_is_prefixed_hex() {
    let r = random_state();
    assert_eq!(r.len(), 32);
    assert!(r.chars().all(|c| c.is_ascii_digit() || ('a'..='f').contains(&c)));
    let s = oauth_state();
    assert!(s.starts_with("agenda_"));
    assert_eq!(s.len(), 39);
}

#[test]
fn redirect_and_authorization_urls() {
    let redirect = loopback_redirect_uri(8080);
    assert_eq!(redirect, "http://127.0.0.1:8080/oauth2callback");
    let url = authorization_url("abc.apps", &redirect, "chal", "agenda_s").unwrap();
    assert_eq!(
        url,
        "https://accounts.google.com/o/oauth2/v2/auth?client_id=abc.apps&redirect_uri=http%3A%2F%2F127.0.0.1%3A8080%2Foauth2callback&response_type=code&scope=openid+email+profile+https%3A%2F%2Fwww.googleapis.com%2Fauth%2Fcalendar.events&code_challenge=chal&code_challenge_method=S256&state=agenda_s&access_type=offline&prompt=consent"
    );
}

#[test]
fn second_word_of_request_line() {
    assert_eq!(second_word_of("GET /cb?x=1 HTTP/1.1\r\n").as_deref(), Some("/cb?x=1"));
    assert_eq!(second_word_of("  GET\t\t/a  ").as_deref(), Some("/a"));
    assert_eq!(second_word_of("GET"), None);
    assert_eq!(second_word_of(""), None);
}

#[test]
fn callback_with_code_and_state() {
    let o = oauth_callback_outcome("GET /oauth2callback?state=agenda_s&code=4%2F0Ab HTTP/1.1\r\n", "agenda_s");
    assert_eq!(o.result, Ok("4/0Ab".to_string()));
    let resp = o.response.unwrap();
    let expected = format!(
        "HTTP/1.1 200 OK\r\nContent-Type: text/html; charset=utf-8\r\nContent-Length: {}\r\nConnection: close\r\n\r\n{}",
        OK_HTML.len(),
        OK_HTML
    );
    assert_eq!(resp, expected);
    assert!(resp.contains("Content-Length: 2060\r\n"));
}

#[test]
fn callback_refusals() {
    let o = oauth_callback_outcome("GET /cb?error=access_denied&error_description=no+way HTTP/1.1", "s");
    assert_eq!(o.result, Err("OAuth recusado: access_denied: no way".to_string()));
    assert!(o.response.unwrap().starts_with("HTTP/1.1 400 Bad Request\r\n"));
    let o = oauth_callback_outcome("GET /cb?error=x HTTP/1.1", "s");
    assert_eq!(o.result, Err("OAuth recusado: x".to_string()));
    let o = oauth_callback_outcome("GET /cb?state=other&code=c HTTP/1.1", "s");
    assert_eq!(o.result, Err("OAuth: estado inválido no callback local.".to_string()));
    let o = oauth_callback_outcome("GET /cb?state=s HTTP/1.1", "s");
    assert_eq!(o.result, Err("OAuth: código em falta no callback local.".to_string()));
    assert!(o.response.unwrap().ends_with(FAIL_HTML));
    let o = oauth_callback_outcome("", "s");
    assert_eq!(o.result, Err("OAuth: estado inválido no callback local.".to_string()));
}

#[test]
fn callback_that_is_not_a_url() {
    let o = oauth_callback_outcome("GET :99999 HTTP/1.1", "s");
    assert_eq!(o.response, None);
    assert!(o.result.unwrap_err().starts_with("OAuth: callback inválido: "));
}

#[test]
fn client_id_sources_in_order() {
    assert_eq!(
        choose_client_id(EMBEDDED_GOOGLE_OAUTH_CLIENT_ID, Some("b"), &some("r"), &None),
        Ok(EMBEDDED_GOOGLE_OAUTH_CLIENT_ID.to_string())
    );
    assert_eq!(choose_client_id(" ", Some(" b "), &some("r"), &None), Ok("b".to_string()));
    assert_eq!(choose_client_id("", Some(""), &some(" r\n"), &None), Ok("r".to_string()));
    assert_eq!(choose_client_id("", None, &None, &Some(Ok(" f ".to_string()))), Ok("f".to_string()));
    assert_eq!(
        choose_client_id("", None, &None, &Some(Err("denied".to_string()))),
        Err("ler client id: denied".to_string())
    );
    assert!(choose_client_id("", None, &some("  "), &Some(Ok("".to_string()))).unwrap_err().starts_with("OAuth: preenche"));
}

#[test]
fn token_bridge_resolution() {
    assert_eq!(resolve_oauth_token_bridge_url(&some(" https://x "), Some("https://y")), "https://x");
    assert_eq!(resolve_oauth_token_bridge_url(&some(" "), Some("https://y")), "https://y");
    assert_eq!(
        resolve_oauth_token_bridge_url(&None, None),
        "https://www.alemsys.digital/api/auth/google/token"
    );
}

#[test]
fn refresh_token_sources() {
    assert_eq!(stored_refresh_token(&some("  tok \n")), some("tok"));
    assert_eq!(stored_refresh_token(&some("   ")), None);
    assert!(has_refresh_token(&some("t"), &None));
    assert!(has_refresh_token(&None, &some(" ")));
    assert!(!has_refresh_token(&None, &some("")));
    let c = choose_refresh_token(some("file"), Ok(Ok("key".to_string())));
    assert_eq!((c.token, c.write_back), (Ok("file".to_string()), false));
    let c = choose_refresh_token(None, Ok(Ok(" key ".to_string())));
    assert_eq!((c.token, c.write_back), (Ok("key".to_string()), true));
    let c = choose_refresh_token(None, Ok(Ok("  ".to_string())));
    assert_eq!(c.token, Err("Token OAuth em falta. Volta a ligar a conta Google.".to_string()));
    let c = choose_refresh_token(None, Ok(Err("NoEntry".to_string())));
    assert_eq!(c.token, Err("Token OAuth em falta: NoEntry. Volta a ligar a conta Google.".to_string()));
    let c = choose_refresh_token(None, Err("no keyring".to_string()));
    assert_eq!(c.token, Err("no keyring".to_string()));
}

#[test]
fn token_exchange_messages() {
    assert_eq!(token_exchange_error("bad"), "OAuth: troca de token falhou: bad");
    assert_eq!(
        token_exchange_error("{\"error\":\"redirect_uri_mismatch\"}"),
        "OAuth: troca de token falhou: {\"error\":\"redirect_uri_mismatch\"} Confirma no Google Cloud que callbacks loopback locais estão permitidos."
    );
    assert_eq!(refresh_token_of_answer(some("r")), Ok("r".to_string()));
    assert!(refresh_token_of_answer(None).unwrap_err().contains("refresh_token"));
    try_complete_oauth_from_deep_link("agenda://callback");
}

#[test]
fn verifier_characters_follow_the_indices() {
    assert_eq!(verifier_from_indices(&vec![0, 25, 26, 51, 52, 61, 62, 63, 64, 65]), "AZaz09-._~");
    assert_eq!(verifier_from_indices(&vec![]), "");
}
