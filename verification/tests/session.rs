use pulse_core::error::{AuthError, IssueError};
use pulse_core::session::{
    issue_session, token_id_of, validate_session, window_of_days, RevocationList, SessionAuthority,
    SessionBinding, SessionToken, DEFAULT_SESSION_DAYS,
};
use pulse_core::token_text::{token_from_bytes, token_from_text, token_to_bytes, token_to_text};
use std::collections::HashSet;

const ID: u128 = 0x0102030405060708090a0b0c0d0e0f10;
const ALICE: u128 = 0x1111;
const PHONE: u128 = 0x2222;
const NOW: u64 = 1_700_000_000;
const THIRTY_DAYS: u64 = 2_592_000;

fn authority() -> SessionAuthority {
    SessionAuthority::new(b"server-secret".to_vec())
}

fn issued() -> SessionToken {
    authority().issue_with_id(ID, ALICE, PHONE, NOW, THIRTY_DAYS).unwrap()
}

fn resigned(token: &SessionToken, signature: &str) -> SessionToken {
    SessionToken::from_parts(
        token.id(),
        token.principal_id(),
        token.device_id(),
        token.issued_at(),
        token.expires_at(),
        signature.to_string(),
    )
}

#[test]
fn the_default_window_is_thirty_days_of_seconds() {
    assert_eq!(DEFAULT_SESSION_DAYS, 30);
    assert_eq!(window_of_days(DEFAULT_SESSION_DAYS), THIRTY_DAYS);
    assert_eq!(window_of_days(0), 0);
    assert_eq!(window_of_days(1), 86_400);
    assert_eq!(window_of_days(u32::MAX), 4_294_967_295 * 86_400);
}

#[test]
fn issued_token_carries_its_binding_and_window() {
    let token = issued();
    assert_eq!(token.id(), ID);
    assert_eq!(token.principal_id(), ALICE);
    assert_eq!(token.device_id(), PHONE);
    assert_eq!(token.issued_at(), NOW);
    assert_eq!(token.expires_at(), NOW + THIRTY_DAYS);
}

#[test]
fn token_body_is_the_fields_in_little_endian() {
    let body = issued().body();
    assert_eq!(body.len(), 64);
    assert_eq!(body[..16], ID.to_le_bytes());
    assert_eq!(body[16..32], ALICE.to_le_bytes());
    assert_eq!(body[32..48], PHONE.to_le_bytes());
    assert_eq!(body[48..56], NOW.to_le_bytes());
    assert_eq!(body[56..], (NOW + THIRTY_DAYS).to_le_bytes());
}

#[test]
fn issued_token_is_signed_with_hmac_sha256_of_its_body() {
    assert_eq!(issued().signature(), "-i8N3ujaj-2QmxGfgfzQ6HtumsxCEHj2vRcZH5B5p1M");
}

#[test]
fn token_is_valid_immediately_after_issue() {
    let token = issued();
    let binding = authority().validate(&token, NOW, false).unwrap();
    assert_eq!(binding, SessionBinding { principal_id: ALICE, device_id: PHONE });
    let last = authority().validate(&token, NOW + THIRTY_DAYS - 1, false).unwrap();
    assert_eq!(last, binding);
}

#[test]
fn token_is_rejected_as_expired_from_its_expiry_on() {
    let token = issued();
    let at = authority().validate(&token, NOW + THIRTY_DAYS, false);
    assert_eq!(at, Err(AuthError::Expired));
    let after = authority().validate(&token, NOW + THIRTY_DAYS + 1, false);
    assert_eq!(after, Err(AuthError::Expired));
    let revoked_too = authority().validate(&token, u64::MAX, true);
    assert_eq!(revoked_too, Err(AuthError::Expired));
}

#[test]
fn token_is_rejected_as_revoked_before_its_expiry() {
    let token = issued();
    assert_eq!(authority().validate(&token, NOW, true), Err(AuthError::Revoked));
    assert_eq!(authority().validate(&token, NOW + 1, true), Err(AuthError::Revoked));
}

#[test]
fn revocation_takes_effect_at_once_and_only_for_its_token() {
    let authority = authority();
    let first = authority.issue(ALICE, PHONE, NOW, 60).unwrap();
    let second = authority.issue(ALICE, PHONE, NOW, 60).unwrap();
    assert_ne!(first.id(), second.id());
    let mut revocations = RevocationList::new();
    assert!(validate_session(&authority, &first, NOW, &revocations).is_ok());
    revocations.revoke(first.id());
    assert!(revocations.is_revoked(first.id()));
    assert!(!revocations.is_revoked(second.id()));
    assert_eq!(
        validate_session(&authority, &first, NOW, &revocations),
        Err(AuthError::Revoked)
    );
    assert_eq!(
        validate_session(&authority, &second, NOW, &revocations),
        Ok(SessionBinding { principal_id: ALICE, device_id: PHONE })
    );
    revocations.revoke(first.id());
    revocations.revoke(second.id());
    assert_eq!(
        validate_session(&authority, &first, NOW + 1, &revocations),
        Err(AuthError::Revoked)
    );
    assert_eq!(
        validate_session(&authority, &second, NOW + 60, &revocations),
        Err(AuthError::Expired)
    );
}

#[test]
fn token_with_any_changed_field_is_invalid() {
    let token = issued();
    let s = token.signature().to_string();
    let changed = [
        SessionToken::from_parts(ID + 1, ALICE, PHONE, NOW, NOW + THIRTY_DAYS, s.clone()),
        SessionToken::from_parts(ID, ALICE + 1, PHONE, NOW, NOW + THIRTY_DAYS, s.clone()),
        SessionToken::from_parts(ID, ALICE, PHONE + 1, NOW, NOW + THIRTY_DAYS, s.clone()),
        SessionToken::from_parts(ID, ALICE, PHONE, NOW + 1, NOW + THIRTY_DAYS, s.clone()),
        SessionToken::from_parts(ID, ALICE, PHONE, NOW, NOW + THIRTY_DAYS + 1, s.clone()),
        SessionToken::from_parts(ID, PHONE, ALICE, NOW, NOW + THIRTY_DAYS, s.clone()),
    ];
    for forged in changed {
        assert_eq!(authority().validate(&forged, NOW, false), Err(AuthError::Invalid));
        assert_eq!(authority().validate(&forged, u64::MAX, true), Err(AuthError::Invalid));
    }
    let same = SessionToken::from_parts(ID, ALICE, PHONE, NOW, NOW + THIRTY_DAYS, s);
    assert_eq!(same, token);
    assert!(authority().validate(&same, NOW, false).is_ok());
}

#[test]
fn token_with_a_changed_signature_is_invalid() {
    let token = issued();
    let signature = token.signature().to_string();
    let candidates = [
        String::new(),
        signature[..42].to_string(),
        format!("{}A", signature),
        signature.replacen('-', "_", 1),
        "not base64 at all".to_string(),
    ];
    for candidate in candidates {
        let forged = resigned(&token, &candidate);
        assert_eq!(authority().validate(&forged, NOW, false), Err(AuthError::Invalid));
    }
}

#[test]
fn token_of_another_authority_is_invalid() {
    let other = SessionAuthority::new(b"another-secret".to_vec());
    let token = issued();
    assert_eq!(other.validate(&token, NOW, false), Err(AuthError::Invalid));
    let theirs = other.issue_with_id(ID, ALICE, PHONE, NOW, THIRTY_DAYS).unwrap();
    assert_ne!(theirs.signature(), token.signature());
    assert_eq!(authority().validate(&theirs, NOW, false), Err(AuthError::Invalid));
}

#[test]
fn issue_refuses_an_empty_or_unrepresentable_window() {
    let authority = authority();
    assert_eq!(
        authority.issue_with_id(ID, ALICE, PHONE, NOW, 0),
        Err(IssueError::WindowRefused)
    );
    assert_eq!(
        authority.issue_with_id(ID, ALICE, PHONE, NOW, u64::MAX - NOW + 1),
        Err(IssueError::WindowRefused)
    );
    assert_eq!(authority.issue(ALICE, PHONE, NOW, 0), Err(IssueError::WindowRefused));
    assert_eq!(authority.issue(ALICE, PHONE, u64::MAX, 1), Err(IssueError::WindowRefused));
    assert_eq!(
        issue_session(&authority, ALICE, PHONE, u64::MAX - THIRTY_DAYS + 1),
        Err(IssueError::WindowRefused)
    );
    assert!(issue_session(&authority, ALICE, PHONE, u64::MAX - THIRTY_DAYS).is_ok());
    let widest = authority.issue_with_id(ID, ALICE, PHONE, NOW, u64::MAX - NOW).unwrap();
    assert_eq!(widest.expires_at(), u64::MAX);
    let shortest = authority.issue_with_id(ID, ALICE, PHONE, NOW, 1).unwrap();
    assert!(authority.validate(&shortest, NOW, false).is_ok());
    assert_eq!(authority.validate(&shortest, NOW + 1, false), Err(AuthError::Expired));
}

#[test]
fn issue_session_uses_the_default_window_and_a_fresh_version_4_identifier() {
    let authority = authority();
    let mut ids = HashSet::new();
    for _ in 0..200 {
        let token = issue_session(&authority, ALICE, PHONE, NOW).unwrap();
        assert_eq!(token.expires_at(), NOW + THIRTY_DAYS);
        assert_eq!(token.issued_at(), NOW);
        assert_eq!((token.id() >> 76) & 0xf, 4);
        assert_eq!((token.id() >> 62) & 0x3, 2);
        assert!(authority.validate(&token, NOW, false).is_ok());
        assert!(ids.insert(token.id()));
    }
}

#[test]
fn rejections_render_as_text() {
    assert_eq!(AuthError::Invalid.describe(), "session token is invalid");
    assert_eq!(AuthError::Expired.describe(), "session token has expired");
    assert_eq!(AuthError::Revoked.describe(), "session token was revoked");
    assert_eq!(IssueError::WindowRefused.describe(), "the validity window cannot be issued");
    assert_eq!(IssueError::EntropyUnavailable.describe(), "the entropy source is unavailable");
}

#[test]
fn token_text_is_the_hex_of_body_and_signature() {
    let text = token_to_text(&issued());
    assert_eq!(
        text,
        "100f0e0d0c0b0a090807060504030201\
         11110000000000000000000000000000\
         22220000000000000000000000000000\
         00f1536500000000\
         007e7b6500000000\
         2d69384e33756a616a2d32516d7847666766\
         7a51364874756d73784345486a327652635a483542357031\
         4d"
    );
}

#[test]
fn token_is_read_back_from_its_text() {
    let token = issued();
    let read = token_from_text(&token_to_text(&token)).unwrap();
    assert_eq!(read, token);
    assert!(authority().validate(&read, NOW, false).is_ok());
    let odd = SessionToken::from_parts(u128::MAX, 0, 1, u64::MAX, 0, "sig.näture".to_string());
    assert_eq!(token_from_text(&token_to_text(&odd)), Some(odd.clone()));
    assert_eq!(token_from_bytes(&token_to_bytes(&odd)), Some(odd));
    let unsigned = SessionToken::from_parts(1, 2, 3, 4, 5, String::new());
    assert_eq!(token_to_bytes(&unsigned).len(), 64);
    assert_eq!(token_from_text(&token_to_text(&unsigned)), Some(unsigned));
}

#[test]
fn token_reader_refuses_what_is_no_token() {
    let text = token_to_text(&issued());
    assert_eq!(token_from_text(""), None);
    assert_eq!(token_from_text("zz"), None);
    assert_eq!(token_from_text(&text[..126]), None);
    assert_eq!(token_from_text(&text[..127]), None);
    assert_eq!(token_from_text(&text.to_uppercase()), None);
    assert_eq!(token_from_text(&format!("{}ff", &text[..128])), None);
    assert_eq!(token_from_bytes(&[0u8; 63]), None);
    let mut bytes = vec![0u8; 64];
    bytes.push(0x80);
    assert_eq!(token_from_bytes(&bytes), None);
    assert!(token_from_text(&text[..128]).is_some());
}

#[test]
fn token_changed_in_its_text_is_invalid() {
    let text = token_to_text(&issued());
    for position in [0usize, 31, 32, 64, 96, 112, 127] {
        let digit = if &text[position..position + 1] == "0" { "1" } else { "0" };
        let changed = format!("{}{}{}", &text[..position], digit, &text[position + 1..]);
        let forged = token_from_text(&changed).unwrap();
        assert_eq!(authority().validate(&forged, NOW, false), Err(AuthError::Invalid));
    }
}

#[test]
fn token_identifier_is_the_random_bytes_with_version_and_variant_set() {
    let mut random = [0u8; 16];
    for (i, b) in random.iter_mut().enumerate() {
        *b = i as u8;
    }
    assert_eq!(token_id_of(random), 0x0001_0203_0405_4607_8809_0a0b_0c0d_0e0f);
    assert_eq!(token_id_of([0xff; 16]), 0xffff_ffff_ffff_4fff_bfff_ffff_ffff_ffff);
    assert_eq!(token_id_of([0; 16]), 0x0000_0000_0000_4000_8000_0000_0000_0000);
}
