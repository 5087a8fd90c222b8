use novel_api::error::AppError;
use novel_api::request_id::resolve_request_id;
use novel_api::sessions::{check_password, LoginAction, LoginEvent, LoginFlow};
use novel_api::users::{hash_password, LoginCandidate};

fn candidate(status: &str, hash: String) -> LoginCandidate {
    LoginCandidate { id: 77, role: "user".to_string(), status: status.to_string(), password_hash: hash }
}

/// Runs a login against one stored account, if any, with the token "t".
fn login(user: Option<LoginCandidate>, password: &str) -> Result<u128, AppError> {
    let (mut flow, mut action) = LoginFlow::begin("reader@example.org".to_string());
    let mut user = Some(user);
    loop {
        let event = match action {
            LoginAction::FindUser { .. } => LoginEvent::UserFound(user.take().unwrap()),
            LoginAction::CheckPassword { hash } => LoginEvent::PasswordChecked(check_password(password, &hash)),
            LoginAction::UpdateLastLogin { .. } => LoginEvent::LastLoginUpdated,
            LoginAction::IssueToken { .. } => LoginEvent::TokenIssued("t".to_string()),
            LoginAction::Respond(r) => return r.map(|s| s.user_id),
        };
        let (f, a) = flow.step(event);
        flow = f;
        action = a;
    }
}

#[test]
fn registered_password_logs_in() {
    let hash = hash_password("hunter2!").unwrap();
    assert_eq!(hash.chars().count(), 60);
    assert_ne!(hash, "hunter2!");
    assert!(hash.starts_with("$2b$12$"));
    let user = candidate("active", hash);
    assert_eq!(login(Some(user.clone()), "hunter2!"), Ok(77));
    assert_eq!(login(Some(user), "hunter3!"), Err(AppError::Unauthorized));
}

#[test]
fn inactive_or_unknown_accounts_are_refused() {
    let hash = hash_password("pw").unwrap();
    let banned = candidate("banned", hash);
    assert_eq!(login(Some(banned), "pw"), Err(AppError::Forbidden));
    assert_eq!(login(None, "pw"), Err(AppError::Unauthorized));
}

#[test]
fn broken_stored_hash_is_internal_error() {
    let user = candidate("active", "not-a-bcrypt-hash".to_string());
    match login(Some(user), "pw") {
        Err(AppError::Internal(_)) => {}
        other => panic!("unexpected {:?}", other),
    }
}

#[test]
fn request_id_from_header_or_fresh() {
    assert_eq!(resolve_request_id(Some("abc-123".to_string())).0, "abc-123");
    let fresh = resolve_request_id(None).0;
    assert_eq!(fresh.len(), 36);
    for (i, c) in fresh.chars().enumerate() {
        if i == 8 || i == 13 || i == 18 || i == 23 {
            assert_eq!(c, '-');
        } else {
            assert!(c.is_ascii_hexdigit() && !c.is_ascii_uppercase());
        }
    }
    assert_ne!(resolve_request_id(None).0, fresh);
    let chars: Vec<char> = fresh.chars().collect();
    assert_eq!(chars[14], '4');
    assert!(matches!(chars[19], '8' | '9' | 'a' | 'b'));
}
