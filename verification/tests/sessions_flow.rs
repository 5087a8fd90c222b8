use novel_api::error::AppError;
use novel_api::sessions::{
    check_password, require_role, LoginAction, LoginEvent, LoginFlow, LoginPhase, RegisterAction, RegisterEvent,
    RegisterFlow, RegisterPhase,
};
use novel_api::users::{hash_password, LoginCandidate};

fn account(status: &str, hash: String) -> LoginCandidate {
    LoginCandidate { id: 9, role: "moderator".to_string(), status: status.to_string(), password_hash: hash }
}

#[test]
fn login_checks_password_updates_last_login_then_issues_token() {
    let hash = hash_password("s3cret!").unwrap();
    let (flow, action) = LoginFlow::begin("a@b.c".to_string());
    assert!(matches!(action, LoginAction::FindUser { ref email } if email == "a@b.c"));
    let (flow, action) = flow.step(LoginEvent::UserFound(Some(account("active", hash.clone()))));
    let checked = match action {
        LoginAction::CheckPassword { hash: h } => {
            assert_eq!(h, hash);
            check_password("s3cret!", &h)
        }
        other => panic!("unexpected {:?}", other),
    };
    assert_eq!(checked, Ok(true));
    let (flow, action) = flow.step(LoginEvent::PasswordChecked(checked));
    assert!(matches!(action, LoginAction::UpdateLastLogin { user_id: 9 }));
    let (flow, action) = flow.step(LoginEvent::LastLoginUpdated);
    assert!(matches!(action, LoginAction::IssueToken { user_id: 9, ref role } if role == "moderator"));
    let (flow, action) = flow.step(LoginEvent::TokenIssued("tok".to_string()));
    assert_eq!(flow.phase, LoginPhase::Done);
    match action {
        LoginAction::Respond(Ok(session)) => {
            assert_eq!(session.user_id, 9);
            assert_eq!(session.token, "tok");
        }
        other => panic!("unexpected {:?}", other),
    }
}

#[test]
fn login_refusals() {
    let (flow, _) = LoginFlow::begin("x@y.z".to_string());
    let (_, action) = flow.step(LoginEvent::UserFound(None));
    assert!(matches!(action, LoginAction::Respond(Err(AppError::Unauthorized))));

    let (flow, _) = LoginFlow::begin("x@y.z".to_string());
    let (_, action) = flow.step(LoginEvent::UserFound(Some(account("banned", String::new()))));
    assert!(matches!(action, LoginAction::Respond(Err(AppError::Forbidden))));

    let (flow, _) = LoginFlow::begin("x@y.z".to_string());
    let (flow, _) = flow.step(LoginEvent::UserFound(Some(account("active", String::new()))));
    let (_, action) = flow.step(LoginEvent::PasswordChecked(Ok(false)));
    assert!(matches!(action, LoginAction::Respond(Err(AppError::Unauthorized))));

    let (flow, _) = LoginFlow::begin("x@y.z".to_string());
    let (flow, _) = flow.step(LoginEvent::UserFound(Some(account("active", String::new()))));
    let (_, action) = flow.step(LoginEvent::PasswordChecked(Err("bad hash".to_string())));
    assert!(matches!(action, LoginAction::Respond(Err(AppError::Internal(ref m))) if m == "bad hash"));
}

#[test]
fn login_database_and_token_failures() {
    let (flow, _) = LoginFlow::begin("x@y.z".to_string());
    let (_, action) = flow.step(LoginEvent::DbFailed);
    assert!(matches!(action, LoginAction::Respond(Err(AppError::Database))));

    let (flow, _) = LoginFlow::begin("x@y.z".to_string());
    let (flow, _) = flow.step(LoginEvent::UserFound(Some(account("active", String::new()))));
    let (flow, _) = flow.step(LoginEvent::PasswordChecked(Ok(true)));
    let (_, action) = flow.step(LoginEvent::DbFailed);
    assert!(matches!(action, LoginAction::Respond(Err(AppError::Database))));

    let (flow, _) = LoginFlow::begin("x@y.z".to_string());
    let (flow, _) = flow.step(LoginEvent::UserFound(Some(account("active", String::new()))));
    let (flow, _) = flow.step(LoginEvent::PasswordChecked(Ok(true)));
    let (flow, _) = flow.step(LoginEvent::LastLoginUpdated);
    let (_, action) = flow.step(LoginEvent::TokenFailed("no key".to_string()));
    assert!(matches!(action, LoginAction::Respond(Err(AppError::Internal(ref m))) if m == "no key"));
}

#[test]
fn check_password_rejects_wrong_password() {
    let hash = hash_password("right").unwrap();
    assert_eq!(check_password("wrong", &hash), Ok(false));
    assert!(check_password("right", "garbage").is_err());
}

#[test]
fn registration_hashes_inserts_and_issues_token() {
    let (flow, action) = RegisterFlow::begin("pa55word");
    assert_eq!(flow.phase, RegisterPhase::AwaitUserRow);
    let hash = match action {
        RegisterAction::CreateUser { password_hash } => password_hash,
        other => panic!("unexpected {:?}", other),
    };
    assert!(hash.starts_with("$2b$12$"));
    assert_eq!(hash.len(), 60);
    assert_eq!(check_password("pa55word", &hash), Ok(true));
    let (flow, action) = flow.step(RegisterEvent::UserCreated { user_id: 42, role: "user".to_string() });
    assert!(matches!(action, RegisterAction::IssueToken { user_id: 42, ref role } if role == "user"));
    let (flow, action) = flow.step(RegisterEvent::TokenIssued("jwt".to_string()));
    assert_eq!(flow.phase, RegisterPhase::Done);
    match action {
        RegisterAction::Respond(Ok(s)) => {
            assert_eq!(s.user_id, 42);
            assert_eq!(s.token, "jwt");
        }
        other => panic!("unexpected {:?}", other),
    }
}

#[test]
fn registration_conflicts_and_failures() {
    let (flow, _) = RegisterFlow::begin("pw");
    let (_, action) = flow.step(RegisterEvent::ConstraintViolated);
    assert!(matches!(action, RegisterAction::Respond(Err(AppError::Conflict(ref m))) if m == "Username or email already exists"));
    let (flow, _) = RegisterFlow::begin("pw");
    let (_, action) = flow.step(RegisterEvent::DbFailed);
    assert!(matches!(action, RegisterAction::Respond(Err(AppError::Database))));
    let (flow, _) = RegisterFlow::begin("pw");
    let (flow, _) = flow.step(RegisterEvent::UserCreated { user_id: 1, role: "user".to_string() });
    let (_, action) = flow.step(RegisterEvent::TokenFailed("clock".to_string()));
    assert!(matches!(action, RegisterAction::Respond(Err(AppError::Internal(ref m))) if m == "clock"));
}

#[test]
fn roles_rank_admin_over_moderator_over_user() {
    assert_eq!(require_role("admin", "moderator"), Ok(()));
    assert_eq!(require_role("admin", "admin"), Ok(()));
    assert_eq!(require_role("moderator", "moderator"), Ok(()));
    assert_eq!(require_role("moderator", "admin"), Err(AppError::Forbidden));
    assert_eq!(require_role("user", "moderator"), Err(AppError::Forbidden));
    assert_eq!(require_role("guest", "user"), Err(AppError::Forbidden));
    assert_eq!(require_role("admin", "superuser"), Err(AppError::Forbidden));
}
