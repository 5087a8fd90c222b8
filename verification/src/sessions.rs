use vstd::prelude::*;
use crate::error::{AppError, ErrorView};
use crate::responses::{insert_failure, Duplicate};
use crate::text::str_eq;
use crate::users::{bcrypt_error_text, bcrypt_verifies, bcrypt_verify, hash_password, spec_login, LoginCandidate};

verus! {

/// A signed-in account: its id and the token handed to it.
#[derive(Debug, Clone)]
pub struct Session {
    pub user_id: u128,
    pub token: String,
}

/// View of a [`Session`].
pub struct SessionView {
    pub user_id: u128,
    pub token: Seq<char>,
}

impl View for Session {
    type V = SessionView;

    open spec fn view(&self) -> SessionView {
        SessionView { user_id: self.user_id, token: self.token@ }
    }
}

/// View of the answer to a login or a registration.
pub open spec fn answer_view(r: Result<Session, AppError>) -> Result<SessionView, ErrorView> {
    match r {
        Ok(s) => Ok(s@),
        Err(e) => Err(e@),
    }
}

/// View of a [`LoginCandidate`].
pub struct CandidateView {
    pub id: u128,
    pub role: Seq<char>,
    pub status: Seq<char>,
    pub password_hash: Seq<char>,
}

impl View for LoginCandidate {
    type V = CandidateView;

    open spec fn view(&self) -> CandidateView {
        CandidateView { id: self.id, role: self.role@, status: self.status@, password_hash: self.password_hash@ }
    }
}

// ---------------------------------------------------------------- login

/// Where a login stands.
#[derive(Debug, Clone, Copy, PartialEq, Eq)]
pub enum LoginPhase {
    /// The account with the given address was asked for.
    AwaitUser,
    /// The password is being checked against the account's hash.
    AwaitPassword,
    /// The account's last-login time is being set.
    AwaitLastLogin,
    /// A token for the account was asked for.
    AwaitToken,
    /// The login was answered.
    Done,
}

/// A login: its phase and the account it is about, once found.
#[derive(Debug, Clone)]
pub struct LoginFlow {
    pub phase: LoginPhase,
    pub user_id: u128,
    pub role: String,
}

/// View of a [`LoginFlow`].
pub struct LoginState {
    pub phase: LoginPhase,
    pub user_id: u128,
    pub role: Seq<char>,
}

impl View for LoginFlow {
    type V = LoginState;

    open spec fn view(&self) -> LoginState {
        LoginState { phase: self.phase, user_id: self.user_id, role: self.role@ }
    }
}

/// What the outside reports to a login.
#[derive(Debug)]
pub enum LoginEvent {
    /// The account with the address, if there is one.
    UserFound(Option<LoginCandidate>),
    /// The answer of [`check_password`].
    PasswordChecked(Result<bool, String>),
    /// The last-login time was set.
    LastLoginUpdated,
    /// A token was made.
    TokenIssued(String),
    /// No token could be made, for this reason.
    TokenFailed(String),
    /// The database reported an error.
    DbFailed,
}

/// View of a [`LoginEvent`].
pub enum LoginEventView {
    UserFound(Option<CandidateView>),
    PasswordChecked(Result<bool, Seq<char>>),
    LastLoginUpdated,
    TokenIssued(Seq<char>),
    TokenFailed(Seq<char>),
    DbFailed,
}

impl View for LoginEvent {
    type V = LoginEventView;

    open spec fn view(&self) -> LoginEventView {
        match self {
            LoginEvent::UserFound(u) => LoginEventView::UserFound(match u {
                Some(c) => Some(c@),
                None => None,
            }),
            LoginEvent::PasswordChecked(r) => LoginEventView::PasswordChecked(match r {
                Ok(b) => Ok(*b),
                Err(m) => Err(m@),
            }),
            LoginEvent::LastLoginUpdated => LoginEventView::LastLoginUpdated,
            LoginEvent::TokenIssued(t) => LoginEventView::TokenIssued(t@),
            LoginEvent::TokenFailed(m) => LoginEventView::TokenFailed(m@),
            LoginEvent::DbFailed => LoginEventView::DbFailed,
        }
    }
}

/// What a login asks the outside to do next.
#[derive(Debug)]
pub enum LoginAction {
    /// Look up the account with this address.
    FindUser { email: String },
    /// Check the password against this stored hash, with [`check_password`].
    CheckPassword { hash: String },
    /// Set the account's last-login time to now.
    UpdateLastLogin { user_id: u128 },
    /// Make a token for the account with this role.
    IssueToken { user_id: u128, role: String },
    /// Answer the request.
    Respond(Result<Session, AppError>),
}

/// View of a [`LoginAction`].
pub enum LoginActionView {
    FindUser { email: Seq<char> },
    CheckPassword { hash: Seq<char> },
    UpdateLastLogin { user_id: u128 },
    IssueToken { user_id: u128, role: Seq<char> },
    Respond(Result<SessionView, ErrorView>),
}

impl View for LoginAction {
    type V = LoginActionView;

    open spec fn view(&self) -> LoginActionView {
        match self {
            LoginAction::FindUser { email } => LoginActionView::FindUser { email: email@ },
            LoginAction::CheckPassword { hash } => LoginActionView::CheckPassword { hash: hash@ },
            LoginAction::UpdateLastLogin { user_id } => LoginActionView::UpdateLastLogin { user_id: *user_id },
            LoginAction::IssueToken { user_id, role } => LoginActionView::IssueToken { user_id: *user_id, role: role@ },
            LoginAction::Respond(r) => LoginActionView::Respond(answer_view(*r)),
        }
    }
}

/// A login before the account is known.
pub open spec fn login_start() -> LoginState {
    LoginState { phase: LoginPhase::AwaitUser, user_id: 0, role: Seq::empty() }
}

/// Ends a login with an error.
pub open spec fn login_fail(s: LoginState, e: ErrorView) -> (LoginState, LoginActionView) {
    (LoginState { phase: LoginPhase::Done, ..s }, LoginActionView::Respond(Err(e)))
}

/// One step of a login: an unknown address or a rejected password is
/// `Unauthorized`, an account that is not `active` is `Forbidden` (before
/// its password is checked), a password check or a token that failed is
/// `Internal`, a database error is `Database`; an accepted password sets
/// the last-login time, then a token is made, and the answer is the
/// account's id with that token. A report that does not fit the phase is
/// answered as a database error.
pub open spec fn spec_login_step(s: LoginState, ev: LoginEventView) -> (LoginState, LoginActionView) {
    match s.phase {
        LoginPhase::AwaitUser => match ev {
            LoginEventView::UserFound(None) => login_fail(s, ErrorView::Unauthorized),
            LoginEventView::UserFound(Some(c)) => if c.status != "active"@ {
                login_fail(s, ErrorView::Forbidden)
            } else {
                (LoginState { phase: LoginPhase::AwaitPassword, user_id: c.id, role: c.role },
                    LoginActionView::CheckPassword { hash: c.password_hash })
            },
            _ => login_fail(s, ErrorView::Database),
        },
        LoginPhase::AwaitPassword => match ev {
            LoginEventView::PasswordChecked(Ok(true)) =>
                (LoginState { phase: LoginPhase::AwaitLastLogin, ..s },
                    LoginActionView::UpdateLastLogin { user_id: s.user_id }),
            LoginEventView::PasswordChecked(Ok(false)) => login_fail(s, ErrorView::Unauthorized),
            LoginEventView::PasswordChecked(Err(m)) => login_fail(s, ErrorView::Internal(m)),
            _ => login_fail(s, ErrorView::Database),
        },
        LoginPhase::AwaitLastLogin => match ev {
            LoginEventView::LastLoginUpdated =>
                (LoginState { phase: LoginPhase::AwaitToken, ..s },
                    LoginActionView::IssueToken { user_id: s.user_id, role: s.role }),
            _ => login_fail(s, ErrorView::Database),
        },
        LoginPhase::AwaitToken => match ev {
            LoginEventView::TokenIssued(t) =>
                (LoginState { phase: LoginPhase::Done, ..s },
                    LoginActionView::Respond(Ok(SessionView { user_id: s.user_id, token: t }))),
            LoginEventView::TokenFailed(m) => login_fail(s, ErrorView::Internal(m)),
            _ => login_fail(s, ErrorView::Database),
        },
        LoginPhase::Done => (s, LoginActionView::Respond(Err(ErrorView::Database))),
    }
}

/// Checks a password against a stored bcrypt hash; the answer is the one
/// `bcrypt::verify` gives, its error as text.
pub fn check_password(password: &str, hash: &str) -> (r: Result<bool, String>)
    ensures
        r matches Ok(b) ==> bcrypt_verifies(password@, hash@) == Some(b),
        r is Err ==> bcrypt_verifies(password@, hash@) is None,
{
    match bcrypt_verify(password, hash) {
        Ok(b) => Ok(b),
        Err(e) => Err(bcrypt_error_text(&e)),
    }
}

impl LoginFlow {
    /// Starts a login for the given address: the account is looked up first.
    pub fn begin(email: String) -> (r: (LoginFlow, LoginAction))
        ensures
            r.0@ == login_start(),
            r.1@ == (LoginActionView::FindUser { email: email@ }),
    {
        (LoginFlow { phase: LoginPhase::AwaitUser, user_id: 0, role: String::new() }, LoginAction::FindUser { email })
    }

    fn fail_with(self, e: AppError) -> (r: (LoginFlow, LoginAction))
        ensures
            (r.0@, r.1@) == login_fail(self@, e@),
    {
        (LoginFlow { phase: LoginPhase::Done, ..self }, LoginAction::Respond(Err(e)))
    }

    /// Takes the next report and says what to do next.
    pub fn step(self, ev: LoginEvent) -> (r: (LoginFlow, LoginAction))
        requires
            self.phase != LoginPhase::Done,
        ensures
            (r.0@, r.1@) == spec_login_step(self@, ev@),
    {
        match self.phase {
            LoginPhase::AwaitUser => match ev {
                LoginEvent::UserFound(None) => self.fail_with(AppError::Unauthorized),
                LoginEvent::UserFound(Some(c)) => {
                    if !str_eq(c.status.as_str(), "active") {
                        proof {
                            reveal_strlit("active");
                        }
                        self.fail_with(AppError::Forbidden)
                    } else {
                        let LoginCandidate { id, role, status: _, password_hash } = c;
                        (LoginFlow { phase: LoginPhase::AwaitPassword, user_id: id, role },
                            LoginAction::CheckPassword { hash: password_hash })
                    }
                },
                _ => self.fail_with(AppError::Database),
            },
            LoginPhase::AwaitPassword => match ev {
                LoginEvent::PasswordChecked(Ok(true)) => {
                    let id = self.user_id;
                    (LoginFlow { phase: LoginPhase::AwaitLastLogin, ..self }, LoginAction::UpdateLastLogin { user_id: id })
                },
                LoginEvent::PasswordChecked(Ok(false)) => self.fail_with(AppError::Unauthorized),
                LoginEvent::PasswordChecked(Err(m)) => self.fail_with(AppError::Internal(m)),
                _ => self.fail_with(AppError::Database),
            },
            LoginPhase::AwaitLastLogin => match ev {
                LoginEvent::LastLoginUpdated => {
                    let id = self.user_id;
                    let role = self.role.clone();
                    (LoginFlow { phase: LoginPhase::AwaitToken, ..self }, LoginAction::IssueToken { user_id: id, role })
                },
                _ => self.fail_with(AppError::Database),
            },
            LoginPhase::AwaitToken => match ev {
                LoginEvent::TokenIssued(t) => {
                    let id = self.user_id;
                    (LoginFlow { phase: LoginPhase::Done, ..self }, LoginAction::Respond(Ok(Session { user_id: id, token: t })))
                },
                LoginEvent::TokenFailed(m) => self.fail_with(AppError::Internal(m)),
                _ => self.fail_with(AppError::Database),
            },
            LoginPhase::Done => (self, LoginAction::Respond(Err(AppError::Database))),
        }
    }
}

/// A login decides as the whole check does: for the account found, or for
/// none, and for the password check's answer, the login goes on to set the
/// last-login time exactly where `spec_login` accepts the account, with the
/// account's id, and otherwise answers the error `spec_login` gives (a
/// check that failed to run is `Internal`, with the check's message).
pub proof fn lemma_login_steps_follow_check(user: Option<LoginCandidate>, checked: Result<bool, Seq<char>>)
    ensures
        ({
            let ev1 = LoginEventView::UserFound(match user { Some(c) => Some(c@), None => None });
            let (s1, a1) = spec_login_step(login_start(), ev1);
            let v = match checked { Ok(b) => Some(b), Err(_) => None };
            let (s2, a2) = spec_login_step(s1, LoginEventView::PasswordChecked(checked));
            match spec_login(user, v) {
                Some(Ok(id)) => a1 is CheckPassword && a2 == (LoginActionView::UpdateLastLogin { user_id: id }),
                Some(Err(e)) => if user matches Some(c) && c.status@ == "active"@ {
                    a1 is CheckPassword && a2 == LoginActionView::Respond(Err(e))
                } else {
                    a1 == LoginActionView::Respond(Err(e))
                },
                None => a1 is CheckPassword && (checked matches Err(m)
                    && a2 == LoginActionView::Respond(Err(ErrorView::Internal(m)))),
            }
        }),
{
    reveal_strlit("active");
}

/// The actions a login asks for while it takes `events`, from state `s`.
pub open spec fn login_trace(s: LoginState, events: Seq<LoginEventView>) -> Seq<LoginActionView>
    decreases events.len(),
{
    if events.len() == 0 || s.phase == LoginPhase::Done {
        Seq::empty()
    } else {
        let (n, a) = spec_login_step(s, events[0]);
        seq![a] + login_trace(n, events.subrange(1, events.len() as int))
    }
}

/// All actions of a login for `email`, its first request included.
pub open spec fn login_full_trace(email: Seq<char>, events: Seq<LoginEventView>) -> Seq<LoginActionView> {
    seq![LoginActionView::FindUser { email }] + login_trace(login_start(), events)
}

/// Every session answered in `h` comes right after the token request for
/// its account, which comes right after setting that account's last-login
/// time, which comes right after the password check.
pub open spec fn sessions_follow_token(h: Seq<LoginActionView>) -> bool {
    forall|k: int| 0 <= k < h.len() && (#[trigger] h[k] matches LoginActionView::Respond(Ok(_))) ==> {
        let id = h[k]->Respond_0->Ok_0.user_id;
        &&& k >= 3
        &&& (h[k - 1] matches LoginActionView::IssueToken { user_id, .. } && user_id == id)
        &&& h[k - 2] == (LoginActionView::UpdateLastLogin { user_id: id })
        &&& h[k - 3] is CheckPassword
    }
}

/// The actions so far fit the login's phase.
pub open spec fn login_history_fits(s: LoginState, h: Seq<LoginActionView>) -> bool {
    match s.phase {
        LoginPhase::AwaitPassword => h.len() >= 1 && h.last() is CheckPassword,
        LoginPhase::AwaitLastLogin => h.len() >= 2
            && h.last() == (LoginActionView::UpdateLastLogin { user_id: s.user_id })
            && h[h.len() - 2] is CheckPassword,
        LoginPhase::AwaitToken => h.len() >= 3
            && h.last() == (LoginActionView::IssueToken { user_id: s.user_id, role: s.role })
            && h[h.len() - 2] == (LoginActionView::UpdateLastLogin { user_id: s.user_id })
            && h[h.len() - 3] is CheckPassword,
        _ => true,
    }
}

proof fn lemma_login_step_keeps_history(s: LoginState, h: Seq<LoginActionView>, ev: LoginEventView)
    requires
        s.phase != LoginPhase::Done,
        login_history_fits(s, h),
        sessions_follow_token(h),
    ensures
        login_history_fits(spec_login_step(s, ev).0, h.push(spec_login_step(s, ev).1)),
        sessions_follow_token(h.push(spec_login_step(s, ev).1)),
{
    let (n, a) = spec_login_step(s, ev);
    let h2 = h.push(a);
    assert forall|k: int| 0 <= k < h2.len() && (#[trigger] h2[k] matches LoginActionView::Respond(Ok(_))) implies {
        let id = h2[k]->Respond_0->Ok_0.user_id;
        &&& k >= 3
        &&& (h2[k - 1] matches LoginActionView::IssueToken { user_id, .. } && user_id == id)
        &&& h2[k - 2] == (LoginActionView::UpdateLastLogin { user_id: id })
        &&& h2[k - 3] is CheckPassword
    } by {
        if k < h.len() {
            assert(h2[k] == h[k]);
            assert(h2[k - 1] == h[k - 1]);
            assert(h2[k - 2] == h[k - 2]);
            assert(h2[k - 3] == h[k - 3]);
        } else {
            assert(s.phase is AwaitToken);
        }
    }
}

proof fn lemma_login_trace_keeps_history(s: LoginState, h: Seq<LoginActionView>, events: Seq<LoginEventView>)
    requires
        login_history_fits(s, h),
        sessions_follow_token(h),
    ensures
        sessions_follow_token(h + login_trace(s, events)),
    decreases events.len(),
{
    if events.len() == 0 || s.phase == LoginPhase::Done {
        assert(h + login_trace(s, events) =~= h);
    } else {
        let (n, a) = spec_login_step(s, events[0]);
        let rest = events.subrange(1, events.len() as int);
        lemma_login_step_keeps_history(s, h, events[0]);
        lemma_login_trace_keeps_history(n, h.push(a), rest);
        assert(h.push(a) + login_trace(n, rest) =~= h + login_trace(s, events));
    }
}

/// Over whole logins, whatever the outside reports: a login answers with a
/// session only right after it asked, in this order, to check the
/// password, to set the account's last-login time, and to make a token for
/// that same account.
pub proof fn lemma_session_needs_check_update_token(email: Seq<char>, events: Seq<LoginEventView>)
    ensures
        sessions_follow_token(login_full_trace(email, events)),
{
    let h = seq![LoginActionView::FindUser { email }];
    assert(sessions_follow_token(h)) by {
        assert forall|k: int| 0 <= k < h.len() && (#[trigger] h[k] matches LoginActionView::Respond(Ok(_))) implies false by {
            assert(h[k] == (LoginActionView::FindUser { email }));
        }
    }
    lemma_login_trace_keeps_history(login_start(), h, events);
}

// ------------------------------------------------------------ registration

/// Where a registration stands.
#[derive(Debug, Clone, Copy, PartialEq, Eq)]
pub enum RegisterPhase {
    /// The account row is being inserted.
    AwaitUserRow,
    /// A token for the new account was asked for.
    AwaitToken,
    /// The registration was answered.
    Done,
}

/// A registration: its phase and the new account's id, once inserted.
#[derive(Debug, Clone, Copy, PartialEq, Eq)]
pub struct RegisterFlow {
    pub phase: RegisterPhase,
    pub user_id: u128,
}

/// What the outside reports to a registration.
#[derive(Debug)]
pub enum RegisterEvent {
    /// The account row was inserted with this id and role.
    UserCreated { user_id: u128, role: String },
    /// The insert broke a uniqueness constraint.
    ConstraintViolated,
    /// The database reported another error.
    DbFailed,
    /// A token was made.
    TokenIssued(String),
    /// No token could be made, for this reason.
    TokenFailed(String),
}

/// View of a [`RegisterEvent`].
pub enum RegisterEventView {
    UserCreated { user_id: u128, role: Seq<char> },
    ConstraintViolated,
    DbFailed,
    TokenIssued(Seq<char>),
    TokenFailed(Seq<char>),
}

impl View for RegisterEvent {
    type V = RegisterEventView;

    open spec fn view(&self) -> RegisterEventView {
        match self {
            RegisterEvent::UserCreated { user_id, role } => RegisterEventView::UserCreated { user_id: *user_id, role: role@ },
            RegisterEvent::ConstraintViolated => RegisterEventView::ConstraintViolated,
            RegisterEvent::DbFailed => RegisterEventView::DbFailed,
            RegisterEvent::TokenIssued(t) => RegisterEventView::TokenIssued(t@),
            RegisterEvent::TokenFailed(m) => RegisterEventView::TokenFailed(m@),
        }
    }
}

/// What a registration asks the outside to do next.
#[derive(Debug)]
pub enum RegisterAction {
    /// Insert the account with the request's name and address and this
    /// password hash.
    CreateUser { password_hash: String },
    /// Make a token for the account with this role.
    IssueToken { user_id: u128, role: String },
    /// Answer the request.
    Respond(Result<Session, AppError>),
}

/// View of a [`RegisterAction`].
pub enum RegisterActionView {
    CreateUser { password_hash: Seq<char> },
    IssueToken { user_id: u128, role: Seq<char> },
    Respond(Result<SessionView, ErrorView>),
}

impl View for RegisterAction {
    type V = RegisterActionView;

    open spec fn view(&self) -> RegisterActionView {
        match self {
            RegisterAction::CreateUser { password_hash } => RegisterActionView::CreateUser { password_hash: password_hash@ },
            RegisterAction::IssueToken { user_id, role } => RegisterActionView::IssueToken { user_id: *user_id, role: role@ },
            RegisterAction::Respond(r) => RegisterActionView::Respond(answer_view(*r)),
        }
    }
}

/// Ends a registration with an error.
pub open spec fn register_fail(s: RegisterFlow, e: ErrorView) -> (RegisterFlow, RegisterActionView) {
    (RegisterFlow { phase: RegisterPhase::Done, ..s }, RegisterActionView::Respond(Err(e)))
}

/// One step of a registration: an inserted account gets a token and is
/// answered with its id and that token; an insert that broke a uniqueness
/// constraint is `Conflict` ("Username or email already exists"), another
/// database error is `Database`, a token that failed is `Internal`. A
/// report that does not fit the phase is answered as a database error.
pub open spec fn spec_register_step(s: RegisterFlow, ev: RegisterEventView) -> (RegisterFlow, RegisterActionView) {
    match s.phase {
        RegisterPhase::AwaitUserRow => match ev {
            RegisterEventView::UserCreated { user_id, role } =>
                (RegisterFlow { phase: RegisterPhase::AwaitToken, user_id },
                    RegisterActionView::IssueToken { user_id, role }),
            RegisterEventView::ConstraintViolated =>
                register_fail(s, ErrorView::Conflict(Duplicate::UserIdentity.spec_message())),
            _ => register_fail(s, ErrorView::Database),
        },
        RegisterPhase::AwaitToken => match ev {
            RegisterEventView::TokenIssued(t) =>
                (RegisterFlow { phase: RegisterPhase::Done, ..s },
                    RegisterActionView::Respond(Ok(SessionView { user_id: s.user_id, token: t }))),
            RegisterEventView::TokenFailed(m) => register_fail(s, ErrorView::Internal(m)),
            _ => register_fail(s, ErrorView::Database),
        },
        RegisterPhase::Done => (s, RegisterActionView::Respond(Err(ErrorView::Database))),
    }
}

impl RegisterFlow {
    /// Starts a registration with the given password: it is hashed with
    /// bcrypt at cost 12 and the account is inserted with that hash; a hash
    /// that could not be made ends the registration with `Internal`.
    pub fn begin(password: &str) -> (r: (RegisterFlow, RegisterAction))
        ensures
            r.1 matches RegisterAction::CreateUser { password_hash: h } ==> {
                &&& r.0.phase == RegisterPhase::AwaitUserRow
                &&& h@.len() == 60
                &&& h@.subrange(0, 7) == "$2b$12$"@
                &&& bcrypt_verifies(password@, h@) == Some(true)
            },
            r.1 is Respond ==> r.0.phase == RegisterPhase::Done && r.1 matches RegisterAction::Respond(Err(AppError::Internal(_))),
            r.1 is CreateUser || r.1 is Respond,
    {
        match hash_password(password) {
            Ok(h) => (RegisterFlow { phase: RegisterPhase::AwaitUserRow, user_id: 0 }, RegisterAction::CreateUser { password_hash: h }),
            Err(e) => (RegisterFlow { phase: RegisterPhase::Done, user_id: 0 }, RegisterAction::Respond(Err(e))),
        }
    }

    /// Takes the next report and says what to do next.
    pub fn step(self, ev: RegisterEvent) -> (r: (RegisterFlow, RegisterAction))
        requires
            self.phase != RegisterPhase::Done,
        ensures
            (r.0, r.1@) == spec_register_step(self, ev@),
    {
        match self.phase {
            RegisterPhase::AwaitUserRow => match ev {
                RegisterEvent::UserCreated { user_id, role } =>
                    (RegisterFlow { phase: RegisterPhase::AwaitToken, user_id }, RegisterAction::IssueToken { user_id, role }),
                RegisterEvent::ConstraintViolated =>
                    (RegisterFlow { phase: RegisterPhase::Done, ..self },
                        RegisterAction::Respond(Err(insert_failure(true, Duplicate::UserIdentity)))),
                _ => (RegisterFlow { phase: RegisterPhase::Done, ..self }, RegisterAction::Respond(Err(AppError::Database))),
            },
            RegisterPhase::AwaitToken => match ev {
                RegisterEvent::TokenIssued(t) => {
                    let id = self.user_id;
                    (RegisterFlow { phase: RegisterPhase::Done, ..self }, RegisterAction::Respond(Ok(Session { user_id: id, token: t })))
                },
                RegisterEvent::TokenFailed(m) =>
                    (RegisterFlow { phase: RegisterPhase::Done, ..self }, RegisterAction::Respond(Err(AppError::Internal(m)))),
                _ => (RegisterFlow { phase: RegisterPhase::Done, ..self }, RegisterAction::Respond(Err(AppError::Database))),
            },
            RegisterPhase::Done => (self, RegisterAction::Respond(Err(AppError::Database))),
        }
    }
}

/// A registration answers with a session only for the account that was
/// inserted and with the token made for it: from the insert's answer on,
/// success needs the row, then the token, and carries both.
pub proof fn lemma_registration_session_is_issued_token(user_id: u128, role: Seq<char>, token: Seq<char>, s: RegisterFlow)
    requires
        s.phase == RegisterPhase::AwaitUserRow,
    ensures
        ({
            let (s1, a1) = spec_register_step(s, RegisterEventView::UserCreated { user_id, role });
            let (s2, a2) = spec_register_step(s1, RegisterEventView::TokenIssued(token));
            &&& a1 == (RegisterActionView::IssueToken { user_id, role })
            &&& a2 == RegisterActionView::Respond(Ok(SessionView { user_id, token }))
        }),
        forall|ev: RegisterEventView| #[trigger] spec_register_step(s, ev).1 is IssueToken ==> ev is UserCreated,
        forall|t: RegisterFlow, ev: RegisterEventView|
            #[trigger] spec_register_step(t, ev).1 matches RegisterActionView::Respond(Ok(sv))
                ==> t.phase == RegisterPhase::AwaitToken && ev == RegisterEventView::TokenIssued(sv.token) && sv.user_id == t.user_id,
{
}

// ----------------------------------------------------------------- roles

/// Rank of a role: `admin` above `moderator` above `user`; any other role
/// ranks below them all.
pub open spec fn role_rank(role: Seq<char>) -> int {
    if role == "admin"@ { 3 } else if role == "moderator"@ { 2 } else if role == "user"@ { 1 } else { 0 }
}

fn rank_of(role: &str) -> (r: u8)
    ensures
        r == role_rank(role@),
{
    if str_eq(role, "admin") {
        3
    } else if str_eq(role, "moderator") {
        2
    } else if str_eq(role, "user") {
        1
    } else {
        0
    }
}

/// Lets a request through where the caller's role ranks at least as high as
/// the role the action needs (a known one); `Forbidden` otherwise.
pub fn require_role(role: &str, required: &str) -> (r: Result<(), AppError>)
    ensures
        r is Ok <==> (role_rank(required@) > 0 && role_rank(role@) >= role_rank(required@)),
        r is Err ==> r == Err::<(), AppError>(AppError::Forbidden),
{
    let need = rank_of(required);
    let have = rank_of(role);
    if need > 0 && have >= need {
        Ok(())
    } else {
        Err(AppError::Forbidden)
    }
}

/// Roles are ordered: whoever passes a check for a role passes the checks
/// for every known role ranked at or below it.
pub proof fn lemma_role_checks_are_monotone(role: Seq<char>, higher: Seq<char>, lower: Seq<char>)
    requires
        role_rank(lower) > 0,
        role_rank(lower) <= role_rank(higher),
        role_rank(role) >= role_rank(higher),
    ensures
        role_rank(role) >= role_rank(lower),
{
}

} // verus!
