use vstd::prelude::*;
use crate::error::{AppError, ErrorView};
use crate::validation::{
    check_email, check_length, check_opt_length, check_opt_url, email_violations, finish, length_violations,
    opt_length_violations, opt_url_violations, opt_view, Field, Violation,
};

verus! {

/// Whether `bcrypt::verify` accepts a password for a stored hash:
/// `Some(true)` or `Some(false)`, or `None` where it reports an error.
pub uninterp spec fn bcrypt_verifies(password: Seq<char>, hash: Seq<char>) -> Option<bool>;

#[verifier::external_type_specification]
#[verifier::external_body]
pub struct ExBcryptError(bcrypt::BcryptError);

/// Calls `bcrypt::verify`, which recomputes the hash of the password with
/// the cost and salt read from the stored hash and compares. The answer is
/// named `bcrypt_verifies`; the Blowfish computation is not restated.
#[verifier::external_body]
pub(crate) fn bcrypt_verify(password: &str, hash: &str) -> (r: Result<bool, bcrypt::BcryptError>)
    ensures
        r matches Ok(b) ==> bcrypt_verifies(password@, hash@) == Some(b),
        r is Err ==> bcrypt_verifies(password@, hash@) is None,
{
    bcrypt::verify(password, hash)
}

/// A decimal digit as a character.
pub open spec fn decimal_digit(d: int) -> char {
    if d == 0 { '0' } else if d == 1 { '1' } else if d == 2 { '2' } else if d == 3 { '3' }
    else if d == 4 { '4' } else if d == 5 { '5' } else if d == 6 { '6' } else if d == 7 { '7' }
    else if d == 8 { '8' } else { '9' }
}

/// The start of a version-2b bcrypt hash of the given cost: `$2b$`, the cost
/// in two digits, `$`.
pub open spec fn bcrypt_prefix(cost: u32) -> Seq<char> {
    seq!['$', '2', 'b', '$', decimal_digit((cost / 10) as int), decimal_digit((cost % 10) as int), '$']
}

/// Lowest bcrypt cost.
pub const MIN_BCRYPT_COST: u32 = 4;
/// Highest bcrypt cost.
pub const MAX_BCRYPT_COST: u32 = 31;

/// Calls `bcrypt::hash` with the given cost and a random salt. Whatever salt
/// is drawn, the hash is the 60-character version-2b bcrypt string (`$2b$`,
/// the two-digit cost, `$`, salt and digest) from which `bcrypt::verify`
/// recomputes the same digest for the same password, so it accepts that
/// password. Which salt comes out, and so which hash, is not stated: it is
/// random. With a cost in `4..=31` it fails only where the system's
/// randomness does.
#[verifier::external_body]
fn bcrypt_hash(password: &str, cost: u32) -> (r: Result<String, bcrypt::BcryptError>)
    requires
        MIN_BCRYPT_COST <= cost <= MAX_BCRYPT_COST,
    ensures
        r matches Ok(h) ==> {
            &&& h@.len() == 60
            &&& h@.subrange(0, 7) == bcrypt_prefix(cost)
            &&& bcrypt_verifies(password@, h@) == Some(true)
        },
{
    bcrypt::hash(password, cost)
}

/// Calls the `Display` implementation of `bcrypt::BcryptError`; nothing is
/// stated of the text.
#[verifier::external_body]
pub(crate) fn bcrypt_error_text(e: &bcrypt::BcryptError) -> (s: String) {
    e.to_string()
}

/// What a login needs to know of the account with the given e-mail address.
#[derive(Debug, Clone)]
pub struct LoginCandidate {
    pub id: u128,
    pub role: String,
    pub status: String,
    pub password_hash: String,
}

/// The outcome of a login given the account found (if any) and, for an
/// active account, the answer of the password check: an unknown address or a
/// wrong password is `Unauthorized`, an account that is not `active` is
/// `Forbidden`, a password check that failed to run is `Internal`, and
/// otherwise the account's id.
pub open spec fn spec_login(user: Option<LoginCandidate>, verified: Option<bool>) -> Option<Result<u128, ErrorView>> {
    match user {
        None => Some(Err(ErrorView::Unauthorized)),
        Some(u) => if u.status@ != "active"@ {
            Some(Err(ErrorView::Forbidden))
        } else {
            match verified {
                Some(true) => Some(Ok(u.id)),
                Some(false) => Some(Err(ErrorView::Unauthorized)),
                None => None,
            }
        },
    }
}

/// Cost of the bcrypt hashes of account passwords.
pub const PASSWORD_HASH_COST: u32 = 12;

/// Hashes a new account's password with bcrypt at cost 12; a hash that
/// could not be made is `Internal`. The hash is a version-2b hash of cost 12
/// (it starts with `$2b$12$`) and accepts the password.
pub fn hash_password(password: &str) -> (r: Result<String, AppError>)
    ensures
        r matches Ok(h) ==> {
            &&& h@.len() == 60
            &&& h@.subrange(0, 7) == "$2b$12$"@
            &&& bcrypt_verifies(password@, h@) == Some(true)
        },
        r matches Err(e) ==> e is Internal,
{
    proof {
        reveal_strlit("$2b$12$");
        assert(bcrypt_prefix(PASSWORD_HASH_COST) =~= "$2b$12$"@);
    }
    match bcrypt_hash(password, PASSWORD_HASH_COST) {
        Ok(h) => Ok(h),
        Err(e) => Err(AppError::Internal(bcrypt_error_text(&e))),
    }
}
/// An account that registered with a password can log in with it while it
/// is active: where the stored hash is one `hash_password` made for the
/// password, the login yields the account's id.
pub proof fn lemma_registered_password_logs_in(user: LoginCandidate, password: Seq<char>)
    requires
        bcrypt_verifies(password, user.password_hash@) == Some(true),
        user.status@ == "active"@,
    ensures
        spec_login(Some(user), bcrypt_verifies(password, user.password_hash@)) == Some(Ok::<u128, ErrorView>(user.id)),
{
}

/// A login never succeeds with a password that the stored hash rejects, nor
/// for an account that is not active.
pub proof fn lemma_login_needs_active_account_and_password(user: LoginCandidate, verified: Option<bool>)
    ensures
        spec_login(Some(user), verified) matches Some(Ok(_)) ==> user.status@ == "active"@ && verified == Some(true),
{
}

/// A request to open an account.
#[derive(Debug, Clone)]
pub struct RegisterRequest {
    pub username: String,
    pub email: String,
    pub password: String,
    pub display_name: Option<String>,
}

/// A change of the caller's public profile; missing fields stay as they are.
#[derive(Debug, Clone)]
pub struct UpdateProfileRequest {
    pub display_name: Option<String>,
    pub avatar_url: Option<String>,
    pub bio: Option<String>,
}

/// Shortest and longest username, in characters.
pub const MIN_USERNAME_LEN: u64 = 3;
pub const MAX_USERNAME_LEN: u64 = 50;
/// Shortest and longest password, in characters.
pub const MIN_PASSWORD_LEN: u64 = 8;
pub const MAX_PASSWORD_LEN: u64 = 128;
/// Longest display name, in characters.
pub const MAX_DISPLAY_NAME_LEN: u64 = 100;
/// Longest profile text, in characters.
pub const MAX_BIO_LEN: u64 = 2000;

impl RegisterRequest {
    /// The rules a new account must meet: a username of 3 to 50 characters,
    /// an e-mail address, a password of 8 to 128 characters and, where
    /// given, a display name of at most 100 characters.
    pub open spec fn violations(&self) -> Seq<Violation> {
        length_violations(self.username@, 3, 50, Field::Username)
            + email_violations(self.email@, Field::Email)
            + length_violations(self.password@, 8, 128, Field::Password)
            + opt_length_violations(opt_view(self.display_name), 0, 100, Field::DisplayName)
    }

    /// Checks the rules; `Err` lists every broken one.
    pub fn validate(&self) -> (r: Result<(), Vec<Violation>>)
        ensures
            r is Ok <==> self.violations().len() == 0,
            r matches Err(v) ==> v@ == self.violations(),
    {
        let mut out: Vec<Violation> = Vec::new();
        check_length(&mut out, self.username.as_str(), MIN_USERNAME_LEN, MAX_USERNAME_LEN, Field::Username);
        check_email(&mut out, self.email.as_str(), Field::Email);
        check_length(&mut out, self.password.as_str(), MIN_PASSWORD_LEN, MAX_PASSWORD_LEN, Field::Password);
        check_opt_length(&mut out, &self.display_name, 0, MAX_DISPLAY_NAME_LEN, Field::DisplayName);
        assert(out@ =~= self.violations());
        finish(out)
    }
}

impl UpdateProfileRequest {
    /// The rules a profile change must meet, each only where the field is
    /// given: a display name of at most 100 characters, an avatar that is a
    /// URL, a profile text of at most 2000 characters.
    pub open spec fn violations(&self) -> Seq<Violation> {
        opt_length_violations(opt_view(self.display_name), 0, 100, Field::DisplayName)
            + opt_url_violations(opt_view(self.avatar_url), Field::AvatarUrl)
            + opt_length_violations(opt_view(self.bio), 0, 2000, Field::Bio)
    }

    /// Checks the rules; `Err` lists every broken one.
    pub fn validate(&self) -> (r: Result<(), Vec<Violation>>)
        ensures
            r is Ok <==> self.violations().len() == 0,
            r matches Err(v) ==> v@ == self.violations(),
    {
        let mut out: Vec<Violation> = Vec::new();
        check_opt_length(&mut out, &self.display_name, 0, MAX_DISPLAY_NAME_LEN, Field::DisplayName);
        check_opt_url(&mut out, &self.avatar_url, Field::AvatarUrl);
        check_opt_length(&mut out, &self.bio, 0, MAX_BIO_LEN, Field::Bio);
        assert(out@ =~= self.violations());
        finish(out)
    }
}

} // verus!
