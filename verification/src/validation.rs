use vstd::prelude::*;

verus! {

/// A request field that carries a validation rule.
#[derive(Debug, Clone, Copy, PartialEq, Eq)]
pub enum Field {
    Title,
    Synopsis,
    Link,
    Body,
    Rating,
    Username,
    Email,
    Password,
    DisplayName,
    AvatarUrl,
    Bio,
}

/// The kind of rule a field broke.
#[derive(Debug, Clone, Copy, PartialEq, Eq)]
pub enum Rule {
    /// The number of characters lies outside the allowed range.
    Length,
    /// The number lies outside the allowed range.
    Range,
    /// The text is not a URL.
    Url,
    /// The text is not an e-mail address.
    Email,
}

/// One broken rule.
#[derive(Debug, Clone, Copy, PartialEq, Eq)]
pub struct Violation {
    pub field: Field,
    pub rule: Rule,
}

impl Field {
    /// Name of the field as it appears in request bodies.
    pub open spec fn spec_name(self) -> Seq<char> {
        match self {
            Field::Title => "title"@,
            Field::Synopsis => "synopsis"@,
            Field::Link => "link"@,
            Field::Body => "body"@,
            Field::Rating => "rating"@,
            Field::Username => "username"@,
            Field::Email => "email"@,
            Field::Password => "password"@,
            Field::DisplayName => "display_name"@,
            Field::AvatarUrl => "avatar_url"@,
            Field::Bio => "bio"@,
        }
    }

    /// Name of the field as it appears in request bodies.
    pub fn name(&self) -> (s: &'static str)
        ensures
            s@ == self.spec_name(),
    {
        match self {
            Field::Title => "title",
            Field::Synopsis => "synopsis",
            Field::Link => "link",
            Field::Body => "body",
            Field::Rating => "rating",
            Field::Username => "username",
            Field::Email => "email",
            Field::Password => "password",
            Field::DisplayName => "display_name",
            Field::AvatarUrl => "avatar_url",
            Field::Bio => "bio",
        }
    }
}

impl Rule {
    /// Code of the rule as validation errors report it.
    pub open spec fn spec_code(self) -> Seq<char> {
        match self {
            Rule::Length => "length"@,
            Rule::Range => "range"@,
            Rule::Url => "url"@,
            Rule::Email => "email"@,
        }
    }

    /// Code of the rule as validation errors report it.
    pub fn code(&self) -> (s: &'static str)
        ensures
            s@ == self.spec_code(),
    {
        match self {
            Rule::Length => "length",
            Rule::Range => "range",
            Rule::Url => "url",
            Rule::Email => "email",
        }
    }
}

/// Whether a text of `len` characters satisfies `length(min, max)`.
pub open spec fn length_within(len: nat, min: nat, max: nat) -> bool {
    min <= len <= max
}

/// The violations a text adds under a `length(min, max)` rule.
pub open spec fn length_violations(s: Seq<char>, min: nat, max: nat, field: Field) -> Seq<Violation> {
    if length_within(s.len(), min, max) {
        Seq::empty()
    } else {
        seq![Violation { field, rule: Rule::Length }]
    }
}

/// The violations an optional text adds under a `length(min, max)` rule;
/// an absent value is not checked.
pub open spec fn opt_length_violations(s: Option<Seq<char>>, min: nat, max: nat, field: Field) -> Seq<Violation> {
    match s {
        Some(s) => length_violations(s, min, max, field),
        None => Seq::empty(),
    }
}

/// The violations a number adds under a `range(min, max)` rule.
pub open spec fn range_violations(x: int, min: int, max: int, field: Field) -> Seq<Violation> {
    if min <= x <= max {
        Seq::empty()
    } else {
        seq![Violation { field, rule: Rule::Range }]
    }
}

/// Whether the URL parser accepts the text as an absolute URL.
pub uninterp spec fn url_parses(s: Seq<char>) -> bool;

/// The violations a text adds under a `url` rule.
pub open spec fn url_violations(s: Seq<char>, field: Field) -> Seq<Violation> {
    if url_parses(s) {
        Seq::empty()
    } else {
        seq![Violation { field, rule: Rule::Url }]
    }
}

/// Whether the e-mail check accepts the text as an address.
pub uninterp spec fn email_parses(s: Seq<char>) -> bool;

/// The violations a text adds under an `email` rule.
pub open spec fn email_violations(s: Seq<char>, field: Field) -> Seq<Violation> {
    if email_parses(s) {
        Seq::empty()
    } else {
        seq![Violation { field, rule: Rule::Email }]
    }
}

/// The violations an optional text adds under a `url` rule; an absent
/// value is not checked.
pub open spec fn opt_url_violations(s: Option<Seq<char>>, field: Field) -> Seq<Violation> {
    match s {
        Some(s) => url_violations(s, field),
        None => Seq::empty(),
    }
}

/// View of an optional string.
pub open spec fn opt_view(s: Option<String>) -> Option<Seq<char>> {
    match s {
        Some(s) => Some(s@),
        None => None,
    }
}

/// Calls `validator::ValidateUrl::validate_url` on a text, which answers
/// whether `url::Url::parse` accepts it. The contract names that answer
/// `url_parses` and does not restate the URL grammar.
#[verifier::external_body]
fn url_is_valid(s: &str) -> (ok: bool)
    ensures
        ok == url_parses(s@),
{
    validator::ValidateUrl::validate_url(s)
}

/// Calls `validator::ValidateEmail::validate_email` on a text, which
/// answers whether it is an address in the HTML form of e-mail addresses
/// (a local part and a domain or address literal around the last `@`,
/// within the length limits of SMTP). The contract names that answer
/// `email_parses` and does not restate the grammar.
#[verifier::external_body]
fn email_is_valid(s: &str) -> (ok: bool)
    ensures
        ok == email_parses(s@),
{
    validator::ValidateEmail::validate_email(&s)
}

/// Appends an e-mail violation for `s` to `out` where the e-mail check
/// rejects it.
pub fn check_email(out: &mut Vec<Violation>, s: &str, field: Field)
    ensures
        final(out)@ == old(out)@ + email_violations(s@, field),
{
    if !email_is_valid(s) {
        out.push(Violation { field, rule: Rule::Email });
        assert(seq![Violation { field, rule: Rule::Email }] =~= email_violations(s@, field));
    } else {
        assert(out@ =~= out@ + Seq::<Violation>::empty());
    }
}

/// Same as [`check_url`] for an optional text; `None` is not checked.
pub fn check_opt_url(out: &mut Vec<Violation>, s: &Option<String>, field: Field)
    ensures
        final(out)@ == old(out)@ + opt_url_violations(opt_view(*s), field),
{
    match s {
        Some(s) => check_url(out, s.as_str(), field),
        None => {
            assert(out@ =~= out@ + Seq::<Violation>::empty());
        },
    }
}

/// Appends a length violation for `s` to `out` where it has fewer than
/// `min` or more than `max` characters.
pub fn check_length(out: &mut Vec<Violation>, s: &str, min: u64, max: u64, field: Field)
    ensures
        final(out)@ == old(out)@ + length_violations(s@, min as nat, max as nat, field),
{
    let len: usize = s.unicode_len();
    if (len as u64) < min || (len as u64) > max {
        out.push(Violation { field, rule: Rule::Length });
        assert(seq![Violation { field, rule: Rule::Length }] =~= length_violations(s@, min as nat, max as nat, field));
    } else {
        assert(out@ =~= out@ + Seq::<Violation>::empty());
    }
}

/// Same as [`check_length`] for an optional text; `None` is not checked.
pub fn check_opt_length(out: &mut Vec<Violation>, s: &Option<String>, min: u64, max: u64, field: Field)
    ensures
        final(out)@ == old(out)@ + opt_length_violations(opt_view(*s), min as nat, max as nat, field),
{
    match s {
        Some(s) => check_length(out, s.as_str(), min, max, field),
        None => {
            assert(out@ =~= out@ + Seq::<Violation>::empty());
        },
    }
}

/// Appends a range violation for `x` to `out` where it lies outside
/// `min..=max`.
pub fn check_range(out: &mut Vec<Violation>, x: i16, min: i16, max: i16, field: Field)
    ensures
        final(out)@ == old(out)@ + range_violations(x as int, min as int, max as int, field),
{
    if x < min || x > max {
        out.push(Violation { field, rule: Rule::Range });
        assert(seq![Violation { field, rule: Rule::Range }] =~= range_violations(x as int, min as int, max as int, field));
    } else {
        assert(out@ =~= out@ + Seq::<Violation>::empty());
    }
}

/// Appends a URL violation for `s` to `out` where the URL parser rejects it.
pub fn check_url(out: &mut Vec<Violation>, s: &str, field: Field)
    ensures
        final(out)@ == old(out)@ + url_violations(s@, field),
{
    if !url_is_valid(s) {
        out.push(Violation { field, rule: Rule::Url });
        assert(seq![Violation { field, rule: Rule::Url }] =~= url_violations(s@, field));
    } else {
        assert(out@ =~= out@ + Seq::<Violation>::empty());
    }
}

/// Turns the collected violations into the outcome of a validation.
pub fn finish(out: Vec<Violation>) -> (r: Result<(), Vec<Violation>>)
    ensures
        r is Ok <==> out@.len() == 0,
        r matches Err(v) ==> v@ == out@,
{
    if out.len() == 0 {
        Ok(())
    } else {
        Err(out)
    }
}

} // verus!
