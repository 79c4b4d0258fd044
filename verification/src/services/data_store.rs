use vstd::prelude::*;
use rand::Rng;
use crate::domain::email::Email;
use crate::domain::password::Password;
use crate::domain::user::User;
use crate::text::{all_ascii_digits, is_ascii_digit_char, is_digit_string_of_len, lemma_digits_utf8_len, utf8_len};

verus! {

// ---------------------------------------------------------------------------
// Errors
// ---------------------------------------------------------------------------

/// The ways in which a user store refuses a request.
#[derive(Debug, Clone, Copy, PartialEq, Eq)]
pub enum UserStoreError {
    UserNotFound,
    UserAlreadyExists,
    InvalidCredentials,
    UnexpectedError,
}

/// The ways in which a store of banned tokens refuses a request.
#[derive(Debug, Clone, Copy, PartialEq, Eq)]
pub enum BannedTokenStoreError {
    TokenAlreadyBanned,
    UnexpectedError,
}

/// The ways in which a store of two-factor codes refuses a request.
#[derive(Debug, Clone, Copy, PartialEq, Eq)]
pub enum TwoFACodeStoreError {
    LoginAttemptIdNotFound,
    UnexpectedError,
}

// ---------------------------------------------------------------------------
// Identifiers of login attempts
// ---------------------------------------------------------------------------

/// Whether `c` is a hexadecimal digit, in either case.
pub open spec fn is_hex_char(c: char) -> bool {
    ('0' <= c <= '9') || ('a' <= c <= 'f') || ('A' <= c <= 'F')
}

/// Whether `c` is a hexadecimal digit written in lower case.
pub open spec fn is_lower_hex_char(c: char) -> bool {
    ('0' <= c <= '9') || ('a' <= c <= 'f')
}

/// The positions of the hyphens in the hyphenated form.
pub open spec fn is_hyphen_position(i: int) -> bool {
    i == 8 || i == 13 || i == 18 || i == 23
}

/// The simple form: 32 hexadecimal digits.
pub open spec fn is_simple_uuid(s: Seq<char>) -> bool {
    &&& s.len() == 32
    &&& forall|i: int| 0 <= i < 32 ==> is_hex_char(#[trigger] s[i])
}

/// The hyphenated form: 36 characters, hyphens at 8, 13, 18 and 23 and
/// hexadecimal digits elsewhere.
pub open spec fn is_hyphenated_uuid(s: Seq<char>) -> bool {
    &&& s.len() == 36
    &&& forall|i: int| 0 <= i < 36 ==> if is_hyphen_position(i) {
        #[trigger] s[i] == '-'
    } else {
        is_hex_char(s[i])
    }
}

/// Whether `c` equals the lower-case ASCII letter or sign `t`, ignoring case.
pub open spec fn eq_ignore_ascii_case(c: char, t: char) -> bool {
    c == t || (('a' <= t <= 'z') && (c as int) == (t as int) - 32)
}

/// The prefix `urn:uuid:`, in any case.
pub open spec fn is_urn_prefix(p: Seq<char>) -> bool {
    let t = seq!['u', 'r', 'n', ':', 'u', 'u', 'i', 'd', ':'];
    &&& p.len() == 9
    &&& forall|i: int| 0 <= i < 9 ==> eq_ignore_ascii_case(#[trigger] p[i], t[i])
}

/// The texts that `uuid::Uuid::parse_str` accepts: the simple form, the
/// hyphenated form, the hyphenated form in braces, and the hyphenated form
/// behind `urn:uuid:`.
pub open spec fn is_uuid_text(s: Seq<char>) -> bool {
    ||| is_simple_uuid(s)
    ||| is_hyphenated_uuid(s)
    ||| (s.len() == 38 && s[0] == '{' && s[37] == '}' && is_hyphenated_uuid(s.subrange(1, 37)))
    ||| (s.len() == 45 && is_urn_prefix(s.take(9)) && is_hyphenated_uuid(s.skip(9)))
}

/// The text that `uuid` writes for a random (version 4) identifier: the
/// hyphenated form in lower case, with the version digit `4` at 14 and one of
/// `8`, `9`, `a`, `b` (the variant) at 19.
pub open spec fn is_v4_uuid_text(s: Seq<char>) -> bool {
    &&& s.len() == 36
    &&& forall|i: int| 0 <= i < 36 ==> if is_hyphen_position(i) {
        #[trigger] s[i] == '-'
    } else {
        is_lower_hex_char(s[i])
    }
    &&& s[14] == '4'
    &&& (s[19] == '8' || s[19] == '9' || s[19] == 'a' || s[19] == 'b')
}

/// The text of the error that `uuid::Uuid::parse_str` gives for a text that
/// it refuses.
pub uninterp spec fn uuid_parse_error_text(input: Seq<char>) -> Seq<char>;

/// Calls `uuid::Uuid::parse_str` on `input` and keeps whether it accepted the
/// text, or else the text of its error. Trusted: the crate's parser accepts
/// exactly the four forms of `is_uuid_text` (it works on bytes, and a
/// character outside ASCII can fill none of the forms); the error's text,
/// which names what went wrong, is named by `uuid_parse_error_text`.
#[verifier::external_body]
fn uuid_parse(input: &str) -> (r: Result<(), String>)
    ensures
        r is Ok <==> is_uuid_text(input@),
        r matches Err(m) ==> m@ == uuid_parse_error_text(input@),
{
    match uuid::Uuid::parse_str(input) {
        Ok(_) => Ok(()),
        Err(e) => Err(e.to_string()),
    }
}

/// Calls `uuid::Uuid::new_v4` and writes the new identifier with `Display`.
/// Trusted: the identifier is random, so nothing is said of which one comes
/// back; the crate sets the version and variant bits and writes the
/// hyphenated form in lower case, which is what the contract states.
#[verifier::external_body]
fn uuid_v4_text() -> (text: String)
    ensures
        is_v4_uuid_text(text@),
{
    uuid::Uuid::new_v4().to_string()
}

/// Every text that `uuid` writes for a random identifier is one it accepts.
pub proof fn lemma_v4_text_is_uuid_text(s: Seq<char>)
    requires
        is_v4_uuid_text(s),
    ensures
        is_uuid_text(s),
{
    assert forall|i: int| 0 <= i < 36 implies if is_hyphen_position(i) {
        #[trigger] s[i] == '-'
    } else {
        is_hex_char(s[i])
    } by {
        if !is_hyphen_position(i) {
            assert(is_lower_hex_char(s[i]));
        }
    }
}

/// The identifier of a login attempt: a text that `uuid` accepts.
#[derive(Debug, PartialEq)]
pub struct LoginAttemptId(String);

impl View for LoginAttemptId {
    type V = Seq<char>;

    closed spec fn view(&self) -> Seq<char> {
        self.0@
    }
}

impl LoginAttemptId {
    #[verifier::type_invariant]
    spec fn well_formed(self) -> bool {
        is_uuid_text(self.0@)
    }

    /// Accepts `id` where `uuid` parses it; refuses it otherwise with the
    /// text of `uuid`'s error.
    pub fn parse(id: String) -> (r: Result<Self, String>)
        ensures
            is_uuid_text(id@) <==> r is Ok,
            r matches Ok(a) ==> a@ == id@,
            r matches Err(m) ==> m@ == uuid_parse_error_text(id@),
    {
        let outcome = uuid_parse(id.as_str());
        Self::from_parse_outcome(id, outcome)
    }

    /// Builds the identifier from `id` and what `uuid` said of it.
    pub fn from_parse_outcome(id: String, outcome: Result<(), String>) -> (r: Result<Self, String>)
        requires
            outcome is Ok <==> is_uuid_text(id@),
        ensures
            outcome is Ok <==> r is Ok,
            r matches Ok(a) ==> a@ == id@,
            r matches Err(m) ==> outcome matches Err(e) && m@ == e@,
    {
        match outcome {
            Ok(()) => Ok(LoginAttemptId(id)),
            Err(e) => Err(e),
        }
    }

    /// The identifier as text; `parse` accepts it.
    pub fn as_ref(&self) -> (r: &str)
        ensures
            r@ == self@,
            is_uuid_text(r@),
    {
        proof {
            use_type_invariant(self);
        }
        self.0.as_str()
    }

    /// Whether the two identifiers have the same text.
    pub fn same_text(&self, other: &LoginAttemptId) -> (r: bool)
        ensures
            r == (self@ == other@),
    {
        self.0 == other.0
    }
}

impl Default for LoginAttemptId {
    /// A fresh random identifier, written as a lower-case hyphenated version 4
    /// uuid; `parse` accepts its text.
    fn default() -> (r: Self)
        ensures
            is_v4_uuid_text(r@),
            is_uuid_text(r@),
    {
        let text = uuid_v4_text();
        proof {
            lemma_v4_text_is_uuid_text(text@);
        }
        LoginAttemptId(text)
    }
}

impl Clone for LoginAttemptId {
    fn clone(&self) -> (r: Self)
        ensures
            r == *self,
    {
        proof {
            use_type_invariant(self);
        }
        LoginAttemptId(self.0.clone())
    }
}

// ---------------------------------------------------------------------------
// Two-factor codes
// ---------------------------------------------------------------------------

/// A code is accepted when it takes 6 bytes and each character is an ASCII digit.
pub open spec fn is_valid_two_fa_code(s: Seq<char>) -> bool {
    utf8_len(s) == 6 && all_ascii_digits(s)
}

/// The message with which a code is refused.
pub open spec fn invalid_code_message() -> Seq<char> {
    "Invalid 2FA code"@
}

/// The digit character for `d`, which is below 10.
pub open spec fn digit_char(d: int) -> char {
    if d == 0 {
        '0'
    } else if d == 1 {
        '1'
    } else if d == 2 {
        '2'
    } else if d == 3 {
        '3'
    } else if d == 4 {
        '4'
    } else if d == 5 {
        '5'
    } else if d == 6 {
        '6'
    } else if d == 7 {
        '7'
    } else if d == 8 {
        '8'
    } else {
        '9'
    }
}

/// `v` written with six decimal digits, padded with leading zeros.
pub open spec fn six_digit_text(v: int) -> Seq<char> {
    seq![
        digit_char((v / 100000) % 10),
        digit_char((v / 10000) % 10),
        digit_char((v / 1000) % 10),
        digit_char((v / 100) % 10),
        digit_char((v / 10) % 10),
        digit_char(v % 10),
    ]
}

/// Calls `rand::rng().random_range(0..upper)`. Trusted: the number is random;
/// the crate documents that it lies in the range, which is all that is said.
#[verifier::external_body]
fn random_below(upper: u32) -> (v: u32)
    requires
        upper > 0,
    ensures
        v < upper,
{
    rand::rng().random_range(0..upper)
}

/// The text of one decimal digit.
fn digit_text(d: u32) -> (r: &'static str)
    requires
        d < 10,
    ensures
        r@ == seq![digit_char(d as int)],
{
    if d == 0 {
        proof { reveal_strlit("0"); }
        "0"
    } else if d == 1 {
        proof { reveal_strlit("1"); }
        "1"
    } else if d == 2 {
        proof { reveal_strlit("2"); }
        "2"
    } else if d == 3 {
        proof { reveal_strlit("3"); }
        "3"
    } else if d == 4 {
        proof { reveal_strlit("4"); }
        "4"
    } else if d == 5 {
        proof { reveal_strlit("5"); }
        "5"
    } else if d == 6 {
        proof { reveal_strlit("6"); }
        "6"
    } else if d == 7 {
        proof { reveal_strlit("7"); }
        "7"
    } else if d == 8 {
        proof { reveal_strlit("8"); }
        "8"
    } else {
        proof { reveal_strlit("9"); }
        "9"
    }
}

/// A six-digit code made of random digits.
#[derive(Debug, PartialEq)]
pub struct TwoFACode(String);

impl View for TwoFACode {
    type V = Seq<char>;

    closed spec fn view(&self) -> Seq<char> {
        self.0@
    }
}

impl TwoFACode {
    #[verifier::type_invariant]
    spec fn well_formed(self) -> bool {
        is_valid_two_fa_code(self.0@)
    }

    /// Accepts `code` when it is six ASCII digits; refuses it otherwise.
    pub fn parse(code: String) -> (r: Result<Self, String>)
        ensures
            is_valid_two_fa_code(code@) <==> r is Ok,
            (code@.len() == 6 && forall|i: int| 0 <= i < code@.len() ==> '0' <= #[trigger] code@[i] <= '9')
                <==> r is Ok,
            r matches Ok(c) ==> c@ == code@,
            r matches Err(m) ==> m@ == invalid_code_message(),
    {
        let digits = is_digit_string_of_len(code.as_str(), 6);
        proof {
            if all_ascii_digits(code@) {
                lemma_digits_utf8_len(code@);
            }
        }
        if digits {
            Ok(Self(code))
        } else {
            Err(String::from_str("Invalid 2FA code"))
        }
    }

    /// The code whose text is `v` written with six digits.
    pub fn from_number(v: u32) -> (r: Self)
        requires
            v < 1_000_000,
        ensures
            r@ == six_digit_text(v as int),
    {
        let mut s = String::new();
        s.append(digit_text((v / 100000) % 10));
        s.append(digit_text((v / 10000) % 10));
        s.append(digit_text((v / 1000) % 10));
        s.append(digit_text((v / 100) % 10));
        s.append(digit_text((v / 10) % 10));
        s.append(digit_text(v % 10));
        proof {
            let t = six_digit_text(v as int);
            assert(s@ =~= t);
            assert forall|i: int| 0 <= i < t.len() implies is_ascii_digit_char(#[trigger] t[i]) by {}
            lemma_digits_utf8_len(t);
        }
        Self(s)
    }

    /// The code as text; `parse` accepts it.
    pub fn as_ref(&self) -> (r: &str)
        ensures
            r@ == self@,
            is_valid_two_fa_code(r@),
    {
        proof {
            use_type_invariant(self);
        }
        self.0.as_str()
    }

    /// Whether the two codes have the same text.
    pub fn same_text(&self, other: &TwoFACode) -> (r: bool)
        ensures
            r == (self@ == other@),
    {
        self.0 == other.0
    }
}

impl Default for TwoFACode {
    /// A fresh random code: six digits, uniformly drawn.
    fn default() -> (r: Self)
        ensures
            exists|v: int| 0 <= v < 1_000_000 && r@ == six_digit_text(v),
            is_valid_two_fa_code(r@),
    {
        let v = random_below(1_000_000);
        let c = Self::from_number(v);
        proof {
            use_type_invariant(&c);
        }
        c
    }
}

impl Clone for TwoFACode {
    fn clone(&self) -> (r: Self)
        ensures
            r == *self,
    {
        proof {
            use_type_invariant(self);
        }
        TwoFACode(self.0.clone())
    }
}

// ---------------------------------------------------------------------------
// What the stores do, as functions on their contents
// ---------------------------------------------------------------------------

/// Adding a user: refused when the address is already registered, else the
/// user is recorded under its address.
pub open spec fn add_user_model(users: Map<Seq<char>, User>, user: User) -> (Map<Seq<char>, User>, Result<(), UserStoreError>) {
    if users.contains_key(user.email@) {
        (users, Err(UserStoreError::UserAlreadyExists))
    } else {
        (users.insert(user.email@, user), Ok(()))
    }
}

/// Looking a user up by address.
pub open spec fn get_user_model(users: Map<Seq<char>, User>, email: Seq<char>) -> Result<User, UserStoreError> {
    if users.contains_key(email) {
        Ok(users[email])
    } else {
        Err(UserStoreError::UserNotFound)
    }
}

/// Checking an address and a password against the registered users.
pub open spec fn validate_user_model(users: Map<Seq<char>, User>, email: Seq<char>, password: Seq<char>) -> Result<(), UserStoreError> {
    match get_user_model(users, email) {
        Ok(u) => if u.password@ == password {
            Ok(())
        } else {
            Err(UserStoreError::InvalidCredentials)
        },
        Err(e) => Err(e),
    }
}

/// Banning a token: refused when it is banned already.
pub open spec fn store_token_model(tokens: Set<Seq<char>>, token: Seq<char>) -> (Set<Seq<char>>, Result<(), BannedTokenStoreError>) {
    if tokens.contains(token) {
        (tokens, Err(BannedTokenStoreError::TokenAlreadyBanned))
    } else {
        (tokens.insert(token), Ok(()))
    }
}

/// Asking whether a token is banned.
pub open spec fn check_token_model(tokens: Set<Seq<char>>, token: Seq<char>) -> Result<bool, BannedTokenStoreError> {
    Ok(tokens.contains(token))
}

/// Recording the attempt and code sent to an address: refused when one is
/// pending for it already.
pub open spec fn add_code_model(
    codes: Map<Seq<char>, (LoginAttemptId, TwoFACode)>,
    email: Seq<char>,
    login_attempt_id: LoginAttemptId,
    code: TwoFACode,
) -> (Map<Seq<char>, (LoginAttemptId, TwoFACode)>, Result<(), TwoFACodeStoreError>) {
    if codes.contains_key(email) {
        (codes, Err(TwoFACodeStoreError::UnexpectedError))
    } else {
        (codes.insert(email, (login_attempt_id, code)), Ok(()))
    }
}

/// Dropping the pending attempt of an address: refused when there is none.
pub open spec fn remove_code_model(codes: Map<Seq<char>, (LoginAttemptId, TwoFACode)>, email: Seq<char>) -> (Map<Seq<char>, (LoginAttemptId, TwoFACode)>, Result<(), TwoFACodeStoreError>) {
    if codes.contains_key(email) {
        (codes.remove(email), Ok(()))
    } else {
        (codes, Err(TwoFACodeStoreError::UnexpectedError))
    }
}

/// Looking up the pending attempt of an address.
pub open spec fn get_code_model(codes: Map<Seq<char>, (LoginAttemptId, TwoFACode)>, email: Seq<char>) -> Result<(LoginAttemptId, TwoFACode), TwoFACodeStoreError> {
    if codes.contains_key(email) {
        Ok(codes[email])
    } else {
        Err(TwoFACodeStoreError::UnexpectedError)
    }
}

// ---------------------------------------------------------------------------
// The stores' interfaces
// ---------------------------------------------------------------------------

/// Where users are kept. A store may fail on its own (an unreachable
/// database); what it does when it succeeds is fixed.
pub trait UserStore {
    /// The registered users, by address text.
    spec fn users(&self) -> Map<Seq<char>, User>;

    fn add_user(&mut self, user: User) -> (r: Result<(), UserStoreError>)
        ensures
            r is Ok ==> (final(self).users(), r) == add_user_model(old(self).users(), user),
            r is Err ==> final(self).users() == old(self).users(),
    ;

    fn get_user(&self, email: Email) -> (r: Result<User, UserStoreError>)
        ensures
            r is Ok ==> r == get_user_model(self.users(), email@),
    ;

    fn validate_user(&self, email: Email, password: Password) -> (r: Result<(), UserStoreError>)
        ensures
            r is Ok ==> validate_user_model(self.users(), email@, password@) is Ok,
    ;
}

/// Where banned tokens are kept.
pub trait BannedTokenStore {
    /// The banned tokens.
    spec fn tokens(&self) -> Set<Seq<char>>;

    fn store_token(&mut self, token: &str) -> (r: Result<(), BannedTokenStoreError>)
        ensures
            r is Ok ==> (final(self).tokens(), r) == store_token_model(old(self).tokens(), token@),
            r is Err ==> final(self).tokens() == old(self).tokens(),
    ;

    fn check_token(&self, token: &str) -> (r: Result<bool, BannedTokenStoreError>)
        ensures
            r is Ok ==> r == check_token_model(self.tokens(), token@),
    ;
}

/// Where the pending two-factor attempts are kept, by address.
pub trait TwoFACodeStore {
    /// The pending attempts, by address text.
    spec fn codes(&self) -> Map<Seq<char>, (LoginAttemptId, TwoFACode)>;

    fn add_code(&mut self, email: Email, login_attempt_id: LoginAttemptId, code: TwoFACode) -> (r: Result<(), TwoFACodeStoreError>)
        ensures
            r is Ok ==> (final(self).codes(), r) == add_code_model(old(self).codes(), email@, login_attempt_id, code),
            r is Err ==> final(self).codes() == old(self).codes(),
    ;

    fn remove_code(&mut self, email: &Email) -> (r: Result<(), TwoFACodeStoreError>)
        ensures
            r is Ok ==> (final(self).codes(), r) == remove_code_model(old(self).codes(), email@),
            r is Err ==> final(self).codes() == old(self).codes(),
    ;

    fn get_code(&self, email: &Email) -> (r: Result<(LoginAttemptId, TwoFACode), TwoFACodeStoreError>)
        ensures
            r is Ok ==> r == get_code_model(self.codes(), email@),
    ;
}

} // verus!
