//! NEAR account identifiers.
//!
//! An [`AccountId`] holds the text of an account name and keeps, as its type
//! invariant, the account-name rules that the NEAR runtime enforces: between 2
//! and 64 characters, made of lower-case letters, digits and the separators
//! `-`, `_` and `.`, where a separator is never first, never last and never
//! next to another separator.
use vstd::prelude::*;
use vstd::std_specs::cmp::PartialEqSpec;

verus! {

/// The least number of characters in an account name.
pub const MIN_ACCOUNT_ID_LEN: usize = 2;

/// The greatest number of characters in an account name.
pub const MAX_ACCOUNT_ID_LEN: usize = 64;

/// `-`, `_` and `.` separate the parts of an account name.
pub open spec fn is_separator(c: char) -> bool {
    c == '-' || c == '_' || c == '.'
}

/// Lower-case ASCII letters and ASCII digits.
pub open spec fn is_lower_alphanumeric(c: char) -> bool {
    ('a' as u32 <= c as u32 <= 'z' as u32) || ('0' as u32 <= c as u32 <= '9' as u32)
}

/// The account-name rules, the regular expression
/// `^(([a-z\d]+[-_])*[a-z\d]+\.)*([a-z\d]+[-_])*[a-z\d]+$` together with the
/// length bounds.
pub open spec fn is_valid_account_id(s: Seq<char>) -> bool {
    &&& MIN_ACCOUNT_ID_LEN <= s.len() <= MAX_ACCOUNT_ID_LEN
    &&& forall|i: int| 0 <= i < s.len() ==> is_lower_alphanumeric(#[trigger] s[i]) || is_separator(s[i])
    &&& !is_separator(s[0])
    &&& !is_separator(s[s.len() - 1])
    &&& forall|i: int| 0 <= i < s.len() - 1 ==> !(is_separator(#[trigger] s[i]) && is_separator(s[i + 1]))
}

/// Asks `near_sdk::env::is_valid_account_id` whether `id` is a valid account
/// name. That function checks the length in bytes against 2 and 64, then walks
/// the bytes, accepting `a-z`, `0-9`, `-`, `_`, `.`, rejecting a separator at
/// the start, after another separator, or at the end. A character outside
/// ASCII makes it reject, as it makes `is_valid_account_id` false; on ASCII
/// text bytes and characters coincide, so the result is
/// `is_valid_account_id(id@)`.
#[verifier::external_body]
fn near_is_valid_account_id(id: &str) -> (valid: bool)
    ensures
        valid == is_valid_account_id(id@),
{
    near_sdk::env::is_valid_account_id(id.as_bytes())
}

/// The error of parsing a text that is no valid account name.
#[derive(Debug, Clone, Copy, PartialEq, Eq)]
pub struct ParseAccountIdError {}

impl ParseAccountIdError {
    /// The text that describes the error.
    pub fn message(&self) -> (msg: String)
        ensures
            msg@ == "the account ID is invalid"@,
    {
        String::from_str("the account ID is invalid")
    }
}

/// A valid NEAR account name.
#[derive(Debug)]
pub struct AccountId {
    id: String,
}

impl AccountId {
    #[verifier::type_invariant]
    spec fn well_formed(self) -> bool {
        is_valid_account_id(self.id@)
    }
}

impl View for AccountId {
    type V = Seq<char>;

    closed spec fn view(&self) -> Seq<char> {
        self.id@
    }
}

impl AccountId {
    /// The account name `id`, or `ParseAccountIdError` where `id` breaks the
    /// account-name rules.
    pub fn parse(id: &str) -> (res: Result<AccountId, ParseAccountIdError>)
        ensures
            res is Ok <==> is_valid_account_id(id@),
            res matches Ok(account) ==> account@ == id@,
    {
        if near_is_valid_account_id(id) {
            Ok(AccountId { id: String::from_str(id) })
        } else {
            Err(ParseAccountIdError {})
        }
    }

    /// The account name as text.
    pub fn as_str(&self) -> (s: &str)
        ensures
            s@ == self@,
            is_valid_account_id(s@),
    {
        proof {
            use_type_invariant(self);
        }
        self.id.as_str()
    }
}

impl Clone for AccountId {
    fn clone(&self) -> (res: Self)
        ensures
            res == *self,
    {
        proof {
            use_type_invariant(self);
        }
        AccountId { id: self.id.clone() }
    }
}

impl PartialEq for AccountId {
    fn eq(&self, other: &Self) -> (res: bool)
        ensures
            res == (self@ == other@),
    {
        self.id == other.id
    }
}

impl Eq for AccountId {
}

impl vstd::std_specs::cmp::PartialEqSpecImpl for AccountId {
    open spec fn obeys_eq_spec() -> bool {
        true
    }

    open spec fn eq_spec(&self, other: &AccountId) -> bool {
        self@ == other@
    }
}

/// Two account ids are equal exactly when their names are the same text: `==`
/// on account ids is symmetric, and a name is equal to no other name, neither
/// to one of its sub-accounts nor to any other.
pub proof fn lemma_account_id_eq(a: AccountId, b: AccountId)
    ensures
        a.eq_spec(&b) <==> a@ == b@,
        a.eq_spec(&b) <==> b.eq_spec(&a),
        a.eq_spec(&a),
        a@.len() != b@.len() ==> !a.eq_spec(&b),
        (exists|i: int| 0 <= i < a@.len() && i < b@.len() && a@[i] != b@[i]) ==> !a.eq_spec(&b),
{
}

impl core::str::FromStr for AccountId {
    type Err = ParseAccountIdError;

    fn from_str(s: &str) -> (res: Result<AccountId, ParseAccountIdError>)
        ensures
            res is Ok <==> is_valid_account_id(s@),
            res matches Ok(account) ==> account@ == s@,
    {
        AccountId::parse(s)
    }
}

} // verus!
