//! Revision identifiers, as `git2` reads and writes them.

use vstd::prelude::*;

verus! {

/// `git2::Oid`, an object id. Nothing of its inside is known here.
#[verifier::external_type_specification]
#[verifier::external_body]
pub struct ExOid(git2::Oid);

/// `git2::Error`, carried as it comes. Nothing of its inside is known here.
#[verifier::external_type_specification]
#[verifier::external_body]
pub struct ExGitError(git2::Error);

/// The text that `git2` prints for an object id.
pub uninterp spec fn oid_hex(oid: git2::Oid) -> Seq<char>;

/// The object id that `git2` reads from a text that it accepts.
pub uninterp spec fn parsed_oid(text: Seq<char>) -> git2::Oid;

pub open spec fn is_hex_digit(c: char) -> bool {
    ||| '0' <= c <= '9'
    ||| 'a' <= c <= 'f'
    ||| 'A' <= c <= 'F'
}

/// The texts that `git2` accepts as an object id: one to forty hex digits.
pub open spec fn is_revision(text: Seq<char>) -> bool {
    &&& 1 <= text.len() <= 40
    &&& forall|i: int| 0 <= i < text.len() ==> is_hex_digit(#[trigger] text[i])
}

/// `git2::Oid::from_str`. Trusted: the text is accepted exactly when it is
/// one to forty hex digits, and the same text always gives the same id.
#[verifier::external_body]
pub(crate) fn parse_oid(text: &str) -> (r: Result<git2::Oid, git2::Error>)
    ensures
        r is Ok <==> is_revision(text@),
        r matches Ok(oid) ==> oid == parsed_oid(text@),
{
    git2::Oid::from_str(text)
}

/// `to_string` of a `git2::Oid`. Trusted: the text depends on the id alone
/// and is a text that `parse_oid` accepts.
#[verifier::external_body]
pub(crate) fn oid_text(oid: &git2::Oid) -> (r: String)
    ensures
        r@ == oid_hex(*oid),
        is_revision(r@),
{
    oid.to_string()
}

} // verus!
