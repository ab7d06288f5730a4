//! Locally generated identities.
//!
//! An identity is a DID-style id together with a public-key-like token, both
//! derived from fresh 128-bit randomness. Generation cannot fail and the
//! record is immutable once constructed; what can be stated of it without
//! reference to the random draw is its shape, captured by [`valid_identity`].

use vstd::prelude::*;

verus! {

/// The fixed scheme prefix of every identity id.
pub open spec fn did_prefix() -> Seq<char> {
    "did:example:"@
}

/// A lowercase hexadecimal digit.
pub open spec fn is_lower_hex_digit(c: char) -> bool {
    ('0' <= c && c <= '9') || ('a' <= c && c <= 'f')
}

/// The hyphenated textual form of a UUID: 36 characters, hyphens exactly at
/// positions 8, 13, 18 and 23, lowercase hexadecimal digits everywhere else.
pub open spec fn is_uuid_text(s: Seq<char>) -> bool {
    &&& s.len() == 36
    &&& forall|i: int|
        0 <= i < s.len() ==> if i == 8 || i == 13 || i == 18 || i == 23 {
            (#[trigger] s[i]) == '-'
        } else {
            is_lower_hex_digit(s[i])
        }
}

/// A locally generated identity: a globally unique id under a DID-style
/// scheme, and a public-key-like token generated alongside it. Created once
/// at agent construction and never mutated.
pub struct Identity {
    pub id: String,
    pub public_key: String,
}

/// Well-formedness of an identity: the id is the scheme prefix followed by
/// UUID text, and the public key is UUID text on its own.
pub open spec fn valid_identity(identity: &Identity) -> bool {
    &&& identity.id@.len() == did_prefix().len() + 36
    &&& identity.id@.subrange(0, did_prefix().len() as int) == did_prefix()
    &&& is_uuid_text(identity.id@.skip(did_prefix().len() as int))
    &&& is_uuid_text(identity.public_key@)
}

/// Relies on `uuid::Uuid::new_v4` and the `Display` form of `uuid::Uuid`:
/// a fresh version-4 UUID rendered hyphenated — 36 characters, lowercase
/// hexadecimal with hyphens at positions 8, 13, 18 and 23. The value drawn
/// is random, so nothing relates one call to another; only the shape of the
/// text is stated.
#[verifier::external_body]
fn fresh_uuid_text() -> (r: String)
    ensures
        is_uuid_text(r@),
{
    uuid::Uuid::new_v4().to_string()
}

/// Produces identity records from local randomness. Generation consumes
/// nothing but entropy and cannot fail.
pub struct IdentityGenerator;

impl IdentityGenerator {
    /// Generate a fresh identity: a new id under the scheme prefix and a new
    /// public-key token. Each of the two is backed by its own 128-bit random
    /// draw, so collisions between identities are cryptographically
    /// negligible; that is a statement about chance, not provable here, and
    /// the contract states the shape alone.
    pub fn generate() -> (r: Identity)
        ensures
            valid_identity(&r),
    {
        let uuid_text = fresh_uuid_text();
        let mut id = String::from_str("did:example:");
        id.append(uuid_text.as_str());
        let public_key = fresh_uuid_text();
        proof {
            reveal_strlit("did:example:");
            assert(id@.subrange(0, 12) =~= did_prefix());
            assert(id@.skip(12) =~= uuid_text@);
        }
        Identity { id, public_key }
    }
}

} // verus!
