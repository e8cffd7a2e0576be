use vstd::prelude::*;

use crate::cache::Cache;

verus! {

/// A lowercase hexadecimal digit.
pub open spec fn is_lower_hex(c: char) -> bool {
    ('0' <= c && c <= '9') || ('a' <= c && c <= 'f')
}

/// The hyphenated lowercase text of a version-4 UUID: groups of 8, 4, 4, 4
/// and 12 hex digits, version digit 4, variant digit 8, 9, a or b.
pub open spec fn is_uuid_v4_text(s: Seq<char>) -> bool {
    &&& s.len() == 36
    &&& forall|i: int|
        0 <= i < 36 ==> if i == 8 || i == 13 || i == 18 || i == 23 {
            s[i] == '-'
        } else {
            is_lower_hex(#[trigger] s[i])
        }
    &&& s[14] == '4'
    &&& (s[19] == '8' || s[19] == '9' || s[19] == 'a' || s[19] == 'b')
}

/// Relies on uuid::Uuid::new_v4 and its `Display`: a random UUID with the
/// version and variant bits set, in its hyphenated lowercase form.
#[verifier::external_body]
fn fresh_token() -> (r: String)
    ensures
        is_uuid_v4_text(r@),
{
    uuid::Uuid::new_v4().to_string()
}

/// Issues a fresh challenge token for `domain` and records it in `store`,
/// replacing any challenge issued for that domain before.
pub fn create_verification(store: &mut Cache, domain: String) -> (r: String)
    requires
        old(store).wf(),
    ensures
        final(store).wf(),
        final(store)@ == old(store)@.insert(domain@, r@),
        is_uuid_v4_text(r@),
{
    let token = fresh_token();
    store.set(domain, token.clone());
    token
}

} // verus!
