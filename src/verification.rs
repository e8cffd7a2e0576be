use vstd::prelude::*;

use crate::cache::Cache;

verus! {

/// How one verification attempt ended.
#[derive(Debug, PartialEq, Eq)]
pub enum VerificationOutcome {
    /// DNS holds no TXT record for the domain.
    NoRecordFound,
    /// No challenge was issued for the domain.
    NoChallengePending,
    /// The TXT record differs from the pending token.
    Mismatch,
    /// The registry call failed in transport or encoding; carries the detail.
    RemoteCallFailed(String),
    /// The registry answered with an error of its own; carries a generic detail.
    RemoteRejected(String),
    /// The registry accepted the action.
    Success,
}

/// What comparing the TXT record with the pending challenge decides.
#[derive(Debug, PartialEq, Eq)]
pub enum RecordCheck {
    /// The attempt ends here with this outcome.
    Rejected(VerificationOutcome),
    /// The record matches: the registry call may be made.
    Authorized,
}

/// The text an optional string holds.
pub open spec fn text_of(o: Option<String>) -> Option<Seq<char>> {
    match o {
        Some(s) => Some(s@),
        None => None,
    }
}

/// The token pending for `domain` in a store whose content is `m`.
pub open spec fn pending_of(m: Map<Seq<char>, Seq<char>>, domain: Seq<char>) -> Option<Seq<char>> {
    if m.contains_key(domain) {
        Some(m[domain])
    } else {
        None
    }
}

/// The decision on a TXT record (if DNS gave one) against the pending token
/// (if one was issued): the record is looked at first, and must equal the
/// token exactly.
pub open spec fn check_spec(txt: Option<Seq<char>>, pending: Option<Seq<char>>) -> RecordCheck {
    match txt {
        None => RecordCheck::Rejected(VerificationOutcome::NoRecordFound),
        Some(t) => match pending {
            None => RecordCheck::Rejected(VerificationOutcome::NoChallengePending),
            Some(p) => if t == p {
                RecordCheck::Authorized
            } else {
                RecordCheck::Rejected(VerificationOutcome::Mismatch)
            },
        },
    }
}

/// Compares the first TXT record found for `domain` (`None` when DNS holds
/// none) with the challenge pending in `store`.
pub fn verify(store: &Cache, domain: &String, txt: Option<String>) -> (r: RecordCheck)
    requires
        store.wf(),
    ensures
        r == check_spec(text_of(txt), pending_of(store@, domain@)),
{
    let t = match txt {
        None => {
            return RecordCheck::Rejected(VerificationOutcome::NoRecordFound);
        },
        Some(t) => t,
    };
    match store.get(domain) {
        None => RecordCheck::Rejected(VerificationOutcome::NoChallengePending),
        Some(p) => {
            if t == p {
                RecordCheck::Authorized
            } else {
                RecordCheck::Rejected(VerificationOutcome::Mismatch)
            }
        },
    }
}

/// The candid encoding of the registry's create-record arguments: the
/// domain, the owner principal and an absent ledger configuration; `None`
/// where encoding fails.
pub uninterp spec fn create_args_of(domain: Seq<char>, owner: Seq<char>) -> Option<Seq<u8>>;

/// What a registry reply decodes to: `None` when the bytes are no candid
/// `Result<text, _>`, else whether it is `Ok`.
pub uninterp spec fn registry_reply(bytes: Seq<u8>) -> Option<bool>;

/// Relies on candid::encode_args over `(text, text, opt empty)`; a failure is
/// handed back as candid's error message.
#[verifier::external_body]
fn encode_create_args(domain: &String, owner: &String) -> (r: Result<Vec<u8>, String>)
    ensures
        r is Ok <==> create_args_of(domain@, owner@) is Some,
        r matches Ok(b) ==> create_args_of(domain@, owner@) == Some(b@),
{
    candid::encode_args((domain, owner, None::<candid::Empty>)).map_err(|e| e.to_string())
}

/// Relies on candid::decode_one as `Result<String, candid::Reserved>`: it
/// succeeds exactly on a well-formed reply, and tells `Ok` from `Err`.
#[verifier::external_body]
fn decode_reply(bytes: &Vec<u8>) -> (r: Result<bool, String>)
    ensures
        r is Ok <==> registry_reply(bytes@) is Some,
        r matches Ok(accepted) ==> registry_reply(bytes@) == Some(accepted),
{
    match candid::decode_one::<Result<String, candid::Reserved>>(bytes) {
        Ok(reply) => Ok(reply.is_ok()),
        Err(e) => Err(e.to_string()),
    }
}

/// The detail given when the registry refuses the action.
pub open spec fn rejected_detail() -> Seq<char> {
    "Error from the canister"@
}

/// Builds the argument bytes of the create-record call for a verified
/// domain, with an empty owner principal; an encoding failure ends the
/// attempt as a failed remote call.
pub fn create_record_request(domain: &String) -> (r: Result<Vec<u8>, VerificationOutcome>)
    ensures
        r is Ok <==> create_args_of(domain@, Seq::<char>::empty()) is Some,
        r matches Ok(b) ==> create_args_of(domain@, Seq::<char>::empty()) == Some(b@),
        r matches Err(o) ==> o is RemoteCallFailed,
{
    let owner = String::new();
    match encode_create_args(domain, &owner) {
        Ok(b) => Ok(b),
        Err(detail) => Err(VerificationOutcome::RemoteCallFailed(detail)),
    }
}

/// Whether `o` is the outcome for a decoded registry reply: `Ok(accepted)`
/// for a reply that decoded, `Err(detail)` for one that did not.
pub open spec fn is_reply_outcome(reply: Result<bool, Seq<char>>, o: VerificationOutcome) -> bool {
    match reply {
        Ok(true) => o is Success,
        Ok(false) => o matches VerificationOutcome::RemoteRejected(d) && d@ == rejected_detail(),
        Err(detail) => o matches VerificationOutcome::RemoteCallFailed(d) && d@ == detail,
    }
}

/// The text of a result whose error is a string.
pub open spec fn reply_view(reply: Result<bool, String>) -> Result<bool, Seq<char>> {
    match reply {
        Ok(b) => Ok(b),
        Err(d) => Err(d@),
    }
}

/// The outcome of an attempt whose registry reply decoded to `reply`.
pub fn outcome_of_reply(reply: Result<bool, String>) -> (r: VerificationOutcome)
    ensures
        is_reply_outcome(reply_view(reply), r),
{
    match reply {
        Ok(true) => VerificationOutcome::Success,
        Ok(false) => {
            let detail = String::from_str("Error from the canister");
            proof {
                reveal_strlit("Error from the canister");
            }
            VerificationOutcome::RemoteRejected(detail)
        },
        Err(detail) => VerificationOutcome::RemoteCallFailed(detail),
    }
}

/// Whether `o` is the outcome of an attempt whose registry call ended in
/// `call`: the reply bytes, or the transport failure's detail.
pub open spec fn is_call_outcome(call: Result<Seq<u8>, Seq<char>>, o: VerificationOutcome) -> bool {
    match call {
        Err(detail) => o matches VerificationOutcome::RemoteCallFailed(d) && d@ == detail,
        Ok(bytes) => match registry_reply(bytes) {
            Some(accepted) => is_reply_outcome(Ok(accepted), o),
            None => o is RemoteCallFailed,
        },
    }
}

/// The bytes or text that a call result holds.
pub open spec fn call_view(call: Result<Vec<u8>, String>) -> Result<Seq<u8>, Seq<char>> {
    match call {
        Ok(b) => Ok(b@),
        Err(d) => Err(d@),
    }
}

/// Ends an authorised attempt with what the registry call gave: a reply
/// that says `Ok` is a success, one that says `Err` a rejection, and a reply
/// that does not decode or a failed call a failed remote call.
pub fn finish_verification(call: Result<Vec<u8>, String>) -> (r: VerificationOutcome)
    ensures
        is_call_outcome(call_view(call), r),
{
    match call {
        Err(detail) => VerificationOutcome::RemoteCallFailed(detail),
        Ok(bytes) => outcome_of_reply(decode_reply(&bytes)),
    }
}

impl VerificationOutcome {
    /// The HTTP status that reports this outcome.
    pub open spec fn status_spec(&self) -> u16 {
        match self {
            VerificationOutcome::NoRecordFound => 417,
            VerificationOutcome::NoChallengePending => 404,
            VerificationOutcome::Mismatch => 400,
            VerificationOutcome::RemoteCallFailed(_) => 500,
            VerificationOutcome::RemoteRejected(_) => 500,
            VerificationOutcome::Success => 200,
        }
    }

    /// The response body that reports this outcome.
    pub open spec fn body_spec(&self) -> Seq<char> {
        match self {
            VerificationOutcome::NoRecordFound => "There's no TXT data in that domain"@,
            VerificationOutcome::NoChallengePending => "You have created verification for this domain"@,
            VerificationOutcome::Mismatch => "Invalid TXT record"@,
            VerificationOutcome::RemoteCallFailed(d) => d@,
            VerificationOutcome::RemoteRejected(d) => d@,
            VerificationOutcome::Success => Seq::empty(),
        }
    }

    /// The HTTP status that reports this outcome.
    pub fn status_code(&self) -> (r: u16)
        ensures
            r == self.status_spec(),
    {
        match self {
            VerificationOutcome::NoRecordFound => 417,
            VerificationOutcome::NoChallengePending => 404,
            VerificationOutcome::Mismatch => 400,
            VerificationOutcome::RemoteCallFailed(_) => 500,
            VerificationOutcome::RemoteRejected(_) => 500,
            VerificationOutcome::Success => 200,
        }
    }

    /// The response body that reports this outcome: a fixed message for the
    /// negative outcomes, the detail for a remote failure, empty on success.
    pub fn body(&self) -> (r: String)
        ensures
            r@ == self.body_spec(),
    {
        match self {
            VerificationOutcome::NoRecordFound => String::from_str("There's no TXT data in that domain"),
            VerificationOutcome::NoChallengePending => String::from_str(
                "You have created verification for this domain",
            ),
            VerificationOutcome::Mismatch => String::from_str("Invalid TXT record"),
            VerificationOutcome::RemoteCallFailed(d) => d.clone(),
            VerificationOutcome::RemoteRejected(d) => d.clone(),
            VerificationOutcome::Success => String::new(),
        }
    }
}

/// Write-then-read: right after a challenge for `domain` is recorded, the
/// token pending for `domain` is the one just issued.
pub proof fn lemma_issue_then_lookup(m: Map<Seq<char>, Seq<char>>, domain: Seq<char>, token: Seq<char>)
    ensures
        pending_of(m.insert(domain, token), domain) == Some(token),
{
}

/// Reissuing a challenge for a domain invalidates the earlier token: a TXT
/// record holding the earlier token is a mismatch, unless both tokens are equal.
pub proof fn lemma_reissue_invalidates(
    m: Map<Seq<char>, Seq<char>>,
    domain: Seq<char>,
    first: Seq<char>,
    second: Seq<char>,
)
    requires
        first != second,
    ensures
        check_spec(Some(first), pending_of(m.insert(domain, first).insert(domain, second), domain))
            == RecordCheck::Rejected(VerificationOutcome::Mismatch),
{
}

/// With no challenge issued for the domain, any TXT record leads to
/// `NoChallengePending`.
pub proof fn lemma_no_challenge_pending(m: Map<Seq<char>, Seq<char>>, domain: Seq<char>, txt: Seq<char>)
    requires
        !m.contains_key(domain),
    ensures
        check_spec(Some(txt), pending_of(m, domain)) == RecordCheck::Rejected(
            VerificationOutcome::NoChallengePending,
        ),
{
}

/// Without a TXT record the attempt ends in `NoRecordFound`, whether or not a
/// challenge is pending.
pub proof fn lemma_no_record(pending: Option<Seq<char>>)
    ensures
        check_spec(None, pending) == RecordCheck::Rejected(VerificationOutcome::NoRecordFound),
{
}

/// A record is accepted only when it equals the pending token exactly, with
/// no change of case or whitespace; any other record is a mismatch.
pub proof fn lemma_exact_match(txt: Seq<char>, token: Seq<char>)
    ensures
        check_spec(Some(txt), Some(token)) is Authorized <==> txt == token,
        txt != token ==> check_spec(Some(txt), Some(token)) == RecordCheck::Rejected(
            VerificationOutcome::Mismatch,
        ),
{
}

} // verus!
