use vstd::prelude::*;

use crate::auth::claims_of;
use crate::auth::create_token_at;
use crate::auth::now_unix_seconds;
use crate::auth::spec_token_valid_at;
use crate::auth::validate_token_at;
use vstd::string::StrSliceExecFns;
use vstd::string::StringExecFns;

verus! {

/// The terminal states of the guard's per-request state machine: forward the
/// request, or short-circuit with a uniform unauthorized response.
#[derive(Clone, Copy, Debug, PartialEq, Eq, Structural)]
pub enum GuardDecision {
    Admitted,
    Rejected,
}

/// The bearer token carried by an `Authorization` header value: the part after
/// the literal, case-sensitive scheme prefix. A missing prefix or an empty
/// token yields nothing.
pub open spec fn spec_bearer_token(header: Seq<char>) -> Option<Seq<char>> {
    if header.len() > 7 && header.subrange(0, 7) == "Bearer "@ {
        Some(header.subrange(7, header.len() as int))
    } else {
        None
    }
}

/// The view of an optional header value.
pub open spec fn spec_header_view(header: Option<&str>) -> Option<Seq<char>> {
    match header {
        Some(h) => Some(h@),
        None => None,
    }
}

/// The guard's whole decision at time `now`: a request is admitted exactly when
/// its `Authorization` header carries a well-formed bearer token that is valid
/// (intact signature, unexpired) under `secret`; everything else is rejected.
pub open spec fn spec_guard_decision(header: Option<Seq<char>>, secret: Seq<u8>, now: int) -> GuardDecision {
    match header {
        Some(h) => match spec_bearer_token(h) {
            Some(t) => if spec_token_valid_at(t, secret, now) {
                GuardDecision::Admitted
            } else {
                GuardDecision::Rejected
            },
            None => GuardDecision::Rejected,
        },
        None => GuardDecision::Rejected,
    }
}

/// The extraction step of the guard: a missing header, a missing or differing
/// `"Bearer "` prefix, and an empty token all fail here, before any verifier
/// runs.
pub fn extract_bearer_token(header: Option<&str>) -> (r: Option<String>)
    ensures
        r is Some <==> (header matches Some(h) && spec_bearer_token(h@) is Some),
        r matches Some(s) ==> (header matches Some(h) && spec_bearer_token(h@) == Some(s@)),
{
    let h = match header {
        Some(h) => h,
        None => {
            return None;
        },
    };
    let len = h.unicode_len();
    if len <= 7 {
        return None;
    }
    let prefix = "Bearer ";
    proof {
        reveal_strlit("Bearer ");
    }
    let mut i: usize = 0;
    while i < 7
        invariant
            0 <= i <= 7,
            header == Some(h),
            len == h@.len(),
            len > 7,
            prefix@ == "Bearer "@,
            prefix@.len() == 7,
            forall|j: int| 0 <= j < i ==> h@[j] == "Bearer "@[j],
        decreases 7 - i,
    {
        if h.get_char(i) != prefix.get_char(i) {
            proof {
                assert(h@.subrange(0, 7)[i as int] == h@[i as int]);
                assert(h@.subrange(0, 7) != "Bearer "@);
            }
            return None;
        }
        i += 1;
    }
    let tok = h.substring_char(7, len);
    proof {
        assert(h@.subrange(0, 7) =~= "Bearer "@);
    }
    Some(tok.to_owned())
}

/// One guard decision at an explicit time: extract a bearer token, and only on
/// a well-formed candidate consult the token verifier.
pub fn authorize_at(header: Option<&str>, secret: &[u8], now: u64) -> (d: GuardDecision)
    ensures
        d == spec_guard_decision(spec_header_view(header), secret@, now as int),
        header is None ==> d is Rejected,
{
    match extract_bearer_token(header) {
        Some(tok) => match validate_token_at(tok.as_str(), secret, now) {
            Ok(_) => GuardDecision::Admitted,
            Err(_) => GuardDecision::Rejected,
        },
        None => GuardDecision::Rejected,
    }
}

/// The interceptor unit that wraps protected route groups.
pub struct JwtValidator;

impl JwtValidator {
    /// Wraps the downstream service in a guard.
    pub fn new_transform<S>(&self, service: S) -> (m: JwtValidatorMiddleware<S>)
        ensures
            m.service == service,
    {
        JwtValidatorMiddleware { service }
    }
}

/// The per-route guard: holds the downstream service and decides, request by
/// request, whether to forward to it. It has no mutable state, so each
/// decision depends only on the request's header and the current time.
pub struct JwtValidatorMiddleware<S> {
    pub service: S,
}

impl<S> JwtValidatorMiddleware<S> {
    /// The guard's decision for one request, at the current time. A missing
    /// header, a malformed one, and an invalid or expired token are all
    /// rejected alike.
    pub fn call(&self, header: Option<&str>, secret: &[u8]) -> (d: GuardDecision)
        ensures
            exists|now: int| d == spec_guard_decision(spec_header_view(header), secret@, now),
            header is None ==> d is Rejected,
            (header matches Some(h) && spec_bearer_token(h@) is None) ==> d is Rejected,
            (header matches Some(h) && spec_bearer_token(h@) matches Some(t)
                && claims_of(t, secret@) is None) ==> d is Rejected,
    {
        let now_signed = now_unix_seconds();
        let now: u64 = if now_signed < 0 {
            0
        } else {
            now_signed as u64
        };
        let d = authorize_at(header, secret, now);
        proof {
            assert(d == spec_guard_decision(spec_header_view(header), secret@, now as int));
        }
        d
    }
}

/// Law: a header whose bearer token fails verification is rejected exactly
/// like a missing header; the guard's response does not reveal which happened.
pub proof fn lemma_garbage_rejected_like_missing(h: Seq<char>, secret: Seq<u8>, now: int)
    requires
        spec_bearer_token(h) matches Some(t) ==> claims_of(t, secret) is None,
    ensures
        spec_guard_decision(Some(h), secret, now) == spec_guard_decision(None, secret, now),
        spec_guard_decision(Some(h), secret, now) is Rejected,
{
}

/// Law: a token issued for a subject at time `t` is admitted by the guard
/// fifty-nine minutes later and rejected sixty-one minutes later.
pub fn issued_token_admission_window(username: &str, secret: &[u8], t: u64) -> (r: Option<(
    GuardDecision,
    GuardDecision,
)>)
    requires
        t <= u64::MAX - 3700,
    ensures
        r is Some,
        r matches Some(p) ==> p.0 is Admitted && p.1 is Rejected,
{
    match create_token_at(username, secret, t) {
        Ok(tok) => {
            let header = String::from_str("Bearer ").concat(tok.as_str());
            proof {
                reveal_strlit("Bearer ");
                assert(header@.subrange(0, 7) =~= "Bearer "@);
                assert(header@.subrange(7, header@.len() as int) =~= tok@);
            }
            let d1 = authorize_at(Some(header.as_str()), secret, t + 59 * 60);
            let d2 = authorize_at(Some(header.as_str()), secret, t + 61 * 60);
            Some((d1, d2))
        },
        Err(_) => None,
    }
}

} // verus!
