//! The request-time authorization gate.
//!
//! Protected endpoints run the authorization gate before their provider call: the raw
//! authorization header must carry the recognized scheme prefix, and the
//! token after the prefix must be accepted by the users provider held in the
//! global state. A request that is refused authorization is rejected before any
//! provider is touched, and the three failure causes — missing header,
//! malformed header, rejected token — are deliberately not distinguished.

use vstd::prelude::*;

verus! {

use vstd::string::StrSliceExecFns;
use crate::state::GlobalServerState;
use crate::strutil::str_eq;
use crate::users::provider::UsersProvider;

/// The scheme prefix a well-formed authorization header carries.
pub open spec fn scheme_prefix() -> Seq<char> {
    "Bearer "@
}

/// The header value starts with the recognized scheme prefix.
pub open spec fn has_scheme(h: Seq<char>) -> bool {
    h.len() >= scheme_prefix().len() && h.subrange(0, scheme_prefix().len() as int)
        == scheme_prefix()
}

/// The token a header value carries: everything after the scheme prefix.
pub open spec fn header_token(h: Seq<char>) -> Seq<char> {
    h.subrange(scheme_prefix().len() as int, h.len() as int)
}

/// The view of an optional raw header value.
pub open spec fn header_view(h: Option<&str>) -> Option<Seq<char>> {
    match h {
        Some(s) => Some(s@),
        None => None,
    }
}

/// When a request whose authorization header reads `h` passes the authorization gate of
/// `state`: the header is present, carries the scheme prefix, and the token
/// after the prefix is accepted by the users provider.
pub open spec fn authorized<U: UsersProvider>(
    state: &GlobalServerState<U>,
    h: Option<Seq<char>>,
) -> bool {
    match h {
        Some(hs) => has_scheme(hs) && state.provider.token_ok(header_token(hs)),
        None => false,
    }
}

/// Marker of a request that passed the authorization gate.
///
/// A value of this type exists only when [`AuthToken::from_request`]
/// accepted the request's authorization header, so a handler holding one may
/// run its protected provider call.
pub struct AuthToken {

}

impl AuthToken {
    /// Runs the authorization gate.
    ///
    /// `header` is the raw value of the request's authorization header, or
    /// `None` when the request carries none. The result is `Some` exactly
    /// when the request is authorized; no failure cause is disclosed.
    pub fn from_request<U: UsersProvider>(
        header: Option<&str>,
        state: &GlobalServerState<U>,
    ) -> (r: Option<AuthToken>)
        requires
            state.wf(),
        ensures
            r is Some <==> authorized(state, header_view(header)),
    {
        match header {
            None => None,
            Some(h) => {
                proof {
                    reveal_strlit("Bearer ");
                }
                let n = h.unicode_len();
                if n < 7 {
                    return None;
                }
                let prefix = h.substring_char(0, 7);
                if !str_eq(prefix, "Bearer ") {
                    return None;
                }
                let token = h.substring_char(7, n);
                if state.is_token_valid(token) {
                    Some(AuthToken {  })
                } else {
                    None
                }
            },
        }
    }
}

} // verus!
