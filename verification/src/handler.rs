//! The request handler for the system-state query endpoint.
//!
//! The endpoint is read-only and takes no parameters; the only
//! negotiation is that the caller must declare it accepts the
//! structured-text encoding. The handler validates that declaration
//! first, so an unsupported request is rejected before any state is
//! read; only then is the provider's snapshot taken and projected. A
//! provider failure is propagated unchanged, not retried and not
//! wrapped; a key-decoding failure fails the whole response, never a
//! partial one.

use vstd::prelude::*;

use crate::state::SuiSystemStateSummary;
use crate::summary::{project_epoch, SystemStateSummary};

verus! {

/// The response encoding a caller declares it accepts: the supported
/// structured-text form, or a compact binary form this endpoint does not
/// serve.
#[derive(Debug, Clone, Copy, PartialEq, Eq, Structural)]
pub enum AcceptFormat {
    Json,
    Bcs,
}

/// Why the state provider could not furnish a snapshot: no state has
/// ever been committed, or the underlying store could not be read.
#[derive(Debug, Clone, Copy, PartialEq, Eq, Structural)]
pub enum ProviderError {
    NotYetInitialized,
    ReadFailure,
}

/// A reported failure of the query endpoint.
#[derive(Debug, Clone, Copy, PartialEq, Eq, Structural)]
pub enum RestError {
    /// The caller's declared acceptable encoding excludes the one
    /// supported. A client-side error.
    UnsupportedFormat,
    /// The provider could not produce a snapshot; carries the provider's
    /// own error kind unchanged.
    StateUnavailable(ProviderError),
    /// Upstream cryptographic bytes failed to decode: corruption or a
    /// schema mismatch, deliberately distinguishable from ordinary
    /// unavailability.
    MalformedKeyMaterial,
}

impl RestError {
    /// The HTTP status this failure is reported with: a client error for
    /// an unsupported encoding, not-found while no state has ever been
    /// committed, and a server error otherwise.
    pub open spec fn spec_status_code(&self) -> u16 {
        match *self {
            RestError::UnsupportedFormat => 400,
            RestError::StateUnavailable(ProviderError::NotYetInitialized) => 404,
            RestError::StateUnavailable(ProviderError::ReadFailure) => 500,
            RestError::MalformedKeyMaterial => 500,
        }
    }

    /// Returns the HTTP status code for this failure.
    pub fn status_code(&self) -> (code: u16)
        ensures
            code == self.spec_status_code(),
    {
        match *self {
            RestError::UnsupportedFormat => 400,
            RestError::StateUnavailable(ProviderError::NotYetInitialized) => 404,
            RestError::StateUnavailable(ProviderError::ReadFailure) => 500,
            RestError::MalformedKeyMaterial => 500,
        }
    }
}

/// Validates the caller's declared response encoding. This runs before
/// the state provider is consulted: on rejection the caller performs no
/// read at all, so an unsupported request never triggers one.
pub fn check_accept(accept: AcceptFormat) -> (r: Result<(), RestError>)
    ensures
        r is Ok <==> accept is Json,
        r matches Err(e) ==> e == RestError::UnsupportedFormat,
{
    match accept {
        AcceptFormat::Json => Ok(()),
        _ => Err(RestError::UnsupportedFormat),
    }
}

/// Serves the system-state query: rejects an unsupported encoding
/// (whatever the provider would have said), propagates a provider
/// failure unchanged as `StateUnavailable`, and otherwise projects the
/// snapshot, failing with `MalformedKeyMaterial` exactly when the
/// snapshot's key material is ill-formed. The caller obtains `fetched`
/// from the provider only after `check_accept` passes.
pub fn get_system_state_summary(
    accept: AcceptFormat,
    fetched: Result<SuiSystemStateSummary, ProviderError>,
) -> (r: Result<SystemStateSummary, RestError>)
    ensures
        !(accept is Json) ==> r == Err::<SystemStateSummary, RestError>(
            RestError::UnsupportedFormat,
        ),
        accept is Json ==> (fetched matches Err(p) ==> r == Err::<SystemStateSummary, RestError>(
            RestError::StateUnavailable(p),
        )),
        accept is Json ==> (fetched matches Ok(st) ==> {
            &&& (r is Ok <==> st.keys_wf())
            &&& (r matches Ok(s) ==> s@ == st@ && s.wf())
            &&& (!st.keys_wf() ==> r == Err::<SystemStateSummary, RestError>(
                RestError::MalformedKeyMaterial,
            ))
        }),
{
    match check_accept(accept) {
        Ok(_) => {},
        Err(e) => {
            return Err(e);
        },
    }

    let state = match fetched {
        Ok(st) => st,
        Err(p) => {
            return Err(RestError::StateUnavailable(p));
        },
    };

    match project_epoch(state) {
        Ok(s) => Ok(s),
        Err(_) => Err(RestError::MalformedKeyMaterial),
    }
}

} // verus!
