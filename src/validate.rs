use vstd::prelude::*;

use crate::apdu::ApduAnswer;
use crate::error::LedgerError;
use crate::protocol::{StatusPolicy, SW_OK};

verus! {

broadcast use vstd::array::group_array_axioms;

/// Version of the validator app, as the device reports it.
#[derive(Clone, Copy, Debug, PartialEq, Eq, Structural)]
pub struct Version {
    pub mode: u8,
    pub major: u8,
    pub minor: u8,
    pub patch: u8,
}

/// The status word does not by itself reject the reply under `policy`.
pub open spec fn status_accepted(policy: StatusPolicy, retcode: u16) -> bool {
    policy == StatusPolicy::Advisory || retcode == SW_OK
}

/// What is wrong with a version reply, if anything.
pub open spec fn version_error(policy: StatusPolicy, data: Seq<u8>, retcode: u16) -> Option<
    LedgerError,
> {
    if data.len() >= 4 && status_accepted(policy, retcode) {
        None
    } else {
        Some(LedgerError::InvalidVersion)
    }
}

/// What is wrong with a public-key reply, if anything.
pub open spec fn public_key_error(policy: StatusPolicy, data: Seq<u8>, retcode: u16) -> Option<
    LedgerError,
> {
    if data.len() == 32 && status_accepted(policy, retcode) {
        None
    } else {
        Some(LedgerError::InvalidPK)
    }
}

/// What is wrong with a signing reply, if anything. An empty payload is told
/// apart from one of the wrong length.
pub open spec fn signature_error(policy: StatusPolicy, data: Seq<u8>, retcode: u16) -> Option<
    LedgerError,
> {
    if data.len() == 0 {
        Some(LedgerError::NoSignature)
    } else if data.len() == 64 && status_accepted(policy, retcode) {
        None
    } else {
        Some(LedgerError::InvalidSignature)
    }
}

/// A public-key reply whose payload is not exactly 32 bytes is rejected with
/// `InvalidPK`, whatever its status word and under either policy.
pub proof fn public_key_of_wrong_length_is_rejected(
    policy: StatusPolicy,
    data: Seq<u8>,
    retcode: u16,
)
    requires
        data.len() != 32,
    ensures
        public_key_error(policy, data, retcode) == Some(LedgerError::InvalidPK),
{
}

/// A signing reply whose payload is not exactly 64 bytes is rejected: with
/// `NoSignature` when the payload is empty, with `InvalidSignature` otherwise,
/// whatever its status word and under either policy.
pub proof fn signature_of_wrong_length_is_rejected(
    policy: StatusPolicy,
    data: Seq<u8>,
    retcode: u16,
)
    requires
        data.len() != 64,
    ensures
        data.len() == 0 ==> signature_error(policy, data, retcode) == Some(
            LedgerError::NoSignature,
        ),
        data.len() != 0 ==> signature_error(policy, data, retcode) == Some(
            LedgerError::InvalidSignature,
        ),
{
}

fn status_ok(policy: StatusPolicy, retcode: u16) -> (r: bool)
    ensures
        r == status_accepted(policy, retcode),
{
    policy == StatusPolicy::Advisory || retcode == SW_OK
}

fn copy_array<const N: usize>(data: &Vec<u8>) -> (r: [u8; N])
    requires
        data@.len() == N,
    ensures
        r@ == data@,
{
    let mut out = [0u8; N];
    let mut i: usize = 0;
    while i < N
        invariant
            i <= N == data@.len(),
            out@.len() == N,
            forall|j: int| 0 <= j < i ==> out@[j] == data@[j],
        decreases N - i,
    {
        out.set(i, data[i]);
        i = i + 1;
    }
    assert(out@ =~= data@);
    out
}

/// Reads the version from the first four bytes of a reply.
pub fn parse_version(policy: StatusPolicy, answer: &ApduAnswer) -> (r: Result<Version, LedgerError>)
    ensures
        match version_error(policy, answer.data@, answer.retcode) {
            Some(e) => r == Err::<Version, LedgerError>(e),
            None => r == Ok::<Version, LedgerError>(
                Version {
                    mode: answer.data@[0],
                    major: answer.data@[1],
                    minor: answer.data@[2],
                    patch: answer.data@[3],
                },
            ),
        },
{
    if answer.data.len() < 4 || !status_ok(policy, answer.retcode) {
        return Err(LedgerError::InvalidVersion);
    }
    Ok(
        Version {
            mode: answer.data[0],
            major: answer.data[1],
            minor: answer.data[2],
            patch: answer.data[3],
        },
    )
}

/// Takes the public key from a reply; it must be exactly 32 bytes.
pub fn parse_public_key(policy: StatusPolicy, answer: &ApduAnswer) -> (r: Result<
    [u8; 32],
    LedgerError,
>)
    ensures
        match public_key_error(policy, answer.data@, answer.retcode) {
            Some(e) => r == Err::<[u8; 32], LedgerError>(e),
            None => r matches Ok(k) && k@ == answer.data@,
        },
{
    if answer.data.len() != 32 || !status_ok(policy, answer.retcode) {
        return Err(LedgerError::InvalidPK);
    }
    Ok(copy_array(&answer.data))
}

/// Takes the signature from a reply; it must be exactly 64 bytes.
pub fn parse_signature(policy: StatusPolicy, answer: &ApduAnswer) -> (r: Result<
    [u8; 64],
    LedgerError,
>)
    ensures
        match signature_error(policy, answer.data@, answer.retcode) {
            Some(e) => r == Err::<[u8; 64], LedgerError>(e),
            None => r matches Ok(s) && s@ == answer.data@,
        },
{
    if answer.data.len() == 0 {
        return Err(LedgerError::NoSignature);
    }
    if answer.data.len() != 64 || !status_ok(policy, answer.retcode) {
        return Err(LedgerError::InvalidSignature);
    }
    Ok(copy_array(&answer.data))
}

} // verus!
