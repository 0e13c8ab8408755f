use vstd::prelude::*;

use crate::error::LedgerError;
use crate::protocol::ProtocolConfig;
use crate::session::{Operation, Reply, SessionState, SigningSession};

verus! {

/// Ed25519 signature provider for the Ledger Tendermint validator app: the
/// protocol variant and the derivation path with which it talks to the
/// device. Each operation runs as a `SigningSession`; whoever holds the
/// transport runs all frames of one session under a single lock.
pub struct Ed25519LedgerTmAppSigner {
    pub config: ProtocolConfig,
    pub path: Vec<u32>,
}

impl Ed25519LedgerTmAppSigner {
    pub fn new(config: ProtocolConfig, path: Vec<u32>) -> (r: Self)
        ensures
            r.config == config,
            r.path@ == path@,
    {
        Ed25519LedgerTmAppSigner { config, path }
    }

    fn session(&self, operation: Operation) -> (r: SigningSession)
        ensures
            r.state == SessionState::Idle,
            r.config == self.config,
            r.operation == operation,
            r.path@ == self.path@,
            r.wf(),
    {
        let path = self.path.clone();
        proof {
            assert(path@ =~= self.path@);
        }
        SigningSession::new(self.config, operation, path)
    }

    /// A session that asks the device for the app's version.
    pub fn version_session(&self) -> (r: SigningSession)
        ensures
            r.state == SessionState::Idle,
            r.config == self.config,
            r.operation == Operation::GetVersion,
            r.path@ == self.path@,
            r.wf(),
    {
        self.session(Operation::GetVersion)
    }

    /// A session that asks the device for its public key.
    pub fn public_key_session(&self) -> (r: SigningSession)
        ensures
            r.state == SessionState::Idle,
            r.config == self.config,
            r.operation == Operation::GetPublicKey,
            r.path@ == self.path@,
            r.wf(),
    {
        self.session(Operation::GetPublicKey)
    }

    /// A session that has the device sign a message.
    pub fn sign_session(&self) -> (r: SigningSession)
        ensures
            r.state == SessionState::Idle,
            r.config == self.config,
            r.operation == Operation::Sign,
            r.path@ == self.path@,
            r.wf(),
    {
        self.session(Operation::Sign)
    }

    /// The key out of the result of a public-key session.
    pub fn public_key_from(result: Result<Reply, LedgerError>) -> (r: Result<[u8; 32], LedgerError>)
        ensures
            match result {
                Ok(Reply::PublicKey(k)) => r == Ok::<[u8; 32], LedgerError>(k),
                Ok(_) => r == Err::<[u8; 32], LedgerError>(LedgerError::InvalidPK),
                Err(e) => r == Err::<[u8; 32], LedgerError>(e),
            },
    {
        match result {
            Ok(Reply::PublicKey(k)) => Ok(k),
            Ok(_) => Err(LedgerError::InvalidPK),
            Err(e) => Err(e),
        }
    }

    /// The signature out of the result of a signing session.
    pub fn signature_from(result: Result<Reply, LedgerError>) -> (r: Result<[u8; 64], LedgerError>)
        ensures
            match result {
                Ok(Reply::Signature(s)) => r == Ok::<[u8; 64], LedgerError>(s),
                Ok(_) => r == Err::<[u8; 64], LedgerError>(LedgerError::InvalidSignature),
                Err(e) => r == Err::<[u8; 64], LedgerError>(e),
            },
    {
        match result {
            Ok(Reply::Signature(s)) => Ok(s),
            Ok(_) => Err(LedgerError::InvalidSignature),
            Err(e) => Err(e),
        }
    }
}

} // verus!
