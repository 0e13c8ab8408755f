use vstd::prelude::*;

use crate::apdu::{ApduAnswer, ApduCommand};
use crate::chunks::{chunk_frame, count_chunks, is_chunk_frame, packet_total, plan_fits};
use crate::error::LedgerError;
use crate::path::{encode_derivation_path, encoded_path, MAX_PATH_COMPONENTS};
use crate::protocol::{
    ProtocolConfig,
    CLA,
    INS_GET_VERSION,
    INS_PUBLIC_KEY_ED25519,
    MAX_PACKETS,
};
use crate::validate::{
    parse_public_key,
    parse_signature,
    parse_version,
    public_key_error,
    signature_error,
    version_error,
    Version,
};

verus! {

/// The logical operations that a session carries out.
#[derive(Clone, Copy, Debug, PartialEq, Eq, Structural)]
pub enum Operation {
    GetVersion,
    GetPublicKey,
    Sign,
}

/// Where a session stands.
#[derive(Clone, Copy, Debug, PartialEq, Eq, Structural)]
pub enum SessionState {
    /// Nothing sent yet.
    Idle,
    /// The frame with the derivation path is out.
    SendingPath,
    /// A frame of the operation (a message chunk, or the single request) is out.
    SendingChunks,
    /// The final reply was valid.
    Completed,
    /// The transport failed, the request was rejected before any exchange,
    /// or the final reply was invalid.
    Failed,
}

/// The typed result of a completed operation.
#[derive(Clone, Debug, PartialEq, Eq)]
pub enum Reply {
    Version(Version),
    PublicKey([u8; 32]),
    Signature([u8; 64]),
}

/// What happened since the session's last step.
#[derive(Clone, Debug)]
pub enum SessionEvent {
    /// The caller starts the operation.
    Begin,
    /// The device answered the frame that was sent last.
    Answer(ApduAnswer),
    /// The transport failed on the frame that was sent last.
    TransportFailure(String),
}

/// What the caller does next.
#[derive(Debug)]
pub enum SessionAction {
    /// Exchange this frame and report the outcome.
    Send(ApduCommand),
    /// The operation is over, with this result.
    Finish(Result<Reply, LedgerError>),
}

/// Number of frames of `op` on a message of `len` bytes.
pub open spec fn operation_total(config: ProtocolConfig, op: Operation, len: nat) -> nat {
    match op {
        Operation::Sign => packet_total(config, len),
        _ => 1,
    }
}

/// Why `op` is refused before any frame is sent, if it is.
pub open spec fn start_error(config: ProtocolConfig, op: Operation, path: Seq<u32>, len: nat) -> Option<
    LedgerError,
> {
    if op != Operation::Sign {
        None
    } else if len == 0 {
        Some(LedgerError::EmptyMessage)
    } else if !plan_fits(config, len) {
        Some(LedgerError::MessageTooLarge)
    } else if config.includes_path_frame && path.len() > 10 {
        Some(LedgerError::InvalidDerivationPath)
    } else {
        None
    }
}

/// `f` is frame `i` (from 0) of a signing operation on `m`.
pub open spec fn is_sign_frame(
    config: ProtocolConfig,
    path: Seq<u32>,
    m: Seq<u8>,
    i: int,
    f: ApduCommand,
) -> bool {
    if config.includes_path_frame && i == 0 {
        &&& f.cla == CLA
        &&& f.ins == config.sign_instruction
        &&& f.p1 == 1
        &&& f.p2 as nat == packet_total(config, m.len())
        &&& f.data@ == encoded_path(path)
    } else {
        is_chunk_frame(config, m, i - config.offset(), f)
    }
}

/// `f` is frame `i` (from 0) of `op`.
pub open spec fn is_operation_frame(
    config: ProtocolConfig,
    op: Operation,
    path: Seq<u32>,
    m: Seq<u8>,
    i: int,
    f: ApduCommand,
) -> bool {
    match op {
        Operation::GetVersion => {
            &&& f.cla == CLA
            &&& f.ins == INS_GET_VERSION
            &&& f.p1 == 0
            &&& f.p2 == 0
            &&& f.data@.len() == 0
        },
        Operation::GetPublicKey => {
            &&& f.cla == CLA
            &&& f.ins == INS_PUBLIC_KEY_ED25519
            &&& f.p1 == 0
            &&& f.p2 == 0
            &&& f.data@.len() == 0
        },
        Operation::Sign => is_sign_frame(config, path, m, i, f),
    }
}

/// What is wrong with the final reply of `op`, if anything.
pub open spec fn reply_error(config: ProtocolConfig, op: Operation, a: ApduAnswer) -> Option<
    LedgerError,
> {
    match op {
        Operation::GetVersion => version_error(config.status_policy, a.data@, a.retcode),
        Operation::GetPublicKey => public_key_error(config.status_policy, a.data@, a.retcode),
        Operation::Sign => signature_error(config.status_policy, a.data@, a.retcode),
    }
}

/// `r` is what a valid final reply `a` of `op` holds.
pub open spec fn reply_of(op: Operation, a: ApduAnswer, r: Reply) -> bool {
    match op {
        Operation::GetVersion => r == Reply::Version(
            Version { mode: a.data@[0], major: a.data@[1], minor: a.data@[2], patch: a.data@[3] },
        ),
        Operation::GetPublicKey => r matches Reply::PublicKey(k) && k@ == a.data@,
        Operation::Sign => r matches Reply::Signature(s) && s@ == a.data@,
    }
}

/// The frames of one signing operation carry the packet indices 1, 2, 3, ...
/// in the order they are sent, with no gap and no repetition, and all carry
/// the same packet count, which the last index reaches.
pub proof fn sign_frames_are_consecutive(
    config: ProtocolConfig,
    path: Seq<u32>,
    m: Seq<u8>,
    frames: Seq<ApduCommand>,
)
    requires
        start_error(config, Operation::Sign, path, m.len()) is None,
        frames.len() <= packet_total(config, m.len()),
        forall|i: int|
            0 <= i < frames.len() ==> #[trigger] is_operation_frame(
                config,
                Operation::Sign,
                path,
                m,
                i,
                frames[i],
            ),
    ensures
        forall|i: int| 0 <= i < frames.len() ==> (#[trigger] frames[i]).p1 == i + 1,
        forall|i: int|
            0 <= i < frames.len() ==> (#[trigger] frames[i]).p2 as nat == packet_total(
                config,
                m.len(),
            ),
        forall|i: int|
            0 <= i < frames.len() - 1 ==> #[trigger] frames[i + 1].p1 == frames[i].p1 + 1,
        frames.len() == packet_total(config, m.len()) ==> frames.last().p1 == frames.last().p2,
{
    assert forall|i: int| 0 <= i < frames.len() implies (#[trigger] frames[i]).p1 == i + 1
        && frames[i].p2 as nat == packet_total(config, m.len()) by {
        assert(is_operation_frame(config, Operation::Sign, path, m, i, frames[i]));
    }
    assert forall|i: int| 0 <= i < frames.len() - 1 implies #[trigger] frames[i + 1].p1
        == frames[i].p1 + 1 by {
        assert(frames[i].p1 == i + 1);
        assert(frames[i + 1].p1 == i + 2);
    }
    if frames.len() == packet_total(config, m.len()) && frames.len() > 0 {
        assert(frames[frames.len() - 1].p1 == frames.len());
    }
}

/// One operation with the device: the frames to send, in order, and the
/// reading of the final reply. It holds counters only; the message stays
/// with the caller, who hands it to each step.
pub struct SigningSession {
    pub config: ProtocolConfig,
    pub operation: Operation,
    pub path: Vec<u32>,
    /// Length of the message, fixed when the operation begins.
    pub message_len: usize,
    /// Index (from 0) of the frame that was sent last.
    pub current: usize,
    /// Number of frames of the operation.
    pub total: usize,
    pub state: SessionState,
}

impl SigningSession {
    /// A frame is out and its reply is awaited.
    pub open spec fn sending(&self) -> bool {
        self.state == SessionState::SendingPath || self.state == SessionState::SendingChunks
    }

    pub open spec fn wf(&self) -> bool {
        self.sending() ==> {
            &&& start_error(self.config, self.operation, self.path@, self.message_len as nat)
                is None
            &&& self.total as nat == operation_total(
                self.config,
                self.operation,
                self.message_len as nat,
            )
            &&& self.current < self.total <= 255
            &&& (self.state == SessionState::SendingPath) <==> (self.operation
                == Operation::Sign && self.config.includes_path_frame && self.current == 0)
        }
    }

    /// A session for `operation`, before anything is sent.
    pub fn new(config: ProtocolConfig, operation: Operation, path: Vec<u32>) -> (r: Self)
        ensures
            r.state == SessionState::Idle,
            r.config == config,
            r.operation == operation,
            r.path@ == path@,
            r.wf(),
    {
        SigningSession {
            config,
            operation,
            path,
            message_len: 0,
            current: 0,
            total: 0,
            state: SessionState::Idle,
        }
    }

    /// Nothing has been sent yet.
    pub fn is_idle(&self) -> (r: bool)
        ensures
            r == (self.state == SessionState::Idle),
    {
        self.state == SessionState::Idle
    }

    /// A frame is out and its reply is awaited.
    pub fn is_sending(&self) -> (r: bool)
        ensures
            r == self.sending(),
    {
        self.state == SessionState::SendingPath || self.state == SessionState::SendingChunks
    }

    fn frame_at(&self, message: &[u8], i: usize) -> (r: ApduCommand)
        requires
            self.wf(),
            self.sending(),
            i < self.total,
            message@.len() == self.message_len,
        ensures
            is_operation_frame(self.config, self.operation, self.path@, message@, i as int, r),
            r.wf(),
    {
        match self.operation {
            Operation::GetVersion => ApduCommand {
                cla: CLA,
                ins: INS_GET_VERSION,
                p1: 0,
                p2: 0,
                data: Vec::new(),
            },
            Operation::GetPublicKey => ApduCommand {
                cla: CLA,
                ins: INS_PUBLIC_KEY_ED25519,
                p1: 0,
                p2: 0,
                data: Vec::new(),
            },
            Operation::Sign => {
                if self.config.includes_path_frame && i == 0 {
                    let data = match encode_derivation_path(self.path.as_slice()) {
                        Ok(b) => b,
                        Err(_) => Vec::new(),
                    };
                    ApduCommand {
                        cla: CLA,
                        ins: self.config.sign_instruction,
                        p1: 1,
                        p2: self.total as u8,
                        data,
                    }
                } else {
                    let offset = self.config.index_offset() as usize;
                    chunk_frame(&self.config, message, i - offset)
                }
            },
        }
    }

    fn finish(&self, answer: &ApduAnswer) -> (r: Result<Reply, LedgerError>)
        ensures
            match reply_error(self.config, self.operation, *answer) {
                Some(e) => r == Err::<Reply, LedgerError>(e),
                None => r matches Ok(reply) && reply_of(self.operation, *answer, reply),
            },
    {
        let policy = self.config.status_policy;
        match self.operation {
            Operation::GetVersion => match parse_version(policy, answer) {
                Ok(v) => Ok(Reply::Version(v)),
                Err(e) => Err(e),
            },
            Operation::GetPublicKey => match parse_public_key(policy, answer) {
                Ok(k) => Ok(Reply::PublicKey(k)),
                Err(e) => Err(e),
            },
            Operation::Sign => match parse_signature(policy, answer) {
                Ok(s) => Ok(Reply::Signature(s)),
                Err(e) => Err(e),
            },
        }
    }

    /// Advances the session by one event and says what to do next.
    ///
    /// `Begin` checks the request before any exchange and sends the first
    /// frame. Each `Answer` to a frame that is not the last is an
    /// acknowledgement: the next frame follows. The answer to the last frame
    /// is validated and ends the operation. A transport failure ends it at
    /// once.
    pub fn step(&mut self, message: &[u8], event: SessionEvent) -> (action: SessionAction)
        requires
            old(self).wf(),
            event is Begin ==> old(self).state == SessionState::Idle,
            !(event is Begin) ==> old(self).sending() && message@.len() == old(
                self,
            ).message_len,
        ensures
            final(self).wf(),
            final(self).config == old(self).config,
            final(self).operation == old(self).operation,
            final(self).path@ == old(self).path@,
            event is Begin ==> match start_error(
                old(self).config,
                old(self).operation,
                old(self).path@,
                message@.len() as nat,
            ) {
                Some(e) => {
                    &&& action == SessionAction::Finish(Err(e))
                    &&& final(self).state == SessionState::Failed
                },
                None => {
                    &&& final(self).sending()
                    &&& final(self).current == 0
                    &&& final(self).message_len == message@.len()
                    &&& action matches SessionAction::Send(f) && f.wf() && is_operation_frame(
                        final(self).config,
                        final(self).operation,
                        final(self).path@,
                        message@,
                        0,
                        f,
                    )
                },
            },
            event matches SessionEvent::Answer(a) ==> if old(self).current + 1 < old(self).total {
                &&& final(self).sending()
                &&& final(self).current == old(self).current + 1
                &&& final(self).total == old(self).total
                &&& final(self).message_len == old(self).message_len
                &&& action matches SessionAction::Send(f) && f.wf() && is_operation_frame(
                    final(self).config,
                    final(self).operation,
                    final(self).path@,
                    message@,
                    final(self).current as int,
                    f,
                )
            } else {
                match reply_error(old(self).config, old(self).operation, a) {
                    Some(e) => {
                        &&& action == SessionAction::Finish(Err(e))
                        &&& final(self).state == SessionState::Failed
                    },
                    None => {
                        &&& action matches SessionAction::Finish(Ok(r)) && reply_of(
                            old(self).operation,
                            a,
                            r,
                        )
                        &&& final(self).state == SessionState::Completed
                    },
                }
            },
            event matches SessionEvent::TransportFailure(e) ==> {
                &&& action == SessionAction::Finish(Err(LedgerError::Transport(e)))
                &&& final(self).state == SessionState::Failed
            },
    {
        match event {
            SessionEvent::Begin => {
                let mut total: usize = 1;
                if self.operation == Operation::Sign {
                    let len = message.len();
                    if len == 0 {
                        self.state = SessionState::Failed;
                        return SessionAction::Finish(Err(LedgerError::EmptyMessage));
                    }
                    let count = count_chunks(len);
                    let offset = self.config.index_offset() as usize;
                    if count > MAX_PACKETS - offset {
                        self.state = SessionState::Failed;
                        return SessionAction::Finish(Err(LedgerError::MessageTooLarge));
                    }
                    if self.config.includes_path_frame && self.path.len() > MAX_PATH_COMPONENTS {
                        self.state = SessionState::Failed;
                        return SessionAction::Finish(Err(LedgerError::InvalidDerivationPath));
                    }
                    total = offset + count;
                }
                self.message_len = message.len();
                self.current = 0;
                self.total = total;
                self.state =
                    if self.operation == Operation::Sign && self.config.includes_path_frame {
                        SessionState::SendingPath
                    } else {
                        SessionState::SendingChunks
                    };
                SessionAction::Send(self.frame_at(message, 0))
            },
            SessionEvent::Answer(a) => {
                if self.current + 1 < self.total {
                    self.current = self.current + 1;
                    self.state = SessionState::SendingChunks;
                    SessionAction::Send(self.frame_at(message, self.current))
                } else {
                    let r = self.finish(&a);
                    self.state =
                        if r.is_ok() {
                            SessionState::Completed
                        } else {
                            SessionState::Failed
                        };
                    SessionAction::Finish(r)
                }
            },
            SessionEvent::TransportFailure(e) => {
                self.state = SessionState::Failed;
                SessionAction::Finish(Err(LedgerError::Transport(e)))
            },
        }
    }
}

} // verus!
