use vstd::prelude::*;

verus! {

/// Class byte of every command sent to the validator app.
pub const CLA: u8 = 0x56;

/// Instruction: report the app's version.
pub const INS_GET_VERSION: u8 = 0x00;

/// Instruction: report the Ed25519 public key.
pub const INS_PUBLIC_KEY_ED25519: u8 = 0x01;

/// Instruction: sign a message, sent in chunks.
pub const INS_SIGN_ED25519: u8 = 0x02;

/// Status word that the device uses for success.
pub const SW_OK: u16 = 0x9000;

/// Largest number of message bytes carried by one packet.
pub const MAX_CHUNK_SIZE: usize = 250;

/// Largest number of packets in one operation (the count is a single byte).
pub const MAX_PACKETS: usize = 255;

/// How the device's status word is taken into account.
#[derive(Clone, Copy, Debug, PartialEq, Eq, Structural)]
pub enum StatusPolicy {
    /// The payload's shape alone decides; the status word is not consulted.
    Advisory,
    /// A reply is accepted only when its status word is `SW_OK` as well.
    Required,
}

/// The protocol variant spoken with the device.
#[derive(Clone, Copy, Debug, PartialEq, Eq, Structural)]
pub struct ProtocolConfig {
    /// Whether a signing operation starts with a frame that carries the
    /// encoded derivation path; message chunks then start at packet 2.
    pub includes_path_frame: bool,
    /// Instruction byte of the signing frames.
    pub sign_instruction: u8,
    /// What a reply's status word means.
    pub status_policy: StatusPolicy,
}

impl ProtocolConfig {
    /// Number of packets that come before the first message chunk.
    pub open spec fn offset(self) -> nat {
        if self.includes_path_frame {
            1
        } else {
            0
        }
    }

    /// The variant in which the derivation path is fixed on the device.
    pub fn standard() -> (r: Self)
        ensures
            !r.includes_path_frame,
            r.sign_instruction == INS_SIGN_ED25519,
            r.status_policy == StatusPolicy::Advisory,
    {
        ProtocolConfig {
            includes_path_frame: false,
            sign_instruction: INS_SIGN_ED25519,
            status_policy: StatusPolicy::Advisory,
        }
    }

    /// The variant in which each signing operation sends its derivation path.
    pub fn with_path_frame() -> (r: Self)
        ensures
            r.includes_path_frame,
            r.sign_instruction == INS_SIGN_ED25519,
            r.status_policy == StatusPolicy::Advisory,
    {
        ProtocolConfig {
            includes_path_frame: true,
            sign_instruction: INS_SIGN_ED25519,
            status_policy: StatusPolicy::Advisory,
        }
    }

    /// Number of packets that come before the first message chunk.
    pub fn index_offset(&self) -> (r: u8)
        ensures
            r as nat == self.offset(),
    {
        if self.includes_path_frame {
            1
        } else {
            0
        }
    }
}

} // verus!
