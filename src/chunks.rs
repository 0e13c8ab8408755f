use vstd::prelude::*;

use crate::apdu::ApduCommand;
use crate::error::LedgerError;
use crate::protocol::{ProtocolConfig, CLA, MAX_CHUNK_SIZE, MAX_PACKETS};

verus! {

/// Number of chunks of at most `MAX_CHUNK_SIZE` bytes that a message of `len`
/// bytes needs: `ceil(len / 250)`.
pub open spec fn chunk_count(len: nat) -> nat {
    ((len + 249) / 250) as nat
}

/// The `k`-th chunk of `m` (counting from 0).
pub open spec fn chunk_data(m: Seq<u8>, k: int) -> Seq<u8> {
    let end = if 250 * (k + 1) < m.len() {
        250 * (k + 1)
    } else {
        m.len() as int
    };
    m.subrange(250 * k, end)
}

/// Number of packets of a signing operation on a message of `len` bytes.
pub open spec fn packet_total(config: ProtocolConfig, len: nat) -> nat {
    config.offset() + chunk_count(len)
}

/// The packet count of a signing operation fits its single byte.
pub open spec fn plan_fits(config: ProtocolConfig, len: nat) -> bool {
    packet_total(config, len) <= 255
}

/// `f` is the frame that carries chunk `k` of `m`.
pub open spec fn is_chunk_frame(config: ProtocolConfig, m: Seq<u8>, k: int, f: ApduCommand) -> bool {
    &&& f.cla == CLA
    &&& f.ins == config.sign_instruction
    &&& f.p1 as int == config.offset() + k + 1
    &&& f.p2 as nat == packet_total(config, m.len())
    &&& f.data@ == chunk_data(m, k)
}

/// The payloads of `frames`, one after the other.
pub open spec fn concat_payloads(frames: Seq<ApduCommand>) -> Seq<u8>
    decreases frames.len(),
{
    if frames.len() == 0 {
        Seq::empty()
    } else {
        concat_payloads(frames.drop_last()) + frames.last().data@
    }
}

/// The smaller of two integers.
pub open spec fn min_int(a: int, b: int) -> int {
    if a < b {
        a
    } else {
        b
    }
}

/// `ceil(len / 250)`, computed without overflow.
pub fn count_chunks(len: usize) -> (r: usize)
    ensures
        r as nat == chunk_count(len as nat),
{
    let whole = len / MAX_CHUNK_SIZE;
    if len % MAX_CHUNK_SIZE == 0 {
        whole
    } else {
        whole + 1
    }
}

/// The bytes of chunk `k` of `message`.
pub fn chunk_payload(message: &[u8], k: usize) -> (r: Vec<u8>)
    requires
        k < chunk_count(message@.len() as nat),
    ensures
        r@ == chunk_data(message@, k as int),
        r@.len() <= 250,
        r@.len() > 0,
{
    let len = message.len();
    assert(250 * k < len);
    let start = k * MAX_CHUNK_SIZE;
    let end = if len - start > MAX_CHUNK_SIZE {
        start + MAX_CHUNK_SIZE
    } else {
        len
    };
    let mut data: Vec<u8> = Vec::new();
    let mut j: usize = start;
    while j < end
        invariant
            start <= j <= end,
            end <= len == message@.len(),
            data@ == message@.subrange(start as int, j as int),
        decreases end - j,
    {
        data.push(message[j]);
        j = j + 1;
        proof {
            assert(message@.subrange(start as int, j as int) =~= message@.subrange(
                start as int,
                j - 1,
            ).push(message@[j - 1]));
        }
    }
    data
}

/// The frame that carries chunk `k` of `message`.
pub fn chunk_frame(config: &ProtocolConfig, message: &[u8], k: usize) -> (r: ApduCommand)
    requires
        k < chunk_count(message@.len() as nat),
        plan_fits(*config, message@.len() as nat),
    ensures
        is_chunk_frame(*config, message@, k as int, r),
        r.wf(),
{
    let offset = config.index_offset();
    let count = count_chunks(message.len());
    ApduCommand {
        cla: CLA,
        ins: config.sign_instruction,
        p1: (offset as usize + k + 1) as u8,
        p2: (offset as usize + count) as u8,
        data: chunk_payload(message, k),
    }
}

/// Splits `message` into the frames of a signing operation of the variant
/// `config`: chunk `k` (from 0) travels in packet `offset + k + 1` of
/// `offset + chunk_count` packets. The checks come before any frame is made.
pub fn build_chunks_with(config: &ProtocolConfig, message: &[u8]) -> (r: Result<
    Vec<ApduCommand>,
    LedgerError,
>)
    ensures
        message@.len() == 0 ==> r == Err::<Vec<ApduCommand>, LedgerError>(
            LedgerError::EmptyMessage,
        ),
        message@.len() > 0 && !plan_fits(*config, message@.len() as nat) ==> r == Err::<
            Vec<ApduCommand>,
            LedgerError,
        >(LedgerError::MessageTooLarge),
        message@.len() > 0 && plan_fits(*config, message@.len() as nat) ==> r is Ok,
        r matches Ok(frames) ==> {
            &&& frames@.len() == chunk_count(message@.len() as nat)
            &&& forall|k: int|
                0 <= k < frames@.len() ==> #[trigger] is_chunk_frame(
                    *config,
                    message@,
                    k,
                    frames@[k],
                )
            &&& forall|k: int| 0 <= k < frames@.len() ==> (#[trigger] frames@[k]).wf()
            &&& concat_payloads(frames@) == message@
        },
{
    let len = message.len();
    if len == 0 {
        return Err(LedgerError::EmptyMessage);
    }
    let count = count_chunks(len);
    let offset = config.index_offset() as usize;
    if count > MAX_PACKETS - offset {
        return Err(LedgerError::MessageTooLarge);
    }
    let mut frames: Vec<ApduCommand> = Vec::new();
    let mut k: usize = 0;
    while k < count
        invariant
            k <= count,
            count as nat == chunk_count(len as nat),
            len == message@.len(),
            len > 0,
            plan_fits(*config, len as nat),
            frames@.len() == k,
            forall|i: int|
                0 <= i < k ==> #[trigger] is_chunk_frame(*config, message@, i, frames@[i]),
            forall|i: int| 0 <= i < k ==> (#[trigger] frames@[i]).wf(),
            concat_payloads(frames@) == message@.subrange(0, min_int(250 * k, len as int)),
        decreases count - k,
    {
        let frame = chunk_frame(config, message, k);
        let ghost before = frames@;
        frames.push(frame);
        proof {
            assert(frames@.drop_last() =~= before);
            assert(250 * k < len);
            assert(message@.subrange(0, min_int(250 * (k + 1), len as int)) =~= message@.subrange(
                0,
                250 * k,
            ) + chunk_data(message@, k as int));
        }
        k = k + 1;
    }
    proof {
        assert(250 * k >= len);
        assert(message@.subrange(0, len as int) =~= message@);
    }
    Ok(frames)
}

/// Splits `message` into the frames of a signing operation of the standard
/// variant: chunk `k` (from 0) travels in packet `k + 1` of `ceil(len / 250)`.
pub fn build_chunks(message: &[u8]) -> (r: Result<Vec<ApduCommand>, LedgerError>)
    ensures
        message@.len() == 0 ==> r == Err::<Vec<ApduCommand>, LedgerError>(
            LedgerError::EmptyMessage,
        ),
        message@.len() > 255 * 250 ==> r == Err::<Vec<ApduCommand>, LedgerError>(
            LedgerError::MessageTooLarge,
        ),
        0 < message@.len() <= 255 * 250 ==> r is Ok,
        r matches Ok(frames) ==> {
            &&& frames@.len() == chunk_count(message@.len() as nat)
            &&& forall|k: int|
                0 <= k < frames@.len() ==> {
                    &&& (#[trigger] frames@[k]).cla == CLA
                    &&& frames@[k].ins == crate::protocol::INS_SIGN_ED25519
                    &&& frames@[k].p1 == k + 1
                    &&& frames@[k].p2 == frames@.len()
                    &&& frames@[k].data@ == chunk_data(message@, k)
                    &&& frames@[k].data@.len() <= 250
                }
            &&& concat_payloads(frames@) == message@
        },
{
    let config = ProtocolConfig::standard();
    let r = build_chunks_with(&config, message);
    proof {
        if r is Ok {
            let frames = r->Ok_0;
            assert forall|k: int| 0 <= k < frames@.len() implies {
                &&& (#[trigger] frames@[k]).cla == CLA
                &&& frames@[k].ins == crate::protocol::INS_SIGN_ED25519
                &&& frames@[k].p1 == k + 1
                &&& frames@[k].p2 == frames@.len()
                &&& frames@[k].data@ == chunk_data(message@, k)
                &&& frames@[k].data@.len() <= 250
            } by {
                assert(is_chunk_frame(config, message@, k, frames@[k]));
            }
        }
    }
    r
}

} // verus!
