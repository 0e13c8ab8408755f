use vstd::prelude::*;

verus! {

/// A command frame: class, instruction, two parameter bytes and a payload.
/// The length byte is not stored: it is the payload's length.
#[derive(Clone, Debug, PartialEq, Eq)]
pub struct ApduCommand {
    pub cla: u8,
    pub ins: u8,
    pub p1: u8,
    pub p2: u8,
    pub data: Vec<u8>,
}

/// A reply frame: payload bytes and the device's status word.
#[derive(Clone, Debug, PartialEq, Eq)]
pub struct ApduAnswer {
    pub data: Vec<u8>,
    pub retcode: u16,
}

/// Wire layout of a command: the four header bytes, the length byte, the payload.
pub open spec fn command_bytes(cla: u8, ins: u8, p1: u8, p2: u8, data: Seq<u8>) -> Seq<u8> {
    seq![cla, ins, p1, p2, data.len() as u8] + data
}

impl ApduCommand {
    /// The payload fits the single length byte.
    pub open spec fn wf(&self) -> bool {
        self.data@.len() <= 255
    }

    /// The length byte of the frame.
    pub fn length(&self) -> (r: u8)
        requires
            self.wf(),
        ensures
            r as nat == self.data@.len(),
    {
        self.data.len() as u8
    }

    /// The frame as the transport sends it.
    pub fn serialize(&self) -> (r: Vec<u8>)
        requires
            self.wf(),
        ensures
            r@ == command_bytes(self.cla, self.ins, self.p1, self.p2, self.data@),
            r@.len() == 5 + self.data@.len(),
    {
        let mut out: Vec<u8> = Vec::new();
        out.push(self.cla);
        out.push(self.ins);
        out.push(self.p1);
        out.push(self.p2);
        out.push(self.length());
        let mut i: usize = 0;
        while i < self.data.len()
            invariant
                i <= self.data@.len(),
                self.wf(),
                out@ == seq![self.cla, self.ins, self.p1, self.p2, self.data@.len() as u8]
                    + self.data@.subrange(0, i as int),
            decreases self.data@.len() - i,
        {
            out.push(self.data[i]);
            i = i + 1;
            proof {
                assert(self.data@.subrange(0, i as int) =~= self.data@.subrange(0, i - 1).push(
                    self.data@[i - 1],
                ));
            }
        }
        proof {
            assert(self.data@.subrange(0, self.data@.len() as int) =~= self.data@);
        }
        out
    }
}

} // verus!
