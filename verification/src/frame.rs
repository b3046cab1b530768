//! Frame packing for a single transmit mailbox.
//!
//! A mailbox holds a data-length code, eight data byte slots and an 11-bit
//! identifier.  Packing writes `min(payload length, 8)` as the code, the
//! leading payload bytes into the slots and zero into every slot past the
//! payload.  What a frame carries on the wire is only the slots the code
//! declares: the logical payload is the slots truncated at the code.

use vstd::prelude::*;

verus! {

/// One mailbox's worth of registers in logical form: the data-length
/// code, the eight byte slots and the frame identifier.
#[derive(PartialEq, Eq, Debug)]
pub struct MailboxWrite {
    pub dlc: u8,
    pub bytes: Vec<u8>,
    pub identifier: u16,
}

impl MailboxWrite {
    /// The register file's shape: a code of at most 8, exactly eight byte
    /// slots, an identifier within 11 bits, and zeroed slots past the
    /// code (the packing discipline below always zero-pads).
    pub open spec fn wf(self) -> bool {
        self.dlc <= 8
        && self.bytes@.len() == 8
        && self.identifier < 2048
        && forall|i: int| self.dlc <= i < 8 ==> self.bytes@[i] == 0
    }

    /// The bytes the frame actually carries: the slots up to the
    /// data-length code.  Slots past the code never reach the bus,
    /// whatever they hold.
    pub open spec fn logical_payload(self) -> Seq<u8> {
        self.bytes@.take(self.dlc as int)
    }
}

/// The payload a transmission of `data` carries: `data` itself when it
/// fits a frame, else exactly its first eight bytes.
pub open spec fn transmitted_payload(data: Seq<u8>) -> Seq<u8> {
    if data.len() <= 8 {
        data
    } else {
        data.take(8)
    }
}

/// Packs an identifier and a payload into mailbox form: the data-length
/// code is the payload length capped at eight, payload bytes fill the
/// slots in order, and remaining slots are zeroed.
pub fn prepare_mailbox(identifier: u16, data: &[u8]) -> (mw: MailboxWrite)
    requires
        identifier < 2048,
    ensures
        mw.wf(),
        mw.identifier == identifier,
        mw.dlc == if data@.len() <= 8 { data@.len() as int } else { 8int },
        mw.logical_payload() == transmitted_payload(data@),
{
    let data_length: u8 = if data.len() < 8 { data.len() as u8 } else { 8 };
    let mut bytes: Vec<u8> = Vec::new();
    let mut i: usize = 0;
    while i < 8
        invariant
            i <= 8,
            bytes@.len() == i,
            forall|j: int| 0 <= j < i ==> bytes@[j] == if j < data@.len() { data@[j] } else { 0u8 },
        decreases 8 - i,
    {
        if i < data.len() {
            bytes.push(data[i]);
        } else {
            bytes.push(0);
        }
        i = i + 1;
    }
    let mw = MailboxWrite { dlc: data_length, bytes, identifier };
    proof {
        assert(mw.logical_payload() =~= transmitted_payload(data@));
    }
    mw
}

/// Truncation at read: two mailbox register files with the same
/// data-length code and the same slots below it carry the same logical
/// payload, whatever the slots past the code hold.
pub proof fn lemma_payload_ignores_trailing_slots(a: MailboxWrite, b: MailboxWrite)
    requires
        a.dlc == b.dlc,
        a.dlc <= 8,
        a.bytes@.len() == 8,
        b.bytes@.len() == 8,
        forall|i: int| 0 <= i < a.dlc ==> a.bytes@[i] == b.bytes@[i],
    ensures
        a.logical_payload() == b.logical_payload(),
{
    assert(a.logical_payload() =~= b.logical_payload());
}

} // verus!
