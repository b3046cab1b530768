//! An ideal model of the CAN controller's register interface.
//!
//! The model carries exactly what the firmware logic reads and writes: the
//! initialization-request bit, the operating mode, the programmed bit
//! timing, and the log of frames that left the single transmit mailbox.
//! It acknowledges mode requests instantly — the sequencer's polling
//! branches cover hardware that answers late — and it enforces the two
//! ordering rules the hardware only states in prose: timing writes land
//! only in acknowledged Initialization mode, and transmission may begin
//! only in Normal mode.

use vstd::prelude::*;
use crate::frame::MailboxWrite;
use crate::timing::BitTiming;

verus! {

/// The controller's operating mode: configuration is permitted only in
/// `Initialization`, bus participation only in `Normal`.
#[derive(Clone, Copy, PartialEq, Eq, Structural, Debug)]
pub enum BusMode {
    Initialization,
    Normal,
}

/// One frame as a bus observer would record it: the identifier and the
/// payload bytes the data-length code declared.
#[derive(PartialEq, Eq, Debug)]
pub struct SentFrame {
    pub identifier: u16,
    pub payload: Vec<u8>,
}

/// The frame log grew by one frame with the given identifier and payload,
/// with every earlier entry untouched.
pub open spec fn sent_one(
    pre: Seq<SentFrame>,
    post: Seq<SentFrame>,
    identifier: int,
    payload: Seq<u8>,
) -> bool {
    post.len() == pre.len() + 1
    && (forall|i: int| 0 <= i < pre.len() ==> post[i] == pre[i])
    && post.last().identifier == identifier
    && post.last().payload@ == payload
}

/// The in-memory controller model.
pub struct CanController {
    pub init_request: bool,
    pub mode: BusMode,
    pub timing: Option<BitTiming>,
    pub sent: Vec<SentFrame>,
}

impl CanController {
    /// The acknowledge status bit: high exactly while the controller sits
    /// in Initialization mode.
    pub open spec fn init_ack(self) -> bool {
        self.mode is Initialization
    }

    /// Transmission is permitted: Normal mode, with no pending return to
    /// Initialization.
    pub open spec fn can_transmit(self) -> bool {
        self.mode is Normal && !self.init_request
    }

    /// A controller as it comes out of reset: Initialization mode, no
    /// request pending, no timing programmed, nothing sent.
    pub fn new() -> (ctrl: CanController)
        ensures
            !ctrl.init_request,
            ctrl.mode is Initialization,
            ctrl.timing is None,
            ctrl.sent@ == Seq::<SentFrame>::empty(),
    {
        CanController {
            init_request: false,
            mode: BusMode::Initialization,
            timing: None,
            sent: Vec::new(),
        }
    }

    /// Reads the acknowledge status bit.
    pub fn read_init_ack(&self) -> (ack: bool)
        ensures
            ack == self.init_ack(),
    {
        match self.mode {
            BusMode::Initialization => true,
            BusMode::Normal => false,
        }
    }

    /// Sets the initialization-request bit; the model acknowledges at
    /// once by entering Initialization mode.
    pub fn set_init_request(&mut self)
        ensures
            final(self).init_request,
            final(self).mode is Initialization,
            final(self).timing == old(self).timing,
            final(self).sent@ == old(self).sent@,
    {
        self.init_request = true;
        self.mode = BusMode::Initialization;
    }

    /// Clears the initialization-request bit; the model synchronizes to
    /// the bus at once and enters Normal mode.
    pub fn clear_init_request(&mut self)
        ensures
            !final(self).init_request,
            final(self).mode is Normal,
            final(self).timing == old(self).timing,
            final(self).sent@ == old(self).sent@,
    {
        self.init_request = false;
        self.mode = BusMode::Normal;
    }

    /// Writes the bit-timing register.  The hardware honours the write
    /// only in acknowledged Initialization mode; anywhere else it is
    /// discarded.
    pub fn write_timing(&mut self, bt: BitTiming)
        ensures
            final(self).timing == if old(self).mode is Initialization {
                Some(bt)
            } else {
                old(self).timing
            },
            final(self).init_request == old(self).init_request,
            final(self).mode == old(self).mode,
            final(self).sent@ == old(self).sent@,
    {
        match self.mode {
            BusMode::Initialization => {
                self.timing = Some(bt);
            },
            BusMode::Normal => {},
        }
    }

    /// Loads the mailbox and requests transmission, returning once the
    /// request completes.  Demands Normal mode: the caller must have
    /// observed the Normal-mode acknowledgment first.  The bus records
    /// only the slots the data-length code declares.
    pub fn transmit(&mut self, mw: &MailboxWrite)
        requires
            old(self).can_transmit(),
            mw.wf(),
        ensures
            final(self).init_request == old(self).init_request,
            final(self).mode == old(self).mode,
            final(self).timing == old(self).timing,
            sent_one(
                old(self).sent@,
                final(self).sent@,
                mw.identifier as int,
                mw.logical_payload(),
            ),
    {
        let mut payload: Vec<u8> = Vec::new();
        let mut i: usize = 0;
        while i < mw.dlc as usize
            invariant
                i <= mw.dlc,
                mw.wf(),
                payload@ == mw.bytes@.take(i as int),
            decreases mw.dlc - i,
        {
            payload.push(mw.bytes[i]);
            proof {
                assert(payload@ =~= mw.bytes@.take(i + 1));
            }
            i = i + 1;
        }
        let frame = SentFrame { identifier: mw.identifier, payload };
        self.sent.push(frame);
    }
}

} // verus!
