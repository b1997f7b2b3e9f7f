//! Streaming an image into device memory.
//!
//! The destination address is set first; then the source is read
//! [`CHUNK_SIZE`] bytes at a time and each non-empty read goes out as one
//! bulk transfer, strictly in order, until a read yields nothing.

use vstd::prelude::*;
use crate::protocol::{ControlSetup, VendorCommand, spec_setup, set_data_address_setup};

verus! {

/// Size of one bulk-out chunk.
pub const CHUNK_SIZE: usize = 512;

/// What the caller does next for the loader.
#[derive(Debug, Clone, Copy, PartialEq, Eq, Structural)]
pub enum LoadStep {
    /// Send the first `n` bytes of the chunk just read as one bulk-out transfer.
    SendChunk(usize),
    /// The source is exhausted; the image is on the device.
    Finished,
}

/// Where the loader stands.
#[derive(Debug, Clone, Copy, PartialEq, Eq, Structural)]
pub enum LoadPhase {
    /// The destination address has not been set yet.
    Addressing,
    /// The address is set; chunks are being read and sent.
    Streaming,
    /// A read yielded nothing.
    Done,
}

/// The upload state machine for one image.
pub struct ImageLoader {
    address: u32,
    phase: LoadPhase,
    sent: Ghost<Seq<usize>>,
}

impl ImageLoader {
    /// The destination address.
    pub closed spec fn spec_address(&self) -> u32 {
        self.address
    }

    /// The current phase.
    pub closed spec fn spec_phase(&self) -> LoadPhase {
        self.phase
    }

    /// The sizes of the chunks sent so far, in order.
    pub closed spec fn spec_sent(&self) -> Seq<usize> {
        self.sent@
    }

    /// Every chunk sent so far is non-empty and at most one chunk long.
    pub closed spec fn wf(&self) -> bool {
        forall|i: int| 0 <= i < self.sent@.len() ==> 0 < #[trigger] self.sent@[i] <= CHUNK_SIZE
    }

    /// The sizes of the chunks sent are those a well-formed loader sends.
    pub proof fn lemma_sent_sizes(&self)
        requires
            self.wf(),
        ensures
            forall|i: int|
                0 <= i < self.spec_sent().len() ==> 0 < #[trigger] self.spec_sent()[i] <= CHUNK_SIZE,
    {
    }

    /// A loader for an image that goes to `address`.
    pub fn new(address: u32) -> (r: ImageLoader)
        ensures
            r.wf(),
            r.spec_address() == address,
            r.spec_phase() == LoadPhase::Addressing,
            r.spec_sent() == Seq::<usize>::empty(),
    {
        ImageLoader { address, phase: LoadPhase::Addressing, sent: Ghost(Seq::empty()) }
    }

    /// The destination address.
    pub fn address(&self) -> (r: u32)
        ensures
            r == self.spec_address(),
    {
        self.address
    }

    /// The current phase.
    pub fn phase(&self) -> (r: LoadPhase)
        ensures
            r == self.spec_phase(),
    {
        self.phase
    }

    /// The first step: the SetDataAddress transfer for the destination.
    /// Streaming may begin once it has been issued.
    pub fn start(&mut self) -> (r: ControlSetup)
        requires
            old(self).wf(),
            old(self).spec_phase() == LoadPhase::Addressing,
        ensures
            final(self).wf(),
            r == spec_setup(VendorCommand::SetDataAddress, old(self).spec_address(), 0),
            final(self).spec_phase() == LoadPhase::Streaming,
            final(self).spec_address() == old(self).spec_address(),
            final(self).spec_sent() == old(self).spec_sent(),
    {
        self.phase = LoadPhase::Streaming;
        set_data_address_setup(self.address)
    }

    /// Reacts to a read of `n` bytes from the source: a non-empty read is
    /// sent as it is; an empty one ends the upload.
    pub fn on_read(&mut self, n: usize) -> (r: LoadStep)
        requires
            old(self).wf(),
            old(self).spec_phase() == LoadPhase::Streaming,
            n <= CHUNK_SIZE,
        ensures
            final(self).wf(),
            final(self).spec_address() == old(self).spec_address(),
            n == 0 ==> r == LoadStep::Finished && final(self).spec_phase() == LoadPhase::Done
                && final(self).spec_sent() == old(self).spec_sent(),
            n > 0 ==> r == LoadStep::SendChunk(n) && final(self).spec_phase()
                == LoadPhase::Streaming && final(self).spec_sent() == old(self).spec_sent().push(
                n,
            ),
    {
        if n == 0 {
            self.phase = LoadPhase::Done;
            LoadStep::Finished
        } else {
            self.sent = Ghost(self.sent@.push(n));
            LoadStep::SendChunk(n)
        }
    }
}

/// Number of chunks that carry `len` bytes.
pub open spec fn spec_chunk_count(len: nat) -> nat {
    if len == 0 {
        0
    } else {
        ((len - 1) as nat / CHUNK_SIZE as nat) + 1
    }
}

/// Size of the last chunk of a non-empty source of `len` bytes.
pub open spec fn spec_last_chunk(len: nat) -> nat {
    if len % CHUNK_SIZE as nat == 0 {
        CHUNK_SIZE as nat
    } else {
        len % CHUNK_SIZE as nat
    }
}

/// A source of `(m - 1) * CHUNK_SIZE + last` bytes, with the last chunk
/// carrying `last` bytes, is `m` chunks long.
proof fn lemma_chunk_layout(m: nat, last: nat)
    requires
        m >= 1,
        0 < last <= CHUNK_SIZE,
    ensures
        spec_chunk_count(((m - 1) * CHUNK_SIZE + last) as nat) == m,
        spec_last_chunk(((m - 1) * CHUNK_SIZE + last) as nat) == last,
{
    let len: int = (m - 1) * CHUNK_SIZE + last;
    vstd::arithmetic::div_mod::lemma_fundamental_div_mod_converse(
        len - 1,
        CHUNK_SIZE as int,
        m - 1,
        last - 1,
    );
    if last == CHUNK_SIZE {
        vstd::arithmetic::div_mod::lemma_fundamental_div_mod_converse(len, CHUNK_SIZE as int, m as int, 0);
    } else {
        vstd::arithmetic::div_mod::lemma_fundamental_div_mod_converse(
            len,
            CHUNK_SIZE as int,
            m - 1,
            last as int,
        );
    }
}

/// Drives a loader over a source of `len` bytes whose reads fill the chunk
/// whenever enough bytes remain, and returns the sizes of the bulk-out
/// transfers it issues, in order: `ceil(len / 512)` of them, each of 512
/// bytes but the last, which carries the rest.
pub fn transfer_plan(len: usize) -> (r: Vec<usize>)
    ensures
        r@.len() == spec_chunk_count(len as nat),
        forall|i: int| 0 <= i < r@.len() - 1 ==> #[trigger] r@[i] == CHUNK_SIZE,
        len > 0 ==> r@[r@.len() - 1] == spec_last_chunk(len as nat),
        len == 0 ==> r@.len() == 0,
{
    let mut loader = ImageLoader::new(0);
    let _ = loader.start();
    let mut plan: Vec<usize> = Vec::new();
    let mut remaining: usize = len;
    loop
        invariant
            loader.wf(),
            loader.spec_phase() == LoadPhase::Streaming || loader.spec_phase() == LoadPhase::Done,
            loader.spec_phase() == LoadPhase::Done ==> remaining == 0,
            plan@ == loader.spec_sent(),
            forall|i: int|
                0 <= i < plan@.len() ==> #[trigger] plan@[i] == CHUNK_SIZE || (i == plan@.len()
                    - 1 && remaining == 0),
            plan@.len() == 0 ==> remaining == len,
            plan@.len() > 0 ==> len == (plan@.len() - 1) * CHUNK_SIZE + plan@[plan@.len() - 1]
                + remaining,
        ensures
            loader.wf(),
            remaining == 0,
            plan@ == loader.spec_sent(),
            forall|i: int|
                0 <= i < plan@.len() ==> #[trigger] plan@[i] == CHUNK_SIZE || i == plan@.len() - 1,
            plan@.len() == 0 ==> len == 0,
            plan@.len() > 0 ==> len == (plan@.len() - 1) * CHUNK_SIZE + plan@[plan@.len() - 1],
        decreases remaining, (if loader.spec_phase() == LoadPhase::Streaming { 1int } else { 0int }),
    {
        if let LoadPhase::Done = loader.phase() {
            break;
        }
        let n: usize = if remaining < CHUNK_SIZE { remaining } else { CHUNK_SIZE };
        let ghost old_plan = plan@;
        match loader.on_read(n) {
            LoadStep::SendChunk(k) => {
                plan.push(k);
                remaining = remaining - k;
                proof {
                    if old_plan.len() > 0 {
                        assert(old_plan[old_plan.len() - 1] == CHUNK_SIZE);
                    }
                    assert(plan@.len() * CHUNK_SIZE == (plan@.len() - 1) * CHUNK_SIZE + CHUNK_SIZE)
                        by (nonlinear_arith);
                }
            },
            LoadStep::Finished => {},
        }
    }
    if plan.len() > 0 {
        proof {
            loader.lemma_sent_sizes();
            assert(0 < plan@[plan@.len() - 1] <= CHUNK_SIZE);
            let m = plan@.len();
            let last = plan@[m - 1] as nat;
            lemma_chunk_layout(m, last);
            assert(len as nat == ((m - 1) * CHUNK_SIZE + last) as nat);
        }
    }
    plan
}

} // verus!
