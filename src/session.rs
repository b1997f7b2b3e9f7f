//! The session: claim, identify, then reboot to ROM or load (and run) an
//! image, as the requested operation says.
//!
//! The caller performs each action the session hands out and reports what
//! came back; the session decides the next action.

use vstd::prelude::*;
use crate::device::find_target;
use crate::device::spec_is_target;
use crate::error::LoaderError;
use crate::identity::{decode_identity, spec_identity};
use crate::loader::{
    CHUNK_SIZE,
    ImageLoader,
    LoadPhase,
    LoadStep,
    spec_chunk_count,
    spec_last_chunk,
    transfer_plan,
};
use crate::protocol::{
    ControlSetup,
    MASK_ROM_BASE,
    VendorCommand,
    cpu_info_setup,
    prog_start_setup,
    spec_setup,
};

verus! {

/// What the operator asked for.
#[derive(Debug, Clone, Copy, PartialEq, Eq, Structural)]
pub enum Operation {
    /// Report the device identity only.
    CpuInfo,
    /// Hand control back to the mask ROM.
    Rom,
    /// Load an image at `address`.
    Load { address: u32 },
    /// Load an image at `address` and run it from there.
    Run { address: u32 },
}

/// Where the session stands.
#[derive(Debug, Clone, Copy, PartialEq, Eq, Structural)]
pub enum SessionState {
    /// Looking for the device and claiming its interface.
    Discovering,
    /// The interface is held; the identity query is under way.
    InterfaceClaimed,
    /// Identity reported; nothing more to do.
    Idle,
    /// The image is being streamed.
    Loading,
    /// The image is on the device; nothing more to do.
    Loaded,
    /// The image was started.
    Running,
    /// Control went back to the mask ROM.
    RebootingToRom,
}

/// What the caller does next.
#[derive(Debug, Clone, Copy, PartialEq, Eq, Structural)]
pub enum Action {
    /// Issue this control transfer.
    Control(ControlSetup),
    /// Send the first `n` bytes of the chunk just read as a bulk-out transfer.
    BulkOut(usize),
    /// Nothing more: the session is over.
    Finish,
}

/// The state and first action once the identity is known.
pub open spec fn spec_after_identity(op: Operation) -> (SessionState, Action) {
    match op {
        Operation::CpuInfo => (SessionState::Idle, Action::Finish),
        Operation::Rom => (
            SessionState::RebootingToRom,
            Action::Control(spec_setup(VendorCommand::ProgStart, MASK_ROM_BASE, 0)),
        ),
        Operation::Load { address } => (
            SessionState::Loading,
            Action::Control(spec_setup(VendorCommand::SetDataAddress, address, 0)),
        ),
        Operation::Run { address } => (
            SessionState::Loading,
            Action::Control(spec_setup(VendorCommand::SetDataAddress, address, 0)),
        ),
    }
}

/// The state and action once the image source is exhausted.
pub open spec fn spec_after_image(op: Operation) -> (SessionState, Action) {
    match op {
        Operation::Run { address } => (
            SessionState::Running,
            Action::Control(spec_setup(VendorCommand::ProgStart, address, 0)),
        ),
        _ => (SessionState::Loaded, Action::Finish),
    }
}

/// The destination address of an operation that loads an image.
pub open spec fn spec_load_address(op: Operation) -> Option<u32> {
    match op {
        Operation::Load { address } => Some(address),
        Operation::Run { address } => Some(address),
        _ => None,
    }
}

/// One session with one device.
pub struct Session {
    op: Operation,
    state: SessionState,
    loader: ImageLoader,
}

impl Session {
    pub closed spec fn spec_op(&self) -> Operation {
        self.op
    }

    pub closed spec fn spec_state(&self) -> SessionState {
        self.state
    }

    /// The sizes of the image chunks handed out so far, in order.
    pub closed spec fn spec_sent(&self) -> Seq<usize> {
        self.loader.spec_sent()
    }

    /// The loader is well formed, has sent nothing before the identity is
    /// known, and while loading streams to the operation's address.
    pub closed spec fn wf(&self) -> bool {
        &&& self.loader.wf()
        &&& (self.state == SessionState::Discovering || self.state
            == SessionState::InterfaceClaimed) ==> self.loader.spec_sent().len() == 0
        &&& self.state == SessionState::Loading ==> self.loader.spec_phase() == LoadPhase::Streaming
            && spec_load_address(self.op) == Some(self.loader.spec_address())
    }

    /// A session for the operation `op`.
    pub fn new(op: Operation) -> (r: Session)
        ensures
            r.wf(),
            r.spec_op() == op,
            r.spec_state() == SessionState::Discovering,
            r.spec_sent() == Seq::<usize>::empty(),
    {
        Session { op, state: SessionState::Discovering, loader: ImageLoader::new(0) }
    }

    /// The requested operation.
    pub fn operation(&self) -> (r: Operation)
        ensures
            r == self.spec_op(),
    {
        self.op
    }

    /// The current state.
    pub fn state(&self) -> (r: SessionState)
        ensures
            r == self.spec_state(),
    {
        self.state
    }

    /// Picks the device to open among the attached ones, given as
    /// (vendor id, product id): the first that matches, or `DeviceNotFound`.
    pub fn select_device(&self, ids: &Vec<(u16, u16)>) -> (r: Result<usize, LoaderError>)
        ensures
            r matches Ok(i) ==> i < ids@.len() && spec_is_target(ids@[i as int].0, ids@[i as int].1)
                && forall|j: int| 0 <= j < i ==> !spec_is_target(#[trigger] ids@[j].0, ids@[j].1),
            r is Err ==> r == Err::<usize, LoaderError>(LoaderError::DeviceNotFound),
            r is Err <==> forall|j: int|
                0 <= j < ids@.len() ==> !spec_is_target(#[trigger] ids@[j].0, ids@[j].1),
    {
        match find_target(ids) {
            Some(i) => Ok(i),
            None => Err(LoaderError::DeviceNotFound),
        }
    }

    /// The interface is claimed: the identity query comes next, always.
    pub fn interface_claimed(&mut self) -> (r: ControlSetup)
        requires
            old(self).wf(),
            old(self).spec_state() == SessionState::Discovering,
        ensures
            final(self).wf(),
            r == spec_setup(VendorCommand::GetCpuInfo, 0, 32),
            final(self).spec_state() == SessionState::InterfaceClaimed,
            final(self).spec_op() == old(self).spec_op(),
            final(self).spec_sent() == old(self).spec_sent(),
    {
        self.state = SessionState::InterfaceClaimed;
        cpu_info_setup()
    }

    /// The identity response arrived. Returns the identity text and the
    /// next action, which the requested operation decides; a response that
    /// is not text ends the session with `ResponseDecodeFailed`.
    pub fn identity_received(&mut self, resp: &[u8]) -> (r: Result<(String, Action), LoaderError>)
        requires
            old(self).wf(),
            old(self).spec_state() == SessionState::InterfaceClaimed,
        ensures
            final(self).wf(),
            final(self).spec_op() == old(self).spec_op(),
            final(self).spec_sent() == old(self).spec_sent(),
            r matches Ok(p) ==> spec_identity(resp@) == Ok::<Seq<char>, LoaderError>(p.0@)
                && p.1 == spec_after_identity(old(self).spec_op()).1
                && final(self).spec_state() == spec_after_identity(old(self).spec_op()).0,
            r is Err ==> r == Err::<(String, Action), LoaderError>(
                LoaderError::ResponseDecodeFailed,
            ) && final(self).spec_state() == old(self).spec_state(),
            r is Err <==> spec_identity(resp@) is Err,
    {
        let text = match decode_identity(resp) {
            Ok(t) => t,
            Err(e) => {
                return Err(e);
            },
        };
        let action = match self.op {
            Operation::CpuInfo => {
                self.state = SessionState::Idle;
                Action::Finish
            },
            Operation::Rom => {
                self.state = SessionState::RebootingToRom;
                Action::Control(prog_start_setup(MASK_ROM_BASE))
            },
            Operation::Load { address } | Operation::Run { address } => {
                self.loader = ImageLoader::new(address);
                let setup = self.loader.start();
                self.state = SessionState::Loading;
                Action::Control(setup)
            },
        };
        Ok((text, action))
    }

    /// A read of the image source yielded `n` bytes. A non-empty read goes
    /// out as one bulk transfer; an empty one ends the image, after which a
    /// run starts it at its load address.
    pub fn chunk_read(&mut self, n: usize) -> (r: Action)
        requires
            old(self).wf(),
            old(self).spec_state() == SessionState::Loading,
            n <= CHUNK_SIZE,
        ensures
            final(self).wf(),
            final(self).spec_op() == old(self).spec_op(),
            n > 0 ==> r == Action::BulkOut(n) && final(self).spec_state() == SessionState::Loading
                && final(self).spec_sent() == old(self).spec_sent().push(n),
            n == 0 ==> r == spec_after_image(old(self).spec_op()).1 && final(self).spec_state()
                == spec_after_image(old(self).spec_op()).0 && final(self).spec_sent()
                == old(self).spec_sent(),
    {
        match self.loader.on_read(n) {
            LoadStep::SendChunk(k) => Action::BulkOut(k),
            LoadStep::Finished => {
                match self.op {
                    Operation::Run { address } => {
                        self.state = SessionState::Running;
                        Action::Control(prog_start_setup(address))
                    },
                    _ => {
                        self.state = SessionState::Loaded;
                        Action::Finish
                    },
                }
            },
        }
    }
}

/// The bulk-out transfers for an image of `len` bytes read a full chunk at
/// a time.
pub open spec fn spec_bulk_transfers(len: nat) -> Seq<Action> {
    Seq::new(
        spec_chunk_count(len),
        |i: int|
            Action::BulkOut(
                if i < spec_chunk_count(len) - 1 {
                    CHUNK_SIZE
                } else {
                    spec_last_chunk(len) as usize
                },
            ),
    )
}

/// Every transfer of a session for `op` whose identity query succeeds and
/// whose image holds `len` bytes, in the order they are issued.
pub open spec fn spec_trace(op: Operation, len: nat) -> Seq<Action> {
    let cpu = Action::Control(spec_setup(VendorCommand::GetCpuInfo, 0, 32));
    match op {
        Operation::CpuInfo => seq![cpu],
        Operation::Rom => seq![cpu, Action::Control(spec_setup(VendorCommand::ProgStart, MASK_ROM_BASE, 0))],
        Operation::Load { address } => seq![
            cpu,
            Action::Control(spec_setup(VendorCommand::SetDataAddress, address, 0)),
        ] + spec_bulk_transfers(len),
        Operation::Run { address } => seq![
            cpu,
            Action::Control(spec_setup(VendorCommand::SetDataAddress, address, 0)),
        ] + spec_bulk_transfers(len) + seq![Action::Control(spec_setup(VendorCommand::ProgStart, address, 0))],
    }
}

/// Runs a whole session for `op` against a device that answers the
/// identity query with `resp` and an image source of `image_len` bytes whose
/// reads fill the chunk whenever enough bytes remain, and returns every
/// transfer the session asks for, in order. The identity query comes first,
/// the address is set before any data, and the image is started only after
/// its last chunk.
pub fn session_trace(op: Operation, resp: &[u8], image_len: usize) -> (r: Result<Vec<Action>, LoaderError>)
    ensures
        r is Err <==> spec_identity(resp@) is Err,
        r is Err ==> r == Err::<Vec<Action>, LoaderError>(LoaderError::ResponseDecodeFailed),
        r matches Ok(t) ==> t@ == spec_trace(op, image_len as nat),
{
    let mut s = Session::new(op);
    let mut trace: Vec<Action> = Vec::new();
    trace.push(Action::Control(s.interface_claimed()));
    let first = match s.identity_received(resp) {
        Ok((_, a)) => a,
        Err(e) => {
            return Err(e);
        },
    };
    match first {
        Action::Finish => {},
        _ => trace.push(first),
    }
    let ghost head = trace@;
    if let SessionState::Loading = s.state() {
        let plan = transfer_plan(image_len);
        let mut i: usize = 0;
        while i < plan.len()
            invariant
                s.wf(),
                s.spec_state() == SessionState::Loading,
                s.spec_op() == op,
                i <= plan@.len(),
                plan@.len() == spec_chunk_count(image_len as nat),
                forall|j: int| 0 <= j < plan@.len() - 1 ==> #[trigger] plan@[j] == CHUNK_SIZE,
                image_len > 0 ==> plan@[plan@.len() - 1] == spec_last_chunk(image_len as nat),
                trace@ == head + Seq::new(i as nat, |j: int| Action::BulkOut(plan@[j])),
            decreases plan@.len() - i,
        {
            let n = plan[i];
            assert(0 < n <= CHUNK_SIZE) by {
                if i < plan@.len() - 1 {
                } else {
                    assert(image_len > 0);
                }
            }
            let a = s.chunk_read(n);
            trace.push(a);
            i = i + 1;
            assert(trace@ =~= head + Seq::new(i as nat, |j: int| Action::BulkOut(plan@[j])));
        }
        let last = s.chunk_read(0);
        assert(Seq::new(plan@.len(), |j: int| Action::BulkOut(plan@[j])) =~= spec_bulk_transfers(image_len as nat));
        match last {
            Action::Finish => {},
            _ => trace.push(last),
        }
    }
    assert(trace@ =~= spec_trace(op, image_len as nat));
    Ok(trace)
}

} // verus!
