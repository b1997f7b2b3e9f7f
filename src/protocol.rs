//! The vendor command set and how a command is framed as a control transfer.

use vstd::prelude::*;

verus! {

/// Opcode of the identity query.
pub const EP0_GET_CPU_INFO: u8 = 0;

/// Opcode that sets the base address for the following data.
pub const EP0_SET_DATA_ADDRESS: u8 = 1;

/// Opcode that sets the length of the following data.
pub const EP0_SET_DATA_LENGTH: u8 = 2;

/// Opcode that flushes the device caches.
pub const EP0_FLUSH_CACHES: u8 = 3;

/// Opcode that resumes execution at an address.
pub const EP0_PROG_START: u8 = 4;

/// Size of the response buffer of the identity query.
pub const CPU_INFO_LEN: u16 = 0x20;

/// Address at which an image is loaded into on-chip SRAM and run.
pub const SRAM_RUN_BASE: u32 = 0x8036_0000;

/// Entry address of the mask ROM.
pub const MASK_ROM_BASE: u32 = 0x9120_0000;

/// The vendor commands understood by the mask ROM.
#[derive(Debug, Clone, Copy, PartialEq, Eq, Structural)]
pub enum VendorCommand {
    GetCpuInfo,
    SetDataAddress,
    SetDataLength,
    FlushCaches,
    ProgStart,
}

pub open spec fn spec_opcode(c: VendorCommand) -> u8 {
    match c {
        VendorCommand::GetCpuInfo => EP0_GET_CPU_INFO,
        VendorCommand::SetDataAddress => EP0_SET_DATA_ADDRESS,
        VendorCommand::SetDataLength => EP0_SET_DATA_LENGTH,
        VendorCommand::FlushCaches => EP0_FLUSH_CACHES,
        VendorCommand::ProgStart => EP0_PROG_START,
    }
}

impl VendorCommand {
    /// The `request` byte that carries this command.
    pub fn opcode(&self) -> (r: u8)
        ensures
            r == spec_opcode(*self),
    {
        match self {
            VendorCommand::GetCpuInfo => EP0_GET_CPU_INFO,
            VendorCommand::SetDataAddress => EP0_SET_DATA_ADDRESS,
            VendorCommand::SetDataLength => EP0_SET_DATA_LENGTH,
            VendorCommand::FlushCaches => EP0_FLUSH_CACHES,
            VendorCommand::ProgStart => EP0_PROG_START,
        }
    }

    /// The command whose opcode is `op`, if any.
    pub fn from_opcode(op: u8) -> (r: Option<VendorCommand>)
        ensures
            r matches Some(c) ==> spec_opcode(c) == op,
            r is None <==> op > 4,
    {
        if op == EP0_GET_CPU_INFO {
            Some(VendorCommand::GetCpuInfo)
        } else if op == EP0_SET_DATA_ADDRESS {
            Some(VendorCommand::SetDataAddress)
        } else if op == EP0_SET_DATA_LENGTH {
            Some(VendorCommand::SetDataLength)
        } else if op == EP0_FLUSH_CACHES {
            Some(VendorCommand::FlushCaches)
        } else if op == EP0_PROG_START {
            Some(VendorCommand::ProgStart)
        } else {
            None
        }
    }

    /// Whether the command reads a response from the device.
    pub fn is_input(&self) -> (r: bool)
        ensures
            r == (*self == VendorCommand::GetCpuInfo),
    {
        match self {
            VendorCommand::GetCpuInfo => true,
            _ => false,
        }
    }
}

/// The upper half of a 32-bit parameter, carried in the `value` field.
pub open spec fn spec_value_of(p: u32) -> u16 {
    (p / 0x1_0000) as u16
}

/// The lower half of a 32-bit parameter, carried in the `index` field.
pub open spec fn spec_index_of(p: u32) -> u16 {
    (p % 0x1_0000) as u16
}

/// The parameter that a `value` / `index` pair stands for.
pub open spec fn spec_join(value: u16, index: u16) -> u32 {
    (value as int * 0x1_0000 + index as int) as u32
}

/// Splits a parameter into the `(value, index)` pair of a control transfer.
pub fn split_param(p: u32) -> (r: (u16, u16))
    ensures
        r.0 == spec_value_of(p),
        r.1 == spec_index_of(p),
        r.0 == p >> 16,
        r.1 == p & 0xffff,
{
    let value = (p >> 16) as u16;
    let index = (p & 0xffff) as u16;
    assert(p >> 16 == p / 0x1_0000) by (bit_vector);
    assert(p & 0xffff == p % 0x1_0000) by (bit_vector);
    (value, index)
}

/// Rebuilds the parameter from the `(value, index)` pair of a control transfer.
pub fn join_param(value: u16, index: u16) -> (r: u32)
    ensures
        r == spec_join(value, index),
        r as int == value as int * 0x1_0000 + index as int,
{
    (value as u32) * 0x1_0000 + (index as u32)
}

/// Splitting a parameter and joining the halves gives the parameter back,
/// and the halves are the upper and lower sixteen bits.
pub proof fn lemma_param_round_trip(p: u32)
    ensures
        spec_join(spec_value_of(p), spec_index_of(p)) == p,
        spec_value_of(p) == p >> 16,
        spec_index_of(p) == p & 0xffff,
{
    assert(p >> 16 == p / 0x1_0000) by (bit_vector);
    assert(p & 0xffff == p % 0x1_0000) by (bit_vector);
}

/// Joining two halves and splitting the result gives the halves back.
pub proof fn lemma_halves_round_trip(value: u16, index: u16)
    ensures
        spec_value_of(spec_join(value, index)) == value,
        spec_index_of(spec_join(value, index)) == index,
{
}

/// The setup stage of a vendor, device-recipient control transfer.
#[derive(Debug, Clone, Copy, PartialEq, Eq, Structural)]
pub struct ControlSetup {
    /// Direction: `true` when the device answers with data.
    pub device_to_host: bool,
    pub request: u8,
    pub value: u16,
    pub index: u16,
    pub length: u16,
}

/// The setup that carries `cmd` with parameter `param` and a response of
/// `length` bytes (zero for a command that sends no data).
pub open spec fn spec_setup(cmd: VendorCommand, param: u32, length: u16) -> ControlSetup {
    ControlSetup {
        device_to_host: cmd == VendorCommand::GetCpuInfo,
        request: spec_opcode(cmd),
        value: spec_value_of(param),
        index: spec_index_of(param),
        length: if cmd == VendorCommand::GetCpuInfo { length } else { 0 },
    }
}

/// Frames a command as a control transfer. `length` is the size of the
/// response buffer; commands that only send use a length of zero.
pub fn command_setup(cmd: VendorCommand, param: u32, length: u16) -> (r: ControlSetup)
    ensures
        r == spec_setup(cmd, param, length),
{
    let (value, index) = split_param(param);
    let input = cmd.is_input();
    ControlSetup {
        device_to_host: input,
        request: cmd.opcode(),
        value,
        index,
        length: if input { length } else { 0 },
    }
}

impl ControlSetup {
    /// The 32-bit parameter this setup carries.
    pub fn param(&self) -> (r: u32)
        ensures
            r == spec_join(self.value, self.index),
    {
        join_param(self.value, self.index)
    }
}

/// The identity query, with the response buffer of its fixed size.
pub fn cpu_info_setup() -> (r: ControlSetup)
    ensures
        r == spec_setup(VendorCommand::GetCpuInfo, 0, CPU_INFO_LEN),
        r.device_to_host && r.request == 0 && r.value == 0 && r.index == 0 && r.length == 32,
{
    command_setup(VendorCommand::GetCpuInfo, 0, CPU_INFO_LEN)
}

/// SetDataAddress: the following data goes to `address`.
pub fn set_data_address_setup(address: u32) -> (r: ControlSetup)
    ensures
        r == spec_setup(VendorCommand::SetDataAddress, address, 0),
{
    command_setup(VendorCommand::SetDataAddress, address, 0)
}

/// SetDataLength: the following data is `length` bytes long.
pub fn set_data_length_setup(length: u32) -> (r: ControlSetup)
    ensures
        r == spec_setup(VendorCommand::SetDataLength, length, 0),
{
    command_setup(VendorCommand::SetDataLength, length, 0)
}

/// FlushCaches, with its parameter.
pub fn flush_caches_setup(param: u32) -> (r: ControlSetup)
    ensures
        r == spec_setup(VendorCommand::FlushCaches, param, 0),
{
    command_setup(VendorCommand::FlushCaches, param, 0)
}

/// ProgStart: execution resumes at `address`.
pub fn prog_start_setup(address: u32) -> (r: ControlSetup)
    ensures
        r == spec_setup(VendorCommand::ProgStart, address, 0),
{
    command_setup(VendorCommand::ProgStart, address, 0)
}

/// The state that the commands leave on the device: the address and length
/// set for the following data, and the address at which execution resumed.
#[derive(Debug, Clone, Copy, PartialEq, Eq, Structural)]
pub struct DeviceRegisters {
    pub data_address: u32,
    pub data_length: u32,
    pub started_at: Option<u32>,
}

/// The effect of one control transfer on the device's state. Each command
/// carries its whole value: it overwrites, it does not accumulate.
pub open spec fn spec_apply(s: DeviceRegisters, setup: ControlSetup) -> DeviceRegisters {
    let p = spec_join(setup.value, setup.index);
    if setup.request == EP0_SET_DATA_ADDRESS {
        DeviceRegisters { data_address: p, ..s }
    } else if setup.request == EP0_SET_DATA_LENGTH {
        DeviceRegisters { data_length: p, ..s }
    } else if setup.request == EP0_PROG_START {
        DeviceRegisters { started_at: Some(p), ..s }
    } else {
        s
    }
}

impl DeviceRegisters {
    /// The state after a reset: nothing set, nothing started.
    pub fn new() -> (r: DeviceRegisters)
        ensures
            r.data_address == 0 && r.data_length == 0 && r.started_at is None,
    {
        DeviceRegisters { data_address: 0, data_length: 0, started_at: None }
    }

    /// Applies one control transfer.
    pub fn apply(&mut self, setup: &ControlSetup)
        ensures
            *final(self) == spec_apply(*old(self), *setup),
    {
        let p = setup.param();
        if setup.request == EP0_SET_DATA_ADDRESS {
            self.data_address = p;
        } else if setup.request == EP0_SET_DATA_LENGTH {
            self.data_length = p;
        } else if setup.request == EP0_PROG_START {
            self.started_at = Some(p);
        }
    }
}

/// Issuing SetDataAddress twice with one address leaves the device as
/// issuing it once does.
pub proof fn lemma_set_address_idempotent(s: DeviceRegisters, address: u32)
    ensures
        spec_apply(spec_apply(s, spec_setup(VendorCommand::SetDataAddress, address, 0)),
            spec_setup(VendorCommand::SetDataAddress, address, 0))
            == spec_apply(s, spec_setup(VendorCommand::SetDataAddress, address, 0)),
        spec_apply(s, spec_setup(VendorCommand::SetDataAddress, address, 0)).data_address
            == address,
{
    lemma_param_round_trip(address);
}

} // verus!
