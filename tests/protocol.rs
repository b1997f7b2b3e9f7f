use maskrom_loader::acquire::{always_failing_claim, claim_result, should_attempt, CLAIM_PERIOD_US, CLAIM_TIMEOUT_US};
use maskrom_loader::device::{
    endpoint_direction, find_endpoint, find_target, is_target_device, max_packet_size,
    EndpointDirection, LinkSpeed,
};
use maskrom_loader::error::LoaderError;
use maskrom_loader::identity::{decode_identity, text_len};
use maskrom_loader::loader::{transfer_plan, ImageLoader, LoadPhase, LoadStep, CHUNK_SIZE};
use maskrom_loader::protocol::{
    command_setup, cpu_info_setup, flush_caches_setup, join_param, prog_start_setup,
    set_data_address_setup, set_data_length_setup, split_param, ControlSetup, DeviceRegisters,
    VendorCommand, MASK_ROM_BASE, SRAM_RUN_BASE,
};
use maskrom_loader::transfer::{race, settle, store_response, TransferStatus, TRANSFER_TIMEOUT_MS};

#[test]
fn param_halves_and_round_trip() {
    for p in [0u32, 1, 0xffff, 0x1_0000, SRAM_RUN_BASE, MASK_ROM_BASE, u32::MAX, 0x1234_5678] {
        let (value, index) = split_param(p);
        assert_eq!(value as u32, p >> 16);
        assert_eq!(index as u32, p & 0xffff);
        assert_eq!(join_param(value, index), p);
    }
    assert_eq!(split_param(SRAM_RUN_BASE), (0x8036, 0x0000));
    assert_eq!(split_param(0x1234_5678), (0x1234, 0x5678));
    assert_eq!(join_param(0x9120, 0x0001), 0x9120_0001);
}

#[test]
fn opcodes_of_the_command_set() {
    assert_eq!(VendorCommand::GetCpuInfo.opcode(), 0);
    assert_eq!(VendorCommand::SetDataAddress.opcode(), 1);
    assert_eq!(VendorCommand::SetDataLength.opcode(), 2);
    assert_eq!(VendorCommand::FlushCaches.opcode(), 3);
    assert_eq!(VendorCommand::ProgStart.opcode(), 4);
    assert_eq!(VendorCommand::from_opcode(2), Some(VendorCommand::SetDataLength));
    assert_eq!(VendorCommand::from_opcode(5), None);
    assert!(VendorCommand::GetCpuInfo.is_input());
    assert!(!VendorCommand::ProgStart.is_input());
}

#[test]
fn control_setups_are_framed() {
    let c = cpu_info_setup();
    assert_eq!(
        c,
        ControlSetup { device_to_host: true, request: 0, value: 0, index: 0, length: 32 }
    );
    let a = set_data_address_setup(0x8036_0010);
    assert_eq!(
        a,
        ControlSetup { device_to_host: false, request: 1, value: 0x8036, index: 0x0010, length: 0 }
    );
    let l = set_data_length_setup(0x0002_0000);
    assert_eq!((l.request, l.value, l.index, l.length), (2, 2, 0, 0));
    let f = flush_caches_setup(7);
    assert_eq!((f.request, f.value, f.index, f.device_to_host), (3, 0, 7, false));
    let s = prog_start_setup(MASK_ROM_BASE);
    assert_eq!((s.request, s.value, s.index, s.length), (4, 0x9120, 0, 0));
    assert_eq!(s.param(), MASK_ROM_BASE);
    // an out-command carries no response length, whatever is asked
    assert_eq!(command_setup(VendorCommand::ProgStart, 1, 99).length, 0);
}

#[test]
fn set_address_twice_equals_once() {
    let setup = set_data_address_setup(SRAM_RUN_BASE);
    let mut once = DeviceRegisters::new();
    once.apply(&setup);
    let mut twice = DeviceRegisters::new();
    twice.apply(&setup);
    twice.apply(&setup);
    assert_eq!(once, twice);
    assert_eq!(once.data_address, SRAM_RUN_BASE);
    assert_eq!(once.started_at, None);
    let mut regs = DeviceRegisters::new();
    regs.apply(&set_data_length_setup(1536));
    regs.apply(&prog_start_setup(MASK_ROM_BASE));
    regs.apply(&cpu_info_setup());
    assert_eq!(regs.data_length, 1536);
    assert_eq!(regs.started_at, Some(MASK_ROM_BASE));
}

#[test]
fn chunk_plan_sizes() {
    assert_eq!(transfer_plan(0), Vec::<usize>::new());
    assert_eq!(transfer_plan(1), vec![1]);
    assert_eq!(transfer_plan(512), vec![512]);
    assert_eq!(transfer_plan(513), vec![512, 1]);
    assert_eq!(transfer_plan(1000), vec![512, 488]);
    assert_eq!(transfer_plan(1536), vec![512, 512, 512]);
    let big = transfer_plan(100_000);
    assert_eq!(big.len(), 196);
    assert_eq!(*big.last().unwrap(), 100_000 % 512);
}

#[test]
fn loader_sets_address_before_data() {
    let mut l = ImageLoader::new(SRAM_RUN_BASE);
    assert_eq!(l.phase(), LoadPhase::Addressing);
    let setup = l.start();
    assert_eq!(setup, set_data_address_setup(SRAM_RUN_BASE));
    assert_eq!(l.phase(), LoadPhase::Streaming);
    assert_eq!(l.on_read(CHUNK_SIZE), LoadStep::SendChunk(512));
    assert_eq!(l.on_read(10), LoadStep::SendChunk(10));
    assert_eq!(l.on_read(0), LoadStep::Finished);
    assert_eq!(l.phase(), LoadPhase::Done);
    assert_eq!(l.address(), SRAM_RUN_BASE);
}

#[test]
fn claim_gives_up_after_the_window() {
    let (elapsed, attempts) = always_failing_claim();
    assert!(elapsed > CLAIM_TIMEOUT_US);
    assert!(elapsed <= CLAIM_TIMEOUT_US + CLAIM_PERIOD_US);
    assert_eq!(elapsed, 1_000_200);
    assert_eq!(attempts, 5001);
    assert!(should_attempt(0));
    assert!(should_attempt(1_000_000));
    assert!(!should_attempt(1_000_001));
    assert_eq!(claim_result::<u8>(None), Err(LoaderError::InterfaceClaimFailed));
    assert_eq!(claim_result(Some(3u8)), Ok(3));
}

#[test]
fn deadline_race() {
    let d = TRANSFER_TIMEOUT_MS;
    assert_eq!(race(Some(6000), TransferStatus::Completed, d), Err(LoaderError::TransferTimeout));
    assert_eq!(race(None, TransferStatus::Completed, d), Err(LoaderError::TransferTimeout));
    assert_eq!(race(Some(10), TransferStatus::Completed, d), Ok(()));
    assert_eq!(race(Some(10), TransferStatus::Failed, d), Err(LoaderError::TransferIoError));
    assert_eq!(race(Some(5000), TransferStatus::Completed, d), Ok(()));
    assert_eq!(race(Some(5001), TransferStatus::Failed, d), Err(LoaderError::TransferTimeout));
    assert_eq!(settle(None), Err(LoaderError::TransferTimeout));
    assert_eq!(settle(Some(TransferStatus::Completed)), Ok(()));
    assert_eq!(settle(Some(TransferStatus::Failed)), Err(LoaderError::TransferIoError));
}

#[test]
fn response_is_stored() {
    let mut buf = vec![0u8; 32];
    assert_eq!(store_response(&mut buf, &vec![1, 2, 3]), Ok(3));
    assert_eq!(&buf[..4], &[1, 2, 3, 0]);
    let mut small = vec![9u8; 2];
    assert_eq!(store_response(&mut small, &vec![1, 2, 3]), Err(LoaderError::TransferIoError));
    assert_eq!(small, vec![9, 9]);
}

fn canned(text: &[u8]) -> [u8; 32] {
    let mut b = [0u8; 32];
    b[..text.len()].copy_from_slice(text);
    b
}

#[test]
fn identity_ignores_padding() {
    let r = canned(b"K230D BOOTROM");
    assert_eq!(decode_identity(&r), Ok("K230D BOOTROM".to_string()));
    assert_eq!(text_len(&r), 13);
    assert_eq!(decode_identity(b"K230D BOOTROM"), Ok("K230D BOOTROM".to_string()));
    assert_eq!(decode_identity(&[0u8; 32]), Ok(String::new()));
    let full = [b'A'; 32];
    assert_eq!(decode_identity(&full), Ok("A".repeat(32)));
    let accented = canned("caf\u{e9}".as_bytes());
    assert_eq!(decode_identity(&accented), Ok("caf\u{e9}".to_string()));
}

#[test]
fn identity_that_is_not_text() {
    let r = canned(&[0x4b, 0xff, 0xfe]);
    assert_eq!(decode_identity(&r), Err(LoaderError::ResponseDecodeFailed));
    assert_eq!(LoaderError::ResponseDecodeFailed.message(), "device response is not valid text");
}

#[test]
fn device_and_endpoints() {
    assert!(is_target_device(0x29f1, 0x0230));
    assert!(!is_target_device(0x29f1, 0x0231));
    assert_eq!(find_target(&vec![(0x1d6b, 2), (0x29f1, 0x0230), (0x29f1, 0x0230)]), Some(1));
    assert_eq!(find_target(&vec![(0x1d6b, 2)]), None);
    assert_eq!(endpoint_direction(0x01), EndpointDirection::Out);
    assert_eq!(endpoint_direction(0x81), EndpointDirection::In);
    assert_eq!(find_endpoint(&vec![0x81, 0x02, 0x01], EndpointDirection::Out), Some(0x02));
    assert_eq!(find_endpoint(&vec![0x81, 0x02], EndpointDirection::In), Some(0x81));
    assert_eq!(find_endpoint(&vec![0x81], EndpointDirection::Out), None);
    assert_eq!(max_packet_size(LinkSpeed::Full), 64);
    assert_eq!(max_packet_size(LinkSpeed::High), 512);
    assert_eq!(max_packet_size(LinkSpeed::SuperPlus), 1024);
}
