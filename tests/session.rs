use maskrom_loader::error::LoaderError;
use maskrom_loader::loader::CHUNK_SIZE;
use maskrom_loader::protocol::{
    cpu_info_setup, prog_start_setup, set_data_address_setup, MASK_ROM_BASE, SRAM_RUN_BASE,
};
use maskrom_loader::session::{session_trace, Action, Operation, Session, SessionState};

fn identity() -> [u8; 32] {
    let mut b = [0u8; 32];
    b[..5].copy_from_slice(b"K230D");
    b
}

/// Drives a session against a simulated device and image, recording every
/// transfer it asks for.
fn trace(op: Operation, image: &[u8]) -> (Vec<Action>, SessionState) {
    let mut s = Session::new(op);
    let ids = vec![(0x1234, 0x0001), (0x29f1, 0x0230)];
    assert_eq!(s.select_device(&ids), Ok(1));
    let mut out = vec![Action::Control(s.interface_claimed())];
    let (text, mut next) = s.identity_received(&identity()).unwrap();
    assert_eq!(text, "K230D");
    let mut pos = 0;
    loop {
        match next {
            Action::Finish => break,
            _ => out.push(next),
        }
        if s.state() != SessionState::Loading {
            break;
        }
        let n = (image.len() - pos).min(CHUNK_SIZE);
        pos += n;
        next = s.chunk_read(n);
    }
    (out, s.state())
}

#[test]
fn run_from_sram() {
    let image = vec![0xaau8; 1536];
    let (t, end) = trace(Operation::Run { address: SRAM_RUN_BASE }, &image);
    assert_eq!(
        t,
        vec![
            Action::Control(cpu_info_setup()),
            Action::Control(set_data_address_setup(SRAM_RUN_BASE)),
            Action::BulkOut(512),
            Action::BulkOut(512),
            Action::BulkOut(512),
            Action::Control(prog_start_setup(SRAM_RUN_BASE)),
        ]
    );
    assert_eq!(end, SessionState::Running);
}

#[test]
fn reboot_to_rom() {
    let (t, end) = trace(Operation::Rom, &[]);
    assert_eq!(
        t,
        vec![Action::Control(cpu_info_setup()), Action::Control(prog_start_setup(MASK_ROM_BASE))]
    );
    assert_eq!(end, SessionState::RebootingToRom);
}

#[test]
fn info_only() {
    let (t, end) = trace(Operation::CpuInfo, &[]);
    assert_eq!(t, vec![Action::Control(cpu_info_setup())]);
    assert_eq!(end, SessionState::Idle);
}

#[test]
fn load_without_run() {
    let image = vec![1u8; 700];
    let (t, end) = trace(Operation::Load { address: 0x8040_0000 }, &image);
    assert_eq!(
        t,
        vec![
            Action::Control(cpu_info_setup()),
            Action::Control(set_data_address_setup(0x8040_0000)),
            Action::BulkOut(512),
            Action::BulkOut(188),
        ]
    );
    assert_eq!(end, SessionState::Loaded);
}

#[test]
fn empty_image_is_started_at_once() {
    let (t, end) = trace(Operation::Run { address: SRAM_RUN_BASE }, &[]);
    assert_eq!(
        t,
        vec![
            Action::Control(cpu_info_setup()),
            Action::Control(set_data_address_setup(SRAM_RUN_BASE)),
            Action::Control(prog_start_setup(SRAM_RUN_BASE)),
        ]
    );
    assert_eq!(end, SessionState::Running);
}

#[test]
fn missing_device_and_bad_identity() {
    let mut s = Session::new(Operation::Rom);
    assert_eq!(s.select_device(&vec![(0x29f1, 0x0231)]), Err(LoaderError::DeviceNotFound));
    s.interface_claimed();
    let bad = [0xc3u8, 0x28, 0, 0];
    assert_eq!(s.identity_received(&bad), Err(LoaderError::ResponseDecodeFailed));
    assert_eq!(s.state(), SessionState::InterfaceClaimed);
    assert_eq!(s.operation(), Operation::Rom);
}

#[test]
fn whole_session_run_trace() {
    let t = session_trace(Operation::Run { address: SRAM_RUN_BASE }, &identity(), 1536).unwrap();
    assert_eq!(
        t,
        vec![
            Action::Control(cpu_info_setup()),
            Action::Control(set_data_address_setup(SRAM_RUN_BASE)),
            Action::BulkOut(512),
            Action::BulkOut(512),
            Action::BulkOut(512),
            Action::Control(prog_start_setup(SRAM_RUN_BASE)),
        ]
    );
    let t = session_trace(Operation::Load { address: 0x10 }, &identity(), 600).unwrap();
    assert_eq!(&t[2..], &[Action::BulkOut(512), Action::BulkOut(88)]);
}

#[test]
fn whole_session_rom_trace() {
    let t = session_trace(Operation::Rom, &identity(), 4096).unwrap();
    assert_eq!(
        t,
        vec![Action::Control(cpu_info_setup()), Action::Control(prog_start_setup(MASK_ROM_BASE))]
    );
    assert!(!t.iter().any(|a| matches!(a, Action::BulkOut(_))));
    let info = session_trace(Operation::CpuInfo, &identity(), 0).unwrap();
    assert_eq!(info, vec![Action::Control(cpu_info_setup())]);
    assert_eq!(
        session_trace(Operation::Rom, &[0xff, 0xff], 0),
        Err(LoaderError::ResponseDecodeFailed)
    );
}
