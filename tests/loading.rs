use shellcode_runner::{
    aligned_size, Lifecycle, Requested, Shellcode, ShellcodeRunnerError, Thread, ThreadState,
    Unloaded, VirtualMemory,
};

const PAGE: usize = 4096;

fn region_for(req: &Shellcode<Requested>, base: usize) -> VirtualMemory {
    let size = aligned_size(req.capacity(), PAGE).expect("size fits");
    VirtualMemory::from_raw_parts(base, size, PAGE)
}

#[test]
fn nop_ret_payload_loads_into_one_page() {
    let payload = [0x90u8, 0x90, 0x90, 0xC3, 0x00];
    let sc = Shellcode::<Unloaded>::new(&payload, 0).ok().expect("offset is valid");
    let req = sc.load().ok().expect("own length always fits");
    assert_eq!(req.capacity(), 5);
    let vm = region_for(&req, 0x1_0000);
    let loaded = req.place(vm).ok().expect("region is large enough");
    assert_eq!(loaded.vm().size(), PAGE);
    let bytes = loaded.vm().as_slice();
    assert_eq!(&bytes[..4], &[0x90, 0x90, 0x90, 0xC3]);
    assert_eq!(bytes[4], 0x00);
    assert!(bytes[5..].iter().all(|b| *b == 0));
    assert_eq!(loaded.start_ptr(), 0x1_0000);
    assert_eq!(loaded.bytes(), &payload);
}

#[test]
fn offset_equal_to_length_is_invalid() {
    let payload = [0xCCu8; 10];
    match Shellcode::<Unloaded>::new(&payload, 10) {
        Err(ShellcodeRunnerError::InvalidOffset { offset, len }) => {
            assert_eq!((offset, len), (10, 10));
        }
        _ => panic!("expected InvalidOffset"),
    }
}

#[test]
fn offset_past_length_is_invalid() {
    let payload = [0xCCu8; 3];
    match Shellcode::<Unloaded>::new(&payload, 7) {
        Err(ShellcodeRunnerError::InvalidOffset { offset, len }) => {
            assert_eq!((offset, len), (7, 3));
        }
        _ => panic!("expected InvalidOffset"),
    }
}

#[test]
fn empty_payload_has_no_valid_offset() {
    let payload: [u8; 0] = [];
    assert!(matches!(
        Shellcode::<Unloaded>::new(&payload, 0),
        Err(ShellcodeRunnerError::InvalidOffset { offset: 0, len: 0 })
    ));
}

#[test]
fn last_byte_is_a_valid_offset() {
    let payload = [1u8, 2, 3];
    let sc = Shellcode::<Unloaded>::new(&payload, 2).ok().expect("valid");
    assert_eq!(sc.start_offset(), 2);
    assert_eq!(sc.bytes(), &payload);
}

#[test]
fn capacity_below_length_is_refused() {
    let payload = [0x90u8; 20];
    let sc = Shellcode::<Unloaded>::new(&payload, 0).ok().expect("valid");
    match sc.load_with_capacity(10) {
        Err(ShellcodeRunnerError::InsufficientCapacity { got, required }) => {
            assert_eq!((got, required), (10, 20));
        }
        _ => panic!("expected InsufficientCapacity"),
    }
}

#[test]
fn capacity_equal_to_length_is_accepted() {
    let payload = [0x90u8; 20];
    let sc = Shellcode::<Unloaded>::new(&payload, 0).ok().expect("valid");
    let req = sc.load_with_capacity(20).ok().expect("fits");
    assert_eq!(req.capacity(), 20);
}

#[test]
fn larger_capacity_is_zero_padded_over_pages() {
    let payload = [0xABu8, 0xCD, 0xEF];
    let sc = Shellcode::<Unloaded>::new(&payload, 1).ok().expect("valid");
    let req = sc.load_with_capacity(PAGE + 1).ok().expect("fits");
    let vm = region_for(&req, 0x20_0000);
    assert_eq!(vm.size(), 2 * PAGE);
    let loaded = req.place(vm).ok().expect("large enough");
    let bytes = loaded.vm().as_slice();
    assert_eq!(bytes.len(), 2 * PAGE);
    assert_eq!(&bytes[..3], &payload);
    assert!(bytes[3..].iter().all(|b| *b == 0));
    assert_eq!(loaded.start_ptr(), 0x20_0001);
}

#[test]
fn padding_overwrites_what_the_region_held() {
    let payload = [0x11u8, 0x22];
    let mut vm = VirtualMemory::from_raw_parts(0x1000, PAGE, PAGE);
    vm.write_prefix(&[0xFFu8; 16]);
    let req = Shellcode::<Unloaded>::new(&payload, 0)
        .ok()
        .expect("valid")
        .load()
        .ok()
        .expect("fits");
    let loaded = req.place(vm).ok().expect("large enough");
    let bytes = loaded.vm().as_slice();
    assert_eq!(&bytes[..2], &payload);
    assert!(bytes[2..].iter().all(|b| *b == 0));
}

#[test]
fn region_smaller_than_capacity_is_refused() {
    let payload = [0x90u8; 8];
    let req = Shellcode::<Unloaded>::new(&payload, 0)
        .ok()
        .expect("valid")
        .load_with_capacity(2 * PAGE)
        .ok()
        .expect("fits");
    let vm = VirtualMemory::from_raw_parts(0x1000, PAGE, PAGE);
    match req.place(vm) {
        Err(ShellcodeRunnerError::BufferTooSmall { needed, got }) => {
            assert_eq!((needed, got), (2 * PAGE, PAGE));
        }
        _ => panic!("expected BufferTooSmall"),
    }
}

#[test]
fn entry_pointer_is_base_plus_offset_inside_region() {
    let payload = [0u8; 100];
    let req = Shellcode::<Unloaded>::new(&payload, 99)
        .ok()
        .expect("valid")
        .load()
        .ok()
        .expect("fits");
    let base = 0x7FF0_0000usize;
    let vm = region_for(&req, base);
    let loaded = req.place(vm).ok().expect("large enough");
    let entry = loaded.start_ptr();
    assert_eq!(entry, base + 99);
    assert!(loaded.vm().as_ptr() <= entry);
    assert!(entry < loaded.vm().as_ptr() + loaded.vm().size());
}

#[test]
fn nop_ret_payload_runs_to_exit() {
    let payload = [0x90u8, 0x90, 0x90, 0xC3, 0x00];
    let req = Shellcode::<Unloaded>::new(&payload, 0)
        .ok()
        .expect("valid")
        .load()
        .ok()
        .expect("fits");
    let vm = region_for(&req, 0x3_0000);
    let loaded = req.place(vm).ok().expect("large enough");
    assert_eq!(loaded.vm().size(), PAGE);
    let mut th = Thread::spawned(42, ThreadState::Suspend);
    assert_eq!(th.state(), Lifecycle::Suspended);
    assert!(th.resume(1));
    assert_eq!(th.state(), Lifecycle::Running);
    assert_eq!(th.join(0), Some(Lifecycle::Exited));
    assert_eq!(loaded.start_ptr(), 0x3_0000);
}
