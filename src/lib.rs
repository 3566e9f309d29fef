//! Loading a byte payload into an executable memory region and driving the
//! suspended thread that runs it.
//!
//! The platform calls (allocation, thread creation, resume, wait) happen in
//! the program around this library; what is decided around them is here and
//! verified: offset and capacity checks, page rounding, the bytes the region
//! holds, the entry address, and the thread's lifecycle.

mod error;
mod number;
mod runner;
mod shellcode;
mod thread;
mod virtual_memory;

pub use error::ShellcodeRunnerError;
pub use virtual_memory::{aligned_size, round_up, RegionModel, VirtualMemory};
pub use shellcode::{
    lemma_entry_in_region, lemma_loaded_region, padded, Loaded, Requested, Shellcode,
    Unloaded,
};
pub use thread::{
    after_resume, Lifecycle, Thread, ThreadState, RESUME_FAILED,
    WAIT_FAILED,
};
pub use number::{digit_value, digits_value, has_hex_prefix, parse_usize, radix_value, usize_value};
pub use runner::{hex_byte, hex_digit, hex_preview, preview_hex_bytes, runner_error, Runner};
