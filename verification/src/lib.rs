//! Driver core for the LP55231 nine-channel LED controller.
//!
//! The crate holds everything the driver decides and nothing it performs:
//! the fields of the registers, the instruction encoding of the lighting
//! engines, the layout of program memory, and the transactions that move
//! bytes between host and chip. A host program carries out on the bus what a
//! transaction asks for and feeds it with what the bus returned.
//!
//! - `field` and `mask`: bit fields in general, and the named fields of the
//!   chip's registers.
//! - `register` and `types`: the register map, the channels, faders and
//!   engines, and the settings that the registers hold.
//! - `program`: the instructions of the engines.
//! - `paging`: program memory, page by page.
//! - `transaction`: the steps of an operation and the state machine that
//!   takes a host through them.
//! - `loader`: the steps of loading a program, and what holds of every load.
//! - `driver`: the operations of the chip, each as a transaction.
//! - `model`: what the transactions achieve on a chip that does as it is
//!   told.

pub mod driver;
pub mod error;
pub mod field;
pub mod loader;
pub mod mask;
pub mod model;
pub mod paging;
pub mod program;
pub mod register;
pub mod transaction;
pub mod types;

pub use driver::{enabled, LP55231, DEFAULT_MAX_BUSY_POLLS};
pub use error::{Error, RangeError, ValidationError};
pub use field::BitField;
pub use loader::{
    engine_modes_byte,
    load_program_steps,
    write_page_steps,
    LOAD_CLOSING_STEPS,
    POLL_INTERVAL_MS,
    SETTLE_INTERVAL_MS,
};
pub use mask::Mask;
pub use paging::{
    decode_instructions,
    instruction_address,
    page_bytes,
    pages,
    validate_instruction_index,
    validate_page,
    validate_per_page_instruction_count,
    validate_program_counter,
    validate_total_instruction_count,
    PAGE_BYTES,
    PROG_MEM_BASE,
};
pub use program::{
    Direction,
    Instruction,
    PreScale,
    Variable,
    INSTRUCTIONS_PER_PAGE,
    MAX_BRANCH_STEP,
    MAX_INSTRUCTIONS,
    MAX_LOOP_COUNT,
    MAX_PAGES,
    MAX_RAMP_CYCLES,
    MAX_SKIP,
    MAX_VARS,
    MAX_WAIT_CYCLES,
};
pub use register::Register;
pub use transaction::{Action, Event, Stage, Step, Transaction};
pub use types::{
    flag,
    Channel,
    ChargePumpMode,
    ClockSelection,
    Engine,
    EngineExec,
    EngineMode,
    Fader,
    Misc,
};
