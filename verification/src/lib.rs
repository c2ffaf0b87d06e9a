//! Small kernel building blocks: a round-robin scheduler with time slices,
//! the task handle it schedules, a bump allocator for byte ranges, and a
//! pass-through holder for a network driver.
//!
//! The contracts are stated over plain mathematical models: the ready queue
//! is a sequence of handles, head first; the allocator is four numbers.
//! Two things are believed and not proved, and are marked where they stand:
//! that two handles which point to one allocation are equal, and that a
//! layout's size is read from the layout alone. A task's tick counter is an
//! atomic cell whose content no contract speaks of; the rules that go by its
//! value are functions of a plain number.

pub mod allocator;
pub mod fairness;
pub mod filter;
pub mod scheduler;
pub mod task;

pub use allocator::{AllocError, AllocResult, SimpleByteAllocator};
pub use filter::NetFilter;
pub use scheduler::SimpleScheduler;
pub use task::{SimpleTask, MAX_TIME_SLICE};
