pub mod align;
pub mod early;
pub mod laws;

pub use align::{align_down_spec, align_up_spec, is_pow2};
pub use early::{AllocError, ArenaView, EarlyAllocator};
pub use laws::{after_allocs, after_deallocs, allocs_succeed};
