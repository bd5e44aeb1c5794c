pub mod arbitrary;
pub mod engine;
pub mod random;

pub use arbitrary::Arbitrary;
pub use engine::{print_panic, run, Config, Run};
pub use random::Seed;
