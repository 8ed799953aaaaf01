pub mod allocator;
pub mod errors;
pub mod genetics;
pub mod random;
pub mod registry;

pub use allocator::IdAllocator;
pub use errors::Error;
pub use genetics::{combine_dna, combine_payloads, Kitty, KittyGender};
pub use random::random_value;
pub use registry::{Event, Registry};
