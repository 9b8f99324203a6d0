//! A variable-resolution binary genetic encoding: a genome is an ordered
//! sequence of bits whose length ("resolution") is itself evolvable, and whose
//! decoded value depends only on the proportion of set bits.

mod bits;
mod counting;
mod genome;
mod rate;
mod rng;

pub use bits::MAX_RESOLUTION;
pub use genome::BinaryPGA2;
pub use rate::MutationRate;

pub use counting::count_ones;
pub use counting::seq_and;
pub use counting::lemma_count_ones_le_len;
pub use counting::lemma_count_ones_all_clear;
pub use counting::lemma_count_ones_all_set;
pub use counting::lemma_flipped_and_is_clear;
