//! Reverse complement of nucleotide sequences, with proved contracts.
pub mod nucleotide;

pub use nucleotide::{is_dna, output_line, revcomp, switch_base, InvalidSequenceError};
