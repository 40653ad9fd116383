//! Mapping between IATA airport codes and IANA timezone names.
//!
//! The directory holds a fixed, build-time set of a few hundred
//! airports.  Lookup is case-insensitive over ASCII: the query is folded to
//! upper case and compared against the stored codes, which are kept upper
//! case at rest.  A known code can be resolved either to its timezone name
//! (`Airports::get_tz_name`) or to a parsed `chrono_tz::Tz` handle
//! (`Airports::get_tz`).

mod casefold;
pub mod dataset;
mod directory;

pub use directory::Airports;
pub use directory::first_match;
pub use directory::pair_views;
pub use directory::load_result;
pub use directory::spec_new_entries;
pub use directory::tz_parse;
pub use directory::lemma_case_insensitive;
pub use directory::lemma_upper_lookup;
pub use directory::lemma_tz_consistent_with_name;
pub use directory::lemma_known_code_resolves;
pub use directory::lemma_dataset_integrity;
pub use casefold::upper_char;
pub use casefold::upper_seq;
pub use casefold::lemma_upper_char_idempotent;
pub use casefold::lemma_upper_seq_idempotent;
