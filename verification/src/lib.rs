//! A generic, lazy iteration protocol over the sections of a binary
//! container: it turns a stateful, fallible, byte-level decoder into a safe,
//! forward-only sequence of decoded items, enforcing that no trailing bytes
//! follow the last item and that a declared item count matches the items
//! actually present. On the first failure the sequence yields exactly one
//! error, localised to a byte offset, and then terminates.

mod byte_section_reader;
mod errors;
mod section_reader;

pub use byte_section_reader::invalid_record_message;
pub use byte_section_reader::ByteSectionReader;
pub use byte_section_reader::INVALID_RECORD;
pub use errors::trailing_data_message;
pub use errors::BinaryReaderError;
pub use section_reader::lemma_size_hint_from_declared_count_alone;
pub use section_reader::lemma_skip_to_end_idempotent;
pub use section_reader::SectionIterator;
pub use section_reader::SectionIteratorLimited;
pub use section_reader::SectionReader;
pub use section_reader::SectionWithLimitedItems;
