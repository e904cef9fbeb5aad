use vstd::prelude::*;

use crate::errors::BinaryReaderError;
use crate::section_reader::SectionReader;
use crate::section_reader::SectionWithLimitedItems;

verus! {

/// The one byte value that does not decode as a record.
pub const INVALID_RECORD: u8 = 0xff;

/// The message carried by the error a `ByteSectionReader` reports when the
/// byte under its cursor is not a valid record.
pub open spec fn invalid_record_message() -> Seq<char> {
    "invalid record"@
}

/// The simplest decodable section: a sequence of single-byte records, each
/// taken verbatim as its item, except that a byte equal to `INVALID_RECORD`
/// fails to decode and leaves the cursor on the offending byte. A declared
/// item count, handed in at construction as a concrete header would declare
/// it, makes the section usable under a bounded sequence as well.
pub struct ByteSectionReader {
    data: Vec<u8>,
    pos: usize,
    count: u32,
}

impl ByteSectionReader {
    /// The section's bytes.
    pub closed spec fn spec_data(&self) -> Seq<u8> {
        self.data@
    }

    /// A fresh reader over `data`, cursor at the start, declaring `count`
    /// items.
    pub fn new(data: Vec<u8>, count: u32) -> (r: ByteSectionReader)
        ensures
            r.wf(),
            r.spec_data() == data@,
            r.position() == 0,
            r.section_end() == data@.len(),
            r.declared_count() == count,
    {
        ByteSectionReader { data, pos: 0, count }
    }
}

impl SectionReader for ByteSectionReader {
    type Item = u8;

    closed spec fn wf(&self) -> bool {
        self.pos <= self.data@.len()
    }

    closed spec fn position(&self) -> int {
        self.pos as int
    }

    closed spec fn section_end(&self) -> int {
        self.data@.len() as int
    }

    fn read(&mut self) -> (r: Result<u8, BinaryReaderError>)
        ensures
            final(self).spec_data() == old(self).spec_data(),
            final(self).declared_count() == old(self).declared_count(),
            old(self).spec_data()[old(self).position()] == INVALID_RECORD ==> {
                &&& r is Err
                &&& r->Err_0.offset == old(self).position()
                &&& r->Err_0.message@ == invalid_record_message()
                &&& final(self).position() == old(self).position()
            },
            old(self).spec_data()[old(self).position()] != INVALID_RECORD ==> {
                &&& r is Ok
                &&& r->Ok_0 == old(self).spec_data()[old(self).position()]
                &&& final(self).position() == old(self).position() + 1
            },
    {
        let end = self.data.len();
        assert(self.pos < end);
        let b = self.data[self.pos];
        if b == INVALID_RECORD {
            Err(BinaryReaderError { message: "invalid record", offset: self.pos })
        } else {
            self.pos = self.pos + 1;
            Ok(b)
        }
    }

    fn eof(&self) -> (r: bool) {
        self.pos >= self.data.len()
    }

    fn original_position(&self) -> (r: usize) {
        self.pos
    }

    fn skip_to_end(&mut self)
        ensures
            final(self).spec_data() == old(self).spec_data(),
            final(self).declared_count() == old(self).declared_count(),
    {
        self.pos = self.data.len();
    }
}

impl SectionWithLimitedItems for ByteSectionReader {
    closed spec fn declared_count(&self) -> u32 {
        self.count
    }

    fn get_count(&self) -> (r: u32) {
        self.count
    }
}

} // verus!

