use vstd::prelude::*;

use crate::errors::BinaryReaderError;

verus! {

/// The capability a concrete section decoder implements: positional, fallible,
/// single-item decoding over one section's byte range, together with
/// end-of-section detection and forced-skip recovery.
///
/// The abstract state of a reader is a cursor (`position`) inside a fixed byte
/// range ending at `section_end`, plus whatever internal consistency `wf`
/// demands. The cursor never moves backwards and never leaves the range.
pub trait SectionReader: Sized {
    /// One decoded record. The iteration protocol is agnostic to its shape.
    type Item;

    /// Internal consistency of the reader's state, established at
    /// construction and preserved by every operation. It includes the cursor
    /// staying inside the section's byte range.
    spec fn wf(&self) -> bool;

    /// Byte offset of the next undecoded byte.
    spec fn position(&self) -> int;

    /// Byte offset one past the section's last byte.
    spec fn section_end(&self) -> int;

    /// Decodes exactly one item starting at the current position.
    ///
    /// On success the cursor advances past the item; on failure it is left
    /// wherever the failed attempt stopped, still inside the section, and
    /// recovery is the caller's job via `skip_to_end`. Must not be called at
    /// the end of the section.
    fn read(&mut self) -> (r: Result<Self::Item, BinaryReaderError>)
        requires
            old(self).wf(),
            old(self).position() < old(self).section_end(),
        ensures
            final(self).wf(),
            final(self).section_end() == old(self).section_end(),
            old(self).position() <= final(self).position(),
            final(self).position() <= final(self).section_end(),
            r is Ok ==> old(self).position() < final(self).position(),
    ;

    /// True exactly when the cursor has reached the end of the section's
    /// byte range. Pure: no side effect.
    fn eof(&self) -> (r: bool)
        requires
            self.wf(),
        ensures
            r == (self.position() >= self.section_end()),
    ;

    /// The current cursor position, for error localisation. Pure.
    fn original_position(&self) -> (r: usize)
        requires
            self.wf(),
        ensures
            r == self.position(),
    ;

    /// Forcibly advances the cursor to the end of the section, regardless of
    /// content. Used exclusively for error recovery, so that a corrupt record
    /// does not leave the reader in an ambiguous mid-record state.
    ///
    /// Idempotent: the final cursor position depends only on where the
    /// section ends, so repeating the call changes nothing observable.
    fn skip_to_end(&mut self)
        requires
            old(self).wf(),
        ensures
            final(self).wf(),
            final(self).section_end() == old(self).section_end(),
            final(self).position() == final(self).section_end(),
            old(self).position() <= final(self).position(),
    ;

    /// Succeeds exactly when the cursor is at the end of the section;
    /// otherwise fails with a trailing-data error located at the current
    /// position. This enforces "no extra bytes after the logical content".
    fn ensure_end(&self) -> (r: Result<(), BinaryReaderError>)
        requires
            self.wf(),
        ensures
            r is Ok <==> self.position() >= self.section_end(),
            r matches Err(e) ==> e.is_trailing_data_at(self.position()),
    {
        if self.eof() {
            return Ok(());
        }
        Err(BinaryReaderError {
            message: "Unexpected data at the end of the section",
            offset: self.original_position(),
        })
    }
}

/// A section whose own header declares how many items it holds.
pub trait SectionWithLimitedItems {
    /// The item count declared in the section's header. Fixed at the time
    /// the section is sliced from the input.
    spec fn declared_count(&self) -> u32;

    /// Returns the declared item count.
    fn get_count(&self) -> (r: u32)
        ensures
            r == self.declared_count(),
    ;
}

/// A lazy, forward-only sequence of decoded items over one section, with no
/// declared count: the section boundary itself terminates the sequence, so
/// reaching the end of the byte range is success by definition.
pub struct SectionIterator<R> where R: SectionReader {
    reader: R,
}

impl<R> SectionIterator<R> where R: SectionReader {
    /// The wrapped reader.
    pub closed spec fn spec_reader(&self) -> R {
        self.reader
    }

    /// The wrapped reader is internally consistent and its cursor is inside
    /// the section's byte range.
    pub open spec fn wf(&self) -> bool {
        &&& self.spec_reader().wf()
        &&& self.spec_reader().position() <= self.spec_reader().section_end()
    }

    /// Byte offset of the next undecoded byte.
    pub open spec fn position(&self) -> int {
        self.spec_reader().position()
    }

    /// Byte offset one past the section's last byte.
    pub open spec fn section_end(&self) -> int {
        self.spec_reader().section_end()
    }

    /// The sequence is exhausted: the cursor has reached the end of the
    /// section's byte range.
    pub open spec fn at_end(&self) -> bool {
        self.position() >= self.section_end()
    }

    pub fn new(reader: R) -> (it: SectionIterator<R>)
        ensures
            it.spec_reader() == reader,
    {
        SectionIterator { reader }
    }

    /// Pulls the next element of the sequence.
    ///
    /// Returns `None` once the section's byte range is exhausted, and changes
    /// nothing in that case. Otherwise decodes one item: a success advances
    /// the cursor past the item; a failure yields the decoder's error once
    /// and forces the cursor to the end of the section, so that every later
    /// pull returns `None`.
    pub fn next(&mut self) -> (r: Option<Result<R::Item, BinaryReaderError>>)
        requires
            old(self).wf(),
        ensures
            final(self).wf(),
            final(self).section_end() == old(self).section_end(),
            old(self).position() <= final(self).position(),
            old(self).at_end() ==> r is None && *final(self) == *old(self),
            !old(self).at_end() ==> r is Some,
            r matches Some(inner) ==> (inner is Ok ==> old(self).position()
                < final(self).position()),
            r matches Some(inner) ==> (inner is Err ==> final(self).at_end()),
    {
        if self.reader.eof() {
            return None;
        }
        let result = self.reader.read();
        if result.is_err() {
            self.reader.skip_to_end();
        }
        Some(result)
    }

    /// Pulls the sequence to exhaustion and collects every yielded element.
    ///
    /// Every collected element before the last is a success: the sequence
    /// yields at most one error, and an error, where one occurs, is the last
    /// element before the sequence ends. Nothing is collected exactly when
    /// the sequence was already exhausted, and since every item covers at
    /// least one byte, at most one element more than the bytes left to
    /// consume is collected.
    pub fn collect_remaining(&mut self) -> (out: Vec<Result<R::Item, BinaryReaderError>>)
        requires
            old(self).wf(),
        ensures
            final(self).wf(),
            final(self).at_end(),
            final(self).section_end() == old(self).section_end(),
            old(self).position() <= final(self).position(),
            forall|i: int| 0 <= i < out@.len() - 1 ==> out@[i] is Ok,
            out@.len() == 0 <==> old(self).at_end(),
            out@.len() <= old(self).section_end() - old(self).position() + 1,
    {
        let mut out: Vec<Result<R::Item, BinaryReaderError>> = Vec::new();
        loop
            invariant
                self.wf(),
                self.section_end() == old(self).section_end(),
                old(self).position() <= self.position(),
                forall|i: int| 0 <= i < out@.len() - 1 ==> out@[i] is Ok,
                out@.len() > 0 && out@[out@.len() - 1] is Err ==> self.at_end(),
                out@.len() == 0 ==> *self == *old(self),
                old(self).at_end() ==> out@.len() == 0,
                out@.len() == 0 || out@[out@.len() - 1] is Ok ==> out@.len()
                    <= self.position() - old(self).position(),
                out@.len() <= self.position() - old(self).position() + 1,
            ensures
                self.wf(),
                self.at_end(),
                self.section_end() == old(self).section_end(),
                old(self).position() <= self.position(),
                forall|i: int| 0 <= i < out@.len() - 1 ==> out@[i] is Ok,
                out@.len() == 0 ==> *self == *old(self) && self.at_end(),
                old(self).at_end() ==> out@.len() == 0,
                out@.len() <= self.position() - old(self).position() + 1,
            decreases self.section_end() - self.position(),
        {
            match self.next() {
                None => {
                    break;
                },
                Some(element) => {
                    out.push(element);
                },
            }
        }
        out
    }
}

/// A lazy, forward-only sequence of decoded items over one section whose
/// header declared an item count: it yields at most that many items (fewer
/// on error) and then checks that no bytes are left over.
pub struct SectionIteratorLimited<R> where R: SectionReader + SectionWithLimitedItems {
    reader: R,
    left: u32,
}

impl<R> SectionIteratorLimited<R> where R: SectionReader + SectionWithLimitedItems {
    /// The wrapped reader.
    pub closed spec fn spec_reader(&self) -> R {
        self.reader
    }

    /// How many of the declared items are still to be yielded. Initialised
    /// from the declared count, decreases by one per decoded item, and drops
    /// straight to zero when a decode fails.
    pub closed spec fn spec_left(&self) -> u32 {
        self.left
    }

    /// The wrapped reader is internally consistent and its cursor is inside
    /// the section's byte range.
    pub open spec fn wf(&self) -> bool {
        &&& self.spec_reader().wf()
        &&& self.spec_reader().position() <= self.spec_reader().section_end()
    }

    /// Byte offset of the next undecoded byte.
    pub open spec fn position(&self) -> int {
        self.spec_reader().position()
    }

    /// Byte offset one past the section's last byte.
    pub open spec fn section_end(&self) -> int {
        self.spec_reader().section_end()
    }

    /// The cursor has reached the end of the section's byte range.
    pub open spec fn at_end(&self) -> bool {
        self.position() >= self.section_end()
    }

    /// The item count the reader's section header declared.
    pub open spec fn declared_count(&self) -> u32 {
        self.spec_reader().declared_count()
    }

    /// The size estimate the sequence reports: derived purely from the
    /// declared count, never from actual progress or stream validity.
    pub open spec fn spec_size_hint(&self) -> (usize, Option<usize>) {
        (self.declared_count() as usize, Some(self.declared_count() as usize))
    }

    pub fn new(reader: R) -> (it: SectionIteratorLimited<R>)
        ensures
            it.spec_reader() == reader,
            it.spec_left() == reader.declared_count(),
    {
        let left = reader.get_count();
        SectionIteratorLimited { reader, left }
    }

    /// Pulls the next element of the sequence.
    ///
    /// Returns `None` once the section's byte range is exhausted, and changes
    /// nothing in that case. When the declared count is used up but bytes
    /// remain, no further decode is attempted: the element is the
    /// trailing-data error at the current position, after which the sequence
    /// is exhausted. Otherwise one item is decoded: a success advances the
    /// cursor and consumes one unit of the declared count; a failure yields
    /// the decoder's error once, zeroes the count and forces the cursor to
    /// the end of the section, so that every later pull returns `None`.
    pub fn next(&mut self) -> (r: Option<Result<R::Item, BinaryReaderError>>)
        requires
            old(self).wf(),
        ensures
            final(self).wf(),
            final(self).section_end() == old(self).section_end(),
            old(self).position() <= final(self).position(),
            old(self).at_end() ==> r is None && *final(self) == *old(self),
            !old(self).at_end() && old(self).spec_left() == 0 ==> {
                &&& r is Some
                &&& r->Some_0 is Err
                &&& r->Some_0->Err_0.is_trailing_data_at(old(self).position())
                &&& final(self).at_end()
                &&& final(self).spec_left() == 0
            },
            !old(self).at_end() && old(self).spec_left() > 0 ==> r is Some,
            !old(self).at_end() && old(self).spec_left() > 0 && r is Some ==> {
                &&& (r->Some_0 is Ok ==> final(self).spec_left() == old(self).spec_left() - 1
                    && old(self).position() < final(self).position())
                &&& (r->Some_0 is Err ==> final(self).spec_left() == 0 && final(self).at_end())
            },
    {
        if self.reader.eof() {
            return None;
        }
        if self.left == 0 {
            return match self.reader.ensure_end() {
                Ok(()) => None,
                Err(err) => {
                    self.reader.skip_to_end();
                    Some(Err(err))
                },
            };
        }
        let result = self.reader.read();
        if result.is_err() {
            self.reader.skip_to_end();
            self.left = 0;
        } else {
            self.left = self.left - 1;
        }
        Some(result)
    }

    /// The expected-length hint for pre-sizing a caller's result container:
    /// the declared item count, as both lower and upper bound. An estimate
    /// only, never a guarantee — it comes from the header-declared count
    /// regardless of whether the stream later turns out corrupt.
    pub fn size_hint(&self) -> (r: (usize, Option<usize>))
        ensures
            r == self.spec_size_hint(),
    {
        let count = self.reader.get_count() as usize;
        (count, Some(count))
    }

    /// Pulls the sequence to exhaustion and collects every yielded element.
    ///
    /// Every collected element before the last is a success, so at most one
    /// error is ever yielded and it comes last. At most one element more
    /// than the count still to be yielded is collected (the extra one being
    /// a trailing-data error), when no error occurs the number collected is
    /// exactly the count consumed, and nothing is collected exactly when the
    /// sequence was already exhausted.
    pub fn collect_remaining(&mut self) -> (out: Vec<Result<R::Item, BinaryReaderError>>)
        requires
            old(self).wf(),
        ensures
            final(self).wf(),
            final(self).at_end(),
            final(self).section_end() == old(self).section_end(),
            old(self).position() <= final(self).position(),
            forall|i: int| 0 <= i < out@.len() - 1 ==> out@[i] is Ok,
            out@.len() == 0 <==> old(self).at_end(),
            out@.len() <= old(self).spec_left() + 1,
            out@.len() == 0 || out@[out@.len() - 1] is Ok ==> out@.len()
                == old(self).spec_left() - final(self).spec_left(),
    {
        let mut out: Vec<Result<R::Item, BinaryReaderError>> = Vec::new();
        loop
            invariant
                self.wf(),
                self.section_end() == old(self).section_end(),
                old(self).position() <= self.position(),
                forall|i: int| 0 <= i < out@.len() - 1 ==> out@[i] is Ok,
                out@.len() > 0 && out@[out@.len() - 1] is Err ==> self.at_end(),
                out@.len() == 0 ==> *self == *old(self),
                old(self).at_end() ==> out@.len() == 0,
                out@.len() == 0 || out@[out@.len() - 1] is Ok ==> out@.len()
                    == old(self).spec_left() - self.spec_left(),
                out@.len() <= old(self).spec_left() + 1,
            ensures
                self.wf(),
                self.at_end(),
                self.section_end() == old(self).section_end(),
                old(self).position() <= self.position(),
                forall|i: int| 0 <= i < out@.len() - 1 ==> out@[i] is Ok,
                out@.len() == 0 ==> *self == *old(self) && self.at_end(),
                old(self).at_end() ==> out@.len() == 0,
                out@.len() <= old(self).spec_left() + 1,
                out@.len() == 0 || out@[out@.len() - 1] is Ok ==> out@.len()
                    == old(self).spec_left() - self.spec_left(),
            decreases self.section_end() - self.position(),
        {
            match self.next() {
                None => {
                    break;
                },
                Some(element) => {
                    out.push(element);
                },
            }
        }
        out
    }
}

/// The size estimate of a bounded section sequence is derived from the
/// declared count alone: two sequence states whose readers declare the same
/// count report the same estimate, however many items either has still to
/// yield and whatever errors either has already met.
pub proof fn lemma_size_hint_from_declared_count_alone<R>(
    a: SectionIteratorLimited<R>,
    b: SectionIteratorLimited<R>,
) where R: SectionReader + SectionWithLimitedItems
    requires
        a.declared_count() == b.declared_count(),
    ensures
        a.spec_size_hint() == b.spec_size_hint(),
{
}

/// Forced skip recovery is idempotent. `before` is a reader at the end of its
/// section — as `skip_to_end` always leaves it — and `after` is any state a
/// further `skip_to_end` may produce from it, by that operation's contract:
/// the observable state, cursor position and section end, is unchanged.
pub proof fn lemma_skip_to_end_idempotent<R>(before: R, after: R) where R: SectionReader
    requires
        before.position() == before.section_end(),
        after.section_end() == before.section_end(),
        after.position() == after.section_end(),
    ensures
        after.position() == before.position(),
        after.section_end() == before.section_end(),
{
}

} // verus!
