use section_reader::ByteSectionReader;
use section_reader::SectionIterator;
use section_reader::SectionIteratorLimited;
use section_reader::SectionReader;
use section_reader::SectionWithLimitedItems;
use section_reader::INVALID_RECORD;

const TRAILING: &str = "Unexpected data at the end of the section";

#[test]
fn unbounded_well_formed_yields_all_then_ends() {
    let reader = ByteSectionReader::new(vec![1, 2, 3], 0);
    let mut it = SectionIterator::new(reader);
    assert_eq!(it.next().unwrap().unwrap(), 1);
    assert_eq!(it.next().unwrap().unwrap(), 2);
    assert_eq!(it.next().unwrap().unwrap(), 3);
    assert!(it.next().is_none());
    assert!(it.next().is_none());
}

#[test]
fn unbounded_empty_section_ends_at_once() {
    let reader = ByteSectionReader::new(vec![], 0);
    let mut it = SectionIterator::new(reader);
    assert!(it.next().is_none());
}

#[test]
fn unbounded_corrupt_mid_stream_yields_one_error_then_ends() {
    let reader = ByteSectionReader::new(vec![1, INVALID_RECORD, 3], 0);
    let mut it = SectionIterator::new(reader);
    assert_eq!(it.next().unwrap().unwrap(), 1);
    let err = it.next().unwrap().unwrap_err();
    assert_eq!(err.offset, 1);
    assert_eq!(err.message, "invalid record");
    assert!(it.next().is_none());
    assert!(it.next().is_none());
}

#[test]
fn bounded_exact_match_yields_declared_count_no_error() {
    let reader = ByteSectionReader::new(vec![4, 5, 6], 3);
    let mut it = SectionIteratorLimited::new(reader);
    assert_eq!(it.next().unwrap().unwrap(), 4);
    assert_eq!(it.next().unwrap().unwrap(), 5);
    assert_eq!(it.next().unwrap().unwrap(), 6);
    assert!(it.next().is_none());
    assert!(it.next().is_none());
}

#[test]
fn bounded_trailing_data_reported_after_declared_items() {
    let reader = ByteSectionReader::new(vec![10, 11, 12], 2);
    let mut it = SectionIteratorLimited::new(reader);
    assert_eq!(it.next().unwrap().unwrap(), 10);
    assert_eq!(it.next().unwrap().unwrap(), 11);
    let err = it.next().unwrap().unwrap_err();
    assert_eq!(err.offset, 2);
    assert_eq!(err.message, TRAILING);
    assert!(it.next().is_none());
}

#[test]
fn bounded_count_exhausted_never_decodes_again() {
    // The remaining byte would decode as a valid item; with the declared
    // count used up, the sequence must report trailing data instead.
    let reader = ByteSectionReader::new(vec![5], 0);
    let mut it = SectionIteratorLimited::new(reader);
    let err = it.next().unwrap().unwrap_err();
    assert_eq!(err.offset, 0);
    assert_eq!(err.message, TRAILING);
    assert!(it.next().is_none());
}

#[test]
fn bounded_count_zero_empty_section_is_clean() {
    let reader = ByteSectionReader::new(vec![], 0);
    let mut it = SectionIteratorLimited::new(reader);
    assert!(it.next().is_none());
}

#[test]
fn bounded_decode_error_zeroes_count_and_ends() {
    let reader = ByteSectionReader::new(vec![1, INVALID_RECORD, 3], 3);
    let mut it = SectionIteratorLimited::new(reader);
    assert_eq!(it.next().unwrap().unwrap(), 1);
    let err = it.next().unwrap().unwrap_err();
    assert_eq!(err.offset, 1);
    assert_eq!(err.message, "invalid record");
    assert!(it.next().is_none());
}

#[test]
fn bounded_section_shorter_than_declared_count_ends_at_boundary() {
    // Two items declared, one present: the byte range is the terminator.
    let reader = ByteSectionReader::new(vec![8], 2);
    let mut it = SectionIteratorLimited::new(reader);
    assert_eq!(it.next().unwrap().unwrap(), 8);
    assert!(it.next().is_none());
}

#[test]
fn skip_to_end_is_idempotent() {
    let mut reader = ByteSectionReader::new(vec![1, 2, 3], 3);
    reader.skip_to_end();
    assert!(reader.eof());
    assert_eq!(reader.original_position(), 3);
    reader.skip_to_end();
    assert!(reader.eof());
    assert_eq!(reader.original_position(), 3);
    reader.skip_to_end();
    assert!(reader.eof());
    assert_eq!(reader.original_position(), 3);
}

#[test]
fn size_hint_reports_declared_count_despite_errors() {
    let reader = ByteSectionReader::new(vec![INVALID_RECORD], 7);
    let mut it = SectionIteratorLimited::new(reader);
    assert_eq!(it.size_hint(), (7, Some(7)));
    assert!(it.next().unwrap().is_err());
    assert!(it.next().is_none());
    assert_eq!(it.size_hint(), (7, Some(7)));
}

#[test]
fn ensure_end_fails_at_current_position_then_succeeds_after_skip() {
    let mut reader = ByteSectionReader::new(vec![1, 2], 2);
    let err = reader.ensure_end().unwrap_err();
    assert_eq!(err.offset, 0);
    assert_eq!(err.message, TRAILING);
    assert_eq!(reader.read().unwrap(), 1);
    let err = reader.ensure_end().unwrap_err();
    assert_eq!(err.offset, 1);
    reader.skip_to_end();
    assert!(reader.ensure_end().is_ok());
}

#[test]
fn reader_positions_advance_past_each_record() {
    let mut reader = ByteSectionReader::new(vec![1, 2], 9);
    assert!(!reader.eof());
    assert_eq!(reader.original_position(), 0);
    assert_eq!(reader.read().unwrap(), 1);
    assert_eq!(reader.original_position(), 1);
    assert_eq!(reader.read().unwrap(), 2);
    assert_eq!(reader.original_position(), 2);
    assert!(reader.eof());
    assert_eq!(reader.get_count(), 9);
}

#[test]
fn failed_read_leaves_cursor_on_offending_byte() {
    let mut reader = ByteSectionReader::new(vec![INVALID_RECORD], 1);
    let err = reader.read().unwrap_err();
    assert_eq!(err.offset, 0);
    assert_eq!(reader.original_position(), 0);
    assert!(!reader.eof());
}

#[test]
fn collect_remaining_unbounded_collects_everything() {
    let reader = ByteSectionReader::new(vec![1, 2, INVALID_RECORD, 4], 0);
    let mut it = SectionIterator::new(reader);
    let out = it.collect_remaining();
    assert_eq!(out.len(), 3);
    assert_eq!(out[0].as_ref().unwrap(), &1);
    assert_eq!(out[1].as_ref().unwrap(), &2);
    assert_eq!(out[2].as_ref().unwrap_err().offset, 2);
    assert!(it.next().is_none());
}

#[test]
fn collect_remaining_bounded_counts_successes() {
    let reader = ByteSectionReader::new(vec![1, 2, 3], 3);
    let mut it = SectionIteratorLimited::new(reader);
    let out = it.collect_remaining();
    assert_eq!(out.len(), 3);
    assert!(out.iter().all(|r| r.is_ok()));

    let reader = ByteSectionReader::new(vec![1, 2, 3], 2);
    let mut it = SectionIteratorLimited::new(reader);
    let out = it.collect_remaining();
    assert_eq!(out.len(), 3);
    assert!(out[0].is_ok());
    assert!(out[1].is_ok());
    assert_eq!(out[2].as_ref().unwrap_err().message, TRAILING);
}

#[test]
fn size_hint_at_largest_declared_count() {
    let reader = ByteSectionReader::new(vec![1], u32::MAX);
    let it = SectionIteratorLimited::new(reader);
    assert_eq!(it.size_hint(), (u32::MAX as usize, Some(u32::MAX as usize)));
}

#[test]
fn corrupt_section_yields_exactly_one_error() {
    let reader = ByteSectionReader::new(vec![INVALID_RECORD, INVALID_RECORD], 0);
    let mut it = SectionIterator::new(reader);
    let out = it.collect_remaining();
    assert_eq!(out.len(), 1);
    assert!(out[0].is_err());
}

#[test]
fn error_value_is_plain_data() {
    let reader = ByteSectionReader::new(vec![INVALID_RECORD], 0);
    let mut it = SectionIterator::new(reader);
    let err = it.next().unwrap().unwrap_err();
    let copy = err;
    assert_eq!(copy.offset, err.offset);
    assert_eq!(copy.message, err.message);
}
