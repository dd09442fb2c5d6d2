//! The pure outcome-interpretation functions, one case per outcome shape.

use windiff_types::protocol::{
    interpret_filter, interpret_load, interpret_reconstruct, ExtractError, Outcome,
};

#[test]
fn load_outcomes_classify_exactly() {
    assert_eq!(interpret_load(Outcome::LoadPdbResult(Ok(0))), Ok(()));
    assert_eq!(
        interpret_load(Outcome::LoadPdbResult(Err("bad header".to_string()))),
        Err(ExtractError::PdbLoadError("bad header".to_string()))
    );
    assert_eq!(
        interpret_load(Outcome::FilteredTypes(vec![])),
        Err(ExtractError::ProtocolViolation)
    );
    assert_eq!(
        interpret_load(Outcome::ReconstructTypeResult(Ok("d".to_string()))),
        Err(ExtractError::ProtocolViolation)
    );
}

#[test]
fn filter_outcomes_hand_back_the_entries() {
    let entries = vec![("Alpha".to_string(), 4u32), ("Beta".to_string(), 9u32)];
    assert_eq!(
        interpret_filter(Outcome::FilteredTypes(entries.clone())),
        Ok(entries)
    );
    assert_eq!(
        interpret_filter(Outcome::LoadPdbResult(Ok(0))),
        Err(ExtractError::ProtocolViolation)
    );
    assert_eq!(
        interpret_filter(Outcome::ReconstructTypeResult(Err("e".to_string()))),
        Err(ExtractError::ProtocolViolation)
    );
}

#[test]
fn reconstruction_outcomes_keep_or_drop_one_entry() {
    assert_eq!(
        interpret_reconstruct(Outcome::ReconstructTypeResult(Ok("struct A;".to_string()))),
        Ok(Some("struct A;".to_string()))
    );
    assert_eq!(
        interpret_reconstruct(Outcome::ReconstructTypeResult(Err("odd kind".to_string()))),
        Ok(None)
    );
    assert_eq!(
        interpret_reconstruct(Outcome::LoadPdbResult(Ok(0))),
        Err(ExtractError::ProtocolViolation)
    );
    assert_eq!(
        interpret_reconstruct(Outcome::FilteredTypes(vec![])),
        Err(ExtractError::ProtocolViolation)
    );
}
