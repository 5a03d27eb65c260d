use search::store::{load_step, LoadStep};

#[test]
fn missing_file_is_created() {
    assert_eq!(load_step(false, None), LoadStep::CreateFile);
    assert_eq!(load_step(false, Some(12)), LoadStep::CreateFile);
}

#[test]
fn created_file_then_loads_empty() {
    assert_eq!(load_step(false, None), LoadStep::CreateFile);
    assert_eq!(load_step(true, Some(0)), LoadStep::StartEmpty);
}

#[test]
fn unreadable_size_starts_empty() {
    assert_eq!(load_step(true, None), LoadStep::StartEmpty);
}

#[test]
fn file_with_content_is_deserialized() {
    assert_eq!(load_step(true, Some(1)), LoadStep::Deserialize);
    assert_eq!(load_step(true, Some(u64::MAX)), LoadStep::Deserialize);
}
