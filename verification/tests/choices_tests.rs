use ramdis::ChoiceList;
use ramdis::UserError;

#[test]
fn append_at_length_grows_list() {
    let mut l = ChoiceList::new();
    assert!(l.is_empty());
    assert_eq!(l.insert_or_replace(0, "cats".to_string()), Ok(()));
    assert_eq!(l.insert_or_replace(1, "dogs".to_string()), Ok(()));
    assert_eq!(l.len(), 2);
    assert_eq!(l.get_all(), vec!["cats".to_string(), "dogs".to_string()]);
}

#[test]
fn replace_below_length_keeps_length() {
    let mut l = ChoiceList::new();
    l.insert_or_replace(0, "cats".to_string()).unwrap();
    l.insert_or_replace(1, "dogs".to_string()).unwrap();
    assert_eq!(l.insert_or_replace(0, "owls".to_string()), Ok(()));
    assert_eq!(l.len(), 2);
    assert_eq!(l.get_all(), vec!["owls".to_string(), "dogs".to_string()]);
}

#[test]
fn index_past_length_is_rejected_unchanged() {
    let mut l = ChoiceList::new();
    l.insert_or_replace(0, "cats".to_string()).unwrap();
    assert_eq!(
        l.insert_or_replace(2, "dogs".to_string()),
        Err(UserError::IndexOutOfRange)
    );
    assert_eq!(l.len(), 1);
    assert_eq!(l.get_all(), vec!["cats".to_string()]);
}

#[test]
fn duplicate_texts_are_allowed() {
    let mut l = ChoiceList::new();
    l.insert_or_replace(0, "cats".to_string()).unwrap();
    l.insert_or_replace(1, "cats".to_string()).unwrap();
    assert_eq!(l.get_all(), vec!["cats".to_string(), "cats".to_string()]);
}
