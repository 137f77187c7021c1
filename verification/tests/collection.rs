use consumable_vec::Consumable;
use consumable_vec::ConsumableVec;

#[test]
fn consume_when_pattern_not_in_replies_should_return_none() {
    let mut at = ConsumableVec::default();
    at.add("data".to_string());
    assert!(at.consume_mut("pattern".to_string()).is_none());
}

#[test]
fn consume_when_pattern_in_replies_should_return_some() {
    let mut at = ConsumableVec::default();
    at.add("data".to_string());
    assert!(at.consume_mut("da".to_string()).is_some());
}

#[test]
fn consume_when_pattern_in_replies_should_have_data() {
    let mut at = ConsumableVec::default();
    at.add("data".to_string());
    at.add("ata".to_string());
    let consumed = at.consume_mut("da".to_string()).unwrap();
    assert_eq!(1, consumed.len());
    assert_eq!("data".to_string(), consumed.inner()[0]);
}

#[test]
fn consume_when_pattern_in_replies_multiple_times_should_have_data_multipletimes() {
    let mut at = ConsumableVec::default();
    at.add("data".to_string());
    at.add("ata".to_string());
    at.add("data2".to_string());
    let consumed = at.consume_mut("da".to_string()).unwrap();
    assert_eq!(2, consumed.len());
    assert_eq!("data2".to_string(), consumed.inner()[1]);
}

#[test]
fn consume_should_remove_values_from_data() {
    let mut at = ConsumableVec::default();
    at.add("data".to_string());
    at.add("ata".to_string());
    at.add("data2".to_string());
    assert_eq!(3, at.len());
    let _ = at.consume_mut("da".to_string()).unwrap();
    assert_eq!(1, at.len());
}

#[test]
fn consume_no_match_leaves_contents_unchanged() {
    let mut at = ConsumableVec::default();
    at.add("data".to_string());
    at.add("ata".to_string());
    assert!(at.consume_mut("pattern".to_string()).is_none());
    assert_eq!(2, at.len());
    assert_eq!("data".to_string(), at.inner()[0]);
    assert_eq!("ata".to_string(), at.inner()[1]);
}

#[test]
fn consume_empty_pattern_drains_everything() {
    let mut at = ConsumableVec::default();
    at.add("data".to_string());
    at.add("ata".to_string());
    at.add("data2".to_string());
    let consumed = at.consume_mut("".to_string()).unwrap();
    assert_eq!(3, consumed.len());
    assert_eq!("data".to_string(), consumed.inner()[0]);
    assert_eq!("ata".to_string(), consumed.inner()[1]);
    assert_eq!("data2".to_string(), consumed.inner()[2]);
    assert!(at.is_empty());
}

#[test]
fn consume_twice_returns_none_the_second_time() {
    let mut at = ConsumableVec::default();
    at.add("data".to_string());
    at.add("ata".to_string());
    at.add("data2".to_string());
    assert!(at.consume_mut("da".to_string()).is_some());
    assert!(at.consume_mut("da".to_string()).is_none());
    assert_eq!(1, at.len());
}

#[test]
fn consume_matches_on_trimmed_forms() {
    let mut at = ConsumableVec::default();
    at.add("  data  ".to_string());
    at.add("other".to_string());
    let consumed = at.consume_mut(" da \t".to_string()).unwrap();
    assert_eq!(1, consumed.len());
    assert_eq!("  data  ".to_string(), consumed.inner()[0]);
    assert_eq!(1, at.len());
    assert_eq!("other".to_string(), at.inner()[0]);
}

#[test]
fn consume_whitespace_only_record_matches_empty_pattern() {
    let mut at = ConsumableVec::default();
    at.add(" \t ".to_string());
    at.add("data".to_string());
    let consumed = at.consume_mut("  ".to_string()).unwrap();
    assert_eq!(2, consumed.len());
    assert!(at.is_empty());
}

#[test]
fn consume_pattern_longer_than_any_record_matches_nothing() {
    let mut at = ConsumableVec::default();
    at.add("data".to_string());
    at.add("da".to_string());
    assert!(at.consume_mut("data-and-more".to_string()).is_none());
    assert_eq!(2, at.len());
}

#[test]
fn new_with_initial_records_keeps_them_in_order() {
    let at = ConsumableVec::new(Some(vec!["a".to_string(), "b".to_string()]));
    assert_eq!(2, at.len());
    assert_eq!("a".to_string(), at.inner()[0]);
    assert_eq!("b".to_string(), at.inner()[1]);
}

#[test]
fn new_without_records_is_empty() {
    let at = ConsumableVec::new(None);
    assert!(at.is_empty());
    assert_eq!(0, at.len());
}

#[test]
fn clear_removes_all_records() {
    let mut at = ConsumableVec::default();
    at.add("data".to_string());
    at.add("ata".to_string());
    at.clear();
    assert!(at.is_empty());
    assert_eq!(0, at.len());
}

#[test]
fn clone_is_an_independent_copy() {
    let mut at = ConsumableVec::default();
    at.add("data".to_string());
    let copy = at.clone();
    at.add("more".to_string());
    assert_eq!(1, copy.len());
    assert_eq!(2, at.len());
    assert_eq!("data".to_string(), copy.inner()[0]);
}

#[test]
fn consumed_batch_is_detached_from_the_source() {
    let mut at = ConsumableVec::default();
    at.add("data".to_string());
    let mut consumed = at.consume_mut("da".to_string()).unwrap();
    at.add("later".to_string());
    consumed.add("extra".to_string());
    assert_eq!(2, consumed.len());
    assert_eq!(1, at.len());
    assert_eq!("later".to_string(), at.inner()[0]);
}
