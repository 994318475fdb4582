use mun_types::completion::{completion_preselect, completion_sort_text, max_relevance};

#[test]
fn sort_text_inverts_and_zero_pads() {
    assert_eq!(completion_sort_text(0), "ffffffff");
    assert_eq!(completion_sort_text(0xFFFF_FFFF), "00000000");
    assert_eq!(completion_sort_text(0xFFFF_FF00), "000000ff");
    assert_eq!(completion_sort_text(1), "fffffffe");
}

#[test]
fn sort_text_orders_higher_relevance_first() {
    // The client sorts ascending, so a higher score gets a smaller key.
    let high = completion_sort_text(10);
    let low = completion_sort_text(3);
    assert!(high < low);
}

#[test]
fn preselect_marks_only_the_relevant_maximum() {
    assert_eq!(completion_preselect(true, 7, 7), Some(true));
    assert_eq!(completion_preselect(true, 6, 7), None);
    assert_eq!(completion_preselect(false, 7, 7), None);
}

#[test]
fn max_relevance_of_a_batch() {
    assert_eq!(max_relevance(&vec![]), 0);
    assert_eq!(max_relevance(&vec![3, 9, 2]), 9);
    assert_eq!(max_relevance(&vec![0, 0]), 0);
}
