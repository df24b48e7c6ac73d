use spd::{Page, MAX_DEVICES, MAX_SIZE, PAGE_SIZE};

#[test]
fn sizes() {
    assert_eq!(MAX_DEVICES, 8);
    assert_eq!(MAX_SIZE, 512);
    assert_eq!(PAGE_SIZE, 256);
}

#[test]
fn page_offsets() {
    assert_eq!(Page(0).offset(), 0);
    assert_eq!(Page(1).offset(), 256);
}

#[test]
fn any_other_page_number_gives_the_page_size() {
    assert_eq!(Page(2).offset(), 256);
    assert_eq!(Page(255).offset(), 256);
}

#[test]
fn only_two_pages_can_be_made() {
    assert_eq!(Page::new(0), Some(Page(0)));
    assert_eq!(Page::new(1), Some(Page(1)));
    assert_eq!(Page::new(2), None);
    assert_eq!(Page::new(255), None);
}

#[test]
fn only_two_pages_are_valid() {
    assert!(Page(0).is_valid());
    assert!(Page(1).is_valid());
    assert!(!Page(2).is_valid());
    assert!(!Page(255).is_valid());
}

#[test]
fn pages_fill_the_image() {
    for number in 0u8..2 {
        let page = Page(number);
        assert_eq!(page.offset(), usize::from(number) * PAGE_SIZE);
        assert!(page.offset() + PAGE_SIZE <= MAX_SIZE);
    }
}
