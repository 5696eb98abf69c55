use rest_api_core::pagination::{default_page, default_page_size, PaginatedResponse};

#[test]
fn defaults_are_page_one_size_twenty() {
    assert_eq!(default_page(), 1);
    assert_eq!(default_page_size(), 20);
}

#[test]
fn pages_is_ceiling_of_total_over_page_size() {
    let r: PaginatedResponse<u32> = PaginatedResponse::new(Vec::new(), 100, 1, 20);
    assert_eq!(r.pages, 5);
    let r: PaginatedResponse<u32> = PaginatedResponse::new(Vec::new(), 101, 1, 20);
    assert_eq!(r.pages, 6);
    let r: PaginatedResponse<u32> = PaginatedResponse::new(Vec::new(), 1, 1, 100);
    assert_eq!(r.pages, 1);
    let r: PaginatedResponse<u32> = PaginatedResponse::new(Vec::new(), 100, 1, 100);
    assert_eq!(r.pages, 1);
    let r: PaginatedResponse<u32> = PaginatedResponse::new(Vec::new(), 100, 1, 3);
    assert_eq!(r.pages, 34);
}

#[test]
fn pages_is_zero_exactly_when_total_is_zero() {
    for size in [1i64, 2, 20, 100] {
        let r: PaginatedResponse<u32> = PaginatedResponse::new(Vec::new(), 0, 1, size);
        assert_eq!(r.pages, 0);
        let r: PaginatedResponse<u32> = PaginatedResponse::new(Vec::new(), 1, 1, size);
        assert!(r.pages >= 1);
    }
}

#[test]
fn navigation_flags_match_page_position() {
    let first: PaginatedResponse<u32> = PaginatedResponse::new(Vec::new(), 100, 1, 20);
    assert!(first.has_next());
    assert!(!first.has_prev());

    let middle: PaginatedResponse<u32> = PaginatedResponse::new(Vec::new(), 100, 3, 20);
    assert!(middle.has_next());
    assert!(middle.has_prev());

    let last: PaginatedResponse<u32> = PaginatedResponse::new(Vec::new(), 100, 5, 20);
    assert!(!last.has_next());
    assert!(last.has_prev());
}

#[test]
fn empty_collection_never_has_next() {
    for page in [1i64, 2, 7, 1000] {
        let r: PaginatedResponse<u32> = PaginatedResponse::new(Vec::new(), 0, page, 20);
        assert!(!r.has_next());
    }
}

#[test]
fn descriptor_echoes_its_inputs() {
    let r: PaginatedResponse<u8> = PaginatedResponse::new(vec![7, 8, 9], 42, 2, 3);
    assert_eq!(r.items, vec![7, 8, 9]);
    assert_eq!(r.total, 42);
    assert_eq!(r.page, 2);
    assert_eq!(r.page_size, 3);
    assert_eq!(r.pages, 14);
}
