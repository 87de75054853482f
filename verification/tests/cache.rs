use dirhist::model::{DataSource, DataViewModel, StoreError};
use std::cell::{Cell, RefCell};

/// A store of fixed rows that records the requests it gets.
struct Rows {
    rows: RefCell<Vec<String>>,
    requests: RefCell<Vec<(usize, usize, String)>>,
    failing: Cell<bool>,
    surplus: Cell<usize>,
}

impl Rows {
    fn of(rows: &[&str]) -> Rows {
        Rows {
            rows: RefCell::new(rows.iter().map(|row| row.to_string()).collect()),
            requests: RefCell::new(Vec::new()),
            failing: Cell::new(false),
            surplus: Cell::new(0),
        }
    }

    fn calls(&self) -> usize {
        self.requests.borrow().len()
    }

    fn last_request(&self) -> (usize, usize, String) {
        self.requests.borrow().last().unwrap().clone()
    }
}

impl DataSource<String> for &Rows {
    fn list(&self, offset: usize, limit: usize, filter: &str) -> Result<Vec<String>, StoreError> {
        self.requests.borrow_mut().push((offset, limit, filter.to_string()));
        if self.failing.get() {
            return Err(StoreError { message: "the store is away".to_string() });
        }
        Ok(self
            .rows
            .borrow()
            .iter()
            .filter(|row| row.contains(filter))
            .skip(offset)
            .take(limit + self.surplus.get())
            .cloned()
            .collect())
    }
}

fn texts(rows: &[&str]) -> Vec<String> {
    rows.iter().map(|row| row.to_string()).collect()
}

fn letters() -> Rows {
    Rows::of(&["a", "b", "c", "d", "e", "f", "g", "h"])
}

#[test]
fn a_new_cache_is_empty() {
    let store = letters();
    let cache = DataViewModel::new(&store);
    assert_eq!(cache.entries(), None);
    assert_eq!((cache.first(), cache.length(), cache.filter()), (0, 0, ""));
    assert!(!cache.is_a_subset_of(0, 0, ""));
    assert_eq!(store.calls(), 0);
}

#[test]
fn narrowing_reuses_the_cached_rows() {
    let store = Rows::of(&["a", "b", "c"]);
    let mut cache = DataViewModel::new(&store);
    assert!(cache.update(0, 3, "", false));
    assert_eq!(cache.entries(), Some(&texts(&["a", "b", "c"])));
    assert_eq!((cache.first(), cache.length(), cache.filter()), (0, 3, ""));
    assert_eq!(store.calls(), 1);
    assert_eq!(store.last_request(), (0, 3, String::new()));

    assert!(!cache.update(1, 2, "", false));
    assert_eq!(cache.entries(), Some(&texts(&["b", "c"])));
    assert_eq!((cache.first(), cache.length(), cache.filter()), (1, 2, ""));
    assert_eq!(store.calls(), 1);
}

#[test]
fn narrowing_cuts_at_the_requested_offset() {
    let store = letters();
    let mut cache = DataViewModel::new(&store);
    assert!(cache.update(2, 5, "", false));
    assert_eq!(cache.entries(), Some(&texts(&["c", "d", "e", "f", "g"])));
    assert!(!cache.update(4, 2, "", true));
    assert_eq!(cache.entries(), Some(&texts(&["e", "f"])));
    assert_eq!((cache.first(), cache.length()), (4, 2));
    assert!(!cache.update(5, 0, "", false));
    assert_eq!(cache.entries(), Some(&Vec::new()));
    assert_eq!((cache.first(), cache.length()), (5, 0));
    assert_eq!(store.calls(), 1);
}

#[test]
fn the_subset_test_compares_ranges_and_filters() {
    let store = letters();
    let mut cache = DataViewModel::new(&store);
    assert!(cache.update(2, 4, "", false));
    assert!(cache.is_a_subset_of(2, 4, ""));
    assert!(cache.is_a_subset_of(3, 2, ""));
    assert!(cache.is_a_subset_of(6, 0, ""));
    assert!(!cache.is_a_subset_of(1, 2, ""));
    assert!(!cache.is_a_subset_of(3, 4, ""));
    assert!(!cache.is_a_subset_of(7, 0, ""));
    assert!(!cache.is_a_subset_of(2, 4, " "));
    assert!(!cache.is_a_subset_of(usize::MAX, u16::MAX, ""));
}

#[test]
fn another_filter_is_always_fetched() {
    let store = Rows::of(&["ab", "abc", "b", "bc"]);
    let mut cache = DataViewModel::new(&store);
    assert!(cache.update(0, 2, "b", false));
    assert_eq!(cache.entries(), Some(&texts(&["ab", "abc"])));
    assert!(cache.update(0, 1, "b ", true));
    assert_eq!(store.calls(), 2);
    assert_eq!(store.last_request(), (0, 1, "b ".to_string()));
    assert_eq!(cache.entries(), None);
    assert_eq!((cache.first(), cache.length(), cache.filter()), (0, 0, "b "));
    assert!(cache.update(0, 2, "B", true));
    assert_eq!(store.calls(), 3);
    assert!(cache.update(1, 1, "bc", false));
    assert_eq!(store.calls(), 4);
    assert_eq!(cache.entries(), Some(&texts(&["bc"])));
    assert_eq!((cache.first(), cache.length(), cache.filter()), (1, 1, "bc"));
}

#[test]
fn the_second_of_two_equal_updates_changes_nothing() {
    let store = letters();
    let mut cache = DataViewModel::new(&store);
    assert!(cache.update(1, 3, "", false));
    assert!(!cache.update(1, 3, "", false));
    assert_eq!(store.calls(), 1);
    assert_eq!(cache.entries(), Some(&texts(&["b", "c", "d"])));

    assert!(cache.update(6, 5, "", false));
    assert_eq!(cache.entries(), Some(&texts(&["g", "h"])));
    assert_eq!((cache.first(), cache.length()), (6, 2));
    assert!(!cache.update(6, 5, "", false));
    assert_eq!(store.calls(), 3);
    assert_eq!(cache.entries(), Some(&texts(&["g", "h"])));
}

#[test]
fn a_forced_update_that_finds_nothing_clears_each_time() {
    let store = letters();
    let mut cache = DataViewModel::new(&store);
    assert!(cache.update(0, 10, "x", true));
    assert_eq!(cache.entries(), None);
    assert!(cache.update(0, 10, "x", true));
    assert_eq!(store.calls(), 2);
}

#[test]
fn a_short_page_that_is_held_already_leaves_the_cache() {
    let store = letters();
    let mut cache = DataViewModel::new(&store);
    assert!(cache.update(4, 4, "", false));
    assert_eq!(cache.entries(), Some(&texts(&["e", "f", "g", "h"])));
    // one row further: the store has three rows left, all of them cached
    assert!(!cache.update(5, 4, "", false));
    assert_eq!(store.calls(), 2);
    assert_eq!(cache.entries(), Some(&texts(&["e", "f", "g", "h"])));
    assert_eq!((cache.first(), cache.length()), (4, 4));
    // past the end: nothing is left, and the cache covers the empty range at 8
    assert!(!cache.update(8, 4, "", true));
    assert_eq!(cache.entries(), Some(&texts(&["e", "f", "g", "h"])));
    assert_eq!(store.calls(), 3);
}

#[test]
fn a_short_page_with_new_rows_is_accepted() {
    let store = letters();
    let mut cache = DataViewModel::new(&store);
    assert!(cache.update(0, 2, "", false));
    assert!(cache.update(6, 4, "", false));
    assert_eq!(cache.entries(), Some(&texts(&["g", "h"])));
    assert_eq!((cache.first(), cache.length(), cache.filter()), (6, 2, ""));
}

#[test]
fn an_empty_page_clears_only_with_force() {
    let store = letters();
    let mut cache = DataViewModel::new(&store);
    assert!(cache.update(0, 3, "", false));
    assert!(!cache.update(0, 3, "zz", false));
    assert_eq!(cache.entries(), Some(&texts(&["a", "b", "c"])));
    assert_eq!((cache.first(), cache.length(), cache.filter()), (0, 3, ""));
    assert!(cache.update(2, 3, "zz", true));
    assert_eq!(cache.entries(), None);
    assert_eq!((cache.first(), cache.length(), cache.filter()), (0, 0, "zz"));
    assert_eq!(store.calls(), 3);
}

#[test]
fn a_full_page_of_no_rows_is_held_as_an_empty_window() {
    let store = letters();
    let mut cache = DataViewModel::new(&store);
    assert!(cache.update(3, 0, "", false));
    assert_eq!(cache.entries(), Some(&Vec::new()));
    assert_eq!((cache.first(), cache.length()), (3, 0));
    assert!(!cache.update(3, 0, "", false));
    assert_eq!(store.calls(), 1);
}

#[test]
fn a_failing_store_leaves_the_cache() {
    let store = letters();
    let mut cache = DataViewModel::new(&store);
    assert!(cache.update(0, 3, "", false));
    store.failing.set(true);
    assert!(!cache.update(3, 3, "", true));
    assert_eq!(store.calls(), 2);
    assert_eq!(cache.entries(), Some(&texts(&["a", "b", "c"])));
    assert_eq!((cache.first(), cache.length(), cache.filter()), (0, 3, ""));
    store.failing.set(false);
    assert!(cache.update(3, 3, "", true));
    assert_eq!(cache.entries(), Some(&texts(&["d", "e", "f"])));
}

#[test]
fn rows_beyond_the_requested_length_are_dropped() {
    let store = letters();
    store.surplus.set(2);
    let mut cache = DataViewModel::new(&store);
    assert!(cache.update(1, 3, "", false));
    assert_eq!(cache.entries(), Some(&texts(&["b", "c", "d"])));
    assert_eq!((cache.first(), cache.length()), (1, 3));
}

#[test]
fn absorb_judges_an_answer_without_asking_the_store() {
    let store = letters();
    let mut cache = DataViewModel::new(&store);
    assert!(cache.absorb(2, 3, "q", false, Ok(texts(&["x", "y", "z"]))));
    assert_eq!(cache.entries(), Some(&texts(&["x", "y", "z"])));
    assert_eq!((cache.first(), cache.length(), cache.filter()), (2, 3, "q"));
    assert!(!cache.absorb(3, 4, "q", true, Ok(texts(&["y", "z"]))));
    assert_eq!((cache.first(), cache.length()), (2, 3));
    assert!(cache.absorb(3, 4, "q", false, Ok(texts(&["y", "z", "w"]))));
    assert_eq!(cache.entries(), Some(&texts(&["y", "z", "w"])));
    assert_eq!((cache.first(), cache.length()), (3, 3));
    assert!(!cache.absorb(9, 4, "q", true, Err(StoreError { message: String::new() })));
    assert!(!cache.absorb(9, 4, "q", false, Ok(Vec::new())));
    assert!(cache.absorb(9, 4, "q", true, Ok(Vec::new())));
    assert_eq!(cache.entries(), None);
    assert_eq!(store.calls(), 0);
}

#[test]
fn an_offset_moves_the_window_and_stops_at_the_start() {
    let store = letters();
    let mut cache = DataViewModel::new(&store);
    assert!(cache.update(3, 2, "", false));
    assert!(cache.update_to_offset(2, 2, ""));
    assert_eq!(store.last_request(), (5, 2, String::new()));
    assert_eq!(cache.entries(), Some(&texts(&["f", "g"])));
    assert!(cache.update_to_offset(-4, 2, ""));
    assert_eq!(store.last_request(), (1, 2, String::new()));
    assert!(cache.update_to_offset(-10, 2, ""));
    assert_eq!(store.last_request(), (0, 2, String::new()));
    assert_eq!(cache.entries(), Some(&texts(&["a", "b"])));
    assert_eq!(cache.first(), 0);
    assert!(!cache.update_to_offset(i64::MIN, 2, ""));
    assert_eq!(store.calls(), 4);
    assert!(!cache.update_to_offset(0, 1, ""));
    assert_eq!(cache.entries(), Some(&texts(&["a"])));
}
