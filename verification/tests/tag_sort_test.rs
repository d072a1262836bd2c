use fixmsg::field_map::{NormalFieldOrder, TagOrder, TagSort};

struct Descending;

impl TagOrder for Descending {
    fn precedes(&self, i: u32, j: u32) -> bool {
        self.less(i, j)
    }

    fn less(&self, i: u32, j: u32) -> bool {
        i > j
    }
}

struct ByLastDigit;

impl TagOrder for ByLastDigit {
    fn precedes(&self, i: u32, j: u32) -> bool {
        self.less(i, j)
    }

    fn less(&self, i: u32, j: u32) -> bool {
        i % 10 < j % 10
    }
}

#[test]
fn tag_sort_len_and_tags() {
    let sorter = TagSort::new(vec![35, 8, 9], NormalFieldOrder);
    assert_eq!(3, sorter.len());
    assert_eq!(&[35, 8, 9], sorter.tags());
    assert_eq!(0, TagSort::new(Vec::new(), NormalFieldOrder).len());
}

#[test]
fn tag_sort_swap_exchanges_two_tags() {
    let mut sorter = TagSort::new(vec![35, 8, 9], NormalFieldOrder);
    sorter.swap(0, 2);
    assert_eq!(&[9, 8, 35], sorter.tags());
    sorter.swap(1, 1);
    assert_eq!(&[9, 8, 35], sorter.tags());
    sorter.swap(2, 1);
    assert_eq!(&[9, 35, 8], sorter.tags());
}

#[test]
fn tag_sort_less_asks_the_policy() {
    let sorter = TagSort::new(vec![35, 8, 35], NormalFieldOrder);
    assert!(!sorter.less(0, 1));
    assert!(sorter.less(1, 0));
    assert!(!sorter.less(0, 2));
    let reversed = TagSort::new(vec![35, 8, 35], Descending);
    assert!(reversed.less(0, 1));
    assert!(!reversed.less(1, 0));
    assert!(!reversed.less(2, 0));
}

#[test]
fn tag_sort_sorts_by_the_policy() {
    let tags = vec![56, 34, 1156, 8, 49, 35, 9, 10, 4294967295, 0];
    let mut ascending = TagSort::new(tags.clone(), NormalFieldOrder);
    ascending.sort();
    assert_eq!(&[0, 8, 9, 10, 34, 35, 49, 56, 1156, 4294967295], ascending.tags());
    let mut descending = TagSort::new(tags, Descending);
    descending.sort();
    assert_eq!(&[4294967295, 1156, 56, 49, 35, 34, 10, 9, 8, 0], descending.tags());
}

#[test]
fn tag_sort_edge_lengths_and_ties() {
    let mut none = TagSort::new(Vec::new(), NormalFieldOrder);
    none.sort();
    assert!(none.tags().is_empty());
    let mut one = TagSort::new(vec![7], Descending);
    one.sort();
    assert_eq!(&[7], one.tags());
    let mut ties = TagSort::new(vec![21, 13, 11, 3, 41, 2], ByLastDigit);
    ties.sort();
    assert_eq!(&[21, 11, 41, 2, 13, 3], ties.tags());
    let mut repeated = TagSort::new(vec![2, 1, 2, 1], NormalFieldOrder);
    repeated.sort();
    assert_eq!(&[1, 1, 2, 2], repeated.tags());
}
