use collect_slice::CollectSlice;

/// A source that counts how often it is asked for an item.
struct Asked<I> {
    inner: I,
    times: usize,
}

impl<I: Iterator> Iterator for Asked<I> {
    type Item = I::Item;

    fn next(&mut self) -> Option<I::Item> {
        self.times += 1;
        self.inner.next()
    }
}

fn asked(items: usize) -> Asked<std::ops::Range<usize>> {
    Asked { inner: 0..items, times: 0 }
}

#[test]
fn count_is_the_shorter_of_the_two_lengths() {
    for items in 0..7usize {
        for slots in 0..7usize {
            let mut buf = vec![usize::MAX; slots];
            let mut iter = 100..100 + items;

            let count = iter.collect_slice(&mut buf[..]);

            assert_eq!(count, items.min(slots));
            assert_eq!(buf.len(), slots);
            for i in 0..slots {
                if i < count {
                    assert_eq!(buf[i], 100 + i);
                } else {
                    assert_eq!(buf[i], usize::MAX);
                }
            }
            let rest: Vec<usize> = iter.collect();
            let expected: Vec<usize> = (100 + count..100 + items).collect();
            assert_eq!(rest, expected);
        }
    }
}

#[test]
fn slots_past_the_count_keep_their_values() {
    let mut buf = [11, 22, 33, 44, 55, 66];

    let count = [1, 2].iter().cloned().collect_slice(&mut buf[..]);

    assert_eq!(count, 2);
    assert_eq!(buf, [1, 2, 33, 44, 55, 66]);

    let count = [1, 2].iter().cloned().collect_slice(&mut buf[..]);

    assert_eq!(count, 2);
    assert_eq!(buf, [1, 2, 33, 44, 55, 66]);
}

#[test]
fn source_resumes_at_the_first_item_that_did_not_fit() {
    let items = ["a", "b", "c", "d", "e"];
    let mut buf = [""; 3];
    let mut iter = items.iter().cloned();

    let count = iter.collect_slice(&mut buf[..]);

    assert_eq!(count, 3);
    assert_eq!(buf, ["a", "b", "c"]);
    assert_eq!(iter.next(), Some("d"));
    assert_eq!(iter.next(), Some("e"));
    assert_eq!(iter.next(), None);
}

#[test]
fn a_second_copy_continues_where_the_first_stopped() {
    let mut first = [0; 4];
    let mut second = [0; 4];
    let mut iter = 1..=6;

    assert_eq!(iter.collect_slice(&mut first[..]), 4);
    assert_eq!(iter.collect_slice(&mut second[..]), 2);

    assert_eq!(first, [1, 2, 3, 4]);
    assert_eq!(second, [5, 6, 0, 0]);
}

#[test]
fn empty_source_changes_nothing() {
    let mut buf = [3, 1, 4];

    let count = std::iter::empty::<i32>().collect_slice(&mut buf[..]);

    assert_eq!(count, 0);
    assert_eq!(buf, [3, 1, 4]);
}

#[test]
fn empty_slice_takes_nothing() {
    let mut buf: [usize; 0] = [];
    let mut iter = asked(4);

    let count = iter.collect_slice(&mut buf[..]);

    assert_eq!(count, 0);
    assert_eq!(iter.times, 0);
    assert_eq!(iter.next(), Some(0));
}

#[test]
fn endless_source_fills_the_slice() {
    let mut buf = [0u32; 4];
    let mut iter = 1u32..;

    let count = iter.collect_slice(&mut buf[..]);

    assert_eq!(count, 4);
    assert_eq!(buf, [1, 2, 3, 4]);
    assert_eq!(iter.next(), Some(5));

    std::iter::repeat(9).collect_slice_fill(&mut buf[..]);
    assert_eq!(buf, [9, 9, 9, 9]);
}

#[test]
fn an_item_that_would_not_fit_is_not_asked_for() {
    let mut buf = [0; 3];

    let mut longer = asked(5);
    assert_eq!(longer.collect_slice(&mut buf[..]), 3);
    assert_eq!(longer.times, 3);

    let mut equal = asked(3);
    assert_eq!(equal.collect_slice(&mut buf[..]), 3);
    assert_eq!(equal.times, 3);

    let mut shorter = asked(2);
    assert_eq!(shorter.collect_slice(&mut buf[..]), 2);
    assert_eq!(shorter.times, 3);
}

#[test]
fn fill_asks_for_as_many_items_as_there_are_slots() {
    let mut buf = [0; 3];
    let mut iter = asked(5);

    iter.collect_slice_fill(&mut buf[..]);

    assert_eq!(buf, [0, 1, 2]);
    assert_eq!(iter.times, 3);
}

#[test]
fn exhaust_asks_once_more_after_the_copy() {
    let mut buf = [0; 3];

    let mut equal = asked(3);
    assert_eq!(equal.collect_slice_exhaust(&mut buf[..]), 3);
    assert_eq!(equal.times, 4);

    let mut shorter = asked(1);
    assert_eq!(shorter.collect_slice_exhaust(&mut buf[..]), 1);
    assert_eq!(shorter.times, 3);
    assert_eq!(buf, [0, 1, 2]);
}

#[test]
fn checked_asks_once_more_after_the_copy() {
    let mut buf = [9; 2];
    let mut iter = asked(2);

    iter.collect_slice_checked(&mut buf[..]);

    assert_eq!(buf, [0, 1]);
    assert_eq!(iter.times, 3);
}

#[test]
fn items_are_moved_not_copied() {
    let mut buf = vec![String::from("old"), String::from("old"), String::from("old")];
    let items = vec![String::from("x"), String::from("y")];

    let count = items.into_iter().collect_slice(&mut buf[..]);

    assert_eq!(count, 2);
    assert_eq!(buf, vec![String::from("x"), String::from("y"), String::from("old")]);
}

#[test]
fn unsized_source_stops_at_the_end_of_the_slice() {
    let mut buf = [0; 2];
    let mut range = 5..9;
    let it: &mut dyn Iterator<Item = i32> = &mut range;

    let count = it.collect_slice(&mut buf[..]);

    assert_eq!(count, 2);
    assert_eq!(buf, [5, 6]);
    assert_eq!(it.next(), Some(7));
}
