use hinted::Exactly;
use hinted::HintExt;
use hinted::Hinted;
use hinted::Producer;
use hinted::VecProducer;

use hinted::drain;

#[test]
fn vec_producer_yields_elements_in_order() {
    let p = VecProducer::new(vec![1u64, 4, 9, 16]);
    assert_eq!(drain(p), vec![1u64, 4, 9, 16]);
}

#[test]
fn vec_producer_yields_elements_back_to_front() {
    let mut p = VecProducer::new(vec![1u64, 4, 9, 16]);
    assert_eq!(p.next_back(), Some(16));
    assert_eq!(p.next_back(), Some(9));
    assert_eq!(p.next_back(), Some(4));
    assert_eq!(p.next_back(), Some(1));
    assert_eq!(p.next_back(), None);
}

#[test]
fn hint_never_alters_the_elements() {
    let plain = drain(VecProducer::new(vec![7u64, 11, 13, 17]));
    let low = drain(VecProducer::new(vec![7u64, 11, 13, 17]).hinted(0));
    let high = drain(VecProducer::new(vec![7u64, 11, 13, 17]).hinted(1000));
    assert_eq!(plain, vec![7u64, 11, 13, 17]);
    assert_eq!(low, plain);
    assert_eq!(high, plain);
}

#[test]
fn hint_counts_down_and_upper_bound_passes_through() {
    let mut h = VecProducer::new(vec![10u64, 20, 30]).hinted(99);
    assert_eq!(h.size_hint(), (99, Some(3)));
    assert_eq!(h.next(), Some(10));
    assert_eq!(h.size_hint(), (98, Some(2)));
    assert_eq!(h.next(), Some(20));
    assert_eq!(h.size_hint(), (97, Some(1)));
    assert_eq!(h.next(), Some(30));
    assert_eq!(h.size_hint(), (96, Some(0)));
}

#[test]
fn hint_saturates_at_zero() {
    let mut h = VecProducer::new(vec![10u64, 20, 30]).hinted(1);
    assert_eq!(h.size_hint().0, 1);
    assert_eq!(h.next(), Some(10));
    assert_eq!(h.size_hint().0, 0);
    assert_eq!(h.next(), Some(20));
    assert_eq!(h.size_hint().0, 0);
    assert_eq!(h.next(), Some(30));
    assert_eq!(h.size_hint().0, 0);
    assert_eq!(h.next(), None);
    assert_eq!(h.size_hint().0, 0);
}

#[test]
fn hinted_scenario_ten_twenty_thirty() {
    let mut h = VecProducer::new(vec![10u64, 20, 30]).hinted(5);
    assert_eq!(h.size_hint().0, 5);
    assert_eq!(h.next(), Some(10));
    assert_eq!(h.size_hint().0, 4);
    assert_eq!(h.next(), Some(20));
    assert_eq!(h.next(), Some(30));
    assert_eq!(h.size_hint().0, 2);
    assert_eq!(h.next(), None);
}

#[test]
fn hinted_exhaustion_is_idempotent() {
    let mut h = VecProducer::new(vec![5u64]).hinted(4);
    assert_eq!(h.next(), Some(5));
    assert_eq!(h.next(), None);
    assert_eq!(h.next(), None);
    assert_eq!(h.next_back(), None);
    assert_eq!(h.next(), None);
}

#[test]
fn hinted_interleaved_front_and_back() {
    let mut h = VecProducer::new(vec![1u64, 2, 3, 4]).hinted(10);
    assert_eq!(h.next(), Some(1));
    assert_eq!(h.size_hint().0, 9);
    assert_eq!(h.next_back(), Some(4));
    assert_eq!(h.size_hint().0, 8);
    assert_eq!(h.next(), Some(2));
    assert_eq!(h.size_hint().0, 7);
    assert_eq!(h.next_back(), Some(3));
    assert_eq!(h.size_hint().0, 6);
    assert_eq!(h.next(), None);
    assert_eq!(h.next_back(), None);
}

#[test]
fn hinted_on_empty_sequence() {
    let mut h = VecProducer::new(Vec::<u64>::new()).hinted(3);
    assert_eq!(h.size_hint(), (3, Some(0)));
    assert_eq!(h.next(), None);
    assert_eq!(h.size_hint(), (2, Some(0)));
}

#[test]
fn hinted_new_matches_postfix_construction() {
    let a = Hinted::new(VecProducer::new(vec![2u64, 3]), 7);
    let mut b = VecProducer::new(vec![2u64, 3]).hinted(7);
    assert_eq!(b.size_hint(), (7, Some(2)));
    assert_eq!(drain(a), drain(b));
}

#[test]
fn exact_scenario_ten_twenty_thirty() {
    let mut e = VecProducer::new(vec![10u64, 20, 30]).has(3);
    assert_eq!(e.len(), 3);
    assert_eq!(e.next(), Some(10));
    assert_eq!(e.len(), 2);
    assert_eq!(e.next(), Some(20));
    assert_eq!(e.len(), 1);
    assert_eq!(e.next(), Some(30));
    assert_eq!(e.len(), 0);
}

#[test]
fn exact_size_hint_is_tight() {
    let mut e = VecProducer::new(vec![4u64, 5]).has(2);
    assert_eq!(e.size_hint(), (2, Some(2)));
    assert_eq!(e.next(), Some(4));
    assert_eq!(e.size_hint(), (1, Some(1)));
    assert_eq!(e.next(), Some(5));
    assert_eq!(e.size_hint(), (0, Some(0)));
}

#[test]
fn exact_full_drain_yields_exactly_len_elements() {
    let mut e = VecProducer::new(vec![5u64, 6, 7]).has(3);
    let mut produced: usize = 0;
    while e.len() > 0 {
        assert!(e.next().is_some());
        produced += 1;
    }
    assert_eq!(produced, 3);
}

#[test]
fn exact_interleaved_front_and_back() {
    let mut e = VecProducer::new(vec![1u64, 2, 3]).has(3);
    assert_eq!(e.next(), Some(1));
    assert_eq!(e.len(), 2);
    assert_eq!(e.next_back(), Some(3));
    assert_eq!(e.len(), 1);
    assert_eq!(e.next(), Some(2));
    assert_eq!(e.len(), 0);
}

#[test]
fn exact_on_empty_sequence() {
    let e = VecProducer::new(Vec::<u64>::new()).has(0);
    assert_eq!(e.len(), 0);
    assert_eq!(e.size_hint(), (0, Some(0)));
}

#[test]
fn exact_drain_collects_all_elements() {
    let e = VecProducer::new(vec![5u64, 6, 7]).has(3);
    assert_eq!(e.drain(), vec![5u64, 6, 7]);
    let empty = VecProducer::new(Vec::<u64>::new()).has(0);
    assert_eq!(empty.drain(), Vec::<u64>::new());
}

#[test]
fn exact_new_matches_postfix_construction() {
    let mut a = Exactly::new(VecProducer::new(vec![8u64, 9]), 2);
    let mut b = VecProducer::new(vec![8u64, 9]).has(2);
    assert_eq!(a.len(), b.len());
    assert_eq!(a.next(), Some(8));
    assert_eq!(b.next(), Some(8));
    assert_eq!(a.len(), b.len());
}
