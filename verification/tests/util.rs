use std::collections::HashSet;
use std::rc::Rc;

use squeekboard::util::cycle_count;
use squeekboard::util::vec_remove;
use squeekboard::util::DivCeil;
use squeekboard::util::Pointer;
use squeekboard::util::Rational;

#[test]
fn check_set() {
    let mut s = HashSet::new();
    let first = Rc::new(1u32);
    s.insert(Pointer(first.clone()));
    assert_eq!(s.insert(Pointer(Rc::new(2u32))), true);
    assert_eq!(s.remove(&Pointer(first)), true);
}

#[test]
fn check_count() {
    assert_eq!(
        cycle_count(&(5..8).collect::<Vec<_>>(), 7),
        vec![(5, 0), (6, 0), (7, 0), (5, 1), (6, 1), (7, 1), (5, 2)]
    );
}

#[test]
fn count_edges() {
    assert_eq!(cycle_count(&vec![9u8], 3), vec![(9, 0), (9, 1), (9, 2)]);
    assert_eq!(cycle_count(&vec![1, 2], 0), Vec::<(i32, usize)>::new());
    assert_eq!(cycle_count(&vec!['a', 'b', 'c'], 3), vec![('a', 0), ('b', 0), ('c', 0)]);
    assert_eq!(cycle_count(&vec!['a', 'b', 'c'], 4).last(), Some(&('a', 1)));
}

#[test]
fn pointers_compare_by_allocation() {
    let one = Rc::new(7u32);
    let other = Rc::new(7u32);
    assert!(Pointer(one.clone()) == Pointer(one.clone()));
    assert!(Pointer(one.clone()) != Pointer(other));
    let p = Pointer::new(3u8);
    assert!(p == p.clone());
    assert!(Pointer::new(3u8) != Pointer::new(3u8));
    assert_eq!(*p.0, 3);
}

#[test]
fn pointers_with_equal_values_stay_apart_in_a_set() {
    let mut s = HashSet::new();
    assert!(s.insert(Pointer::new(5u32)));
    assert!(s.insert(Pointer::new(5u32)));
    assert_eq!(s.len(), 2);
    let held = Pointer::new(5u32);
    assert!(s.insert(held.clone()));
    assert!(!s.insert(held.clone()));
    assert!(s.contains(&held));
    assert_eq!(s.len(), 3);
}

#[test]
fn remove_first_match_only() {
    let mut v = vec![1, 2, 3, 2, 1];
    assert_eq!(vec_remove(&mut v, |x| *x == 2), Some(2));
    assert_eq!(v, vec![1, 3, 2, 1]);
    assert_eq!(vec_remove(&mut v, |x| *x > 1), Some(3));
    assert_eq!(v, vec![1, 2, 1]);
    assert_eq!(vec_remove(&mut v, |x| *x == 9), None);
    assert_eq!(v, vec![1, 2, 1]);
    let mut empty: Vec<u8> = Vec::new();
    assert_eq!(vec_remove(&mut empty, |_| true), None);
}

#[test]
fn div_ceil_rounds_up() {
    assert_eq!(DivCeil::div_ceil(7i32, 2i32), 4);
    assert_eq!(DivCeil::div_ceil(8i32, 2i32), 4);
    assert_eq!(DivCeil::div_ceil(0i32, 5i32), 0);
    assert_eq!(DivCeil::div_ceil(1i32, 5i32), 1);
    assert_eq!(DivCeil::div_ceil(i32::MAX, 1i32), i32::MAX);
    assert_eq!(DivCeil::div_ceil(i32::MAX, 2i32), 1 << 30);
}

#[test]
fn div_ceil_steps_up_from_the_cut_quotient() {
    // the machine cuts -3.5 off to -3, and the remainder steps it up
    assert_eq!(DivCeil::div_ceil(-7i32, 2i32), -2);
    assert_eq!(DivCeil::div_ceil(-8i32, 2i32), -4);
    assert_eq!(DivCeil::div_ceil(7i32, -2i32), -2);
    assert_eq!(DivCeil::div_ceil(-7i32, -2i32), 4);
    assert_eq!(DivCeil::div_ceil(i32::MIN, 2i32), -(1 << 30));
    assert_eq!(DivCeil::div_ceil(i32::MIN, -2i32), 1 << 30);
}

#[test]
fn rational_ceil() {
    assert_eq!(Rational { numerator: 7i32, denominator: 2 }.ceil(), 4);
    assert_eq!(Rational { numerator: 6i32, denominator: 3 }.ceil(), 2);
    assert_eq!(Rational { numerator: 1i32, denominator: 1000 }.ceil(), 1);
}

#[test]
fn rational_mul() {
    let third = Rational { numerator: 1i32, denominator: 3 };
    let scaled = third * 7;
    assert_eq!(scaled.numerator, 7);
    assert_eq!(scaled.denominator, 3);
    assert_eq!(scaled.ceil(), 3);
    let product = Rational { numerator: 3i32, denominator: 4 } * Rational { numerator: 5i32, denominator: 2 };
    assert_eq!(product.numerator, 15);
    assert_eq!(product.denominator, 8);
    assert_eq!(product.ceil(), 2);
}

#[test]
fn pointer_lends_its_rc() {
    use_borrowed(&Pointer(Rc::new(11u32)));
}

fn use_borrowed(pointer: &Pointer<u32>) {
    let lent: &Rc<u32> = std::borrow::Borrow::borrow(pointer);
    assert!(Rc::ptr_eq(lent, &pointer.0));
    assert_eq!(**lent, 11);
}
