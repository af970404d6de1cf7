//! Assorted helpers.

use std::borrow::Borrow;
use std::hash::Hash;
use std::hash::Hasher;
use std::ops::Mul;
use std::rc::Rc;
use vstd::prelude::*;
use vstd::std_specs::cmp::PartialEqSpecImpl;
use vstd::std_specs::ops::MulSpec;
use vstd::std_specs::ops::MulSpecImpl;
use vstd::utf8::decode_utf8;
use vstd::utf8::valid_utf8;

verus! {

/// Whether `idx` is the place of the first item of `items` that `pred` accepts:
/// it said yes there, and no everywhere before.
pub open spec fn first_match<T, F: Fn(&T) -> bool>(items: Seq<T>, pred: F, idx: int) -> bool {
    &&& 0 <= idx < items.len()
    &&& call_ensures(pred, (&items[idx],), true)
    &&& forall|j: int| 0 <= j < idx ==> call_ensures(pred, (&#[trigger] items[j],), false)
}

/// Removes the first matching item.
pub fn vec_remove<T, F: Fn(&T) -> bool>(v: &mut Vec<T>, pred: F) -> (removed: Option<T>)
    requires
        forall|i: int| 0 <= i < old(v)@.len() ==> call_requires(pred, (&#[trigger] old(v)@[i],)),
    ensures
        match removed {
            Some(item) => exists|idx: int|
                first_match(old(v)@, pred, idx) && item == old(v)@[idx] && final(v)@ == old(
                    v,
                )@.remove(idx),
            None => final(v)@ == old(v)@ && forall|j: int|
                0 <= j < old(v)@.len() ==> call_ensures(pred, (&#[trigger] old(v)@[j],), false),
        },
{
    let mut idx: usize = 0;
    while idx < v.len()
        invariant
            *v == *old(v),
            idx <= v@.len(),
            forall|i: int| 0 <= i < v@.len() ==> call_requires(pred, (&#[trigger] v@[i],)),
            forall|j: int| 0 <= j < idx ==> call_ensures(pred, (&#[trigger] v@[j],), false),
        decreases v@.len() - idx,
    {
        if pred(&v[idx]) {
            assert(first_match(old(v)@, pred, idx as int));
            let item = v.remove(idx);
            return Some(item);
        }
        idx += 1;
    }
    None
}

/// The error of the standard library for bytes which are no UTF-8.
#[verifier::external_type_specification]
#[verifier::external_body]
pub struct ExUtf8Error(std::str::Utf8Error);

/// `std::str::from_utf8` of the standard library.
/// The contract claims that it takes exactly the byte strings which are UTF-8,
/// and that the text is what the bytes encode.
#[verifier::external_body]
pub(crate) fn str_from_utf8(bytes: &[u8]) -> (text: Result<&str, std::str::Utf8Error>)
    ensures
        text is Ok <==> valid_utf8(bytes@),
        text is Ok ==> text->Ok_0@ == decode_utf8(bytes@),
{
    std::str::from_utf8(bytes)
}

/// Clones the underlying data structure, like ToOwned.
pub trait CloneOwned {
    type Owned;

    fn clone_owned(&self) -> Self::Owned;
}

/// Division which rounds up whatever does not come out even.
pub trait DivCeil<Rhs = Self>: Sized {
    type Output;

    /// Whether the division can be carried out.
    spec fn divides(self, rhs: Rhs) -> bool;

    /// The quotient, rounded.
    spec fn quotient_ceil(self, rhs: Rhs) -> Self::Output;

    fn div_ceil(self, rhs: Rhs) -> (quotient: Self::Output)
        requires
            self.divides(rhs),
        ensures
            quotient == self.quotient_ceil(rhs),
    ;
}

/// The quotient of the division which cuts off the fraction,
/// as the machine divides: -7 by 2 gives -3.
pub open spec fn truncated_quotient(dividend: int, divisor: int) -> int
    recommends
        divisor != 0,
{
    if dividend >= 0 {
        dividend / divisor
    } else {
        -((-dividend) / divisor)
    }
}

/// What the division which cuts off the fraction leaves over:
/// -7 by 2 leaves -1.
pub open spec fn truncated_remainder(dividend: int, divisor: int) -> int
    recommends
        divisor != 0,
{
    if dividend >= 0 {
        dividend % divisor
    } else {
        -((-dividend) % divisor)
    }
}

/// The quotient cut off, and stepped up by one where the division leaves a remainder.
/// For a dividend of zero or more and a divisor above zero this is the quotient rounded up.
/// Where the true quotient is negative and no whole number,
/// it comes out one too high: -7 by 2 gives -2.
pub open spec fn stepped_quotient(dividend: int, divisor: int) -> int
    recommends
        divisor != 0,
{
    if truncated_remainder(dividend, divisor) == 0 {
        truncated_quotient(dividend, divisor)
    } else {
        truncated_quotient(dividend, divisor) + 1
    }
}

/// Neither the quotient nor the remainder of a division is larger in size
/// than what gets divided, nor the remainder than what divides.
/// Dividing by anything but one and minus one at least halves the size,
/// and only such a division can leave a remainder.
proof fn quotient_and_remainder_are_bounded(dividend: int, divisor: int)
    requires
        dividend >= 0,
        divisor != 0,
    ensures
        -dividend <= dividend / divisor <= dividend,
        0 <= dividend % divisor <= dividend,
        divisor > 0 ==> dividend % divisor < divisor,
        divisor < 0 ==> dividend % divisor < -divisor,
        divisor != 1 && divisor != -1 ==> -dividend <= 2 * (dividend / divisor) <= dividend,
        dividend % divisor != 0 ==> divisor != 1 && divisor != -1,
{
    let q = dividend / divisor;
    let r = dividend % divisor;
    vstd::arithmetic::div_mod::lemma_fundamental_div_mod(dividend, divisor);
    if divisor > 0 {
        vstd::arithmetic::div_mod::lemma_mod_pos_bound(dividend, divisor);
        assert(0 <= q <= dividend && r <= dividend) by (nonlinear_arith)
            requires
                dividend == divisor * q + r,
                0 <= r < divisor,
                divisor >= 1,
                dividend >= 0,
        ;
        if divisor >= 2 {
            assert(0 <= 2 * q <= dividend) by (nonlinear_arith)
                requires
                    dividend == divisor * q + r,
                    0 <= r < divisor,
                    divisor >= 2,
                    dividend >= 0,
            ;
        }
    } else {
        assert(0 <= r < -divisor) by (nonlinear_arith)
            requires
                r == dividend % divisor,
                divisor < 0,
        ;
        assert(-dividend <= q <= 0 && r <= dividend) by (nonlinear_arith)
            requires
                dividend == divisor * q + r,
                0 <= r < -divisor,
                divisor <= -1,
                dividend >= 0,
        ;
        if divisor <= -2 {
            assert(-dividend <= 2 * q <= 0) by (nonlinear_arith)
                requires
                    dividend == divisor * q + r,
                    0 <= r < -divisor,
                    divisor <= -2,
                    dividend >= 0,
            ;
        }
    }
}

impl DivCeil for i32 {
    type Output = i32;

    /// No division by zero, and none whose result is beyond the largest number.
    open spec fn divides(self, rhs: i32) -> bool {
        rhs != 0 && !(self == i32::MIN && rhs == -1)
    }

    open spec fn quotient_ceil(self, rhs: i32) -> i32 {
        stepped_quotient(self as int, rhs as int) as i32
    }

    fn div_ceil(self, other: i32) -> (quotient: i32)
        ensures
            quotient == stepped_quotient(self as int, other as int),
            self >= 0 && other > 0 ==> quotient * other >= self > (quotient - 1) * other,
    {
        let d = self / other;
        let m = self % other;
        proof {
            if self >= 0 {
                quotient_and_remainder_are_bounded(self as int, other as int);
            } else {
                quotient_and_remainder_are_bounded(-(self as int), other as int);
            }
            if self >= 0 && other > 0 {
                vstd::arithmetic::div_mod::lemma_fundamental_div_mod(self as int, other as int);
                vstd::arithmetic::div_mod::lemma_mod_pos_bound(self as int, other as int);
                let q = self as int / other as int;
                let r = self as int % other as int;
                assert(q * other == other * q) by (nonlinear_arith);
                assert((q + 1) * other == q * other + other) by (nonlinear_arith);
                assert((q - 1) * other == q * other - other) by (nonlinear_arith);
            }
        }
        if m == 0 {
            d
        } else {
            d + 1
        }
    }
}

/// A fraction of a whole number of parts.
#[derive(Debug, Clone, Copy)]
pub struct Rational<T> {
    pub numerator: T,
    pub denominator: u32,
}

impl<U, T: DivCeil<i32, Output = U>> Rational<T> {
    /// Whether the fraction can be rounded: the denominator has to be a count that `i32` holds,
    /// and the numerator has to take it as a divisor.
    pub open spec fn can_round(self) -> bool {
        self.denominator <= i32::MAX && self.numerator.divides(self.denominator as i32)
    }

    pub fn ceil(self) -> (rounded: U)
        requires
            self.can_round(),
        ensures
            rounded == self.numerator.quotient_ceil(self.denominator as i32),
    {
        self.numerator.div_ceil(self.denominator as i32)
    }
}

impl<T: Mul<i32, Output = T>> Mul<i32> for Rational<T> {
    type Output = Self;

    fn mul(self, m: i32) -> (product: Self) {
        Self { numerator: self.numerator * m, denominator: self.denominator }
    }
}

impl<T: Mul<i32, Output = T>> MulSpecImpl<i32> for Rational<T> {
    open spec fn obeys_mul_spec() -> bool {
        <T as MulSpec<i32>>::obeys_mul_spec()
    }

    open spec fn mul_req(self, m: i32) -> bool {
        self.numerator.mul_req(m)
    }

    /// The numerator takes the factor, the denominator stays.
    open spec fn mul_spec(self, m: i32) -> Self {
        Rational { numerator: self.numerator.mul_spec(m), denominator: self.denominator }
    }
}

impl<U, T: Mul<U, Output = T>> Mul<Rational<U>> for Rational<T> {
    type Output = Self;

    fn mul(self, m: Rational<U>) -> (product: Self) {
        Self {
            numerator: self.numerator * m.numerator,
            denominator: self.denominator * m.denominator,
        }
    }
}

impl<U, T: Mul<U, Output = T>> MulSpecImpl<Rational<U>> for Rational<T> {
    open spec fn obeys_mul_spec() -> bool {
        <T as MulSpec<U>>::obeys_mul_spec()
    }

    /// The product of the denominators must not be beyond the largest number.
    open spec fn mul_req(self, m: Rational<U>) -> bool {
        self.numerator.mul_req(m.numerator) && self.denominator * m.denominator <= u32::MAX
    }

    /// Numerator times numerator, denominator times denominator.
    open spec fn mul_spec(self, m: Rational<U>) -> Self {
        Rational {
            numerator: self.numerator.mul_spec(m.numerator),
            denominator: (self.denominator * m.denominator) as u32,
        }
    }
}

/// Compares pointers but not internal values of Rc
pub struct Pointer<T>(pub Rc<T>);

impl<T> Pointer<T> {
    pub fn new(value: T) -> (pointer: Self)
        ensures
            *pointer.0 == value,
    {
        Pointer(Rc::new(value))
    }
}

/// `Rc::ptr_eq` of the standard library: whether both point to the same allocation.
/// The contract claims no more than that one allocation holds one value.
#[verifier::external_body]
fn rc_ptr_eq<T>(this: &Rc<T>, other: &Rc<T>) -> (same: bool)
    ensures
        same ==> *this == *other,
{
    Rc::ptr_eq(this, other)
}

impl<T> PartialEq for Pointer<T> {
    fn eq(&self, other: &Pointer<T>) -> (same: bool)
        ensures
            same ==> *self.0 == *other.0,
    {
        rc_ptr_eq(&self.0, &other.0)
    }
}

impl<T> PartialEqSpecImpl for Pointer<T> {
    /// Which pointers are equal is not a question of their values,
    /// so there is nothing to say about it on the level of values.
    open spec fn obeys_eq_spec() -> bool {
        false
    }

    open spec fn eq_spec(&self, other: &Pointer<T>) -> bool {
        *self.0 == *other.0
    }
}

impl<T> Eq for Pointer<T> {

}

impl<T> Hash for Pointer<T> {
    /// Feeds the address of the allocation to the hasher, by `std::ptr::hash`:
    /// pointers to one allocation hash alike, whatever the value.
    #[verifier::external_body]
    fn hash<H: Hasher>(&self, state: &mut H) {
        std::ptr::hash(&*self.0, state)
    }
}

impl<T> Borrow<Rc<T>> for Pointer<T> {
    /// Lends the pointer which is inside.
    fn borrow(&self) -> &Rc<T>
        returns
            &self.0,
    {
        &self.0
    }
}

impl<T> Clone for Pointer<T> {
    fn clone(&self) -> (copy: Self)
        ensures
            *copy.0 == *self.0,
    {
        Pointer(self.0.clone())
    }
}

pub trait WarningHandler {
    /// Handle a warning
    fn handle(&mut self, warning: &str);
}

/// Repeats all the items forever, each alongside the number of the cycle it is in,
/// and returns as many from the start as are asked for.
pub fn cycle_count<T: Copy>(items: &Vec<T>, count: usize) -> (counted: Vec<(T, usize)>)
    requires
        items@.len() > 0,
    ensures
        counted@.len() == count,
        forall|k: int|
            0 <= k < count ==> #[trigger] counted@[k] == (
                items@[k % items@.len() as int],
                (k / items@.len() as int) as usize,
            ),
{
    let mut counted: Vec<(T, usize)> = Vec::new();
    let mut cycle: usize = 0;
    let mut idx: usize = 0;
    while counted.len() < count
        invariant
            items@.len() > 0,
            counted@.len() <= count,
            idx < items@.len(),
            counted@.len() == cycle * items@.len() + idx,
            forall|k: int|
                0 <= k < counted@.len() ==> #[trigger] counted@[k] == (
                    items@[k % items@.len() as int],
                    (k / items@.len() as int) as usize,
                ),
        decreases count - counted@.len(),
    {
        proof {
            let n = items@.len() as int;
            let k = counted@.len() as int;
            vstd::arithmetic::div_mod::lemma_fundamental_div_mod_converse(
                k,
                n,
                cycle as int,
                idx as int,
            );
        }
        counted.push((items[idx], cycle));
        idx += 1;
        if idx == items.len() {
            idx = 0;
            assert(cycle * items@.len() + items@.len() == (cycle + 1) * items@.len())
                by (nonlinear_arith);
            assert((cycle + 1) * items@.len() >= cycle + 1) by (nonlinear_arith)
                requires
                    items@.len() > 0,
            ;
            cycle += 1;
        }
    }
    counted
}

} // verus!
