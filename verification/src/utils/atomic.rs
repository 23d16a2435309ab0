//! Value cells: a cell holds one value that is read as a snapshot and replaced
//! as a whole. The integer cells add fetch-and-modify operations, each of which
//! stores the new value and hands back the one that was there before.
//!
//! A cell has one owner at a time: every operation that changes it takes it by
//! `&mut`. Whoever shares the owner between tasks puts it behind a lock.

use vstd::prelude::*;
use vstd::std_specs::convert::FromSpecImpl;

verus! {

/// A cell whose value can be read and replaced.
pub trait AtomicValue: Sized {
    type Value;

    /// The value that the cell holds.
    spec fn value(&self) -> Self::Value;

    /// A snapshot of the value.
    fn val(&self) -> (v: Self::Value)
        ensures
            v == self.value(),
    ;

    /// Replaces the value.
    fn set(&mut self, val: Self::Value)
        ensures
            final(self).value() == val,
    ;
}

/// Fetch-and-modify arithmetic. Every operation stores what its spec function
/// makes of the value held and of `val`, and returns the value held before.
/// Sums and differences wrap around at the bounds of the type.
pub trait AtomicOperation: AtomicValue {
    /// The sum, wrapped around.
    spec fn added(held: Self::Value, val: Self::Value) -> Self::Value;

    /// The larger of the two.
    spec fn maximum(held: Self::Value, val: Self::Value) -> Self::Value;

    /// The smaller of the two.
    spec fn minimum(held: Self::Value, val: Self::Value) -> Self::Value;

    /// The difference, wrapped around.
    spec fn subtracted(held: Self::Value, val: Self::Value) -> Self::Value;

    fn add(&mut self, val: Self::Value) -> (previous: Self::Value)
        ensures
            previous == old(self).value(),
            final(self).value() == Self::added(old(self).value(), val),
    ;

    fn max(&mut self, val: Self::Value) -> (previous: Self::Value)
        ensures
            previous == old(self).value(),
            final(self).value() == Self::maximum(old(self).value(), val),
    ;

    fn min(&mut self, val: Self::Value) -> (previous: Self::Value)
        ensures
            previous == old(self).value(),
            final(self).value() == Self::minimum(old(self).value(), val),
    ;

    fn sub(&mut self, val: Self::Value) -> (previous: Self::Value)
        ensures
            previous == old(self).value(),
            final(self).value() == Self::subtracted(old(self).value(), val),
    ;
}

/// Fetch-and-modify bit operations. Every operation stores what its spec
/// function makes of the value held and of `val`, and returns the value held
/// before.
pub trait AtomicBitOperation: AtomicValue {
    /// The bits set in both.
    spec fn anded(held: Self::Value, val: Self::Value) -> Self::Value;

    /// The bits not set in both.
    spec fn nanded(held: Self::Value, val: Self::Value) -> Self::Value;

    /// The bits set in either.
    spec fn ored(held: Self::Value, val: Self::Value) -> Self::Value;

    /// The bits set in exactly one.
    spec fn xored(held: Self::Value, val: Self::Value) -> Self::Value;

    fn and(&mut self, val: Self::Value) -> (previous: Self::Value)
        ensures
            previous == old(self).value(),
            final(self).value() == Self::anded(old(self).value(), val),
    ;

    fn nand(&mut self, val: Self::Value) -> (previous: Self::Value)
        ensures
            previous == old(self).value(),
            final(self).value() == Self::nanded(old(self).value(), val),
    ;

    fn or(&mut self, val: Self::Value) -> (previous: Self::Value)
        ensures
            previous == old(self).value(),
            final(self).value() == Self::ored(old(self).value(), val),
    ;

    fn xor(&mut self, val: Self::Value) -> (previous: Self::Value)
        ensures
            previous == old(self).value(),
            final(self).value() == Self::xored(old(self).value(), val),
    ;
}

/// A cell for any value that can be copied out.
#[derive(Debug)]
pub struct AtomicAny<T> {
    value: T,
}

/// A cell that always holds a value.
pub type Atomic<T> = AtomicAny<T>;

/// A cell that holds a value or nothing.
#[derive(Debug)]
pub struct AtomicOption<T> {
    value: Option<T>,
}

impl<T> Atomic<T> {
    /// A cell that holds `val`.
    pub fn new(val: T) -> (cell: Self)
        ensures
            cell.content() == val,
    {
        AtomicAny { value: val }
    }

    /// The value that the cell holds.
    pub closed spec fn content(&self) -> T {
        self.value
    }
}

impl<T> AtomicOption<T> {
    /// A cell that holds `val`.
    pub fn new(val: T) -> (cell: Self)
        ensures
            cell.content() == Some(val),
    {
        AtomicOption { value: Some(val) }
    }

    /// A cell that holds what `option` holds.
    pub fn from_option(option: Option<T>) -> (cell: Self)
        ensures
            cell.content() == option,
    {
        AtomicOption { value: option }
    }

    /// The value that the cell holds, if any.
    pub closed spec fn content(&self) -> Option<T> {
        self.value
    }
}

impl<T: Copy> AtomicValue for AtomicAny<T> {
    type Value = T;

    open spec fn value(&self) -> T {
        self.content()
    }

    fn val(&self) -> (v: T) {
        self.value
    }

    fn set(&mut self, val: T) {
        self.value = val;
    }
}

impl<T: Copy> AtomicValue for AtomicOption<T> {
    type Value = Option<T>;

    open spec fn value(&self) -> Option<T> {
        self.content()
    }

    fn val(&self) -> (v: Option<T>) {
        self.value
    }

    fn set(&mut self, val: Option<T>) {
        self.value = val;
    }
}

impl<T: Copy> Clone for AtomicAny<T> {
    fn clone(&self) -> (copy: Self)
        ensures
            copy.content() == self.content(),
    {
        AtomicAny { value: self.value }
    }
}

impl<T: Copy> Clone for AtomicOption<T> {
    fn clone(&self) -> (copy: Self)
        ensures
            copy.content() == self.content(),
    {
        AtomicOption { value: self.value }
    }
}

impl<T> Default for AtomicOption<T> {
    fn default() -> (cell: Self)
        ensures
            cell.content() == None::<T>,
    {
        AtomicOption { value: None }
    }
}

impl<T> From<T> for AtomicAny<T> {
    fn from(val: T) -> (cell: Self)
        ensures
            cell.content() == val,
    {
        AtomicAny { value: val }
    }
}

impl<T> FromSpecImpl<T> for AtomicAny<T> {
    open spec fn obeys_from_spec() -> bool {
        true
    }

    closed spec fn from_spec(val: T) -> Self {
        AtomicAny { value: val }
    }
}

impl<T> From<Option<T>> for AtomicOption<T> {
    fn from(val: Option<T>) -> (cell: Self)
        ensures
            cell.content() == val,
    {
        AtomicOption { value: val }
    }
}

impl<T> FromSpecImpl<Option<T>> for AtomicOption<T> {
    open spec fn obeys_from_spec() -> bool {
        true
    }

    closed spec fn from_spec(val: Option<T>) -> Self {
        AtomicOption { value: val }
    }
}

/// A cell for one `bool`.
#[derive(Debug)]
pub struct Bool {
    value: bool,
}

impl Bool {
    /// A cell that holds `val`.
    pub fn new(val: bool) -> (cell: Self)
        ensures
            cell.value() == val,
    {
        Bool { value: val }
    }
}

impl AtomicValue for Bool {
    type Value = bool;

    closed spec fn value(&self) -> bool {
        self.value
    }

    fn val(&self) -> (v: bool) {
        self.value
    }

    fn set(&mut self, val: bool) {
        self.value = val;
    }
}

impl Clone for Bool {
    fn clone(&self) -> (copy: Self)
        ensures
            copy.value() == self.value(),
    {
        Bool { value: self.value }
    }
}

impl Default for Bool {
    fn default() -> (cell: Self)
        ensures
            cell.value() == false,
    {
        Bool { value: false }
    }
}

impl From<bool> for Bool {
    fn from(val: bool) -> (cell: Self)
        ensures
            cell.value() == val,
    {
        Bool { value: val }
    }
}

impl FromSpecImpl<bool> for Bool {
    open spec fn obeys_from_spec() -> bool {
        true
    }

    closed spec fn from_spec(val: bool) -> Self {
        Bool { value: val }
    }
}

impl Bool {
    /// Whether the cell holds `true`.
    pub fn is_true(&self) -> (b: bool)
        ensures
            b == self.value(),
    {
        self.val()
    }

    /// Whether the cell holds `false`.
    pub fn is_false(&self) -> (b: bool)
        ensures
            b == !self.value(),
    {
        !self.is_true()
    }

    /// Stores `false`.
    pub fn set_false(&mut self)
        ensures
            !final(self).value(),
    {
        self.set(false)
    }

    /// Stores `true`.
    pub fn set_true(&mut self)
        ensures
            final(self).value(),
    {
        self.set(true)
    }

    /// Stores the negation of the value held.
    pub fn toggle(&mut self)
        ensures
            final(self).value() == !old(self).value(),
    {
        let current: bool = self.val();
        self.set(!current)
    }
}

/// A cell for one `i8`.
#[derive(Debug)]
pub struct I8 {
    value: i8,
}

impl I8 {
    /// A cell that holds `val`.
    pub fn new(val: i8) -> (cell: Self)
        ensures
            cell.value() == val,
    {
        I8 { value: val }
    }
}

impl AtomicValue for I8 {
    type Value = i8;

    closed spec fn value(&self) -> i8 {
        self.value
    }

    fn val(&self) -> (v: i8) {
        self.value
    }

    fn set(&mut self, val: i8) {
        self.value = val;
    }
}

impl Clone for I8 {
    fn clone(&self) -> (copy: Self)
        ensures
            copy.value() == self.value(),
    {
        I8 { value: self.value }
    }
}

impl Default for I8 {
    fn default() -> (cell: Self)
        ensures
            cell.value() == 0,
    {
        I8 { value: 0 }
    }
}

impl From<i8> for I8 {
    fn from(val: i8) -> (cell: Self)
        ensures
            cell.value() == val,
    {
        I8 { value: val }
    }
}

impl FromSpecImpl<i8> for I8 {
    open spec fn obeys_from_spec() -> bool {
        true
    }

    closed spec fn from_spec(val: i8) -> Self {
        I8 { value: val }
    }
}

impl AtomicOperation for I8 {
    open spec fn added(held: i8, val: i8) -> i8 {
        held.wrapping_add(val)
    }

    open spec fn maximum(held: i8, val: i8) -> i8 {
        if held >= val {
            held
        } else {
            val
        }
    }

    open spec fn minimum(held: i8, val: i8) -> i8 {
        if held <= val {
            held
        } else {
            val
        }
    }

    open spec fn subtracted(held: i8, val: i8) -> i8 {
        held.wrapping_sub(val)
    }

    fn add(&mut self, val: i8) -> (previous: i8) {
        let previous: i8 = self.value;
        self.value = previous.wrapping_add(val);
        previous
    }

    fn max(&mut self, val: i8) -> (previous: i8) {
        let previous: i8 = self.value;
        if val > previous {
            self.value = val;
        }
        previous
    }

    fn min(&mut self, val: i8) -> (previous: i8) {
        let previous: i8 = self.value;
        if val < previous {
            self.value = val;
        }
        previous
    }

    fn sub(&mut self, val: i8) -> (previous: i8) {
        let previous: i8 = self.value;
        self.value = previous.wrapping_sub(val);
        previous
    }
}

impl AtomicBitOperation for I8 {
    open spec fn anded(held: i8, val: i8) -> i8 {
        held & val
    }

    open spec fn nanded(held: i8, val: i8) -> i8 {
        !(held & val)
    }

    open spec fn ored(held: i8, val: i8) -> i8 {
        held | val
    }

    open spec fn xored(held: i8, val: i8) -> i8 {
        held ^ val
    }

    fn and(&mut self, val: i8) -> (previous: i8) {
        let previous: i8 = self.value;
        self.value = previous & val;
        previous
    }

    fn nand(&mut self, val: i8) -> (previous: i8) {
        let previous: i8 = self.value;
        self.value = !(previous & val);
        previous
    }

    fn or(&mut self, val: i8) -> (previous: i8) {
        let previous: i8 = self.value;
        self.value = previous | val;
        previous
    }

    fn xor(&mut self, val: i8) -> (previous: i8) {
        let previous: i8 = self.value;
        self.value = previous ^ val;
        previous
    }
}

/// A cell for one `u8`.
#[derive(Debug)]
pub struct U8 {
    value: u8,
}

impl U8 {
    /// A cell that holds `val`.
    pub fn new(val: u8) -> (cell: Self)
        ensures
            cell.value() == val,
    {
        U8 { value: val }
    }
}

impl AtomicValue for U8 {
    type Value = u8;

    closed spec fn value(&self) -> u8 {
        self.value
    }

    fn val(&self) -> (v: u8) {
        self.value
    }

    fn set(&mut self, val: u8) {
        self.value = val;
    }
}

impl Clone for U8 {
    fn clone(&self) -> (copy: Self)
        ensures
            copy.value() == self.value(),
    {
        U8 { value: self.value }
    }
}

impl Default for U8 {
    fn default() -> (cell: Self)
        ensures
            cell.value() == 0,
    {
        U8 { value: 0 }
    }
}

impl From<u8> for U8 {
    fn from(val: u8) -> (cell: Self)
        ensures
            cell.value() == val,
    {
        U8 { value: val }
    }
}

impl FromSpecImpl<u8> for U8 {
    open spec fn obeys_from_spec() -> bool {
        true
    }

    closed spec fn from_spec(val: u8) -> Self {
        U8 { value: val }
    }
}

impl AtomicOperation for U8 {
    open spec fn added(held: u8, val: u8) -> u8 {
        held.wrapping_add(val)
    }

    open spec fn maximum(held: u8, val: u8) -> u8 {
        if held >= val {
            held
        } else {
            val
        }
    }

    open spec fn minimum(held: u8, val: u8) -> u8 {
        if held <= val {
            held
        } else {
            val
        }
    }

    open spec fn subtracted(held: u8, val: u8) -> u8 {
        held.wrapping_sub(val)
    }

    fn add(&mut self, val: u8) -> (previous: u8) {
        let previous: u8 = self.value;
        self.value = previous.wrapping_add(val);
        previous
    }

    fn max(&mut self, val: u8) -> (previous: u8) {
        let previous: u8 = self.value;
        if val > previous {
            self.value = val;
        }
        previous
    }

    fn min(&mut self, val: u8) -> (previous: u8) {
        let previous: u8 = self.value;
        if val < previous {
            self.value = val;
        }
        previous
    }

    fn sub(&mut self, val: u8) -> (previous: u8) {
        let previous: u8 = self.value;
        self.value = previous.wrapping_sub(val);
        previous
    }
}

impl AtomicBitOperation for U8 {
    open spec fn anded(held: u8, val: u8) -> u8 {
        held & val
    }

    open spec fn nanded(held: u8, val: u8) -> u8 {
        !(held & val)
    }

    open spec fn ored(held: u8, val: u8) -> u8 {
        held | val
    }

    open spec fn xored(held: u8, val: u8) -> u8 {
        held ^ val
    }

    fn and(&mut self, val: u8) -> (previous: u8) {
        let previous: u8 = self.value;
        self.value = previous & val;
        previous
    }

    fn nand(&mut self, val: u8) -> (previous: u8) {
        let previous: u8 = self.value;
        self.value = !(previous & val);
        previous
    }

    fn or(&mut self, val: u8) -> (previous: u8) {
        let previous: u8 = self.value;
        self.value = previous | val;
        previous
    }

    fn xor(&mut self, val: u8) -> (previous: u8) {
        let previous: u8 = self.value;
        self.value = previous ^ val;
        previous
    }
}

/// A cell for one `i16`.
#[derive(Debug)]
pub struct I16 {
    value: i16,
}

impl I16 {
    /// A cell that holds `val`.
    pub fn new(val: i16) -> (cell: Self)
        ensures
            cell.value() == val,
    {
        I16 { value: val }
    }
}

impl AtomicValue for I16 {
    type Value = i16;

    closed spec fn value(&self) -> i16 {
        self.value
    }

    fn val(&self) -> (v: i16) {
        self.value
    }

    fn set(&mut self, val: i16) {
        self.value = val;
    }
}

impl Clone for I16 {
    fn clone(&self) -> (copy: Self)
        ensures
            copy.value() == self.value(),
    {
        I16 { value: self.value }
    }
}

impl Default for I16 {
    fn default() -> (cell: Self)
        ensures
            cell.value() == 0,
    {
        I16 { value: 0 }
    }
}

impl From<i16> for I16 {
    fn from(val: i16) -> (cell: Self)
        ensures
            cell.value() == val,
    {
        I16 { value: val }
    }
}

impl FromSpecImpl<i16> for I16 {
    open spec fn obeys_from_spec() -> bool {
        true
    }

    closed spec fn from_spec(val: i16) -> Self {
        I16 { value: val }
    }
}

impl AtomicOperation for I16 {
    open spec fn added(held: i16, val: i16) -> i16 {
        held.wrapping_add(val)
    }

    open spec fn maximum(held: i16, val: i16) -> i16 {
        if held >= val {
            held
        } else {
            val
        }
    }

    open spec fn minimum(held: i16, val: i16) -> i16 {
        if held <= val {
            held
        } else {
            val
        }
    }

    open spec fn subtracted(held: i16, val: i16) -> i16 {
        held.wrapping_sub(val)
    }

    fn add(&mut self, val: i16) -> (previous: i16) {
        let previous: i16 = self.value;
        self.value = previous.wrapping_add(val);
        previous
    }

    fn max(&mut self, val: i16) -> (previous: i16) {
        let previous: i16 = self.value;
        if val > previous {
            self.value = val;
        }
        previous
    }

    fn min(&mut self, val: i16) -> (previous: i16) {
        let previous: i16 = self.value;
        if val < previous {
            self.value = val;
        }
        previous
    }

    fn sub(&mut self, val: i16) -> (previous: i16) {
        let previous: i16 = self.value;
        self.value = previous.wrapping_sub(val);
        previous
    }
}

impl AtomicBitOperation for I16 {
    open spec fn anded(held: i16, val: i16) -> i16 {
        held & val
    }

    open spec fn nanded(held: i16, val: i16) -> i16 {
        !(held & val)
    }

    open spec fn ored(held: i16, val: i16) -> i16 {
        held | val
    }

    open spec fn xored(held: i16, val: i16) -> i16 {
        held ^ val
    }

    fn and(&mut self, val: i16) -> (previous: i16) {
        let previous: i16 = self.value;
        self.value = previous & val;
        previous
    }

    fn nand(&mut self, val: i16) -> (previous: i16) {
        let previous: i16 = self.value;
        self.value = !(previous & val);
        previous
    }

    fn or(&mut self, val: i16) -> (previous: i16) {
        let previous: i16 = self.value;
        self.value = previous | val;
        previous
    }

    fn xor(&mut self, val: i16) -> (previous: i16) {
        let previous: i16 = self.value;
        self.value = previous ^ val;
        previous
    }
}

/// A cell for one `u16`.
#[derive(Debug)]
pub struct U16 {
    value: u16,
}

impl U16 {
    /// A cell that holds `val`.
    pub fn new(val: u16) -> (cell: Self)
        ensures
            cell.value() == val,
    {
        U16 { value: val }
    }
}

impl AtomicValue for U16 {
    type Value = u16;

    closed spec fn value(&self) -> u16 {
        self.value
    }

    fn val(&self) -> (v: u16) {
        self.value
    }

    fn set(&mut self, val: u16) {
        self.value = val;
    }
}

impl Clone for U16 {
    fn clone(&self) -> (copy: Self)
        ensures
            copy.value() == self.value(),
    {
        U16 { value: self.value }
    }
}

impl Default for U16 {
    fn default() -> (cell: Self)
        ensures
            cell.value() == 0,
    {
        U16 { value: 0 }
    }
}

impl From<u16> for U16 {
    fn from(val: u16) -> (cell: Self)
        ensures
            cell.value() == val,
    {
        U16 { value: val }
    }
}

impl FromSpecImpl<u16> for U16 {
    open spec fn obeys_from_spec() -> bool {
        true
    }

    closed spec fn from_spec(val: u16) -> Self {
        U16 { value: val }
    }
}

impl AtomicOperation for U16 {
    open spec fn added(held: u16, val: u16) -> u16 {
        held.wrapping_add(val)
    }

    open spec fn maximum(held: u16, val: u16) -> u16 {
        if held >= val {
            held
        } else {
            val
        }
    }

    open spec fn minimum(held: u16, val: u16) -> u16 {
        if held <= val {
            held
        } else {
            val
        }
    }

    open spec fn subtracted(held: u16, val: u16) -> u16 {
        held.wrapping_sub(val)
    }

    fn add(&mut self, val: u16) -> (previous: u16) {
        let previous: u16 = self.value;
        self.value = previous.wrapping_add(val);
        previous
    }

    fn max(&mut self, val: u16) -> (previous: u16) {
        let previous: u16 = self.value;
        if val > previous {
            self.value = val;
        }
        previous
    }

    fn min(&mut self, val: u16) -> (previous: u16) {
        let previous: u16 = self.value;
        if val < previous {
            self.value = val;
        }
        previous
    }

    fn sub(&mut self, val: u16) -> (previous: u16) {
        let previous: u16 = self.value;
        self.value = previous.wrapping_sub(val);
        previous
    }
}

impl AtomicBitOperation for U16 {
    open spec fn anded(held: u16, val: u16) -> u16 {
        held & val
    }

    open spec fn nanded(held: u16, val: u16) -> u16 {
        !(held & val)
    }

    open spec fn ored(held: u16, val: u16) -> u16 {
        held | val
    }

    open spec fn xored(held: u16, val: u16) -> u16 {
        held ^ val
    }

    fn and(&mut self, val: u16) -> (previous: u16) {
        let previous: u16 = self.value;
        self.value = previous & val;
        previous
    }

    fn nand(&mut self, val: u16) -> (previous: u16) {
        let previous: u16 = self.value;
        self.value = !(previous & val);
        previous
    }

    fn or(&mut self, val: u16) -> (previous: u16) {
        let previous: u16 = self.value;
        self.value = previous | val;
        previous
    }

    fn xor(&mut self, val: u16) -> (previous: u16) {
        let previous: u16 = self.value;
        self.value = previous ^ val;
        previous
    }
}

/// A cell for one `i32`.
#[derive(Debug)]
pub struct I32 {
    value: i32,
}

impl I32 {
    /// A cell that holds `val`.
    pub fn new(val: i32) -> (cell: Self)
        ensures
            cell.value() == val,
    {
        I32 { value: val }
    }
}

impl AtomicValue for I32 {
    type Value = i32;

    closed spec fn value(&self) -> i32 {
        self.value
    }

    fn val(&self) -> (v: i32) {
        self.value
    }

    fn set(&mut self, val: i32) {
        self.value = val;
    }
}

impl Clone for I32 {
    fn clone(&self) -> (copy: Self)
        ensures
            copy.value() == self.value(),
    {
        I32 { value: self.value }
    }
}

impl Default for I32 {
    fn default() -> (cell: Self)
        ensures
            cell.value() == 0,
    {
        I32 { value: 0 }
    }
}

impl From<i32> for I32 {
    fn from(val: i32) -> (cell: Self)
        ensures
            cell.value() == val,
    {
        I32 { value: val }
    }
}

impl FromSpecImpl<i32> for I32 {
    open spec fn obeys_from_spec() -> bool {
        true
    }

    closed spec fn from_spec(val: i32) -> Self {
        I32 { value: val }
    }
}

impl AtomicOperation for I32 {
    open spec fn added(held: i32, val: i32) -> i32 {
        held.wrapping_add(val)
    }

    open spec fn maximum(held: i32, val: i32) -> i32 {
        if held >= val {
            held
        } else {
            val
        }
    }

    open spec fn minimum(held: i32, val: i32) -> i32 {
        if held <= val {
            held
        } else {
            val
        }
    }

    open spec fn subtracted(held: i32, val: i32) -> i32 {
        held.wrapping_sub(val)
    }

    fn add(&mut self, val: i32) -> (previous: i32) {
        let previous: i32 = self.value;
        self.value = previous.wrapping_add(val);
        previous
    }

    fn max(&mut self, val: i32) -> (previous: i32) {
        let previous: i32 = self.value;
        if val > previous {
            self.value = val;
        }
        previous
    }

    fn min(&mut self, val: i32) -> (previous: i32) {
        let previous: i32 = self.value;
        if val < previous {
            self.value = val;
        }
        previous
    }

    fn sub(&mut self, val: i32) -> (previous: i32) {
        let previous: i32 = self.value;
        self.value = previous.wrapping_sub(val);
        previous
    }
}

impl AtomicBitOperation for I32 {
    open spec fn anded(held: i32, val: i32) -> i32 {
        held & val
    }

    open spec fn nanded(held: i32, val: i32) -> i32 {
        !(held & val)
    }

    open spec fn ored(held: i32, val: i32) -> i32 {
        held | val
    }

    open spec fn xored(held: i32, val: i32) -> i32 {
        held ^ val
    }

    fn and(&mut self, val: i32) -> (previous: i32) {
        let previous: i32 = self.value;
        self.value = previous & val;
        previous
    }

    fn nand(&mut self, val: i32) -> (previous: i32) {
        let previous: i32 = self.value;
        self.value = !(previous & val);
        previous
    }

    fn or(&mut self, val: i32) -> (previous: i32) {
        let previous: i32 = self.value;
        self.value = previous | val;
        previous
    }

    fn xor(&mut self, val: i32) -> (previous: i32) {
        let previous: i32 = self.value;
        self.value = previous ^ val;
        previous
    }
}

/// A cell for one `u32`.
#[derive(Debug)]
pub struct U32 {
    value: u32,
}

impl U32 {
    /// A cell that holds `val`.
    pub fn new(val: u32) -> (cell: Self)
        ensures
            cell.value() == val,
    {
        U32 { value: val }
    }
}

impl AtomicValue for U32 {
    type Value = u32;

    closed spec fn value(&self) -> u32 {
        self.value
    }

    fn val(&self) -> (v: u32) {
        self.value
    }

    fn set(&mut self, val: u32) {
        self.value = val;
    }
}

impl Clone for U32 {
    fn clone(&self) -> (copy: Self)
        ensures
            copy.value() == self.value(),
    {
        U32 { value: self.value }
    }
}

impl Default for U32 {
    fn default() -> (cell: Self)
        ensures
            cell.value() == 0,
    {
        U32 { value: 0 }
    }
}

impl From<u32> for U32 {
    fn from(val: u32) -> (cell: Self)
        ensures
            cell.value() == val,
    {
        U32 { value: val }
    }
}

impl FromSpecImpl<u32> for U32 {
    open spec fn obeys_from_spec() -> bool {
        true
    }

    closed spec fn from_spec(val: u32) -> Self {
        U32 { value: val }
    }
}

impl AtomicOperation for U32 {
    open spec fn added(held: u32, val: u32) -> u32 {
        held.wrapping_add(val)
    }

    open spec fn maximum(held: u32, val: u32) -> u32 {
        if held >= val {
            held
        } else {
            val
        }
    }

    open spec fn minimum(held: u32, val: u32) -> u32 {
        if held <= val {
            held
        } else {
            val
        }
    }

    open spec fn subtracted(held: u32, val: u32) -> u32 {
        held.wrapping_sub(val)
    }

    fn add(&mut self, val: u32) -> (previous: u32) {
        let previous: u32 = self.value;
        self.value = previous.wrapping_add(val);
        previous
    }

    fn max(&mut self, val: u32) -> (previous: u32) {
        let previous: u32 = self.value;
        if val > previous {
            self.value = val;
        }
        previous
    }

    fn min(&mut self, val: u32) -> (previous: u32) {
        let previous: u32 = self.value;
        if val < previous {
            self.value = val;
        }
        previous
    }

    fn sub(&mut self, val: u32) -> (previous: u32) {
        let previous: u32 = self.value;
        self.value = previous.wrapping_sub(val);
        previous
    }
}

impl AtomicBitOperation for U32 {
    open spec fn anded(held: u32, val: u32) -> u32 {
        held & val
    }

    open spec fn nanded(held: u32, val: u32) -> u32 {
        !(held & val)
    }

    open spec fn ored(held: u32, val: u32) -> u32 {
        held | val
    }

    open spec fn xored(held: u32, val: u32) -> u32 {
        held ^ val
    }

    fn and(&mut self, val: u32) -> (previous: u32) {
        let previous: u32 = self.value;
        self.value = previous & val;
        previous
    }

    fn nand(&mut self, val: u32) -> (previous: u32) {
        let previous: u32 = self.value;
        self.value = !(previous & val);
        previous
    }

    fn or(&mut self, val: u32) -> (previous: u32) {
        let previous: u32 = self.value;
        self.value = previous | val;
        previous
    }

    fn xor(&mut self, val: u32) -> (previous: u32) {
        let previous: u32 = self.value;
        self.value = previous ^ val;
        previous
    }
}

/// A cell for one `i64`.
#[derive(Debug)]
pub struct I64 {
    value: i64,
}

impl I64 {
    /// A cell that holds `val`.
    pub fn new(val: i64) -> (cell: Self)
        ensures
            cell.value() == val,
    {
        I64 { value: val }
    }
}

impl AtomicValue for I64 {
    type Value = i64;

    closed spec fn value(&self) -> i64 {
        self.value
    }

    fn val(&self) -> (v: i64) {
        self.value
    }

    fn set(&mut self, val: i64) {
        self.value = val;
    }
}

impl Clone for I64 {
    fn clone(&self) -> (copy: Self)
        ensures
            copy.value() == self.value(),
    {
        I64 { value: self.value }
    }
}

impl Default for I64 {
    fn default() -> (cell: Self)
        ensures
            cell.value() == 0,
    {
        I64 { value: 0 }
    }
}

impl From<i64> for I64 {
    fn from(val: i64) -> (cell: Self)
        ensures
            cell.value() == val,
    {
        I64 { value: val }
    }
}

impl FromSpecImpl<i64> for I64 {
    open spec fn obeys_from_spec() -> bool {
        true
    }

    closed spec fn from_spec(val: i64) -> Self {
        I64 { value: val }
    }
}

impl AtomicOperation for I64 {
    open spec fn added(held: i64, val: i64) -> i64 {
        held.wrapping_add(val)
    }

    open spec fn maximum(held: i64, val: i64) -> i64 {
        if held >= val {
            held
        } else {
            val
        }
    }

    open spec fn minimum(held: i64, val: i64) -> i64 {
        if held <= val {
            held
        } else {
            val
        }
    }

    open spec fn subtracted(held: i64, val: i64) -> i64 {
        held.wrapping_sub(val)
    }

    fn add(&mut self, val: i64) -> (previous: i64) {
        let previous: i64 = self.value;
        self.value = previous.wrapping_add(val);
        previous
    }

    fn max(&mut self, val: i64) -> (previous: i64) {
        let previous: i64 = self.value;
        if val > previous {
            self.value = val;
        }
        previous
    }

    fn min(&mut self, val: i64) -> (previous: i64) {
        let previous: i64 = self.value;
        if val < previous {
            self.value = val;
        }
        previous
    }

    fn sub(&mut self, val: i64) -> (previous: i64) {
        let previous: i64 = self.value;
        self.value = previous.wrapping_sub(val);
        previous
    }
}

impl AtomicBitOperation for I64 {
    open spec fn anded(held: i64, val: i64) -> i64 {
        held & val
    }

    open spec fn nanded(held: i64, val: i64) -> i64 {
        !(held & val)
    }

    open spec fn ored(held: i64, val: i64) -> i64 {
        held | val
    }

    open spec fn xored(held: i64, val: i64) -> i64 {
        held ^ val
    }

    fn and(&mut self, val: i64) -> (previous: i64) {
        let previous: i64 = self.value;
        self.value = previous & val;
        previous
    }

    fn nand(&mut self, val: i64) -> (previous: i64) {
        let previous: i64 = self.value;
        self.value = !(previous & val);
        previous
    }

    fn or(&mut self, val: i64) -> (previous: i64) {
        let previous: i64 = self.value;
        self.value = previous | val;
        previous
    }

    fn xor(&mut self, val: i64) -> (previous: i64) {
        let previous: i64 = self.value;
        self.value = previous ^ val;
        previous
    }
}

/// A cell for one `u64`.
#[derive(Debug)]
pub struct U64 {
    value: u64,
}

impl U64 {
    /// A cell that holds `val`.
    pub fn new(val: u64) -> (cell: Self)
        ensures
            cell.value() == val,
    {
        U64 { value: val }
    }
}

impl AtomicValue for U64 {
    type Value = u64;

    closed spec fn value(&self) -> u64 {
        self.value
    }

    fn val(&self) -> (v: u64) {
        self.value
    }

    fn set(&mut self, val: u64) {
        self.value = val;
    }
}

impl Clone for U64 {
    fn clone(&self) -> (copy: Self)
        ensures
            copy.value() == self.value(),
    {
        U64 { value: self.value }
    }
}

impl Default for U64 {
    fn default() -> (cell: Self)
        ensures
            cell.value() == 0,
    {
        U64 { value: 0 }
    }
}

impl From<u64> for U64 {
    fn from(val: u64) -> (cell: Self)
        ensures
            cell.value() == val,
    {
        U64 { value: val }
    }
}

impl FromSpecImpl<u64> for U64 {
    open spec fn obeys_from_spec() -> bool {
        true
    }

    closed spec fn from_spec(val: u64) -> Self {
        U64 { value: val }
    }
}

impl AtomicOperation for U64 {
    open spec fn added(held: u64, val: u64) -> u64 {
        held.wrapping_add(val)
    }

    open spec fn maximum(held: u64, val: u64) -> u64 {
        if held >= val {
            held
        } else {
            val
        }
    }

    open spec fn minimum(held: u64, val: u64) -> u64 {
        if held <= val {
            held
        } else {
            val
        }
    }

    open spec fn subtracted(held: u64, val: u64) -> u64 {
        held.wrapping_sub(val)
    }

    fn add(&mut self, val: u64) -> (previous: u64) {
        let previous: u64 = self.value;
        self.value = previous.wrapping_add(val);
        previous
    }

    fn max(&mut self, val: u64) -> (previous: u64) {
        let previous: u64 = self.value;
        if val > previous {
            self.value = val;
        }
        previous
    }

    fn min(&mut self, val: u64) -> (previous: u64) {
        let previous: u64 = self.value;
        if val < previous {
            self.value = val;
        }
        previous
    }

    fn sub(&mut self, val: u64) -> (previous: u64) {
        let previous: u64 = self.value;
        self.value = previous.wrapping_sub(val);
        previous
    }
}

impl AtomicBitOperation for U64 {
    open spec fn anded(held: u64, val: u64) -> u64 {
        held & val
    }

    open spec fn nanded(held: u64, val: u64) -> u64 {
        !(held & val)
    }

    open spec fn ored(held: u64, val: u64) -> u64 {
        held | val
    }

    open spec fn xored(held: u64, val: u64) -> u64 {
        held ^ val
    }

    fn and(&mut self, val: u64) -> (previous: u64) {
        let previous: u64 = self.value;
        self.value = previous & val;
        previous
    }

    fn nand(&mut self, val: u64) -> (previous: u64) {
        let previous: u64 = self.value;
        self.value = !(previous & val);
        previous
    }

    fn or(&mut self, val: u64) -> (previous: u64) {
        let previous: u64 = self.value;
        self.value = previous | val;
        previous
    }

    fn xor(&mut self, val: u64) -> (previous: u64) {
        let previous: u64 = self.value;
        self.value = previous ^ val;
        previous
    }
}

/// A cell for one `isize`.
#[derive(Debug)]
pub struct Isize {
    value: isize,
}

impl Isize {
    /// A cell that holds `val`.
    pub fn new(val: isize) -> (cell: Self)
        ensures
            cell.value() == val,
    {
        Isize { value: val }
    }
}

impl AtomicValue for Isize {
    type Value = isize;

    closed spec fn value(&self) -> isize {
        self.value
    }

    fn val(&self) -> (v: isize) {
        self.value
    }

    fn set(&mut self, val: isize) {
        self.value = val;
    }
}

impl Clone for Isize {
    fn clone(&self) -> (copy: Self)
        ensures
            copy.value() == self.value(),
    {
        Isize { value: self.value }
    }
}

impl Default for Isize {
    fn default() -> (cell: Self)
        ensures
            cell.value() == 0,
    {
        Isize { value: 0 }
    }
}

impl From<isize> for Isize {
    fn from(val: isize) -> (cell: Self)
        ensures
            cell.value() == val,
    {
        Isize { value: val }
    }
}

impl FromSpecImpl<isize> for Isize {
    open spec fn obeys_from_spec() -> bool {
        true
    }

    closed spec fn from_spec(val: isize) -> Self {
        Isize { value: val }
    }
}

impl AtomicOperation for Isize {
    open spec fn added(held: isize, val: isize) -> isize {
        held.wrapping_add(val)
    }

    open spec fn maximum(held: isize, val: isize) -> isize {
        if held >= val {
            held
        } else {
            val
        }
    }

    open spec fn minimum(held: isize, val: isize) -> isize {
        if held <= val {
            held
        } else {
            val
        }
    }

    open spec fn subtracted(held: isize, val: isize) -> isize {
        held.wrapping_sub(val)
    }

    fn add(&mut self, val: isize) -> (previous: isize) {
        let previous: isize = self.value;
        self.value = previous.wrapping_add(val);
        previous
    }

    fn max(&mut self, val: isize) -> (previous: isize) {
        let previous: isize = self.value;
        if val > previous {
            self.value = val;
        }
        previous
    }

    fn min(&mut self, val: isize) -> (previous: isize) {
        let previous: isize = self.value;
        if val < previous {
            self.value = val;
        }
        previous
    }

    fn sub(&mut self, val: isize) -> (previous: isize) {
        let previous: isize = self.value;
        self.value = previous.wrapping_sub(val);
        previous
    }
}

impl AtomicBitOperation for Isize {
    open spec fn anded(held: isize, val: isize) -> isize {
        held & val
    }

    open spec fn nanded(held: isize, val: isize) -> isize {
        !(held & val)
    }

    open spec fn ored(held: isize, val: isize) -> isize {
        held | val
    }

    open spec fn xored(held: isize, val: isize) -> isize {
        held ^ val
    }

    fn and(&mut self, val: isize) -> (previous: isize) {
        let previous: isize = self.value;
        self.value = previous & val;
        previous
    }

    fn nand(&mut self, val: isize) -> (previous: isize) {
        let previous: isize = self.value;
        self.value = !(previous & val);
        previous
    }

    fn or(&mut self, val: isize) -> (previous: isize) {
        let previous: isize = self.value;
        self.value = previous | val;
        previous
    }

    fn xor(&mut self, val: isize) -> (previous: isize) {
        let previous: isize = self.value;
        self.value = previous ^ val;
        previous
    }
}

/// A cell for one `usize`.
#[derive(Debug)]
pub struct Usize {
    value: usize,
}

impl Usize {
    /// A cell that holds `val`.
    pub fn new(val: usize) -> (cell: Self)
        ensures
            cell.value() == val,
    {
        Usize { value: val }
    }
}

impl AtomicValue for Usize {
    type Value = usize;

    closed spec fn value(&self) -> usize {
        self.value
    }

    fn val(&self) -> (v: usize) {
        self.value
    }

    fn set(&mut self, val: usize) {
        self.value = val;
    }
}

impl Clone for Usize {
    fn clone(&self) -> (copy: Self)
        ensures
            copy.value() == self.value(),
    {
        Usize { value: self.value }
    }
}

impl Default for Usize {
    fn default() -> (cell: Self)
        ensures
            cell.value() == 0,
    {
        Usize { value: 0 }
    }
}

impl From<usize> for Usize {
    fn from(val: usize) -> (cell: Self)
        ensures
            cell.value() == val,
    {
        Usize { value: val }
    }
}

impl FromSpecImpl<usize> for Usize {
    open spec fn obeys_from_spec() -> bool {
        true
    }

    closed spec fn from_spec(val: usize) -> Self {
        Usize { value: val }
    }
}

impl AtomicOperation for Usize {
    open spec fn added(held: usize, val: usize) -> usize {
        held.wrapping_add(val)
    }

    open spec fn maximum(held: usize, val: usize) -> usize {
        if held >= val {
            held
        } else {
            val
        }
    }

    open spec fn minimum(held: usize, val: usize) -> usize {
        if held <= val {
            held
        } else {
            val
        }
    }

    open spec fn subtracted(held: usize, val: usize) -> usize {
        held.wrapping_sub(val)
    }

    fn add(&mut self, val: usize) -> (previous: usize) {
        let previous: usize = self.value;
        self.value = previous.wrapping_add(val);
        previous
    }

    fn max(&mut self, val: usize) -> (previous: usize) {
        let previous: usize = self.value;
        if val > previous {
            self.value = val;
        }
        previous
    }

    fn min(&mut self, val: usize) -> (previous: usize) {
        let previous: usize = self.value;
        if val < previous {
            self.value = val;
        }
        previous
    }

    fn sub(&mut self, val: usize) -> (previous: usize) {
        let previous: usize = self.value;
        self.value = previous.wrapping_sub(val);
        previous
    }
}

impl AtomicBitOperation for Usize {
    open spec fn anded(held: usize, val: usize) -> usize {
        held & val
    }

    open spec fn nanded(held: usize, val: usize) -> usize {
        !(held & val)
    }

    open spec fn ored(held: usize, val: usize) -> usize {
        held | val
    }

    open spec fn xored(held: usize, val: usize) -> usize {
        held ^ val
    }

    fn and(&mut self, val: usize) -> (previous: usize) {
        let previous: usize = self.value;
        self.value = previous & val;
        previous
    }

    fn nand(&mut self, val: usize) -> (previous: usize) {
        let previous: usize = self.value;
        self.value = !(previous & val);
        previous
    }

    fn or(&mut self, val: usize) -> (previous: usize) {
        let previous: usize = self.value;
        self.value = previous | val;
        previous
    }

    fn xor(&mut self, val: usize) -> (previous: usize) {
        let previous: usize = self.value;
        self.value = previous ^ val;
        previous
    }
}

} // verus!
