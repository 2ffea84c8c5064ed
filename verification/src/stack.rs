//! The hardware stack pointer: an 8-bit index into the fixed page
//! `0x0100..=0x01FF`. The page's high byte is implicit, so only the low
//! byte is stored; it wraps modulo 256 and the stack grows downward.

use vstd::prelude::*;

verus! {

/// Holds the 8-bit stack pointer together with the fixed bounds of the
/// stack page it indexes. `incr_ptr` moves the pointer one slot deeper
/// (downward, toward `top`); `decr_ptr` moves it one slot back.
#[derive(Debug, Clone, Copy, PartialEq, Eq, Structural)]
pub struct Stack {
    pub bottom: u16,
    pub top: u16,
    pub _ptr: u8,
}

impl Stack {
    pub fn new(bottom: u16, top: u16) -> (r: Self)
        ensures
            r.bottom == bottom,
            r.top == top,
            r._ptr == bottom as u8,
    {
        let _ptr = bottom as u8;
        return Self { bottom, top, _ptr };
    }

    pub fn ptr(&self) -> (r: u16)
        ensures
            r == self._ptr as u16,
    {
        return self._ptr as u16;
    }

    pub fn set_ptr(&mut self, value: u8)
        ensures
            final(self)._ptr == value,
            final(self).bottom == old(self).bottom,
            final(self).top == old(self).top,
    {
        self._ptr = value;
    }

    pub fn decr_ptr(&mut self)
        ensures
            final(self)._ptr == vstd::wrapping::u8_specs::wrapping_add(old(self)._ptr, 1),
            final(self).bottom == old(self).bottom,
            final(self).top == old(self).top,
    {
        // the stack grows downward, so stepping the pointer up shrinks it
        self._ptr = self._ptr.wrapping_add(1);
    }

    pub fn incr_ptr(&mut self)
        ensures
            final(self)._ptr == vstd::wrapping::u8_specs::wrapping_sub(old(self)._ptr, 1),
            final(self).bottom == old(self).bottom,
            final(self).top == old(self).top,
    {
        // the stack grows downward, so stepping the pointer down deepens it
        self._ptr = self._ptr.wrapping_sub(1);
    }
}

} // verus!
