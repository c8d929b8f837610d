//! The cache of cursor shapes.
//!
//! The X server numbers its cursor shapes with serials. A shape is fetched
//! and uploaded once, when it is first seen, and kept for the rest of the
//! session.

use crate::admission::PIXELS_PER_METER;
use std::collections::HashMap;
use vstd::prelude::*;

verus! {

broadcast use vstd::std_specs::hash::group_hash_axioms;

/// A cursor shape that has been uploaded to the scene device.
#[derive(Debug)]
pub struct Cursor<T> {
    pub texture: T,
    pub width: u16,
    pub height: u16,
    pub hotspot_x: u32,
    pub hotspot_y: u32,
}

/// The cursor shapes seen so far, by serial.
#[derive(Debug)]
pub struct CursorCache<T> {
    cursors: HashMap<u32, Cursor<T>>,
}

impl<T> View for CursorCache<T> {
    type V = Map<u32, Cursor<T>>;

    closed spec fn view(&self) -> Map<u32, Cursor<T>> {
        self.cursors@
    }
}

impl<T> Cursor<T> {
    /// Whether the shape is large enough to be shown on the cursor mirror:
    /// the scene takes no window smaller than a hundredth of a metre on
    /// either side.
    pub open spec fn spec_fits_mirror(&self) -> bool {
        self.width * 100 > PIXELS_PER_METER && self.height * 100 > PIXELS_PER_METER
    }

    #[verifier::when_used_as_spec(spec_fits_mirror)]
    pub fn fits_mirror(&self) -> (fits: bool)
        ensures
            fits == self.spec_fits_mirror(),
    {
        self.width as u32 * 100 > PIXELS_PER_METER && self.height as u32 * 100 > PIXELS_PER_METER
    }
}

impl<T> CursorCache<T> {
    pub fn new() -> (cache: Self)
        ensures
            cache@ == Map::<u32, Cursor<T>>::empty(),
    {
        CursorCache { cursors: HashMap::new() }
    }

    /// Number of shapes in the cache.
    pub fn len(&self) -> (n: usize)
        ensures
            n == self@.len(),
    {
        self.cursors.len()
    }

    /// The cached shape with this serial: a hit means that nothing has to be
    /// fetched.
    pub fn get(&self, serial: u32) -> (cursor: Option<&Cursor<T>>)
        ensures
            match cursor {
                Some(c) => self@.contains_key(serial) && *c == self@[serial],
                None => !self@.contains_key(serial),
            },
    {
        self.cursors.get(&serial)
    }

    /// Stores a freshly fetched shape under the serial that the server
    /// reported with it. A shape that is already cached under that serial
    /// stays, and the new one comes back.
    pub fn store(&mut self, serial: u32, cursor: Cursor<T>) -> (rejected: Option<Cursor<T>>)
        ensures
            old(self)@.contains_key(serial) ==> rejected == Some(cursor) && final(self)@ == old(
                self,
            )@,
            !old(self)@.contains_key(serial) ==> rejected is None && final(self)@ == old(
                self,
            )@.insert(serial, cursor),
    {
        if self.cursors.contains_key(&serial) {
            Some(cursor)
        } else {
            self.cursors.insert(serial, cursor);
            None
        }
    }
}

} // verus!
