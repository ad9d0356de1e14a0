//! Indexed color tables.
//!
//! Each session owns a resolved palette, copied from a named theme at
//! creation time and immutable afterwards. A palette is a fixed-size table
//! of optional colors; resolving an index that is unset (or out of range)
//! yields the default color, matching how a terminal answers a color query
//! for a slot no theme ever filled.

use vstd::prelude::*;

verus! {

/// An RGB color as the emulation engine reports it: one byte per channel.
#[derive(Clone, Copy, PartialEq, Eq, Structural, Debug)]
pub struct Rgb {
    pub r: u8,
    pub g: u8,
    pub b: u8,
}

impl Rgb {
    /// The color a query resolves to when the palette slot is unset.
    pub open spec fn spec_default() -> Rgb {
        Rgb { r: 0, g: 0, b: 0 }
    }

    /// The color a query resolves to when the palette slot is unset.
    pub fn default_color() -> (c: Rgb)
        ensures
            c == Rgb::spec_default(),
    {
        Rgb { r: 0, g: 0, b: 0 }
    }
}

/// Number of slots in an indexed terminal palette: 256 indexed colors plus
/// the named special colors (foreground, background, cursor, dim variants).
pub const PALETTE_LEN: usize = 269;

/// A color table with a fixed number of slots; unset slots resolve to the
/// default color.
pub struct Palette {
    colors: Vec<Option<Rgb>>,
}

impl View for Palette {
    type V = Seq<Option<Rgb>>;

    closed spec fn view(&self) -> Seq<Option<Rgb>> {
        self.colors@
    }
}

/// What resolving `index` against a color table yields: the stored color
/// where the slot is set, the default color where it is unset or the index
/// lies outside the table.
pub open spec fn spec_resolve(colors: Seq<Option<Rgb>>, index: int) -> Rgb {
    if 0 <= index < colors.len() {
        match colors[index] {
            Some(c) => c,
            None => Rgb::spec_default(),
        }
    } else {
        Rgb::spec_default()
    }
}

impl Palette {
    /// A palette is well formed when it has exactly the fixed number of slots.
    pub open spec fn wf(&self) -> bool {
        self@.len() == PALETTE_LEN
    }

    /// A fresh palette with every slot unset.
    pub fn new() -> (p: Palette)
        ensures
            p.wf(),
            forall|i: int| 0 <= i < p@.len() ==> p@[i] is None,
    {
        let mut colors: Vec<Option<Rgb>> = Vec::new();
        while colors.len() < PALETTE_LEN
            invariant
                colors@.len() <= PALETTE_LEN,
                forall|i: int| 0 <= i < colors@.len() ==> colors@[i] is None,
            decreases PALETTE_LEN - colors@.len(),
        {
            colors.push(None);
        }
        Palette { colors }
    }

    /// Sets the slot at `index`; an index outside the table leaves the
    /// palette unchanged.
    pub fn set(&mut self, index: usize, color: Rgb)
        ensures
            index < old(self)@.len() ==> final(self)@ == old(self)@.update(
                index as int,
                Some(color),
            ),
            index >= old(self)@.len() ==> final(self)@ == old(self)@,
    {
        if index < self.colors.len() {
            self.colors.set(index, Some(color));
        }
    }

    /// Resolves a palette index to a concrete color, substituting the
    /// default color for unset or out-of-range slots.
    pub fn resolve(&self, index: usize) -> (c: Rgb)
        ensures
            c == spec_resolve(self@, index as int),
    {
        if index < self.colors.len() {
            match self.colors[index] {
                Some(c) => c,
                None => Rgb::default_color(),
            }
        } else {
            Rgb::default_color()
        }
    }

    /// Number of slots in the table.
    pub fn len(&self) -> (n: usize)
        ensures
            n == self@.len(),
    {
        self.colors.len()
    }
}

impl Clone for Palette {
    /// A session's palette is copied out of the theme table at creation
    /// time; the copy holds exactly the same slots.
    fn clone(&self) -> (r: Self)
        ensures
            r@ == self@,
    {
        let mut colors: Vec<Option<Rgb>> = Vec::new();
        let mut i: usize = 0;
        while i < self.colors.len()
            invariant
                i <= self.colors@.len(),
                colors@ == self.colors@.take(i as int),
            decreases self.colors@.len() - i,
        {
            colors.push(self.colors[i]);
            proof {
                assert(colors@ =~= self.colors@.take(i as int + 1));
            }
            i = i + 1;
        }
        proof {
            assert(colors@ =~= self.colors@);
        }
        Palette { colors }
    }
}

} // verus!
