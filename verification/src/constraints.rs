//! The bounds within which a widget may choose its size.
use vstd::prelude::*;

use crate::geometry::Size;

verus! {

/// An upper bound on a length.
#[derive(Clone, Copy, Debug, PartialEq, Eq, Structural)]
pub enum Extent {
    /// At most this long.
    Bounded(u64),
    /// As long as it likes.
    Unbounded,
}

impl Extent {
    /// Whether a length stays within the bound.
    pub open spec fn admits(self, len: int) -> bool {
        match self {
            Extent::Bounded(most) => len <= most,
            Extent::Unbounded => true,
        }
    }
}

/// An upper bound on a size.
#[derive(Clone, Copy, Debug, PartialEq, Eq, Structural)]
pub struct Limit {
    pub width: Extent,
    pub height: Extent,
}

impl Limit {
    /// The bound that has `width` and `height` for its two extents.
    pub fn new(width: Extent, height: Extent) -> (l: Limit)
        ensures
            l == (Limit { width, height }),
    {
        Limit { width, height }
    }
}

/// The smallest and the largest size that a widget may take.
#[derive(Clone, Copy, Debug, PartialEq, Eq, Structural)]
pub struct BoxConstraints {
    pub min: Size,
    pub max: Limit,
}

/// The length nearest to `len` that is at least `least` and within `most`; where no length is
/// both, the bound `most` prevails.
pub open spec fn nearest(len: u64, least: u64, most: Extent) -> u64 {
    let raised = if len < least {
        least
    } else {
        len
    };
    match most {
        Extent::Bounded(m) if m < raised => m,
        _ => raised,
    }
}

fn clamp_len(len: u64, least: u64, most: Extent) -> (r: u64)
    ensures
        r == nearest(len, least, most),
{
    let raised: u64 = if len < least {
        least
    } else {
        len
    };
    match most {
        Extent::Bounded(m) => if m < raised {
            m
        } else {
            raised
        },
        Extent::Unbounded => raised,
    }
}

impl BoxConstraints {
    /// Constraints with the given bounds.
    pub fn new(min: Size, max: Limit) -> (bc: BoxConstraints)
        ensures
            bc == (BoxConstraints { min, max }),
    {
        BoxConstraints { min, max }
    }

    /// Constraints that admit one size only.
    pub open spec fn only(size: Size) -> BoxConstraints {
        BoxConstraints {
            min: size,
            max: Limit {
                width: Extent::Bounded(size.width),
                height: Extent::Bounded(size.height),
            },
        }
    }

    /// Constraints that admit one size only.
    pub fn tight(size: Size) -> (bc: BoxConstraints)
        ensures
            bc == BoxConstraints::only(size),
    {
        BoxConstraints {
            min: size,
            max: Limit {
                width: Extent::Bounded(size.width),
                height: Extent::Bounded(size.height),
            },
        }
    }

    /// The lower bound.
    pub fn min(&self) -> (s: Size)
        ensures
            s == self.min,
    {
        self.min
    }

    /// The upper bound.
    pub fn max(&self) -> (l: Limit)
        ensures
            l == self.max,
    {
        self.max
    }

    /// Whether a size keeps to both bounds.
    pub open spec fn admits(self, size: Size) -> bool {
        &&& self.min.width <= size.width
        &&& self.min.height <= size.height
        &&& self.max.width.admits(size.width as int)
        &&& self.max.height.admits(size.height as int)
    }

    /// Whether some size keeps to both bounds: the lower one does not exceed the upper.
    pub open spec fn consistent(self) -> bool {
        &&& self.max.width.admits(self.min.width as int)
        &&& self.max.height.admits(self.min.height as int)
    }

    /// Whether some size keeps to both bounds.
    pub fn debug_check(&self) -> (ok: bool)
        ensures
            ok == self.consistent(),
    {
        let width_ok = match self.max.width {
            Extent::Bounded(most) => self.min.width <= most,
            Extent::Unbounded => true,
        };
        let height_ok = match self.max.height {
            Extent::Bounded(most) => self.min.height <= most,
            Extent::Unbounded => true,
        };
        width_ok && height_ok
    }

    /// The size nearest to `size` that keeps to the bounds.
    pub open spec fn fit(self, size: Size) -> Size {
        Size {
            width: nearest(size.width, self.min.width, self.max.width),
            height: nearest(size.height, self.min.height, self.max.height),
        }
    }

    /// The size nearest to `size` that keeps to the bounds. Where a lower bound exceeds the upper
    /// one, the upper one prevails.
    pub fn constrain(&self, size: Size) -> (s: Size)
        ensures
            s == self.fit(size),
    {
        Size {
            width: clamp_len(size.width, self.min.width, self.max.width),
            height: clamp_len(size.height, self.min.height, self.max.height),
        }
    }
}

/// A constrained size keeps to the bounds, and a size that keeps to them is left as it is.
pub proof fn law_constrain_admits(bc: BoxConstraints, size: Size)
    requires
        bc.consistent(),
    ensures
        bc.admits(bc.fit(size)),
        bc.admits(size) ==> bc.fit(size) == size,
{
}

} // verus!
