//! Resource limits consulted while decoding: a monotone byte-allocation
//! budget and optional ceilings on the declared image dimensions.

use vstd::prelude::*;
use crate::image::ImageError;

verus! {

/// Decode-time resource limits. `max_alloc` is a budget of bytes that the
/// decoder reserves from before allocating pixel data; `max_image_width` and
/// `max_image_height`, when set, bound the declared dimensions of an image.
#[derive(Clone, Debug, PartialEq, Eq, Hash)]
pub struct Limits {
    pub max_image_width: Option<u32>,
    pub max_image_height: Option<u32>,
    pub max_alloc: Option<u64>,
}

pub const DEFAULT_MAX_ALLOC: u64 = 536870912;

impl Default for Limits {
    /// No dimension ceilings, and a 512 MiB allocation budget.
    fn default() -> (r: Limits)
        ensures
            r.max_image_width is None,
            r.max_image_height is None,
            r.max_alloc == Some(DEFAULT_MAX_ALLOC),
    {
        Limits {
            max_image_width: None,
            max_image_height: None,
            max_alloc: Some(DEFAULT_MAX_ALLOC),
        }
    }
}

impl Limits {
    /// Reserve `amount` bytes from the allocation budget. Fails, leaving the
    /// budget untouched, when the remaining budget is smaller than `amount`;
    /// with no budget configured every reservation succeeds.
    pub fn reserve(&mut self, amount: u64) -> (r: Result<(), ImageError>)
        ensures
            final(self).max_image_width == old(self).max_image_width,
            final(self).max_image_height == old(self).max_image_height,
            match old(self).max_alloc {
                Some(budget) => {
                    &&& amount <= budget <==> r is Ok
                    &&& amount <= budget ==> final(self).max_alloc == Some((budget - amount) as u64)
                    &&& amount > budget ==> r == Err::<(), ImageError>(ImageError::Limits)
                        && final(self).max_alloc == old(self).max_alloc
                },
                None => r is Ok && final(self).max_alloc is None,
            },
    {
        match self.max_alloc {
            Some(budget) => {
                if budget < amount {
                    Err(ImageError::Limits)
                } else {
                    self.max_alloc = Some(budget - amount);
                    Ok(())
                }
            }
            None => Ok(()),
        }
    }
}

} // verus!
