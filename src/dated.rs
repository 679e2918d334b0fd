use vstd::prelude::*;

use crate::timestamp::Timestamp;

verus! {

/// Something that reports the single point in time it belongs to.
pub trait Dated {
    /// The point in time of this item.
    spec fn date(&self) -> Timestamp;

    fn get_date(&self) -> (r: Timestamp)
        ensures
            r == self.date(),
    ;
}

} // verus!
