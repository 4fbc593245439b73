//! The builder that the sync components are made with.

use vstd::prelude::*;

verus! {

/// A builder: made empty, given its parts, then built into its product
/// once the parts the product needs are all there.
pub trait Builder: Sized {
    type Product;

    /// The parts the product needs are all there.
    spec fn ready(&self) -> bool;

    /// The builder is as `new` makes it; a builder that says nothing of
    /// this leaves it true.
    open spec fn fresh(&self) -> bool {
        true
    }

    /// `product` is what this builder builds; a builder that says nothing
    /// of this leaves it true.
    open spec fn builds(&self, product: Self::Product) -> bool {
        true
    }

    fn new() -> (r: Self)
        ensures
            r.fresh(),
    ;

    fn build(self) -> (r: Self::Product)
        requires
            self.ready(),
        ensures
            self.builds(r),
    ;
}

} // verus!
