//! The product categories of the tax exercise. The tax arithmetic itself
//! works on floating-point prices and lives with the callers.

use vstd::prelude::*;

verus! {

/// A product's category, which determines its tax rate.
pub enum ProductType {
    Food,
    Electronics,
    Books,
}

} // verus!
