//! Generation of ownership-transfer (deep clone) implementations.
//!
//! The crate has two halves. `transfer` holds the capability trait
//! [`transfer::DeepClone`] — one operation that snapshots a possibly
//! borrowed value into a fully owned copy — together with its base-case
//! implementations for scalars, strings, sequences and copy-on-write
//! values. `decl`, `text` and `emit` form the generator: given the
//! structured declaration of a composite type, they synthesize the source
//! text of that type's `DeepClone` implementation, field by field and
//! variant by variant, in declaration order.

pub mod decl;
pub mod emit;
pub mod text;
pub mod transfer;
