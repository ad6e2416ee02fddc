//! Promote the single child of a directory one level up, replacing its
//! parent, by a rename / remove / rename sequence instead of a copy.
//!
//! The library holds the decisions: whether a parent may be promoted, which
//! temporary name to stage the child under, and the order of the filesystem
//! operations with what each failure leaves behind. The operations themselves
//! are performed by the caller, who hands back what happened.
pub mod precondition;
pub mod temp_name;
pub mod promotion;
pub mod model;
pub mod laws;
