//! Attribute adaptation layer for packaged-program resources.
//!
//! Resource records (a source module, a package resource, a package
//! distribution resource, a native extension module) are exposed to an
//! embedded configuration language through wrapper objects. The wrappers
//! present a uniform, dynamically-typed attribute surface: intrinsic
//! read-only attributes per record kind, plus a shared "collection
//! context" surface (placement and inclusion flags) that context-bearing
//! kinds opt into. Placement locations are encoded to and decoded from a
//! canonical string form, losslessly for the concrete variants.

pub mod context;
pub mod location;
pub mod policy;
pub mod resource;
pub mod source_text;
pub mod values;
pub mod wrappers;
