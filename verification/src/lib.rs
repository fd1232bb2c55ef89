//! Element-wise transforms over a collection that run on the calling thread
//! while the collection is short and on the worker pool of [`rayon`] once it
//! has reached [`THRESHOLD`] elements.
//!
//! Both ways of running a transform meet one contract: the result at each
//! position is what the transform made of the element at that position.

mod engine;
pub mod map;
pub mod mutate;
pub mod policy;

pub use crate::map::map_with;
pub use crate::map::threaded_map;
pub use crate::mutate::mutate_with;
pub use crate::mutate::threaded_mutate;
pub use crate::policy::Strategy;
pub use crate::policy::THRESHOLD;
