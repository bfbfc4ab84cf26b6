//! A registry of automatable controls for audio processors.
//!
//! Each control has a range in engineering units and is exposed to a host on a normalized scale;
//! the registry keeps both representations of every control in step and tells the owning
//! processor when one of them is set.

pub mod parameter;
pub mod registry;

pub use parameter::PropInfo;
pub use parameter::PropView;
pub use registry::PropStorage;
