//! Verified planning and bookkeeping for a create / read / update / delete
//! file workload: file names and payloads, the in-place update of a mapped
//! region, the outcome of a batch of per-file operations, checks of what each
//! phase left on disk, thread placement, and the timing report.
pub mod decimal;
pub mod mapped;
pub mod workload;
pub mod batch;
pub mod timing;
pub mod affinity;
pub mod audit;
