//! Visual regression engine for component catalogs: snapshot naming and
//! filtering, capture planning, worker-pool decisions, the capture pipeline's
//! geometry, the two-phase image comparison and the snapshot store lifecycle.
pub mod text;
pub mod story;
pub mod job;
pub mod raster;
pub mod compare;
pub mod store;
pub mod driver;
pub mod timing;
pub mod pool;
pub mod pipeline;
pub mod config;
pub mod strategy;
pub mod catalog;
pub mod plan;
pub mod transport;
pub mod approve;
pub mod report;
