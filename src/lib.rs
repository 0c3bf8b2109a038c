//! Decoding of Velodyne LiDAR data packets into firings, their projection into
//! sensor-frame Cartesian points, and their grouping into frames, one per
//! revolution.
pub mod batcher;
pub mod consts;
pub mod converter;
pub mod error;
pub mod firing;
pub mod format;
pub mod geometry;
pub mod ouster;
pub mod packet;
