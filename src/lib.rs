//! A particle emission and lifecycle engine.
//!
//! Coordinates are fixed-point integers (`sim::UNIT` of them to one logical
//! unit), time is an integer count of milliseconds. The library covers
//! coordinate mapping, the particle lifecycle, the emitter, the
//! double-buffered particle store and the per-frame tick; drawing and the
//! trigonometric motion step belong to the host.
pub mod emitter;
pub mod mapper;
pub mod particle;
pub mod sim;
pub mod store;
