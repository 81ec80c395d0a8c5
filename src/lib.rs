//! A closed-loop fan controller: asymmetric smoothing and hysteresis over
//! temperature readings, a single-owner worker that serialises ticks and
//! status queries, and the wire format of its command socket.
pub mod cli;
pub mod controller;
pub mod sensors;
pub mod text;
pub mod wire;
pub mod worker;
