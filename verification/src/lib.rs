//! The rules of a map's entities: what each entity class reads from its keys,
//! what it does with an input, a touch or a think, and what it asks of the
//! server that runs it.
//!
//! Every rule is a function on plain values with a contract. Arithmetic on
//! floating-point numbers is the server's; it hands its results in.
#![allow(unused_imports)]

pub mod scalar;
pub mod text;
pub mod damage;
pub mod entity;
pub mod io;
pub mod behaviour;
pub mod list;
pub mod attachment;
pub mod base;
pub mod context;
pub mod sequences;
pub mod class;
pub mod classes;
pub mod describe;
pub mod dispatch;
pub mod laws;
pub mod step;
pub mod movement;
