//! A small office simulation in fixed-point arithmetic.
//!
//! Employees hold four needs that decay over time, walk a scripted path between
//! the entrance, their workstation, the door and the window, and earn money while
//! they work. Timed binary-choice events change the office from outside. Every
//! quantity is an integer: needs count ten-millionths, positions count tenths of
//! an office unit, money counts hundredths, time counts milliseconds and ticks.
pub mod catalog;
pub mod computer;
pub mod employee;
pub mod fixed;
pub mod game;
pub mod geometry;
pub mod laws;
pub mod office;
pub mod qte;
pub mod random;
pub mod scheduler;
