//! The bits of the buttons in the two button bytes. A pressed button is a zero bit.
use vstd::prelude::*;

verus! {

pub const SELECT: u16 = 0x0001;

pub const L3: u16 = 0x0002;

pub const R3: u16 = 0x0004;

pub const START: u16 = 0x0008;

pub const UP: u16 = 0x0010;

pub const RIGHT: u16 = 0x0020;

pub const DOWN: u16 = 0x0040;

pub const LEFT: u16 = 0x0080;

pub const L2: u16 = 0x0100;

pub const R2: u16 = 0x0200;

pub const L1: u16 = 0x0400;

pub const R1: u16 = 0x0800;

pub const Y: u16 = 0x1000;

pub const B: u16 = 0x2000;

pub const A: u16 = 0x4000;

pub const X: u16 = 0x8000;

} // verus!
