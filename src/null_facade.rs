//! The facade with monitoring switched off: the same entry points as the
//! registry's, with no store behind them. Each call does nothing and holds
//! nothing, and `start` opens no listener.

use vstd::prelude::*;

verus! {

pub fn register_int_gauge(_name: &str, _help: &str) {
}

pub fn register_gauge(_name: &str, _help: &str) {
}

pub fn register_int_counter(_name: &str, _help: &str) {
}

pub fn int_gauge_inc(_name: &str) {
}

pub fn int_gauge_dec(_name: &str) {
}

pub fn int_gauge_add(_name: &str, _n: i64) {
}

pub fn int_gauge_sub(_name: &str, _n: i64) {
}

pub fn int_gauge_set(_name: &str, _n: i64) {
}

pub fn int_counter_inc(_name: &str) {
}

pub fn start() {
}

} // verus!
