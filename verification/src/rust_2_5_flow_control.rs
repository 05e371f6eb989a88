//! Flow control: branches and loops.
pub mod flow_control;
