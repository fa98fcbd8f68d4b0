//! Canonical read-write trace of a virtual machine execution: records of every
//! state access, their canonical order and padding, a consistency audit, and
//! the encoding of each record as a row of field elements.
pub mod field;
pub mod word;
pub mod rw;
pub mod tags;
pub mod row;
pub mod rw_map;
pub mod check;
pub mod operation;
