//! Small, self-contained routines on enums, ownership, structs, primitive
//! types and control flow, each with a machine-checked contract.
pub mod datatype;
pub mod enums;
pub mod flow;
pub mod ownership;
pub mod practice;
pub mod structs;
