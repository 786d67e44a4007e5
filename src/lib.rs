//! Permission queries for filesystem paths, and a value model of Unix `rwx`
//! permission bits.

pub mod access;
pub mod classes;
pub mod mode_bits;
pub mod permission_bits;
pub mod prelude;

pub use access::{
    access_call, access_call_for, access_result, parent_write_step, AccessCall, AccessError,
    AccessStep, Platform,
};
pub use classes::Classes;
pub use mode_bits::ModeBits;
pub use permission_bits::PermissionBits;
