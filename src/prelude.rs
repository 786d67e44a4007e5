//! Named masks and classes, for building the values that the access check
//! and `PermissionBits` take.
use vstd::prelude::*;

use crate::classes::Classes;
use crate::mode_bits::ModeBits;

verus! {

/// Existence only: no permission.
pub const NULL: ModeBits = ModeBits::Null;

/// Read permission.
pub const READ: ModeBits = ModeBits::Read;

/// Write permission.
pub const WRITE: ModeBits = ModeBits::Write;

/// Execute permission.
pub const EXECUTE: ModeBits = ModeBits::Execute;

/// Read, write and execute.
pub const ALL: ModeBits = ModeBits::AllBits;

/// The owner of a file.
pub const OWNER: Classes = Classes::Owner;

/// The group of a file.
pub const GROUP: Classes = Classes::Group;

/// Everybody else.
pub const OTHER: Classes = Classes::Other;

/// Owner, group and other.
pub const ALL_CLASSES: Classes = Classes::AllClasses;

} // verus!
