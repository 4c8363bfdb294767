//! Host-side discovery of Java processes and of the product metadata in
//! their classpath archives.
//!
//! The crate holds the logic of the tool: the capability guard that gates
//! entry, the candidate filter, the privilege-separation state machine that
//! a forked child must walk in one fixed order, the supervisor's
//! classification of child exits, and the scan worker's classpath and
//! manifest extraction. The thin binary around it performs the syscalls and
//! the file reads that the logic here decides on.

pub mod archive;

pub mod candidate;

pub mod errors;

pub mod launcher;

pub mod guard;

pub mod manifest;

pub mod records;

pub mod scan;

pub mod supervisor;

pub mod text;
