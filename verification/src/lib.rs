//! Extraction of firmware blobs that are embedded in a binary.
//!
//! A binary that a disassembler has loaded holds, at a named location, a small
//! header with a pointer to firmware bytes and their size. This library
//! knows where the two fields lie for each firmware type ([`layout`]), reads
//! integers in the binary's byte order ([`byteorder`]), gives the firmware a
//! name ([`naming`], [`command`]), and decides step by step what a command
//! does at an address ([`session`], [`extraction`]).
//!
//! The library never touches the binary, the user or the file system itself.
//! It hands the host one action at a time and takes the event that tells how
//! the action went.

pub mod byteorder;
pub mod command;
pub mod extraction;
pub mod layout;
pub mod naming;
pub mod session;
