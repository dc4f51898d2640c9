//! Enumeration of the USB bus as the kernel's sysfs tree shows it: which
//! directory entries are hubs and which are device interface nodes, listings
//! driven one directory read at a time, owned paths for what they find, and
//! the fixed-layout descriptor records read for a device.
//!
//! The operating system calls themselves (opening and reading directories and
//! files) are made by the caller, which hands each answer to this library.

pub mod classify;
pub mod descriptor;
pub mod error;
pub mod path;
pub mod scan;
