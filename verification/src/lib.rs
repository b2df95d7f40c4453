//! Bootstrap installer logic for the Neit companion tool.
//!
//! The library holds everything the installer decides or computes: which
//! platform branch to run, whether a toolchain step is needed, how a PATH
//! value is updated, how download progress is accounted, and which
//! filesystem actions an archive's entries call for.  The surrounding
//! binary performs the actual network, subprocess and filesystem work.

pub mod archive;
pub mod bytes_util;
pub mod companion;
pub mod download;
pub mod os;
pub mod path_env;
pub mod toolchain;
