//! Run a project's CLI tools through pinned, content-addressed container
//! images.
//!
//! The library is the verified core of the wrapper: the hash chain that links
//! the human-edited project config to the resolver's lock file and to the
//! per-session state file, the containment check on the working directory,
//! the session lifecycle, the availability gate on image digests, and the
//! construction of the exact container-engine command line.  All file,
//! terminal and process I/O stays outside, in the unverified binary, which
//! hands this library plain values and carries out the plans it returns.
pub mod availability;
pub mod bytes;
pub mod chain;
pub mod hash;
pub mod host;
pub mod invoke;
pub mod lockfile;
pub mod paths;
pub mod session;
