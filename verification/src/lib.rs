//! Install-method resolution and execution for freshly checked-out projects.
//!
//! The library decides how a project tree should be installed (a `Makefile`
//! with an `install` target, a CMake descriptor, or a user-curated list of
//! header files), and drives the chosen strategy as a state machine whose
//! outside work (running build tools, copying files, prompting) is performed
//! by an unverified driver that reports each result back as an event.

pub mod executor;
pub mod installer;
pub mod registry;
pub mod text;
