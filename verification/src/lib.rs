//! Decision logic of an installer for a Rime input-method configuration
//! package. The library never touches the system itself: it says which
//! outside step comes next and what each observed result means.

pub mod archive;
pub mod archive_laws;
pub mod clock;
pub mod command;
pub mod defaults;
pub mod dependencies;
pub mod dependency_laws;
pub mod error;
pub mod installer;
pub mod installer_laws;
pub mod sync;
pub mod sync_laws;
pub mod text;
pub mod turn;
