pub mod copier;
pub mod descriptor;
pub mod entry;
pub mod error;
pub mod identify;
pub mod install;
pub mod paths;
pub mod resolve;
pub mod text;
