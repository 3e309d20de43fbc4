//! Core logic of the Clippy clipboard manager: the encryption of stored
//! clipboard entries, the export of clipboard images, window placement
//! decisions, paging of the clipboard history and the settings table schema.

pub mod crypto;
pub mod decimal;
pub mod encrypt;
pub mod export;
pub mod paging;
pub mod settings;
pub mod window;
pub mod xrdb;
