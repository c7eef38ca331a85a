//! Verified readers for the CMVS visual-novel engine formats: CPZ archives,
//! PS2A scripts, PB2/PB3/JBP images and MGV1 containers; the PS2A command
//! contract table and the interpreter state updates built on them; the
//! mounted archive's listings and rules; and the Artemis family adapter's
//! own logic.
pub mod error;
pub mod bytes;
pub mod text;
pub mod bits;
pub mod scan;
pub mod ps2a;
pub mod cmvs_md5;
pub mod scheme;
pub mod profile;
pub mod cpz;
pub mod pb;
pub mod jbp;
pub mod mgv;
pub mod audio;
pub mod command;
pub mod vm;
pub mod scene;
pub mod session;
pub mod family;
pub mod input;
pub mod archive;
pub mod vfs;
pub mod mount;
pub mod sorted_names;
pub mod artemis;
