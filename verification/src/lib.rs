//! Inventory of cloud virtual machines classified by the end-of-life status
//! of their operating-system image.
//!
//! The crate holds the verified core of the tool: the per-vendor SKU
//! parsers, the end-of-life classification against a vendor's release
//! calendar, the extraction of inventory records from listed machine data,
//! and the layout of the report rows. Network listing, calendar fetching
//! and file writing are left to the surrounding binary, which hands this
//! crate plain values and takes plain values back.

pub mod classify;
pub mod dates;
pub mod enumerate;
pub mod eol;
pub mod eol_detection;
pub mod output;
pub mod report;
pub mod text;
pub mod vmresult;
