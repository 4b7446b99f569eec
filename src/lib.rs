//! Live-memory forensics core: symbolic kernel addresses, structure-layout
//! resolution, pool carving, page-table classification and cross-view
//! comparison of kernel object sets.

pub mod address;
pub mod mask;
pub mod text;
pub mod symbols;
pub mod carver;
pub mod paging;
pub mod crossview;
pub mod lists;
pub mod windows;
pub mod objects;
pub mod reader;
pub mod translate;
pub mod codeview;
pub mod records;
