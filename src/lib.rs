//! Extraction of municipal service invoices (NFSe) from their XML documents:
//! the document model, the preparation of the raw text, the all-or-nothing
//! batch over a list of files, and the selection of files in a folder scan.
pub mod model;
pub mod extraction;
pub mod batch;
pub mod scan;
