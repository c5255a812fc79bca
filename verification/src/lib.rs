//! Classification and spreadsheet-layout rules for a tax-document report.
//!
//! The library holds the logic of the pipeline: parsing amount/currency
//! strings, filtering documents by financial year, resolving reference
//! data, classifying documents into buckets, ordering records, and laying
//! out the workbook. Network and file I/O live outside the library.


pub mod amount;
pub mod classify;
pub mod dates;
pub mod document;
pub mod filter;
pub mod pages;
pub mod record;
pub mod refs;
pub mod sheet;
pub mod sort;
pub mod text;
pub mod urls;
pub mod xlsx;
