//! Distribution classification and side-by-side rendering of ASCII art and
//! text panels for a system information fetcher.
pub mod bar;
pub mod catalog;
pub mod colors;
pub mod distros;
pub mod info;
pub mod matcher;
pub mod options;
pub mod printer;
pub mod text;
