//! One module for each browser whose history store is read.

pub mod firefox;
pub mod qutebrowser;
