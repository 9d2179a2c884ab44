//! Staged network diagnosis: the report model, the verdict engine, the message
//! catalog and the decisions of every stage.

pub mod order;
pub mod text;
pub mod measure;
pub mod addr;
pub mod report;
pub mod clock;
pub mod deadline;
pub mod diagnose;
pub mod i18n;
pub mod probe;
pub mod share;
pub mod show;
pub mod stages;
pub mod target;
pub mod verdict;
pub mod watch;

use vstd::prelude::*;

verus! {

/// Why a target cannot be read. The message catalog puts it into words.
#[derive(Debug, Clone, PartialEq)]
pub enum ParseError {
    UnsupportedScheme(String),
    EmptyHost,
    UnclosedIpv6,
    InvalidPort(String),
}

} // verus!
