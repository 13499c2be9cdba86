//! The colours, severities and icons that a surface is painted with.

use vstd::prelude::*;

verus! {

/// A colour by its meaning.
#[derive(Clone, Copy, Debug, PartialEq, Eq, Structural)]
pub enum Color {
    Default,
    Muted,
    Info,
    Success,
    Warning,
    Error,
}

/// How serious a message is.
#[derive(Clone, Copy, Debug, PartialEq, Eq, Structural)]
pub enum Severity {
    Info,
    Success,
    Warning,
    Error,
}

/// An icon of the sidebar.
#[derive(Clone, Copy, Debug, PartialEq, Eq, Structural)]
pub enum IconName {
    Info,
    Box,
    ArrowCircle,
    Globe,
}

} // verus!
