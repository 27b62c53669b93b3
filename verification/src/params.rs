//! The vocabulary that both plugins use to describe their parameters: which event
//! reaches a parameter, how a number is converted on its way in and out, and how a
//! value is shown and read back from text.
use vstd::prelude::*;
use crate::text::Unit;

verus! {

/// The kind of an event the host sends to the plugin.
#[derive(Clone, Copy, Debug, PartialEq, Eq, Structural)]
pub enum EventKind {
    /// A new value for a parameter.
    ParamValue,
    /// A new modulation amount for a parameter.
    ParamMod,
    /// Any other event.
    Other,
}

/// The part of a parameter that an event sets.
#[derive(Clone, Copy, Debug, PartialEq, Eq, Structural)]
pub enum Target {
    /// The parameter's value.
    Value,
    /// The modulation added to the value.
    Modulation,
}

/// How the number an event carries is converted before it is stored.
#[derive(Clone, Copy, Debug, PartialEq, Eq, Structural)]
pub enum Store {
    /// Stored as it is.
    Identity,
    /// A level in decibels, stored as an amplitude factor.
    DbToAmp,
    /// Stored as its cube.
    Cube,
}

/// How a stored value is converted when the host asks for it.
#[derive(Clone, Copy, Debug, PartialEq, Eq, Structural)]
pub enum Read {
    /// Given as it is.
    Identity,
    /// An amplitude factor, given in decibels.
    AmpToDb,
    /// Given as its cube root.
    CubeRoot,
}

/// How a value from the host is scaled before it is shown.
#[derive(Clone, Copy, Debug, PartialEq, Eq, Structural)]
pub enum Shown {
    /// Shown as it is.
    Identity,
    /// Shown as its cube.
    Cube,
    /// Shown multiplied by a hundred.
    Hundredfold,
}

/// How the scaled number is written.
#[derive(Clone, Copy, Debug, PartialEq, Eq, Structural)]
pub enum Digits {
    /// With one decimal.
    OneDecimal,
    /// Rounded to a whole number, as an 8-bit signed integer.
    WholeNumber,
}

/// How a number read from text is converted into the host's value.
#[derive(Clone, Copy, Debug, PartialEq, Eq, Structural)]
pub enum AfterParse {
    /// Taken as it is.
    Identity,
    /// Its cube root is taken.
    CubeRoot,
    /// Divided by a hundred.
    Hundredth,
}

/// How a parameter's value is shown as text.
#[derive(Clone, Copy, Debug, PartialEq, Eq, Structural)]
pub struct DisplayRule {
    pub shown: Shown,
    pub digits: Digits,
    pub unit: Unit,
}

/// How a parameter's text is read as a value.
#[derive(Clone, Copy, Debug, PartialEq, Eq, Structural)]
pub struct ParseRule {
    pub unit: Unit,
    pub after: AfterParse,
}

/// What the parameter information tells the host of one parameter.
#[derive(Clone, Copy, Debug, PartialEq, Eq, Structural)]
pub struct ParamFlags {
    pub automatable: bool,
    pub modulatable: bool,
}

/// The conversion on the way in and the one on the way out undo each other.
pub open spec fn store_read_inverse(store: Store, read: Read) -> bool {
    match (store, read) {
        (Store::Identity, Read::Identity) => true,
        (Store::DbToAmp, Read::AmpToDb) => true,
        (Store::Cube, Read::CubeRoot) => true,
        _ => false,
    }
}

/// The scaling of a shown value and the conversion of a read one undo each other.
pub open spec fn shown_parse_inverse(shown: Shown, after: AfterParse) -> bool {
    match (shown, after) {
        (Shown::Identity, AfterParse::Identity) => true,
        (Shown::Cube, AfterParse::CubeRoot) => true,
        (Shown::Hundredfold, AfterParse::Hundredth) => true,
        _ => false,
    }
}

/// A value shown by `display` is read back by `parse`: the unit it is shown with is
/// the unit that is cut off, and the conversion after parsing undoes the scaling.
pub open spec fn display_parse_agree(display: DisplayRule, parse: ParseRule) -> bool {
    &&& display.unit == parse.unit
    &&& shown_parse_inverse(display.shown, parse.after)
}

/// The value the host reads is the value the display starts from: a value the host
/// reads as a cube root is cubed back before it is shown, one it reads in decibels is
/// shown in decibels as it is, and one it reads as stored is shown as it is or in
/// per cent.
pub open spec fn read_display_agree(read: Read, display: DisplayRule) -> bool {
    match read {
        Read::CubeRoot => display.shown == Shown::Cube,
        Read::AmpToDb => display.shown == Shown::Identity && display.unit == Unit::Decibels,
        Read::Identity => display.shown == Shown::Identity || display.shown == Shown::Hundredfold,
    }
}

} // verus!
