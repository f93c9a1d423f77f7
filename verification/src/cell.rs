//! Cell values: what one field of one row holds, and the text it is shown as.

use crate::error::DataError;
use crate::text::decimal_of_i64;
use crate::text::decimal_text;
use crate::text::str_eq;
use vstd::prelude::*;

verus! {

/// The five storage kinds that a cell can have.
#[derive(Debug, Clone, Copy, PartialEq, Eq, Structural)]
pub enum CellKind {
    Null,
    Integer,
    Real,
    Text,
    Blob,
}

/// The cell kind that a declared storage type name stands for, if any.
pub open spec fn kind_of_type_name(name: Seq<char>) -> Option<CellKind> {
    if name == "NULL"@ {
        Some(CellKind::Null)
    } else if name == "INTEGER"@ {
        Some(CellKind::Integer)
    } else if name == "REAL"@ {
        Some(CellKind::Real)
    } else if name == "TEXT"@ || name == "DATETIME"@ {
        Some(CellKind::Text)
    } else if name == "BLOB"@ {
        Some(CellKind::Blob)
    } else {
        None
    }
}

/// The lowercase hexadecimal digit of `n`.
pub open spec fn hex_digit(n: int) -> char
    recommends
        0 <= n < 16,
{
    "0123456789abcdef"@[n]
}

/// Two lowercase hexadecimal digits for each byte, the high half first.
pub open spec fn hex_text(bytes: Seq<u8>) -> Seq<char> {
    Seq::new(
        2 * bytes.len(),
        |i: int|
            if i % 2 == 0 {
                hex_digit(bytes[i / 2] as int / 16)
            } else {
                hex_digit(bytes[i / 2] as int % 16)
            },
    )
}

/// Calls `hex::encode`, which writes each byte as two digits taken from the
/// table `0123456789abcdef`: first the one for the upper four bits, then the
/// one for the lower four.
#[verifier::external_body]
fn hex_encode(bytes: &Vec<u8>) -> (text: String)
    ensures
        text@ == hex_text(bytes@),
{
    hex::encode(bytes)
}

impl CellKind {
    /// Tells the kind of a column from its declared storage type name.
    pub fn from_type_name(name: &str) -> (kind: Result<CellKind, DataError>)
        ensures
            match kind_of_type_name(name@) {
                Some(k) => kind == Ok::<CellKind, DataError>(k),
                None => kind == Err::<CellKind, DataError>(DataError::UnsupportedColumnType),
            },
    {
        if str_eq(name, "NULL") {
            Ok(CellKind::Null)
        } else if str_eq(name, "INTEGER") {
            Ok(CellKind::Integer)
        } else if str_eq(name, "REAL") {
            Ok(CellKind::Real)
        } else if str_eq(name, "TEXT") || str_eq(name, "DATETIME") {
            Ok(CellKind::Text)
        } else if str_eq(name, "BLOB") {
            Ok(CellKind::Blob)
        } else {
            Err(DataError::UnsupportedColumnType)
        }
    }
}

/// One field of one row: its kind and the text it is shown as.
#[derive(Debug, Clone)]
pub struct Cell {
    kind: CellKind,
    text: String,
}

/// The mathematical value of a `Cell`.
pub struct CellView {
    pub kind: CellKind,
    pub text: Seq<char>,
}

impl View for Cell {
    type V = CellView;

    closed spec fn view(&self) -> CellView {
        CellView { kind: self.kind, text: self.text@ }
    }
}

impl DeepView for Cell {
    type V = CellView;

    open spec fn deep_view(&self) -> CellView {
        self@
    }
}

impl Cell {
    /// The null cell, shown as the word `null`.
    pub fn from_null() -> (cell: Cell)
        ensures
            cell@ == (CellView { kind: CellKind::Null, text: "null"@ }),
    {
        Cell { kind: CellKind::Null, text: String::from_str("null") }
    }

    /// An integer cell, shown in decimal.
    pub fn from_integer(value: i64) -> (cell: Cell)
        ensures
            cell@ == (CellView { kind: CellKind::Integer, text: decimal_text(value as int) }),
    {
        Cell { kind: CellKind::Integer, text: decimal_of_i64(value) }
    }

    /// A real cell, shown as the decimal text that the caller made of it.
    pub fn from_real(text: String) -> (cell: Cell)
        ensures
            cell@ == (CellView { kind: CellKind::Real, text: text@ }),
    {
        Cell { kind: CellKind::Real, text }
    }

    /// A text cell, shown as it is.
    pub fn from_text(text: String) -> (cell: Cell)
        ensures
            cell@ == (CellView { kind: CellKind::Text, text: text@ }),
    {
        Cell { kind: CellKind::Text, text }
    }

    /// A blob cell, shown as lowercase hexadecimal.
    pub fn from_blob(bytes: &Vec<u8>) -> (cell: Cell)
        ensures
            cell@ == (CellView { kind: CellKind::Blob, text: hex_text(bytes@) }),
    {
        Cell { kind: CellKind::Blob, text: hex_encode(bytes) }
    }

    pub fn kind(&self) -> (kind: CellKind)
        ensures
            kind == self@.kind,
    {
        self.kind
    }

    /// The text that the cell is shown as.
    pub fn as_str(&self) -> (text: &str)
        ensures
            text@ == self@.text,
    {
        self.text.as_str()
    }
}

} // verus!
