//! Warnings that the engine reports.
//!
//! The engine reports a warning as a record of raw text: the name of the
//! file as bytes of Latin-1, the message as units of UTF-16 that end with a
//! zero unit. What is worked out here is the text to show; showing it is
//! left to the caller.

use vstd::prelude::*;

verus! {

/// A report of the engine, as it was read from the engine's memory.
pub struct JSErrorReport {
    /// The name of the file in Latin-1, if the engine knows one.
    pub filename: Option<Vec<u8>>,
    /// The line of the source that the report is about.
    pub lineno: u32,
    /// The column of the source that the report is about.
    pub column: u32,
    /// The message in UTF-16, with whatever follows it in memory.
    pub ucmessage: Vec<u16>,
}

/// A warning, ready to be shown.
pub struct Warning {
    /// The name of the file.
    pub filename: Vec<char>,
    pub lineno: u32,
    pub column: u32,
    /// The message in UTF-16, without the unit that ends it.
    pub message: Vec<u16>,
}

/// The text of a sequence of bytes in Latin-1: each byte is the character
/// with the byte's number.
pub open spec fn latin1(bytes: Seq<u8>) -> Seq<char> {
    Seq::new(bytes.len(), |i: int| bytes[i] as char)
}

/// Whether `n` is the length of the message in `units`: the unit at `n` is
/// the first that is zero.
pub open spec fn is_message_length(units: Seq<u16>, n: int) -> bool {
    &&& 0 <= n < units.len()
    &&& units[n] == 0
    &&& forall|i: int| 0 <= i < n ==> units[i] != 0
}

/// The name that stands for a file that the engine does not know: "none".
pub open spec fn unknown_file() -> Seq<char> {
    seq!['n', 'o', 'n', 'e']
}

/// Decodes bytes of Latin-1.
pub fn latin1_to_string(bytes: &[u8]) -> (text: Vec<char>)
    ensures
        text@ == latin1(bytes@),
{
    let mut text: Vec<char> = Vec::new();
    let mut i: usize = 0;
    while i < bytes.len()
        invariant
            i <= bytes@.len(),
            text@ == latin1(bytes@.subrange(0, i as int)),
        decreases bytes@.len() - i,
    {
        text.push(bytes[i] as char);
        i = i + 1;
    }
    text
}

/// Finds the end of the message: the place of the first unit that is zero,
/// or `None` if no unit is.
pub fn message_length(units: &[u16]) -> (n: Option<usize>)
    ensures
        n matches Some(n) ==> is_message_length(units@, n as int),
        n is None ==> forall|i: int| 0 <= i < units@.len() ==> units@[i] != 0,
{
    let mut i: usize = 0;
    while i < units.len()
        invariant
            i <= units@.len(),
            forall|j: int| 0 <= j < i ==> units@[j] != 0,
        decreases units@.len() - i,
    {
        if units[i] == 0 {
            return Some(i);
        }
        i = i + 1;
    }
    None
}

/// Works out the warning that a report stands for: the name of the file
/// decoded from Latin-1, or "none" where the report has no file; the line
/// and the column as they are; and the message up to the unit that ends it.
/// `None` if nothing ends the message.
pub fn report_warning(report: &JSErrorReport) -> (warning: Option<Warning>)
    ensures
        warning is Some <==> exists|n: int| is_message_length(report.ucmessage@, n),
        warning matches Some(w) ==> {
            &&& w.filename@ == match report.filename {
                Some(bytes) => latin1(bytes@),
                None => unknown_file(),
            }
            &&& w.lineno == report.lineno
            &&& w.column == report.column
            &&& is_message_length(report.ucmessage@, w.message@.len() as int)
            &&& w.message@ == report.ucmessage@.subrange(0, w.message@.len() as int)
        },
{
    let filename: Vec<char> = match &report.filename {
        Some(bytes) => latin1_to_string(bytes.as_slice()),
        None => {
            let mut name: Vec<char> = Vec::new();
            name.push('n');
            name.push('o');
            name.push('n');
            name.push('e');
            name
        },
    };
    match message_length(report.ucmessage.as_slice()) {
        Some(n) => {
            let mut message: Vec<u16> = Vec::new();
            let mut i: usize = 0;
            while i < n
                invariant
                    i <= n < report.ucmessage@.len(),
                    message@ == report.ucmessage@.subrange(0, i as int),
                decreases n - i,
            {
                message.push(report.ucmessage[i]);
                i = i + 1;
            }
            Some(Warning { filename, lineno: report.lineno, column: report.column, message })
        },
        None => None,
    }
}

} // verus!
