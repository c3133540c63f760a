use vstd::prelude::*;

use crate::input::InputType;

verus! {

/// The next conversion that turns an input into the YM2151 JSON event log.
pub enum Conversion {
    /// Run the MML passes on this text to get SMF bytes.
    MmlToSmf(String),
    /// Run the SMF to YM2151 log conversion on these bytes.
    SmfToLog(Vec<u8>),
    /// The event log itself, passed through unchecked.
    Ready(String),
}

/// What a conversion step holds, as plain values.
pub open spec fn conversion_for(input: InputType, c: Conversion) -> bool {
    match input {
        InputType::MmlString(m) => c matches Conversion::MmlToSmf(x) && x@ == m@,
        InputType::MmlFile(m) => c matches Conversion::MmlToSmf(x) && x@ == m@,
        InputType::MidFile(b) => c matches Conversion::SmfToLog(x) && x@ == b@,
        InputType::JsonFile(j) => c matches Conversion::Ready(x) && x@ == j@,
    }
}

/// Picks the first conversion for an input: MML (inline or from a file) goes
/// through SMF, a MIDI file goes straight to the log conversion, and a JSON
/// log is used as it is.
pub fn generate_json_from_input(input: InputType) -> (r: Conversion)
    ensures
        conversion_for(input, r),
{
    match input {
        InputType::MmlString(m) => Conversion::MmlToSmf(m),
        InputType::MmlFile(m) => Conversion::MmlToSmf(m),
        InputType::MidFile(b) => Conversion::SmfToLog(b),
        InputType::JsonFile(j) => Conversion::Ready(j),
    }
}

} // verus!
