//! The compute half of the driver's two-call diagnostic idiom.
//!
//! Fetching a shader or program info log takes two driver calls: one
//! queries the required capacity, the next fills a caller-supplied
//! buffer of that capacity and reports how many bytes it wrote. The
//! caller performs the calls; this module checks the reported values and
//! trims the buffer to exactly the bytes the driver wrote.

use vstd::prelude::*;

verus! {

/// The driver reported an info log length that does not fit the buffer
/// it was given; it carries the offending length.
#[derive(Clone, Copy, PartialEq, Eq, Structural, Debug)]
pub struct ReceivedInvalidInfoLogLength(pub i32);

/// Trims a driver-filled info log buffer to the length the driver
/// reported, failing if and only if the reported length is negative or
/// exceeds the buffer.
pub fn take_info_log(buffer: Vec<u8>, length: i32) -> (r: Result<
    Vec<u8>,
    ReceivedInvalidInfoLogLength,
>)
    ensures
        r is Ok <==> 0 <= length && length <= buffer@.len(),
        r matches Ok(log) ==> log@ == buffer@.subrange(0, length as int),
        r matches Err(e) ==> e.0 == length,
{
    if length < 0 {
        return Err(ReceivedInvalidInfoLogLength(length));
    }
    let len = length as usize;
    if len > buffer.len() {
        return Err(ReceivedInvalidInfoLogLength(length));
    }
    let mut log = buffer;
    log.truncate(len);
    Ok(log)
}

} // verus!
