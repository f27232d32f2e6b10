//! What a stream operation returns once the host has answered its call.

use vstd::prelude::*;
use crate::types::{HostError, StreamError};

verus! {

/// The result of a read, from the host's answer: the bytes read and whether
/// the stream has ended, which is the case exactly when no byte came. A
/// failure of the host becomes a stream error.
pub fn read_outcome(answer: Result<Vec<u8>, HostError>) -> (outcome: Result<
    (Vec<u8>, bool),
    StreamError,
>)
    ensures
        match answer {
            Ok(bytes) => outcome matches Ok((data, ended)) && data@ == bytes@ && ended == (
            bytes@.len() == 0),
            Err(_) => outcome is Err,
        },
{
    match answer {
        Ok(bytes) => {
            let ended: bool = bytes.len() == 0;
            Ok((bytes, ended))
        },
        Err(_) => Err(StreamError {  }),
    }
}

/// The result of a write, from the host's answer: the number of bytes that
/// the host took. A failure of the host becomes a stream error.
pub fn write_outcome(answer: Result<u32, HostError>) -> (outcome: Result<u64, StreamError>)
    ensures
        match answer {
            Ok(taken) => outcome == Ok::<u64, StreamError>(taken as u64),
            Err(_) => outcome is Err,
        },
{
    match answer {
        Ok(taken) => Ok(taken as u64),
        Err(_) => Err(StreamError {  }),
    }
}

} // verus!
