//! Typed replies of the structured (JSON lines) wire mode, and the error
//! taxonomy of the client.

use vstd::prelude::*;

verus! {

/// A structured status reply: `{"STATUS_CODE":<code>,"STATUS_TEXT":"<text>"}`.
/// The text is kept as the raw reply bytes.
#[derive(Clone, Debug, PartialEq, Eq)]
pub struct Status {
    pub status_code: u32,
    pub status_text: Vec<u8>,
}

impl Status {
    /// A reply reports success exactly when its code is 200.
    pub fn ok(&self) -> (r: bool)
        ensures
            r == (self.status_code == 200),
    {
        self.status_code == 200
    }

    /// Turns a non-success status into an error value carrying the code and
    /// text; a 200 status passes.  Never panics.
    pub fn assert_ok(&self) -> (r: Result<(), Status>)
        ensures
            r is Ok <==> self.status_code == 200,
            r matches Err(s) ==> s.status_code == self.status_code && s.status_text@
                == self.status_text@,
    {
        if self.status_code == 200 {
            Ok(())
        } else {
            Err(Status { status_code: self.status_code, status_text: self.status_text.clone() })
        }
    }
}

/// A streamed-sample reply: `{"C":<code>,"D":"<base64 frame>"}`.  The data is
/// kept as the raw base64 bytes.
#[derive(Clone, Debug, PartialEq, Eq)]
pub struct JSONPayload {
    pub code: u32,
    pub data: Vec<u8>,
}

/// A transport-level fault: either a read/write timeout or another I/O
/// failure of the byte stream.
#[derive(Clone, Copy, Debug, PartialEq, Eq, Structural)]
pub struct TransportError {
    pub timed_out: bool,
}

/// Everything a client operation can fail with.
#[derive(Clone, Debug, PartialEq, Eq)]
pub enum ClientError {
    /// I/O failure or timeout on the byte stream.
    IOError(TransportError),
    /// A reply line or binary frame could not be decoded.
    DeserializeError,
    /// A structured reply reported a non-200 status.
    BadStatus(Status),
    /// A sample payload carried bytes that are not valid base64.
    InvalidBase64,
    /// The operation was attempted in an incompatible wire mode.
    BadMode,
}

} // verus!
