//! Text for the log of the kernel.

use vstd::prelude::*;
use vstd::string::StringSliceAdditionalSpecFns;
use crate::session::{Exchange, Session};
use crate::transport::Transport;

verus! {

/// Whether `run` is what printing the text of the bytes `bytes` exchanges:
/// the bytes are put into the exchange area, and then the kernel is asked to
/// log as many bytes as the text has.
pub open spec fn is_print_run(bytes: Seq<u8>, run: Seq<Exchange>) -> bool {
    &&& run.len() == 2
    &&& run[0] is CopyBytes
    &&& run[0]->CopyBytes_bytes == bytes
    &&& run[1] is Log
    &&& run[1]->Log_len == bytes.len()
}

/// Sends `text` to the log of the kernel.
///
/// The bytes of the text are put into the exchange area, and the kernel is
/// asked to log them, whatever the copy reported. What the kernel answers is
/// dropped: printing has no way to fail.
pub fn _print<K: Transport>(session: &mut Session<K>, text: &str)
    ensures
        final(session).extends(*old(session)),
        is_print_run(text.spec_bytes(), final(session).since(*old(session))),
{
    let raw = text.as_bytes();
    let _ = session.copy_bytes_to_kernel(raw);
    let _ = session.log(raw.len());
}

} // verus!
