use vstd::prelude::*;

use crate::error::FrameError;
use crate::header::{header_byte, Header};

verus! {

/// An inbound frame: its header and a view of the payload that follows it
/// in the receive buffer.
#[derive(Debug, Clone, Copy)]
pub struct SpinelFrameRef<'a> {
    pub header: Header,
    pub payload: &'a [u8],
}

impl<'a> SpinelFrameRef<'a> {
    /// Splits a receive buffer into its header byte and its payload,
    /// without copying. Fails only on an empty buffer.
    pub fn try_unpack_from_slice(buffer: &'a [u8]) -> (r: Result<SpinelFrameRef<'a>, FrameError>)
        ensures
            buffer@.len() == 0 ==> r == Err::<SpinelFrameRef<'a>, FrameError>(
                FrameError::MissingHeader,
            ),
            buffer@.len() > 0 ==> {
                &&& r is Ok
                &&& r->Ok_0.header@ == buffer@[0]
                &&& r->Ok_0.payload@ == buffer@.skip(1)
            },
    {
        if buffer.len() == 0 {
            return Err(FrameError::MissingHeader);
        }
        let (head, payload) = buffer.split_at(1);
        assert(payload@ =~= buffer@.skip(1));
        Ok(SpinelFrameRef { header: Header::from_byte(head[0]), payload })
    }
}

/// The outbound frame of a request: the header byte for `tid` on link 0,
/// then the payload.
pub open spec fn request_frame(tid: u8, payload: Seq<u8>) -> Seq<u8> {
    seq![header_byte(true, 0, Some(tid)) as u8] + payload
}

/// Builds the outbound frame of a request that owns `tid`.
pub fn outbound_frame(tid: u8, payload: &[u8]) -> (r: Result<Vec<u8>, FrameError>)
    ensures
        1 <= tid <= 15 ==> r is Ok && r->Ok_0@ == request_frame(tid, payload@),
        !(1 <= tid <= 15) ==> r == Err::<Vec<u8>, FrameError>(FrameError::InvalidHeaderField),
{
    let header = match Header::new(0, Some(tid)) {
        Ok(h) => h,
        Err(e) => return Err(e),
    };
    let mut frame: Vec<u8> = Vec::new();
    frame.push(header.to_byte());
    let mut i: usize = 0;
    while i < payload.len()
        invariant
            0 <= i <= payload@.len(),
            frame@ == seq![header_byte(true, 0, Some(tid)) as u8] + payload@.take(i as int),
        decreases payload@.len() - i,
    {
        frame.push(payload[i]);
        i += 1;
        assert(frame@ =~= seq![header_byte(true, 0, Some(tid)) as u8] + payload@.take(i as int));
    }
    assert(payload@.take(payload@.len() as int) =~= payload@);
    Ok(frame)
}

} // verus!
