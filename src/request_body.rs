//! Bounded intake of a request body.

use vstd::prelude::*;

verus! {

/// The largest request body accepted, in bytes.
pub const MAX_SIZE: usize = 8 * 1024;

/// The capacity reserved when the client gives no usable content length.
pub const DEFAULT_CONTENT_LENGTH: usize = 1024;

/// Why a request body was refused before it reached the engine.
#[derive(Clone, Copy, Debug, PartialEq, Eq, Structural)]
pub enum BodyError {
    /// The announced content length is over the limit.
    ContentLengthTooLarge,
    /// The bytes received are over the limit.
    RequestTooLarge,
}

/// The capacity to reserve for a body: the announced content length, or the
/// default when none could be read; refused when the announced length is
/// over the limit.
pub fn content_length_estimate(content_length: Option<usize>) -> (r: Result<usize, BodyError>)
    ensures
        ({
            let est = match content_length {
                Some(n) => n,
                None => DEFAULT_CONTENT_LENGTH,
            };
            if est > MAX_SIZE {
                r == Err::<usize, BodyError>(BodyError::ContentLengthTooLarge)
            } else {
                r == Ok::<usize, BodyError>(est)
            }
        }),
{
    let est = match content_length {
        Some(n) => n,
        None => DEFAULT_CONTENT_LENGTH,
    };
    if est > MAX_SIZE {
        Err(BodyError::ContentLengthTooLarge)
    } else {
        Ok(est)
    }
}

/// A request body collected chunk by chunk; `append` keeps it within the
/// limit.
pub struct RequestBody {
    bytes: Vec<u8>,
}

impl View for RequestBody {
    type V = Seq<u8>;

    closed spec fn view(&self) -> Seq<u8> {
        self.bytes@
    }
}

impl RequestBody {
    /// An empty body.
    pub fn new() -> (r: Self)
        ensures
            r@ == Seq::<u8>::empty(),
    {
        RequestBody { bytes: Vec::new() }
    }

    /// The number of bytes received so far.
    pub fn len(&self) -> (r: usize)
        ensures
            r == self@.len(),
    {
        self.bytes.len()
    }

    /// Appends a chunk when the body stays within the limit; otherwise
    /// refuses it and leaves the body as it was.
    pub fn append(&mut self, chunk: &[u8]) -> (r: Result<(), BodyError>)
        ensures
            old(self)@.len() + chunk@.len() <= MAX_SIZE ==> r is Ok && final(self)@ == old(
                self,
            )@ + chunk@,
            old(self)@.len() + chunk@.len() > MAX_SIZE ==> r == Err::<(), BodyError>(
                BodyError::RequestTooLarge,
            ) && final(self)@ == old(self)@,
    {
        if self.bytes.len() > MAX_SIZE || chunk.len() > MAX_SIZE - self.bytes.len() {
            return Err(BodyError::RequestTooLarge);
        }
        let ghost start = self.bytes@;
        let mut i: usize = 0;
        while i < chunk.len()
            invariant
                0 <= i <= chunk@.len(),
                start.len() + chunk@.len() <= MAX_SIZE,
                self.bytes@ == start + chunk@.take(i as int),
            decreases chunk.len() - i,
        {
            self.bytes.push(chunk[i]);
            i = i + 1;
            proof {
                assert(self.bytes@ =~= start + chunk@.take(i as int));
            }
        }
        proof {
            assert(chunk@.take(chunk@.len() as int) =~= chunk@);
        }
        Ok(())
    }

    /// The bytes received.
    pub fn into_bytes(self) -> (r: Vec<u8>)
        ensures
            r@ == self@,
    {
        self.bytes
    }
}

} // verus!
