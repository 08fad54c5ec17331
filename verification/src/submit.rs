//! The network-submission collaborator interface, and a submitter that
//! records instead of sending.

use vstd::prelude::*;
use crate::error::Failure;
use crate::request::Request;
use crate::request::RequestView;
use crate::request::TypedResponse;

verus! {

/// Whatever carries a finished request to the network: the one interface
/// this library submits through.  `log` names, oldest first, every request
/// ever handed over; `submit` appends exactly one entry per call, whatever
/// else it does.
pub trait Submitter {
    /// Every request handed to this submitter so far, oldest first.
    spec fn log(&self) -> Seq<RequestView>;

    /// Carries one finished request and answers with a typed response, or
    /// with a failure of the transport, of the request or of the node.
    fn submit(&mut self, request: Request) -> (r: Result<TypedResponse, Failure>)
        ensures
            final(self).log() == old(self).log().push(request@),
    ;
}

/// A submitter that carries nothing anywhere: it keeps every request and
/// answers as configured.  It serves embeddings and tests that must see
/// what would have gone out.
pub struct RecordingSubmitter {
    /// Every request handed over, oldest first.
    pub sent: Vec<Request>,
    /// Whether submissions are acknowledged or fail at the transport.
    pub accept: bool,
}

impl RecordingSubmitter {
    /// A recorder that acknowledges every submission.
    pub fn new() -> (r: RecordingSubmitter)
        ensures
            r.log() == Seq::<RequestView>::empty(),
            r.accept,
    {
        RecordingSubmitter { sent: Vec::new(), accept: true }
    }

    /// A recorder whose every submission fails at the transport.
    pub fn failing() -> (r: RecordingSubmitter)
        ensures
            r.log() == Seq::<RequestView>::empty(),
            !r.accept,
    {
        RecordingSubmitter { sent: Vec::new(), accept: false }
    }

    /// How many requests were handed over.
    pub fn count(&self) -> (n: usize)
        ensures
            n == self.log().len(),
    {
        self.sent.len()
    }
}

impl Submitter for RecordingSubmitter {
    open spec fn log(&self) -> Seq<RequestView> {
        self.sent@.map_values(|r: Request| r@)
    }

    fn submit(&mut self, request: Request) -> (r: Result<TypedResponse, Failure>) {
        let ghost pre = self.sent@;
        let ghost rv = request@;
        self.sent.push(request);
        proof {
            assert(self.sent@.map_values(|r: Request| r@) =~= pre.map_values(
                |r: Request| r@,
            ).push(rv));
        }
        if self.accept {
            Ok(TypedResponse::Ack)
        } else {
            Err(Failure::Transport)
        }
    }
}

} // verus!
