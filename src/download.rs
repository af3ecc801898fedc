//! One download as a state machine: probe, then either one request or a
//! sequence of range requests, each answered by a response that the caller
//! brings back. The caller sends what `current_request` names and appends
//! what `on_response` returns to its sink.
use vstd::prelude::*;
use crate::engine::{
    advance, classify_probe, is_bad_response, is_parse_error, missing_range_message,
    probe_verdict, range_value_spec, segment_verdict, unsupported_range_message, FileSize,
    ProbeVerdict, SegmentVerdict, SegmentedFetch, MAX_BLOCK_SIZE,
};
use crate::error::HttpError;
use crate::message::{header_value, lemma_put_then_value, utf8, TransferRequest, TransferResponse};

verus! {

/// Where a download stands.
#[derive(Debug, Clone, Copy, PartialEq, Eq, Structural)]
pub enum Phase {
    /// The size probe is to be sent.
    Probing,
    /// The whole resource comes in answer to one request.
    Single,
    /// The resource comes window by window.
    Segmented(SegmentedFetch),
    /// All bytes have been handed out.
    Complete,
    /// A response ended the download.
    Failed,
}

/// The phase after the response `r` arrives in phase `p`.
pub open spec fn next_phase(p: Phase, r: TransferResponse) -> Phase {
    match p {
        Phase::Probing => match probe_verdict(r) {
            ProbeVerdict::Length(n) => if n <= MAX_BLOCK_SIZE {
                Phase::Single
            } else {
                Phase::Segmented(
                    SegmentedFetch {
                        window: crate::engine::RangeWindow { start: 0, end: n, total: n },
                        total_read: 0,
                    },
                )
            },
            ProbeVerdict::Chunked => Phase::Single,
            _ => Phase::Failed,
        },
        Phase::Single => Phase::Complete,
        Phase::Segmented(f) => match segment_verdict(f, r) {
            SegmentVerdict::Accepted(a, b, t) => {
                let g = advance(f, a, b);
                if g.done() {
                    Phase::Complete
                } else {
                    Phase::Segmented(g)
                }
            },
            _ => Phase::Failed,
        },
        _ => p,
    }
}

/// Whether a response is still awaited in phase `p`.
pub open spec fn is_active(p: Phase) -> bool {
    p is Probing || p is Single || p is Segmented
}

/// A download of one resource, made from the request that names it.
pub struct Download {
    template: TransferRequest,
    probe: TransferRequest,
    phase: Phase,
}

impl Download {
    pub closed spec fn template_spec(&self) -> TransferRequest {
        self.template
    }

    pub closed spec fn probe_spec(&self) -> TransferRequest {
        self.probe
    }

    pub closed spec fn phase_spec(&self) -> Phase {
        self.phase
    }

    /// In a segmented phase the request carries the `Range` value of the
    /// current window, and some bytes are still to come.
    pub open spec fn wf(&self) -> bool {
        match self.phase_spec() {
            Phase::Segmented(f) => f.wf() && !f.done() && header_value(
                self.template_spec().headers@,
                utf8("Range"@),
            ) == Some(range_value_spec(f.window)),
            _ => true,
        }
    }

    /// A download of what `template` asks for; its size is probed first.
    pub fn new(template: TransferRequest) -> (d: Download)
        ensures
            d.wf(),
            d.phase_spec() == Phase::Probing,
            d.template_spec() == template,
            d.probe_spec().method == crate::message::Method::Head,
            d.probe_spec().path@ == template.path@,
            crate::message::headers_view(d.probe_spec().headers@)
                == crate::message::headers_view(template.headers@),
            d.probe_spec().body@.len() == 0,
    {
        let probe = template.probe();
        Download { template, probe, phase: Phase::Probing }
    }

    /// Where the download stands.
    pub fn phase(&self) -> (r: Phase)
        ensures
            r == self.phase_spec(),
    {
        self.phase
    }

    /// The request to send next: the probe while probing, the request itself
    /// afterwards (with the current `Range` in a segmented phase), and none
    /// once the download is over.
    pub fn current_request(&self) -> (r: Option<&TransferRequest>)
        ensures
            match self.phase_spec() {
                Phase::Probing => r == Some(&self.probe_spec()),
                Phase::Single | Phase::Segmented(_) => r == Some(&self.template_spec()),
                _ => r is None,
            },
    {
        match self.phase {
            Phase::Probing => Some(&self.probe),
            Phase::Single | Phase::Segmented(_) => Some(&self.template),
            _ => None,
        }
    }

    /// Takes the response to the current request. It returns the bytes to
    /// append to the sink (none for the probe), or the error that ends the
    /// download.
    pub fn on_response(&mut self, r: TransferResponse) -> (res: Result<Vec<u8>, HttpError>)
        requires
            old(self).wf(),
            is_active(old(self).phase_spec()),
        ensures
            final(self).wf(),
            final(self).phase_spec() == next_phase(old(self).phase_spec(), r),
            final(self).probe_spec() == old(self).probe_spec(),
            final(self).template_spec().method == old(self).template_spec().method,
            final(self).template_spec().path == old(self).template_spec().path,
            final(self).template_spec().body == old(self).template_spec().body,
            !(final(self).phase_spec() is Segmented) ==> final(self).template_spec()
                == old(self).template_spec(),
            final(self).phase_spec() is Failed <==> res is Err,
            match old(self).phase_spec() {
                Phase::Probing => match probe_verdict(r) {
                    ProbeVerdict::BadStatus => is_bad_response(res->Err_0, r.status, r.message@),
                    ProbeVerdict::BadLength(v) => is_parse_error(
                        res->Err_0,
                        "invalid Content-Length value: "@ + v,
                    ),
                    ProbeVerdict::Unknown => is_bad_response(
                        res->Err_0,
                        r.status,
                        r.message@ + ": Cannot determine resource size from headers."@,
                    ),
                    _ => res is Ok && res->Ok_0@.len() == 0,
                },
                Phase::Single => res is Ok && res->Ok_0@ == r.body@,
                Phase::Segmented(f) => match segment_verdict(f, r) {
                    SegmentVerdict::BadStatus => is_bad_response(
                        res->Err_0,
                        r.status,
                        r.message@,
                    ),
                    SegmentVerdict::MissingRange => is_bad_response(
                        res->Err_0,
                        r.status,
                        missing_range_message(),
                    ),
                    SegmentVerdict::Unsupported(v) => is_bad_response(
                        res->Err_0,
                        r.status,
                        unsupported_range_message(v),
                    ),
                    SegmentVerdict::Accepted(_, _, _) => res is Ok && res->Ok_0@ == r.body@,
                },
                _ => false,
            },
    {
        match self.phase {
            Phase::Probing => match classify_probe(&r) {
                Ok(FileSize::Sized(n)) => {
                    if n <= MAX_BLOCK_SIZE {
                        self.phase = Phase::Single;
                    } else {
                        let f = SegmentedFetch::new(n);
                        self.set_range(f);
                        self.phase = Phase::Segmented(f);
                    }
                    Ok(Vec::new())
                },
                Ok(FileSize::Chunked) => {
                    self.phase = Phase::Single;
                    Ok(Vec::new())
                },
                Err(e) => {
                    self.phase = Phase::Failed;
                    Err(e)
                },
            },
            Phase::Single => {
                self.phase = Phase::Complete;
                Ok(r.body)
            },
            Phase::Segmented(f) => {
                let mut g = f;
                match g.on_response(&r) {
                    Ok(()) => {
                        if g.is_done() {
                            self.phase = Phase::Complete;
                        } else {
                            self.set_range(g);
                            self.phase = Phase::Segmented(g);
                        }
                        Ok(r.body)
                    },
                    Err(e) => {
                        self.phase = Phase::Failed;
                        Err(e)
                    },
                }
            },
            _ => {
                proof {
                    assert(false);
                }
                Ok(Vec::new())
            },
        }
    }

    /// Puts the `Range` header of the window of `f` into the request.
    fn set_range(&mut self, f: SegmentedFetch)
        ensures
            final(self).phase == old(self).phase,
            final(self).probe == old(self).probe,
            final(self).template.method == old(self).template.method,
            final(self).template.path == old(self).template.path,
            final(self).template.body == old(self).template.body,
            header_value(final(self).template.headers@, utf8("Range"@)) == Some(
                range_value_spec(f.window),
            ),
    {
        let v = f.range_value();
        let ghost before = self.template.headers@;
        self.template.put_header("Range", v);
        proof {
            lemma_put_then_value(before, "Range"@, v, self.template.headers@);
        }
    }
}

} // verus!
