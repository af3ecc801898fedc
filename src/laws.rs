//! What holds of every download, stated over the engine's spec functions.
use vstd::prelude::*;
use crate::download::{next_phase, Phase};
use crate::engine::{
    advance, content_range_spec, missing_range_message, probe_verdict, segment_verdict,
    ProbeVerdict, SegmentVerdict, SegmentedFetch, MAX_BLOCK_SIZE,
};
use crate::message::{header_value, utf8, TransferResponse};

verus! {

/// A resource of at most one block is fetched by exactly one request after
/// the probe: the probe leads to the single phase, in which the request is
/// sent as it was given (no `Range` is added), and its one response
/// completes the download, after which nothing more is sent.
pub proof fn law_small_resource_single_request(probe: TransferResponse, r: TransferResponse, n: usize)
    requires
        probe_verdict(probe) == ProbeVerdict::Length(n),
        n <= MAX_BLOCK_SIZE,
    ensures
        next_phase(Phase::Probing, probe) == Phase::Single,
        next_phase(Phase::Single, r) == Phase::Complete,
{
}

/// A chunked resource is fetched by exactly one request after the probe.
pub proof fn law_chunked_resource_single_request(probe: TransferResponse, r: TransferResponse)
    requires
        probe_verdict(probe) == ProbeVerdict::Chunked,
    ensures
        next_phase(Phase::Probing, probe) == Phase::Single,
        next_phase(Phase::Single, r) == Phase::Complete,
{
}

/// A resource larger than one block is fetched in segments, starting with a
/// window over the whole resource, nothing read, and an empty sink that
/// holds the (empty) start of the content.
pub proof fn law_large_resource_segmented(probe: TransferResponse, content: Seq<u8>, n: usize)
    requires
        probe_verdict(probe) == ProbeVerdict::Length(n),
        n > MAX_BLOCK_SIZE,
        content.len() == n,
    ensures
        next_phase(Phase::Probing, probe) matches Phase::Segmented(f) && f.window.start == 0
            && f.window.end == n && f.window.total == n && f.total_read == 0 && holds_prefix(
            f,
            Seq::empty(),
            content,
        ),
{
    assert(content.subrange(0, 0) =~= Seq::<u8>::empty());
}

/// The sink holds the first `total_read` bytes of `content`, and the window
/// starts right after them.
pub open spec fn holds_prefix(f: SegmentedFetch, sink: Seq<u8>, content: Seq<u8>) -> bool {
    &&& f.window.total == content.len()
    &&& f.window.start == f.total_read
    &&& f.total_read <= content.len()
    &&& sink == content.subrange(0, f.total_read as int)
}

/// `r` answers the window of `f` faithfully for `content`: an accepted
/// status, a `Content-Range` value `v` that reads as the span from the
/// window's start to `b` of the whole size, and exactly those bytes.
pub open spec fn faithful(
    f: SegmentedFetch,
    r: TransferResponse,
    content: Seq<u8>,
    v: Seq<char>,
    b: usize,
) -> bool {
    &&& r.status == 200 || r.status == 206
    &&& f.window.start <= b < content.len()
    &&& header_value(r.headers@, utf8("Content-Range"@)) == Some(v)
    &&& content_range_spec(utf8(v)) == Some((f.window.start, b, content.len() as usize))
    &&& r.body@ == content.subrange(f.window.start as int, b + 1)
}

/// Segments reassemble: when each response faithfully carries the span it
/// reports, appending bodies in arrival order keeps the sink equal to the
/// start of the content, and once the fetch is done the sink is the content,
/// of exactly its length.
pub proof fn law_segments_reassemble(
    f: SegmentedFetch,
    sink: Seq<u8>,
    content: Seq<u8>,
    r: TransferResponse,
    v: Seq<char>,
    b: usize,
)
    requires
        f.wf(),
        holds_prefix(f, sink, content),
        faithful(f, r, content, v, b),
    ensures
        segment_verdict(f, r) == SegmentVerdict::Accepted(f.window.start, b, content.len() as usize),
        holds_prefix(advance(f, f.window.start, b), sink + r.body@, content),
        advance(f, f.window.start, b).total_read > f.total_read,
        advance(f, f.window.start, b).done() ==> sink + r.body@ == content
            && (sink + r.body@).len() == content.len(),
{
    let g = advance(f, f.window.start, b);
    assert(sink + r.body@ =~= content.subrange(0, b + 1));
    if g.done() {
        assert(content.subrange(0, b + 1) =~= content);
    }
}

/// A download repeated against an unchanged resource gives the same bytes:
/// any two segmented fetches of it that are done with their sinks holding a
/// prefix of the content hold the content itself.
pub proof fn law_repeated_download_identical(
    f1: SegmentedFetch,
    sink1: Seq<u8>,
    f2: SegmentedFetch,
    sink2: Seq<u8>,
    content: Seq<u8>,
)
    requires
        holds_prefix(f1, sink1, content),
        holds_prefix(f2, sink2, content),
        f1.done(),
        f2.done(),
    ensures
        sink1 == content,
        sink1 == sink2,
{
    assert(content.subrange(0, content.len() as int) =~= content);
}

/// Every accepted `Content-Range` span `a..=b` of `t` bytes is ordered,
/// `a <= b < t`, and the count of bytes read grows by exactly its length
/// `b - a + 1` (unless that count would pass `usize::MAX`).
pub proof fn law_accepted_span_ordered(
    f: SegmentedFetch,
    r: TransferResponse,
    a: usize,
    b: usize,
    t: usize,
)
    requires
        segment_verdict(f, r) == SegmentVerdict::Accepted(a, b, t),
    ensures
        a <= b < t,
        f.total_read + (b - a + 1) <= usize::MAX ==> advance(f, a, b).total_read == f.total_read
            + (b - a + 1),
{
}

/// In a segmented fetch, a status other than 200 and 206 ends the download.
pub proof fn law_bad_status_fails(f: SegmentedFetch, r: TransferResponse)
    requires
        r.status != 200,
        r.status != 206,
    ensures
        segment_verdict(f, r) == SegmentVerdict::BadStatus,
        next_phase(Phase::Segmented(f), r) == Phase::Failed,
{
}

/// In a segmented fetch, a partial response without `Content-Range` ends the
/// download, with a message that names the missing header.
pub proof fn law_missing_range_fails(f: SegmentedFetch, r: TransferResponse)
    requires
        r.status == 206,
        header_value(r.headers@, utf8("Content-Range"@)) is None,
    ensures
        segment_verdict(f, r) == SegmentVerdict::MissingRange,
        next_phase(Phase::Segmented(f), r) == Phase::Failed,
        missing_range_message().subrange(26, 39) == "Content-Range"@,
{
    reveal_strlit("Missing expected header: `Content-Range`");
    reveal_strlit("Content-Range");
    assert(missing_range_message().subrange(26, 39) =~= "Content-Range"@);
}

/// A probe answered with a status other than 200 ends the download before
/// any other request.
pub proof fn law_probe_failure_stops(probe: TransferResponse)
    requires
        probe.status != 200,
    ensures
        probe_verdict(probe) == ProbeVerdict::BadStatus,
        next_phase(Phase::Probing, probe) == Phase::Failed,
{
}

} // verus!
