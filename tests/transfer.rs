use http_client::download::{Download, Phase};
use http_client::engine::{classify_probe, parse_content_range, FileSize, SegmentedFetch, MAX_BLOCK_SIZE};
use http_client::error::HttpError;
use http_client::message::{find_header, Header, Method, TransferRequest, TransferResponse};

fn header(name: &str, value: &str) -> Header {
    Header { name: name.to_string(), value: value.to_string() }
}

fn response(status: usize, message: &str, headers: Vec<Header>, body: Vec<u8>) -> TransferResponse {
    TransferResponse { status, message: message.to_string(), headers, body }
}

fn template() -> TransferRequest {
    TransferRequest {
        method: Method::Get,
        path: "/video.mp4".to_string(),
        headers: vec![header("User-Agent", "test"), header("Host", "localhost")],
        body: Vec::new(),
    }
}

fn content(n: usize) -> Vec<u8> {
    (0..n).map(|i| (i % 251) as u8).collect()
}

fn range_of(req: &TransferRequest) -> Option<String> {
    find_header(&req.headers, "Range").map(|i| req.headers[i].value.clone())
}

/// Answers a range request honestly: at most one block from the asked start.
fn serve_range(req: &TransferRequest, data: &[u8]) -> TransferResponse {
    let value = range_of(req).expect("a segment request carries a Range header");
    let spec = value.strip_prefix("bytes=").unwrap();
    let start: usize = spec.split('-').next().unwrap().parse().unwrap();
    let last = std::cmp::min(start + MAX_BLOCK_SIZE, data.len()) - 1;
    let cr = format!("bytes {}-{}/{}", start, last, data.len());
    response(206, "Partial Content", vec![header("Content-Range", &cr)], data[start..=last].to_vec())
}

struct Run {
    output: Vec<u8>,
    requests: Vec<TransferRequest>,
    result: Result<(), HttpError>,
}

/// Drives a download against a server that holds `data`, with a probe
/// answer given by `probe`.
fn run(probe: TransferResponse, data: &[u8], chunked: bool) -> Run {
    let mut d = Download::new(template());
    let mut output = Vec::new();
    let mut requests = Vec::new();
    let mut first = true;
    while let Some(req) = d.current_request() {
        let req = req.clone();
        let resp = if first {
            first = false;
            probe.clone()
        } else if chunked || range_of(&req).is_none() {
            response(200, "OK", vec![], data.to_vec())
        } else {
            serve_range(&req, data)
        };
        requests.push(req);
        match d.on_response(resp) {
            Ok(bytes) => output.extend_from_slice(&bytes),
            Err(e) => return Run { output, requests, result: Err(e) },
        }
    }
    Run { output, requests, result: Ok(()) }
}

fn sized_probe(n: usize) -> TransferResponse {
    response(200, "OK", vec![header("Content-Length", &n.to_string())], vec![])
}

#[test]
fn small_resource_single_request_without_range() {
    let data = content(500);
    let r = run(sized_probe(500), &data, false);
    assert_eq!(r.result, Ok(()));
    assert_eq!(r.requests.len(), 2);
    assert_eq!(r.requests[0].method, Method::Head);
    assert!(range_of(&r.requests[1]).is_none());
    assert_eq!(r.requests[1].method, Method::Get);
    assert_eq!(r.output, data);
}

#[test]
fn resource_of_exactly_one_block_is_single() {
    let data = content(MAX_BLOCK_SIZE);
    let r = run(sized_probe(MAX_BLOCK_SIZE), &data, false);
    assert_eq!(r.requests.len(), 2);
    assert!(range_of(&r.requests[1]).is_none());
    assert_eq!(r.output.len(), MAX_BLOCK_SIZE);
}

#[test]
fn segmented_scenario_three_requests() {
    let total = 2_500_000;
    let data = content(total);
    let r = run(sized_probe(total), &data, false);
    assert_eq!(r.result, Ok(()));
    assert_eq!(r.requests.len(), 4);
    let ranges: Vec<String> = r.requests[1..].iter().map(|q| range_of(q).unwrap()).collect();
    assert_eq!(ranges, vec![
        "bytes=0-2500000/2500000".to_string(),
        "bytes=1000000-2500000/2500000".to_string(),
        "bytes=2000000-2500000/2500000".to_string(),
    ]);
    assert_eq!(r.output.len(), 2_500_000);
    assert_eq!(r.output, data);
}

#[test]
fn repeated_download_is_identical() {
    let data = content(2_100_000);
    let a = run(sized_probe(data.len()), &data, false);
    let b = run(sized_probe(data.len()), &data, false);
    assert_eq!(a.output, b.output);
    assert_eq!(a.output, data);
}

#[test]
fn chunked_probe_gives_one_transfer_request() {
    let probe = response(200, "OK", vec![header("Transfer-Encoding", "chunked")], vec![]);
    assert_eq!(classify_probe(&probe), Ok(FileSize::Chunked));
    let data = content(3_000_000);
    let r = run(probe, &data, true);
    assert_eq!(r.result, Ok(()));
    assert_eq!(r.requests.len(), 2);
    assert!(range_of(&r.requests[1]).is_none());
    assert_eq!(r.output, data);
}

#[test]
fn chunked_is_recognised_without_regard_to_case() {
    let probe = response(200, "OK", vec![header("transfer-encoding", "gzip, CHUNKED")], vec![]);
    assert_eq!(classify_probe(&probe), Ok(FileSize::Chunked));
}

#[test]
fn probe_not_found_fails_without_further_requests() {
    let probe = response(404, "Not Found", vec![], vec![]);
    let r = run(probe, &content(10), false);
    assert_eq!(r.result, Err(HttpError::BadResponse(404, "Not Found".to_string())));
    assert_eq!(r.requests.len(), 1);
    let mut d = Download::new(template());
    let e = d.on_response(response(404, "Not Found", vec![], vec![]));
    assert!(e.is_err());
    assert_eq!(d.phase(), Phase::Failed);
    assert!(d.current_request().is_none());
}

#[test]
fn probe_without_size_headers_fails() {
    let probe = response(200, "OK", vec![header("Server", "x")], vec![]);
    assert_eq!(
        classify_probe(&probe),
        Err(HttpError::BadResponse(200, "OK: Cannot determine resource size from headers.".to_string()))
    );
}

#[test]
fn probe_with_malformed_length_is_a_parse_error() {
    let probe = response(200, "OK", vec![header("content-length", "12x")], vec![]);
    assert_eq!(
        classify_probe(&probe),
        Err(HttpError::ParseError("invalid Content-Length value: 12x".to_string()))
    );
}

#[test]
fn probe_length_is_read() {
    let probe = response(200, "OK", vec![header("CONTENT-LENGTH", "+2500000")], vec![]);
    assert_eq!(classify_probe(&probe), Ok(FileSize::Sized(2_500_000)));
}

fn segmented() -> Download {
    let mut d = Download::new(template());
    d.on_response(sized_probe(3_000_000)).unwrap();
    d
}

#[test]
fn segment_with_bad_status_fails_with_its_status_and_message() {
    let mut d = segmented();
    let e = d.on_response(response(500, "Internal Server Error", vec![], vec![]));
    assert_eq!(e, Err(HttpError::BadResponse(500, "Internal Server Error".to_string())));
    assert_eq!(d.phase(), Phase::Failed);
}

#[test]
fn partial_response_without_content_range_fails() {
    let mut d = segmented();
    let e = d.on_response(response(206, "Partial Content", vec![], vec![1, 2, 3]));
    match e {
        Err(HttpError::BadResponse(206, m)) => assert!(m.contains("Content-Range")),
        other => panic!("unexpected {:?}", other),
    }
    assert_eq!(d.phase(), Phase::Failed);
}

#[test]
fn reversed_span_is_refused() {
    let mut d = segmented();
    let r = response(206, "Partial Content", vec![header("Content-Range", "bytes 5-2/3000000")], vec![]);
    assert_eq!(
        d.on_response(r),
        Err(HttpError::BadResponse(
            206,
            "Unsupported value for header `Content-Range`: bytes 5-2/3000000".to_string()
        ))
    );
}

#[test]
fn short_content_range_is_refused() {
    let mut d = segmented();
    let r = response(206, "Partial Content", vec![header("Content-Range", "bytes 0-5")], vec![]);
    assert!(matches!(d.on_response(r), Err(HttpError::BadResponse(206, _))));
}

#[test]
fn content_range_values() {
    assert_eq!(parse_content_range(b"bytes 0-999/2000"), Some((0, 999, 2000)));
    assert_eq!(parse_content_range(b"bytes  10-20/30  "), Some((10, 20, 30)));
    assert_eq!(parse_content_range(b"0-1/2"), Some((0, 1, 2)));
    assert_eq!(parse_content_range(b"bytes x-1-2/3"), Some((1, 2, 3)));
    assert_eq!(parse_content_range(b"bytes */2000"), None);
    assert_eq!(parse_content_range(b""), None);
}

#[test]
fn accepted_span_advances_window() {
    let mut f = SegmentedFetch::new(3_000_000);
    assert_eq!(f.range_value(), "bytes=0-3000000/3000000");
    let r = response(206, "Partial Content", vec![header("Content-Range", "bytes 0-999999/3000000")], vec![]);
    assert_eq!(f.on_response(&r), Ok(()));
    assert_eq!(f.window.start, 1_000_000);
    assert_eq!(f.window.end, 3_000_000);
    assert_eq!(f.total_read, 1_000_000);
    assert!(!f.is_done());
}

#[test]
fn server_reported_end_drives_next_start() {
    let mut f = SegmentedFetch::new(3_000_000);
    let r = response(200, "OK", vec![header("Content-Range", "bytes 0-499/3000000")], vec![]);
    assert_eq!(f.on_response(&r), Ok(()));
    assert_eq!(f.window.start, 500);
    assert_eq!(f.total_read, 500);
}
