//! Handing a finished recording to a MediaMTX ingest URL.
use vstd::prelude::*;

use crate::text::{
    first_index_of, has_prefix, push_str, split_once_char, strip_prefix, texts_view, to_owned_string, trim,
    trim_end_matches, trim_end_matches_str, trim_str,
};

verus! {

/// The viewer page for an ingest URL of `scheme` whose default port is `port`, if `url` is one.
pub open spec fn mediamtx_view(url: Seq<char>, scheme: Seq<char>, port: Seq<char>) -> Option<Seq<char>> {
    if has_prefix(url, scheme) {
        let rest = url.subrange(scheme.len() as int, url.len() as int);
        match first_index_of(rest, '/') {
            Some(k) => Some(
                "http://"@ + trim_end_matches(rest.subrange(0, k), port) + ":8888/"@ + rest.subrange(
                    k + 1,
                    rest.len() as int,
                ),
            ),
            None => None,
        }
    } else {
        None
    }
}

/// The MediaMTX HLS page for an RTSP (port 8554) or RTMP (port 1935) ingest URL; any other
/// text is returned trimmed.
pub open spec fn view_url_spec(ingest: Seq<char>) -> Seq<char> {
    let url = trim(ingest);
    match mediamtx_view(url, "rtsp://"@, ":8554"@) {
        Some(v) => v,
        None => match mediamtx_view(url, "rtmp://"@, ":1935"@) {
            Some(v) => v,
            None => url,
        },
    }
}

fn viewer_for(url: &str, scheme: &str, port: &str) -> (r: Option<String>)
    ensures
        match mediamtx_view(url@, scheme@, port@) {
            Some(v) => r is Some && r->0@ == v,
            None => r is None,
        },
{
    match strip_prefix(url, scheme) {
        Some(rest) => match split_once_char(rest, '/') {
            Some((host, path)) => {
                let host = trim_end_matches_str(host, port);
                let mut out = to_owned_string("http://");
                push_str(&mut out, host);
                push_str(&mut out, ":8888/");
                push_str(&mut out, path);
                Some(out)
            },
            None => None,
        },
        None => None,
    }
}

/// MediaMTX HLS/WebRTC page for a typical local ingest URL.
pub fn view_url(ingest: &str) -> (r: String)
    ensures
        r@ == view_url_spec(ingest@),
{
    let url = trim_str(ingest);
    if let Some(v) = viewer_for(url, "rtsp://", ":8554") {
        return v;
    }
    if let Some(v) = viewer_for(url, "rtmp://", ":1935") {
        return v;
    }
    to_owned_string(url)
}

/// The `ffmpeg` arguments that remux `path` to `url` without re-encoding, or none when the URL
/// is neither RTSP nor RTMP.
pub open spec fn ffmpeg_args_spec(path: Seq<char>, url: Seq<char>) -> Option<Seq<Seq<char>>> {
    let base = seq![
        "-hide_banner"@,
        "-nostdin"@,
        "-loglevel"@,
        "error"@,
        "-i"@,
        path,
        "-c"@,
        "copy"@,
    ];
    if has_prefix(url, "rtsp://"@) {
        Some(base + seq!["-f"@, "rtsp"@, "-rtsp_transport"@, "tcp"@, url])
    } else if has_prefix(url, "rtmp://"@) {
        Some(base + seq!["-f"@, "flv"@, url])
    } else {
        None
    }
}

fn push_arg(args: &mut Vec<String>, a: &str)
    ensures
        texts_view(final(args)@) == texts_view(old(args)@).push(a@),
{
    args.push(to_owned_string(a));
    assert(texts_view(args@) =~= texts_view(old(args)@).push(a@));
}

/// `ffmpeg -c copy` arguments for remuxing `path` to `url`; none for other URL schemes.
pub fn ffmpeg_args(path: &str, url: &str) -> (r: Option<Vec<String>>)
    ensures
        match ffmpeg_args_spec(path@, url@) {
            Some(a) => r is Some && texts_view(r->0@) == a,
            None => r is None,
        },
{
    let mut args: Vec<String> = Vec::new();
    push_arg(&mut args, "-hide_banner");
    push_arg(&mut args, "-nostdin");
    push_arg(&mut args, "-loglevel");
    push_arg(&mut args, "error");
    push_arg(&mut args, "-i");
    push_arg(&mut args, path);
    push_arg(&mut args, "-c");
    push_arg(&mut args, "copy");
    if starts_with_scheme(url, "rtsp://") {
        push_arg(&mut args, "-f");
        push_arg(&mut args, "rtsp");
        push_arg(&mut args, "-rtsp_transport");
        push_arg(&mut args, "tcp");
    } else if starts_with_scheme(url, "rtmp://") {
        push_arg(&mut args, "-f");
        push_arg(&mut args, "flv");
    } else {
        return None;
    }
    push_arg(&mut args, url);
    assert(texts_view(args@) =~= ffmpeg_args_spec(path@, url@)->0);
    Some(args)
}

fn starts_with_scheme(url: &str, scheme: &str) -> (r: bool)
    ensures
        r == has_prefix(url@, scheme@),
{
    crate::text::starts_with(url, scheme)
}

} // verus!
