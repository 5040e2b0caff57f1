use lightcapture::stream::{ffmpeg_args, view_url};

#[test]
fn view_url_maps_mediamtx_ports() {
    assert_eq!(
        view_url("rtsp://127.0.0.1:8554/live"),
        "http://127.0.0.1:8888/live"
    );
    assert_eq!(
        view_url("rtmp://127.0.0.1:1935/live/app"),
        "http://127.0.0.1:8888/live/app"
    );
    assert_eq!(
        view_url("http://127.0.0.1:8888/live"),
        "http://127.0.0.1:8888/live"
    );
}

#[test]
fn view_url_trims_and_keeps_other_hosts() {
    assert_eq!(view_url("  rtsp://cam:9000/x \n"), "http://cam:9000:8888/x");
    assert_eq!(view_url("rtsp://nohost"), "rtsp://nohost");
    assert_eq!(view_url("rtsp://h:8554:8554/p"), "http://h:8888/p");
}

#[test]
fn ffmpeg_args_copy_only() {
    let args = ffmpeg_args(r"C:\out.mp4", "rtsp://127.0.0.1:8554/live").unwrap();
    assert!(args.windows(2).any(|w| w == ["-c", "copy"]));
    assert!(args.windows(2).any(|w| w == ["-f", "rtsp"]));
    assert_eq!(
        ffmpeg_args("out.mp4", "http://127.0.0.1:8888/live"),
        None
    );
}

#[test]
fn ffmpeg_args_for_rtmp() {
    let args = ffmpeg_args("a.mp4", "rtmp://h/app").unwrap();
    assert_eq!(
        args,
        vec![
            "-hide_banner", "-nostdin", "-loglevel", "error", "-i", "a.mp4", "-c", "copy", "-f",
            "flv", "rtmp://h/app"
        ]
    );
}
