use rvp::hls::{is_absolute_uri, is_manifest_url, resolve_uri, HlsError, HlsStream, PlaylistKind, ReaderStep, Variant, VariantReader};

const MASTER: &str = "#EXTM3U
#EXT-X-STREAM-INF:BANDWIDTH=1280000,RESOLUTION=1280x720
720p.m3u8
#EXT-X-STREAM-INF:BANDWIDTH=2560000,RESOLUTION=1920x1080
http://cdn.example.org/1080p.m3u8
#EXT-X-STREAM-INF:BANDWIDTH=640000,RESOLUTION=640x360
low/360p.m3u8
#EXT-X-STREAM-INF:BANDWIDTH=1280000,RESOLUTION=1280x720
alt/720p.m3u8
";

const MEDIA: &str = "#EXTM3U
#EXT-X-TARGETDURATION:10
#EXT-X-PLAYLIST-TYPE:VOD
#EXTINF:9.009,
seg0.ts
#EXTINF:9.009,
seg1.ts
#EXT-X-ENDLIST
";

const MEDIA_MORE: &str = "#EXTM3U
#EXT-X-TARGETDURATION:10
#EXTINF:9.009,
seg1.ts
#EXTINF:9.009,
seg0.ts
#EXTINF:9.009,
/abs/seg2.ts
";

#[test]
fn variants_are_resolved_and_sorted() {
    let mut hls = HlsStream::new("http://example.com/live/master.m3u8");
    hls.load(MASTER.as_bytes()).unwrap();
    let v = hls.variants().unwrap();
    let got: Vec<(String, u64)> = v.iter().map(|x| (x.uri.clone(), x.bandwidth)).collect();
    assert_eq!(
        got,
        vec![
            ("http://cdn.example.org/1080p.m3u8".to_string(), 2_560_000),
            ("http://example.com/live/720p.m3u8".to_string(), 1_280_000),
            ("http://example.com/live/alt/720p.m3u8".to_string(), 1_280_000),
            ("http://example.com/live/low/360p.m3u8".to_string(), 640_000),
        ]
    );
}

#[test]
fn auto_variant_has_highest_bandwidth() {
    let mut hls = HlsStream::new("http://example.com/live/master.m3u8");
    assert!(hls.auto_variant().unwrap().is_none());
    hls.load(MASTER.as_bytes()).unwrap();
    let best = hls.auto_variant().unwrap().unwrap();
    assert_eq!(best.uri, "http://cdn.example.org/1080p.m3u8");
    assert_eq!(best.bandwidth, 2_560_000);
    assert_eq!(hls.current_variant().unwrap().unwrap().uri, best.uri);
    hls.set_variant(Variant { uri: "http://example.com/live/720p.m3u8".to_string(), bandwidth: 1_280_000 });
    assert_eq!(hls.current_variant().unwrap().unwrap().uri, "http://example.com/live/720p.m3u8");
}

#[test]
fn media_manifest_is_its_own_variant() {
    let mut hls = HlsStream::new("https://example.com/v/index.m3u8");
    hls.load(MEDIA.as_bytes()).unwrap();
    let v = hls.variants().unwrap();
    assert_eq!(v.len(), 1);
    assert_eq!(v[0].uri, "https://example.com/v/index.m3u8");
    assert_eq!(v[0].bandwidth, 0);
}

#[test]
fn malformed_manifest_is_an_error() {
    let mut hls = HlsStream::new("http://example.com/x.m3u8");
    assert_eq!(hls.load(b"this is not a playlist"), Err(HlsError::Malformed));
    assert_eq!(hls.variants().unwrap().len(), 0);
}

#[test]
fn relative_uris_resolve_absolute_pass_through() {
    let base = "http://example.com/live/stream/index.m3u8";
    assert_eq!(resolve_uri(base, "seg1.ts").unwrap(), "http://example.com/live/stream/seg1.ts");
    assert_eq!(resolve_uri(base, "../other/seg1.ts").unwrap(), "http://example.com/live/other/seg1.ts");
    assert_eq!(resolve_uri(base, "/root.ts").unwrap(), "http://example.com/root.ts");
    assert_eq!(resolve_uri(base, "HTTPS://Cdn.Example.com/a.ts").unwrap(), "HTTPS://Cdn.Example.com/a.ts");
    assert_eq!(resolve_uri("not a url", "seg.ts"), Err(HlsError::BadUrl));
}

#[test]
fn scheme_detection() {
    assert!(is_absolute_uri("http://x/y"));
    assert!(is_absolute_uri("s3+x.y-z:abc"));
    assert!(!is_absolute_uri("seg.ts"));
    assert!(!is_absolute_uri(":nope"));
    assert!(!is_absolute_uri("1http://x"));
    assert!(!is_absolute_uri("a b:c"));
    assert!(!is_absolute_uri(""));
}

#[test]
fn reader_never_refetches_a_seen_segment() {
    let mut r = VariantReader::new(Variant { uri: "http://example.com/live/720p.m3u8".to_string(), bandwidth: 0 });
    let mut fetched: Vec<String> = Vec::new();
    for body in [MEDIA, MEDIA, MEDIA_MORE, MEDIA, MEDIA_MORE, MEDIA_MORE] {
        match r.next_step(body.as_bytes()).unwrap() {
            ReaderStep::Fetch { url, uri } => {
                assert!(!fetched.contains(&uri), "{} fetched twice", uri);
                fetched.push(uri.clone());
                r.segment_fetched(&uri, url.as_bytes());
            }
            ReaderStep::Wait => {}
        }
    }
    assert_eq!(fetched, vec!["seg0.ts", "seg1.ts", "/abs/seg2.ts"]);
    assert!(matches!(r.next_step(MEDIA_MORE.as_bytes()).unwrap(), ReaderStep::Wait));
    assert_eq!(r.kind(), Some(PlaylistKind::Vod));
}

#[test]
fn reader_fetches_in_manifest_order() {
    let mut r = VariantReader::new(Variant { uri: "http://example.com/live/720p.m3u8".to_string(), bandwidth: 0 });
    match r.next_step(MEDIA.as_bytes()).unwrap() {
        ReaderStep::Fetch { url, uri } => {
            assert_eq!(uri, "seg0.ts");
            assert_eq!(url, "http://example.com/live/seg0.ts");
        }
        ReaderStep::Wait => panic!("expected a segment"),
    }
    let seg0 = "seg0.ts".to_string();
    r.segment_fetched(&seg0, b"abc");
    r.segment_fetched(&seg0, b"de");
    match r.next_step(MEDIA.as_bytes()).unwrap() {
        ReaderStep::Fetch { uri, .. } => assert_eq!(uri, "seg1.ts"),
        ReaderStep::Wait => panic!("expected a segment"),
    }
}

#[test]
fn reader_hands_out_exact_byte_counts() {
    let mut r = VariantReader::new(Variant { uri: "http://example.com/a.m3u8".to_string(), bandwidth: 0 });
    assert!(r.read(1).is_none());
    r.segment_fetched(&"a.ts".to_string(), b"hello");
    r.segment_fetched(&"b.ts".to_string(), b" world");
    assert_eq!(r.buffered(), 11);
    assert!(r.read(12).is_none());
    assert_eq!(r.read(7).unwrap(), b"hello w".to_vec());
    assert_eq!(r.buffered(), 4);
    assert_eq!(r.read(4).unwrap(), b"orld".to_vec());
    assert_eq!(r.read(0).unwrap(), Vec::<u8>::new());
}

#[test]
fn reader_rejects_master_and_garbage() {
    let mut r = VariantReader::new(Variant { uri: "http://example.com/a.m3u8".to_string(), bandwidth: 0 });
    assert!(matches!(r.next_step(MASTER.as_bytes()), Err(HlsError::UnexpectedMaster)));
    assert!(matches!(r.next_step(b"garbage"), Err(HlsError::Malformed)));
    assert_eq!(r.manifest_url(), "http://example.com/a.m3u8");
}

#[test]
fn manifest_inputs_go_through_the_segment_reader() {
    assert!(is_manifest_url("http://example.com/live/master.m3u8"));
    assert!(is_manifest_url("https://example.com/a.m3u8"));
    assert!(!is_manifest_url("https://example.com/movie.mp4"));
    assert!(!is_manifest_url("/home/me/video.m3u8"));
    assert!(!is_manifest_url("ftp://example.com/a.m3u8"));
    assert!(!is_manifest_url("http://"));
}
