use presence::activity::{millis, Activity};
use presence::media::{
    from_date_time, from_time_span, timeline_bounds, HelperMode, Media, MediaError, MediaRemote,
    NowPlayingInfo, Timeline,
};

const SEC: i128 = 1_000_000_000;

fn info() -> NowPlayingInfo {
    NowPlayingInfo {
        bundle_identifier: "com.example.player".to_string(),
        playing: true,
        title: "Song".to_string(),
        artist: Some("Band".to_string()),
        album: None,
        duration: Some(200 * 1_000_000_000),
        elapsed_time: Some(30 * 1_000_000_000),
        timestamp: Some(1_700_000_000 * SEC),
        artwork_mime_type: Some("image/png".to_string()),
        artwork_data: Some("AQID".to_string()),
        chapter_number: None,
    }
}

#[test]
fn windows_timestamp_conversion() {
    let t = Timeline {
        last_updated_time: 133_000_000_000_000_000,
        position: 600_000_000,
        start_time: 0,
        end_time: 1_800_000_000,
    };
    let (start, end) = timeline_bounds(&t);
    // 133e15 ticks since 1601 is 1_655_526_400 s after the Unix epoch
    assert_eq!(from_date_time(133_000_000_000_000_000), 1_655_526_400 * SEC);
    assert_eq!(start, 1_655_526_400 * SEC - 60 * SEC);
    assert_eq!(end, start + 180 * SEC);
    let m = Media::from_windows(&t, "T".into(), "A".into(), "image/jpeg".into(), vec![9, 9]);
    assert_eq!(m.start, start);
    assert_eq!(m.end, end);
    assert!(m.end >= m.start);
}

#[test]
fn windows_conversions_units() {
    assert_eq!(from_time_span(1), 100);
    assert_eq!(from_time_span(-3), -300);
    assert_eq!(from_date_time(0), -11_644_473_600 * SEC);
    // whole microseconds only, toward zero
    assert_eq!(from_date_time(19), -11_644_473_600 * SEC + 1000);
    assert_eq!(from_date_time(-19), -11_644_473_600 * SEC - 1000);
    let t = Timeline { last_updated_time: 0, position: 0, start_time: 50, end_time: 20 };
    let (start, end) = timeline_bounds(&t);
    assert_eq!(end - start, -3000);
}

#[test]
fn mac_paused() {
    let paused = NowPlayingInfo {
        bundle_identifier: String::new(),
        playing: false,
        title: "x".to_string(),
        artist: None,
        album: None,
        duration: None,
        elapsed_time: None,
        timestamp: None,
        artwork_mime_type: None,
        artwork_data: None,
        chapter_number: None,
    };
    assert!(Media::from_info(paused).unwrap().is_none());
    let mut stopped = info();
    stopped.playing = false;
    assert!(Media::from_info(stopped).unwrap().is_none());
}

#[test]
fn mac_playing() {
    let m = Media::from_info(info()).unwrap().unwrap();
    assert_eq!(m.title, "Song");
    assert_eq!(m.artist, "Band");
    assert_eq!(m.start, 1_700_000_000 * SEC - 30 * SEC);
    assert_eq!(m.end, m.start + 200 * SEC);
    assert_eq!(m.artwork_mime, "image/png");
    assert_eq!(m.artwork_bytes, vec![1, 2, 3]);
    assert_eq!(m.artwork_hash, blake3::hash(&[1, 2, 3]).to_hex().to_string());
    assert_eq!(m.artwork_hash.len(), 64);
}

#[test]
fn mac_missing_fields_give_none() {
    let mut a = info();
    a.artist = None;
    assert!(Media::from_info(a).unwrap().is_none());
    let mut b = info();
    b.artwork_data = None;
    assert!(Media::from_info(b).unwrap().is_none());
    let mut c = info();
    c.timestamp = None;
    assert!(Media::from_info(c).unwrap().is_none());
    let mut d = info();
    d.duration = None;
    assert!(Media::from_info(d).unwrap().is_none());
}

#[test]
fn mac_bad_artwork_is_an_error() {
    let mut a = info();
    a.artwork_data = Some("not base64!".to_string());
    assert_eq!(Media::from_info(a).unwrap_err(), MediaError::InvalidArtwork);
    let mut b = info();
    b.playing = false;
    b.artwork_data = Some("@@".to_string());
    assert_eq!(Media::from_info(b).unwrap_err(), MediaError::InvalidArtwork);
}

#[test]
fn mac_out_of_range_is_an_error() {
    let mut a = info();
    a.timestamp = Some(i128::MIN + 5);
    a.elapsed_time = Some(10);
    assert_eq!(Media::from_info(a).unwrap_err(), MediaError::OutOfRange);
}

#[test]
fn snapshot_invariants() {
    for (elapsed, duration) in [(0i64, 0i64), (5, 1), (1_000, 999_999), (-7, 3)] {
        let mut a = info();
        a.elapsed_time = Some(elapsed);
        a.duration = Some(duration);
        a.artwork_data = Some("aGVsbG8=".to_string());
        let m = Media::from_info(a).unwrap().unwrap();
        assert!(m.end >= m.start);
        assert_eq!(m.artwork_bytes, b"hello".to_vec());
        assert_eq!(m.artwork_hash, blake3::hash(b"hello").to_hex().to_string());
    }
}

#[test]
fn activity_from_media() {
    let m = Media::from_info(info()).unwrap().unwrap();
    let a = Activity::for_media(&m, "https://art.example.com");
    assert_eq!(a.kind, 2);
    assert_eq!(a.details.as_deref(), Some("Song"));
    assert_eq!(a.state.as_deref(), Some("Band"));
    let ts = a.timestamps.unwrap();
    assert_eq!(ts.start, Some(1_699_999_970_000));
    assert_eq!(ts.end, Some(1_700_000_170_000));
    assert_eq!(
        a.assets.unwrap().large_image.unwrap(),
        format!("https://art.example.com/{}", m.artwork_hash)
    );
    assert_eq!(a.status_display_type, Some(1));
    assert!(a.name.is_none());
}

#[test]
fn millisecond_truncation() {
    assert_eq!(millis(1_999_999), 1);
    assert_eq!(millis(-1_999_999), -1);
    assert_eq!(millis(-2_000_000), -2);
    assert_eq!(millis(-1), 0);
    assert_eq!(millis(i128::MIN), i128::MIN / 1_000_000);
    assert_eq!(millis(i128::MAX), i128::MAX / 1_000_000);
}

#[test]
fn helper_arguments() {
    let mr = MediaRemote::new("/fw".to_string(), "/script.pl".to_string());
    assert_eq!(mr.helper_args(HelperMode::Get), vec!["/script.pl", "/fw", "get"]);
    assert_eq!(
        mr.helper_args(HelperMode::Stream),
        vec!["/script.pl", "/fw", "stream", "--no-diff"]
    );
}
