use webrtc_harness::{
    CxxString, CxxStringRef, Error, MapStringString, StringVector, random_bytes, random_string,
    rtc_log_format_file,
};
use webrtc_harness::log;

#[test]
fn cxx_string_round_trip() {
    let mut s = CxxString::from_str("hello");
    assert_eq!(s.len(), 5);
    assert_eq!(s.to_string().expect("the text should convert"), "hello");

    s.append(" world");
    assert_eq!(s.to_string().expect("the text should convert"), "hello world");

    let r = CxxStringRef::from_ptr(&s);
    assert_eq!(r.len(), 11);
    assert_eq!(r.to_string().expect("the view should convert"), "hello world");
}

#[test]
fn random_string_has_requested_length() {
    let s = random_string(8);
    assert_eq!(s.len(), 8);
}

#[test]
fn random_bytes_length_matches() {
    let b = random_bytes(16);
    assert_eq!(b.len(), 16);
}

#[test]
fn random_bytes_are_letters_or_digits() {
    let b = random_bytes(64);
    for &v in &b {
        assert!(v.is_ascii_alphanumeric());
    }
}

#[test]
fn string_vector_push_and_get() {
    let mut vec = StringVector::new(0);
    let hello = CxxString::from_str("hello");
    let world = CxxString::from_str("world");
    vec.push(&hello);
    vec.push(&world);

    assert_eq!(vec.len(), 2);
    assert_eq!(vec.get(0).expect("entry 0 should exist"), "hello");
    assert_eq!(vec.get(1).expect("entry 1 should exist"), "world");
}

#[test]
fn string_vector_get_out_of_range_reports_the_index() {
    let vec = StringVector::new(1);
    match vec.get(5) {
        Err(Error::OutOfIndex(i)) => assert_eq!(i, 5),
        _ => panic!("an out-of-range index must be reported"),
    }
}

#[test]
fn map_set_replaces_in_place_and_keeps_order() {
    let mut map = MapStringString::new();
    map.set("alpha", "1");
    map.set("beta", "2");
    map.set("alpha", "3");
    assert_eq!(map.len(), 2);
    assert_eq!(map.get("alpha").expect("alpha should be present"), "3");
    assert_eq!(map.get("beta").expect("beta should be present"), "2");
    assert!(map.get("gamma").is_none());

    let mut it = map.iter();
    let first = it.next().expect("two entries remain");
    assert_eq!(first.0, "alpha");
    assert_eq!(first.1, "3");
    let second = it.next().expect("one entry remains");
    assert_eq!(second.0, "beta");
    assert!(it.next().is_none());
}

#[test]
fn log_format_file_takes_the_base_name() {
    assert_eq!(rtc_log_format_file("webrtc_harness", "src/api/video.rs"), "webrtc_harness::video.rs");
    assert_eq!(rtc_log_format_file("webrtc_harness", "plain.rs"), "webrtc_harness::plain.rs");
}

#[test]
fn logging_functions_are_callable() {
    log::log_to_debug(log::Severity::Info);
    log::enable_timestamps();
    log::enable_threads();
    log::print(log::Severity::Info, "webrtc-c", 0, "log test");
}
