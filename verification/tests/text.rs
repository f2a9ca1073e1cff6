use ingestion::text::str_eq;

#[test]
fn equal_strings_are_equal() {
    assert!(str_eq("", ""));
    assert!(str_eq("track", "track"));
    assert!(str_eq("héllo wörld", "héllo wörld"));
}

#[test]
fn different_strings_are_different() {
    assert!(!str_eq("track", "tracks"));
    assert!(!str_eq("track", "trace"));
    assert!(!str_eq("", "a"));
    assert!(!str_eq("a", ""));
    assert!(!str_eq("é", "e"));
    assert!(!str_eq("eventId", "eventid"));
}
