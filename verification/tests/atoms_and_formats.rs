use xshot::atoms::AtomCache;
use xshot::atoms::AtomName;
use xshot::atoms::protocol_string;
use xshot::format::OutputFormat;

#[test]
fn cache_starts_empty() {
    let cache = AtomCache::new();
    assert_eq!(cache.lookup(AtomName::ClientList), None);
    assert_eq!(cache.lookup(AtomName::Utf8String), None);
    assert_eq!(cache.lookup(AtomName::WindowName), None);
    assert_eq!(cache.lookup(AtomName::Clipboard), None);
    assert_eq!(cache.lookup(AtomName::Targets), None);
}

#[test]
fn stored_handle_is_returned_and_others_stay_empty() {
    let mut cache = AtomCache::new();
    cache.store(AtomName::Clipboard, 314);
    assert_eq!(cache.lookup(AtomName::Clipboard), Some(314));
    assert_eq!(cache.lookup(AtomName::ClientList), None);
    assert_eq!(cache.lookup(AtomName::Targets), None);
    // Repeated lookups keep returning the identical handle.
    assert_eq!(cache.lookup(AtomName::Clipboard), Some(314));
}

#[test]
fn every_name_has_its_protocol_string() {
    assert_eq!(protocol_string(AtomName::ClientList), "_NET_CLIENT_LIST");
    assert_eq!(protocol_string(AtomName::Utf8String), "UTF8_STRING");
    assert_eq!(protocol_string(AtomName::WindowName), "_NET_WM_NAME");
    assert_eq!(protocol_string(AtomName::Clipboard), "CLIPBOARD");
    assert_eq!(protocol_string(AtomName::Targets), "TARGETS");
}

#[test]
fn every_format_has_its_mime_type() {
    assert_eq!(OutputFormat::Png.to_mime_type(), "image/png");
    assert_eq!(OutputFormat::Jpg.to_mime_type(), "image/jpeg");
    assert_eq!(OutputFormat::Jpeg.to_mime_type(), "image/jpeg");
    assert_eq!(OutputFormat::Gif.to_mime_type(), "image/gif");
    assert_eq!(OutputFormat::Bmp.to_mime_type(), "image/bmp");
}
