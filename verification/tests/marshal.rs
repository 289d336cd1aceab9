use ndi_sdk::finder::FindSource;
use ndi_sdk::instance::library_path;
use ndi_sdk::util::{to_c_string, to_ndi_source, NulError};

#[test]
fn c_string_ends_in_a_zero_byte() {
    assert_eq!(to_c_string("cam"), Ok(vec![b'c', b'a', b'm', 0]));
    assert_eq!(to_c_string(""), Ok(vec![0]));
}

#[test]
fn c_string_keeps_multi_byte_text() {
    assert_eq!(to_c_string("é"), Ok(vec![0xc3, 0xa9, 0]));
}

#[test]
fn c_string_reports_the_first_zero_byte() {
    assert_eq!(to_c_string("a\0b\0"), Err(NulError { position: 1 }));
    assert_eq!(to_c_string("\0"), Err(NulError { position: 0 }));
    assert_eq!(to_c_string("éa\0"), Err(NulError { position: 3 }));
}

#[test]
fn source_with_name_only_is_marshaled() {
    let source = FindSource { name: "STUDIO (Camera 1)".to_string(), url: None };
    let (name, url) = to_ndi_source(&source).unwrap();
    assert_eq!(name, b"STUDIO (Camera 1)\0".to_vec());
    assert_eq!(url, None);
    assert_eq!(source.name, "STUDIO (Camera 1)");
}

#[test]
fn source_with_address_is_marshaled() {
    let source = FindSource { name: "A".to_string(), url: Some("10.0.0.7:5961".to_string()) };
    let (name, url) = to_ndi_source(&source).unwrap();
    assert_eq!(name, b"A\0".to_vec());
    assert_eq!(url, Some(b"10.0.0.7:5961\0".to_vec()));
    assert_eq!(source.url.as_deref(), Some("10.0.0.7:5961"));
}

#[test]
fn source_with_zero_byte_in_name_is_refused() {
    let source = FindSource { name: "bad\0name".to_string(), url: Some("x\0".to_string()) };
    assert_eq!(to_ndi_source(&source), Err(NulError { position: 3 }));
}

#[test]
fn source_with_zero_byte_in_address_is_refused() {
    let source = FindSource { name: "good".to_string(), url: Some("\0x".to_string()) };
    assert_eq!(to_ndi_source(&source), Err(NulError { position: 0 }));
}

#[test]
fn find_source_can_be_cloned() {
    let source = FindSource { name: "A".to_string(), url: Some("b".to_string()) };
    let copy = source.clone();
    assert_eq!(copy.name, "A");
    assert_eq!(copy.url, Some("b".to_string()));
}

#[test]
fn library_path_prefers_the_path_asked_for() {
    let path = library_path(Some("/opt/ndi/libndi.so.5".to_string()), true, Some("/usr/lib/libndi.so".to_string()));
    assert_eq!(path, "/opt/ndi/libndi.so.5");
}

#[test]
fn library_path_takes_the_local_copy_next() {
    assert_eq!(library_path(None, true, Some("/usr/lib/libndi.so".to_string())), "./libndi.so");
    assert_eq!(library_path(None, true, None), "./libndi.so");
}

#[test]
fn library_path_takes_the_installed_copy_next() {
    assert_eq!(library_path(None, false, Some("/usr/lib/libndi.so".to_string())), "/usr/lib/libndi.so");
}

#[test]
fn library_path_falls_back_to_the_bare_name() {
    assert_eq!(library_path(None, false, None), "libndi.so");
}

#[test]
fn clone_of_a_source_without_address_has_none() {
    let source = FindSource { name: "only a name".to_string(), url: None };
    let copy = source.clone();
    assert_eq!(copy.name, "only a name");
    assert_eq!(copy.url, None);
}
