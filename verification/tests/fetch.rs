use std::path::{Path, PathBuf};
use x64_browser::fetch::{destination_in, download_file};

const MISSING: &str = "Could not find downloads directory";

fn downloads() -> PathBuf {
    Path::new("downloads").join("user")
}

#[test]
fn download_starts_with_the_address_as_given() {
    let download = download_file("https://example.com/f.bin".to_string(), "f.bin".to_string());
    assert_eq!(download.address, "https://example.com/f.bin");
    assert_eq!(download.filename, "f.bin");
}

#[test]
fn malformed_address_is_handed_on() {
    let download = download_file("::not an address::".to_string(), String::new());
    assert_eq!(download.address, "::not an address::");
    assert_eq!(download.filename, "");
}

#[test]
fn destination_is_the_directory_joined_with_the_name() {
    let destination = destination_in(Some(downloads()), "f.bin").unwrap();
    assert_eq!(destination, downloads().join("f.bin"));
    assert_ne!(destination, downloads());
    assert_eq!(destination.file_name().unwrap(), "f.bin");
    assert_eq!(destination.parent().unwrap(), downloads());
}

#[test]
fn destination_without_a_directory_fails() {
    assert_eq!(destination_in(None, "f.bin").unwrap_err(), MISSING);
}

#[test]
fn filename_is_not_sanitized() {
    let destination = destination_in(Some(downloads()), "../outside/f.bin").unwrap();
    assert_eq!(destination, downloads().join("..").join("outside").join("f.bin"));
    let mut parts = destination.components().rev();
    assert_eq!(parts.next().unwrap().as_os_str(), "f.bin");
    assert_eq!(parts.next().unwrap().as_os_str(), "outside");
    assert_eq!(parts.next().unwrap().as_os_str(), "..");
}

#[test]
fn absolute_filename_replaces_the_directory() {
    let absolute = std::path::MAIN_SEPARATOR.to_string() + "elsewhere";
    if Path::new(&absolute).is_absolute() {
        let destination = destination_in(Some(downloads()), &absolute).unwrap();
        assert_eq!(destination, PathBuf::from(&absolute));
    }
}

#[test]
fn transport_failure_ends_the_download() {
    let download = download_file("https://example.com/f.bin".to_string(), "f.bin".to_string());
    let error = download
        .responded_in(Err("connection refused".to_string()), Some(downloads()))
        .unwrap_err();
    assert_eq!(error, "connection refused");
}

#[test]
fn transport_failure_comes_before_a_missing_directory() {
    let download = download_file("https://example.com/f.bin".to_string(), "f.bin".to_string());
    let error = download.responded_in(Err("dns error".to_string()), None).unwrap_err();
    assert_eq!(error, "dns error");
}

#[test]
fn missing_directory_ends_the_download() {
    let download = download_file("https://example.com/f.bin".to_string(), "f.bin".to_string());
    let error = download.responded_in(Ok(200), None).unwrap_err();
    assert_eq!(error, MISSING);
}

#[test]
fn error_status_is_stored_like_any_other() {
    for status in [200u16, 204, 301, 404, 500, 599] {
        let download = download_file("https://example.com/f.bin".to_string(), "f.bin".to_string());
        let receiving = download.responded_in(Ok(status), Some(downloads())).unwrap();
        assert_eq!(receiving.destination, downloads().join("f.bin"));
        let storing = receiving.body_read(Ok(b"Not Found".to_vec())).unwrap();
        assert_eq!(storing.bytes, b"Not Found");
        assert_eq!(storing.destination, downloads().join("f.bin"));
        let path = storing.written(Ok(())).unwrap();
        assert_eq!(path, downloads().join("f.bin").to_string_lossy());
    }
}

#[test]
fn unreadable_body_ends_the_download() {
    let download = download_file("https://example.com/f.bin".to_string(), "f.bin".to_string());
    let receiving = download.responded_in(Ok(200), Some(downloads())).unwrap();
    let error = receiving.body_read(Err("connection reset".to_string())).unwrap_err();
    assert_eq!(error, "connection reset");
}

#[test]
fn failed_write_ends_the_download() {
    let download = download_file("https://example.com/f.bin".to_string(), "f.bin".to_string());
    let receiving = download.responded_in(Ok(200), Some(downloads())).unwrap();
    let storing = receiving.body_read(Ok(vec![1, 2, 3])).unwrap();
    let error = storing.written(Err("permission denied".to_string())).unwrap_err();
    assert_eq!(error, "permission denied");
}

#[test]
fn empty_body_is_stored() {
    let download = download_file("https://example.com/f.bin".to_string(), "empty".to_string());
    let receiving = download.responded_in(Ok(200), Some(downloads())).unwrap();
    let storing = receiving.body_read(Ok(Vec::new())).unwrap();
    assert!(storing.bytes.is_empty());
    assert_eq!(storing.written(Ok(())).unwrap(), downloads().join("empty").to_string_lossy());
}

#[test]
fn download_of_1024_bytes() {
    let body = vec![0xABu8; 1024];
    let download = download_file("https://example.com/f.bin".to_string(), "f.bin".to_string());
    assert_eq!(download.address, "https://example.com/f.bin");
    let receiving = download.responded_in(Ok(200), Some(downloads())).unwrap();
    let storing = receiving.body_read(Ok(body.clone())).unwrap();
    assert_eq!(storing.bytes.len(), 1024);
    assert!(storing.bytes.iter().all(|b| *b == 0xAB));
    assert_eq!(storing.bytes, body);
    let destination = storing.destination.clone();
    assert_eq!(destination, downloads().join("f.bin"));
    let path = storing.written(Ok(())).unwrap();
    assert_eq!(PathBuf::from(&path), destination);
    assert!(path.ends_with("f.bin"));
}

#[test]
fn returned_path_is_the_lossy_text_of_the_destination() {
    let download = download_file("https://example.com/a".to_string(), "né.txt".to_string());
    let receiving = download.responded_in(Ok(200), Some(downloads())).unwrap();
    let storing = receiving.body_read(Ok(vec![0])).unwrap();
    let expected = downloads().join("né.txt").to_string_lossy().into_owned();
    assert_eq!(storing.written(Ok(())).unwrap(), expected);
}
