use std::io::Write;

use omniform::archives::{
    extract_ffmpeg_from_tar, extract_ffmpeg_from_zip, ffmpeg_payload, find_ffmpeg_in_tar,
    find_ffmpeg_in_zip, is_ffmpeg_tar_entry, is_ffmpeg_zip_entry, xz_decode,
};

fn xz(data: &[u8]) -> Vec<u8> {
    let mut enc = xz2::write::XzEncoder::new(Vec::new(), 6);
    enc.write_all(data).unwrap();
    enc.finish().unwrap()
}

fn zip_of(names: &[&str]) -> Vec<u8> {
    let mut w = zip::ZipWriter::new(std::io::Cursor::new(Vec::new()));
    let opts = zip::write::SimpleFileOptions::default();
    for n in names {
        w.start_file(*n, opts).unwrap();
        w.write_all(n.as_bytes()).unwrap();
    }
    w.finish().unwrap().into_inner()
}

#[test]
fn xz_round_trip() {
    let data = b"ffmpeg static build\n".repeat(100);
    let packed = xz(&data);
    assert_ne!(packed, data);
    assert_eq!(xz_decode(&packed).unwrap(), data);
}

#[test]
fn xz_garbage_is_an_error() {
    let e = xz_decode(b"this is not xz data").unwrap_err();
    assert!(e.starts_with("failed to decompress the ffmpeg archive: "));
    assert!(e.len() > "failed to decompress the ffmpeg archive: ".len());
}

#[test]
fn ffmpeg_zip_names() {
    assert!(is_ffmpeg_zip_entry("ffmpeg-7.0-essentials_build/bin/ffmpeg.exe"));
    assert!(is_ffmpeg_zip_entry("ffmpeg.exe"));
    assert!(is_ffmpeg_zip_entry("bin/ffmpeg"));
    assert!(is_ffmpeg_zip_entry("ffmpeg"));
    assert!(!is_ffmpeg_zip_entry("ffmpeg/"));
    assert!(!is_ffmpeg_zip_entry("xffmpeg"));
    assert!(!is_ffmpeg_zip_entry("bin/ffprobe.exe"));
    assert!(!is_ffmpeg_zip_entry("bin/ffmpeg/"));
}

#[test]
fn ffmpeg_tar_names() {
    assert!(is_ffmpeg_tar_entry(Some("ffmpeg")));
    assert!(!is_ffmpeg_tar_entry(Some("ffprobe")));
    assert!(!is_ffmpeg_tar_entry(Some("ffmpeg.exe")));
    assert!(!is_ffmpeg_tar_entry(None));
}

#[test]
fn zip_search_finds_the_first_match() {
    let bytes = zip_of(&["readme.txt", "build/bin/ffprobe.exe", "build/bin/ffmpeg.exe", "x/ffmpeg"]);
    let (archive, found) = find_ffmpeg_in_zip(bytes).unwrap();
    assert_eq!(found, Some(2));
    assert_eq!(archive.len(), 4);
}

#[test]
fn zip_search_without_match() {
    let bytes = zip_of(&["readme.txt", "bin/ffprobe"]);
    let (_, found) = find_ffmpeg_in_zip(bytes).unwrap();
    assert_eq!(found, None);
}

#[test]
fn zip_search_on_garbage_fails() {
    assert!(find_ffmpeg_in_zip(b"not a zip at all".to_vec()).is_err());
}

fn tar_of(names: &[&str]) -> Vec<u8> {
    let mut b = tar::Builder::new(Vec::new());
    for n in names {
        let data = n.as_bytes();
        let mut h = tar::Header::new_gnu();
        h.set_size(data.len() as u64);
        h.set_mode(0o755);
        h.set_cksum();
        b.append_data(&mut h, n, data).unwrap();
    }
    b.into_inner().unwrap()
}

#[test]
fn tar_search_finds_the_first_match() {
    let bytes = tar_of(&["static/GPLv3.txt", "static/ffprobe", "static/ffmpeg", "other/ffmpeg"]);
    assert_eq!(find_ffmpeg_in_tar(&bytes), Ok(Some(2)));
}

#[test]
fn tar_search_through_xz() {
    let bytes = xz(&tar_of(&["a/readme", "a/ffmpeg"]));
    let plain = xz_decode(&bytes).unwrap();
    assert_eq!(find_ffmpeg_in_tar(&plain), Ok(Some(1)));
}

#[test]
fn tar_search_without_match() {
    let bytes = tar_of(&["static/ffprobe", "static/ffmpeg.exe", "ffmpeg/x"]);
    assert_eq!(find_ffmpeg_in_tar(&bytes), Ok(None));
    assert_eq!(find_ffmpeg_in_tar(&[]), Ok(None));
}

#[test]
fn tar_search_on_garbage_fails() {
    let garbage = vec![b'x'; 1024];
    assert!(find_ffmpeg_in_tar(&garbage).is_err());
}

#[test]
fn tar_match_before_damage_is_found() {
    let mut bytes = tar_of(&["bin/ffmpeg", "bin/ffprobe"]);
    bytes.truncate(1024 + 100);
    bytes.extend(vec![b'x'; 924]);
    assert_eq!(find_ffmpeg_in_tar(&bytes), Ok(Some(0)));
    let mut late = tar_of(&["bin/ffprobe", "bin/ffmpeg"]);
    late.truncate(1024);
    late.extend(vec![b'x'; 1024]);
    assert!(find_ffmpeg_in_tar(&late).is_err());
}

#[test]
fn root_level_ffmpeg_in_zip_is_found() {
    let bytes = zip_of(&["ffmpeg"]);
    let (_, found) = find_ffmpeg_in_zip(bytes.clone()).unwrap();
    assert_eq!(found, Some(0));
    assert_eq!(extract_ffmpeg_from_zip(bytes), Ok(Some(b"ffmpeg".to_vec())));
}

#[test]
fn zip_extraction_reads_the_chosen_entry() {
    let bytes = zip_of(&["readme.txt", "build/bin/ffmpeg.exe", "x/ffmpeg"]);
    assert_eq!(
        extract_ffmpeg_from_zip(bytes),
        Ok(Some(b"build/bin/ffmpeg.exe".to_vec()))
    );
    assert_eq!(extract_ffmpeg_from_zip(zip_of(&["readme.txt"])), Ok(None));
    assert!(extract_ffmpeg_from_zip(b"garbage".to_vec()).is_err());
}

#[test]
fn tar_extraction_reads_the_chosen_entry() {
    let bytes = tar_of(&["static/ffprobe", "static/ffmpeg", "other/ffmpeg"]);
    assert_eq!(extract_ffmpeg_from_tar(&bytes), Ok(Some(b"static/ffmpeg".to_vec())));
    assert_eq!(extract_ffmpeg_from_tar(&tar_of(&["static/ffprobe"])), Ok(None));
    assert!(extract_ffmpeg_from_tar(&vec![b'x'; 1024]).is_err());
}

#[test]
fn tar_xz_extraction() {
    let packed = xz(&tar_of(&["a/readme", "a/ffmpeg"]));
    let plain = xz_decode(&packed).unwrap();
    assert_eq!(extract_ffmpeg_from_tar(&plain), Ok(Some(b"a/ffmpeg".to_vec())));
}

#[test]
fn payload_or_missing_ffmpeg() {
    assert_eq!(ffmpeg_payload(Some(vec![1, 2, 3])), Ok(vec![1, 2, 3]));
    assert_eq!(
        ffmpeg_payload(None),
        Err("ffmpeg was not found in the downloaded archive".to_string())
    );
}
