use std::io::{Cursor, Read};

use sticker_downloader::download::{Downloader, Task, Tasks};
use sticker_downloader::pipeline::{gather_outcomes, package};
use sticker_downloader::query_command::{DownloadFormat, DownloadTarget};
use sticker_downloader::stuff::{archive, file_stem, sticker_name, PackageError};

fn entries(bytes: &[u8]) -> Vec<(String, Vec<u8>, zip::CompressionMethod)> {
    let mut z = zip::ZipArchive::new(Cursor::new(bytes.to_vec())).unwrap();
    (0..z.len())
        .map(|i| {
            let mut f = z.by_index(i).unwrap();
            let mut b = Vec::new();
            f.read_to_end(&mut b).unwrap();
            (f.name().to_string(), b, f.compression())
        })
        .collect()
}

#[test]
fn one_item_sendable_alone_is_sent_as_it_is() {
    let items = vec![("007_cat.png".to_string(), vec![1u8, 2, 3])];
    let f = match package(Some("set"), items, DownloadFormat::Png, Some(b"{}".to_vec())) {
        Ok(f) => f,
        Err(_) => panic!("packaging failed"),
    };
    assert_eq!(f.name, "007_cat.png");
    assert_eq!(f.bytes, vec![1, 2, 3]);
}

#[test]
fn one_item_not_sendable_alone_is_archived() {
    let items = vec![("cat.webp".to_string(), vec![9u8; 10])];
    let f = match package(None, items, DownloadFormat::Webp, None) {
        Ok(f) => f,
        Err(_) => panic!("packaging failed"),
    };
    assert_eq!(f.name, "stickers.zip");
    let e = entries(&f.bytes);
    assert_eq!(e.len(), 1);
    assert_eq!(e[0].0, "cat.webp");
    assert_eq!(e[0].1, vec![9u8; 10]);
}

#[test]
fn two_items_make_a_stored_archive() {
    let items = vec![("a".to_string(), b"alpha".to_vec()), ("b".to_string(), b"beta".to_vec())];
    let f = match package(Some("pack"), items, DownloadFormat::Png, None) {
        Ok(f) => f,
        Err(_) => panic!("packaging failed"),
    };
    assert_eq!(f.name, "pack.zip");
    let e = entries(&f.bytes);
    assert_eq!(e.len(), 2);
    assert_eq!((e[0].0.as_str(), e[0].1.as_slice()), ("a", &b"alpha"[..]));
    assert_eq!((e[1].0.as_str(), e[1].1.as_slice()), ("b", &b"beta"[..]));
    assert!(e.iter().all(|x| x.2 == zip::CompressionMethod::Stored));
}

#[test]
fn manifest_is_appended_to_the_archive() {
    let items = vec![("a".to_string(), vec![1u8]), ("b".to_string(), vec![2u8])];
    let f = match package(Some("pack"), items, DownloadFormat::Webp, Some(b"{\"k\":1}".to_vec())) {
        Ok(f) => f,
        Err(_) => panic!("packaging failed"),
    };
    let e = entries(&f.bytes);
    let names: Vec<_> = e.iter().map(|x| x.0.as_str()).collect();
    assert_eq!(names, ["a", "b", "sticker_info.json"]);
    assert_eq!(e[2].1, b"{\"k\":1}".to_vec());
}

#[test]
fn archive_is_deterministic_and_named() {
    let files = || vec![("x".to_string(), vec![5u8; 100])];
    let a = match archive("n", files()) {
        Ok(f) => f,
        Err(PackageError::Archive(e)) => panic!("{e}"),
    };
    let b = match archive("n", files()) {
        Ok(f) => f,
        Err(PackageError::Archive(e)) => panic!("{e}"),
    };
    assert_eq!(a.name, "n.zip");
    assert_eq!(a.bytes, b.bytes);
}

#[test]
fn end_to_end_two_items() {
    let mut d = Downloader::new();
    let job = Tasks {
        message_id: 1,
        format: DownloadFormat::Webp,
        stickers: vec![
            Task { path: "locA".to_string(), name: "a".to_string(), size: 13 },
            Task { path: "locB".to_string(), name: "b".to_string(), size: 13 },
        ],
    };
    let mut w = match d.download(job, DownloadTarget::All) {
        Ok(w) => w,
        Err(_) => panic!("refused"),
    };
    let mut outcomes: Vec<(String, Result<Vec<Vec<u8>>, String>)> = Vec::new();
    let mut running = Vec::new();
    while !w.is_done() {
        while let Some(i) = w.start_next() {
            running.push(i);
        }
        // the later fetch lands first
        let i = running.pop().unwrap();
        let item = &w.items()[i];
        let body = format!("bytes of {}", item.path).into_bytes();
        outcomes.push((item.name.clone(), Ok(vec![body[..3].to_vec(), body[3..].to_vec()])));
        w.landed();
    }
    d.finish(1);
    assert!(!d.is_in_flight(1));
    let files = gather_outcomes(outcomes).unwrap();
    let f = match package(None, files, DownloadFormat::Webp, None) {
        Ok(f) => f,
        Err(_) => panic!("packaging failed"),
    };
    let mut e = entries(&f.bytes);
    e.sort_by(|x, y| x.0.cmp(&y.0));
    assert_eq!(e.len(), 2);
    assert_eq!(e[0].0, "a");
    assert_eq!(e[0].1, b"bytes of locA".to_vec());
    assert_eq!(e[1].0, "b");
    assert_eq!(e[1].1, b"bytes of locB".to_vec());
}

#[test]
fn a_failed_fetch_fails_the_whole_job() {
    let outcomes: Vec<(String, Result<Vec<Vec<u8>>, &str>)> = vec![
        ("a".to_string(), Ok(vec![vec![1]])),
        ("b".to_string(), Err("first")),
        ("c".to_string(), Err("second")),
    ];
    assert_eq!(gather_outcomes(outcomes).err(), Some("first"));
    let ok: Vec<(String, Result<Vec<Vec<u8>>, &str>)> =
        vec![("a".to_string(), Ok(vec![vec![1], vec![2]])), ("b".to_string(), Ok(vec![]))];
    assert_eq!(
        gather_outcomes(ok).unwrap(),
        vec![("a".to_string(), vec![1, 2]), ("b".to_string(), vec![])]
    );
}

#[test]
fn sticker_names() {
    assert_eq!(sticker_name(Some(7), "😎"), "007_smiling_face_with_sunglasses");
    assert_eq!(sticker_name(None, "😎"), "smiling_face_with_sunglasses");
    assert_eq!(sticker_name(Some(255), "x😎"), "255_smiling_face_with_sunglasses");
    assert_eq!(sticker_name(Some(12), ""), "012_malformed_emoji");
    assert_eq!(sticker_name(None, "abc"), "malformed_emoji");
    assert_eq!(file_stem(Some(0), Some("a b c")), "000_a_b_c");
    assert_eq!(file_stem(None, None), "malformed_emoji");
}
