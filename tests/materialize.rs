use mini_docker::error::ContainerError;
use mini_docker::layer::{path_stays_inside, plan_entries, unpack_layer, ArchiveEntry, FsWrite};
use mini_docker::rootfs::dev_null_node;
use std::io::Write;

fn layer(files: &[(&str, &[u8])], dirs: &[&str]) -> Vec<u8> {
    let mut builder = tar::Builder::new(Vec::new());
    for d in dirs {
        let mut header = tar::Header::new_gnu();
        header.set_entry_type(tar::EntryType::Directory);
        header.set_size(0);
        header.set_mode(0o755);
        header.set_cksum();
        builder.append_data(&mut header, d, &[][..]).unwrap();
    }
    for (path, contents) in files {
        let mut header = tar::Header::new_gnu();
        header.set_size(contents.len() as u64);
        header.set_mode(0o644);
        header.set_cksum();
        builder.append_data(&mut header, path, *contents).unwrap();
    }
    let tar_bytes = builder.into_inner().unwrap();
    let mut gz = flate2::write::GzEncoder::new(Vec::new(), flate2::Compression::default());
    gz.write_all(&tar_bytes).unwrap();
    gz.finish().unwrap()
}

#[test]
fn unpacking_reproduces_file_and_path() {
    let blob = layer(&[("hello.txt", b"hello, world\n")], &[]);
    let writes = unpack_layer("/scratch", &blob).unwrap();
    assert_eq!(writes.len(), 1);
    assert_eq!(writes[0].target, "/scratch/hello.txt");
    assert!(!writes[0].is_dir);
    assert_eq!(writes[0].contents, b"hello, world\n".to_vec());
}

#[test]
fn unpacking_keeps_archive_order_and_directories() {
    let blob = layer(&[("etc/hostname", b"box\n"), ("usr/bin/echo", b"\x7fELF")], &["etc"]);
    let writes = unpack_layer("/r", &blob).unwrap();
    let targets: Vec<&str> = writes.iter().map(|w| w.target.as_str()).collect();
    assert_eq!(targets, vec!["/r/etc", "/r/etc/hostname", "/r/usr/bin/echo"]);
    assert!(writes[0].is_dir);
    assert_eq!(writes[2].contents, b"\x7fELF".to_vec());
}

#[test]
fn undecodable_blob_is_an_extraction_error() {
    assert_eq!(unpack_layer("/r", b"not gzip").unwrap_err(), ContainerError::Extraction);
    assert_eq!(unpack_layer("/r", b"").unwrap_err(), ContainerError::Extraction);
}

#[test]
fn escaping_entries_are_refused() {
    let entries = vec![
        ArchiveEntry { path: "etc/ok".to_string(), is_dir: false, contents: vec![1] },
        ArchiveEntry { path: "../etc/passwd".to_string(), is_dir: false, contents: vec![2] },
    ];
    assert_eq!(plan_entries("/r", entries).unwrap_err(), ContainerError::Extraction);
    let absolute = vec![ArchiveEntry { path: "/etc/passwd".to_string(), is_dir: false, contents: vec![] }];
    assert_eq!(plan_entries("/r", absolute).unwrap_err(), ContainerError::Extraction);
}

#[test]
fn planned_writes_move_contents_under_root() {
    let entries = vec![
        ArchiveEntry { path: "bin".to_string(), is_dir: true, contents: vec![] },
        ArchiveEntry { path: "bin/sh".to_string(), is_dir: false, contents: vec![7, 8] },
    ];
    let writes: Vec<FsWrite> = plan_entries("/root", entries).unwrap();
    assert_eq!(writes[0].target, "/root/bin");
    assert!(writes[0].is_dir);
    assert_eq!(writes[1].target, "/root/bin/sh");
    assert_eq!(writes[1].contents, vec![7, 8]);
}

#[test]
fn path_guard_cases() {
    assert!(path_stays_inside("etc/hostname"));
    assert!(path_stays_inside("./etc"));
    assert!(path_stays_inside("a/..b"));
    assert!(path_stays_inside("..."));
    assert!(path_stays_inside(""));
    assert!(!path_stays_inside("/etc"));
    assert!(!path_stays_inside(".."));
    assert!(!path_stays_inside("../x"));
    assert!(!path_stays_inside("a/../b"));
    assert!(!path_stays_inside("a/.."));
}

#[test]
fn null_device_is_made_once() {
    let first = dev_null_node("/r", false).unwrap();
    assert_eq!(first.path, "/r/dev/null");
    assert_eq!((first.major, first.minor, first.mode), (1, 3, 0o666));
    assert!(dev_null_node("/r", true).is_none());
}
