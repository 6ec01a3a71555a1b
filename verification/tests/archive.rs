use std::io::Write;

use kapsule::format::{TgzFile, ZipFile};
use kapsule::{ArchiveError, ArchiveFile, ExtractDest, FsNode};

const HELLO_NAME: &str = "druid-0.7.0/druid/examples/hello.rs";
const HELLO_CONTENT: &[u8] = b"fn main() {\n    println!(\"hello\");\n}\n";

/// A small gzip-compressed tar fixture: a directory and two files, one of
/// them nested.
fn tgz_fixture() -> Vec<u8> {
    let gz = flate2::write::GzEncoder::new(Vec::new(), flate2::Compression::default());
    let mut builder = tar::Builder::new(gz);

    let mut dir = tar::Header::new_gnu();
    dir.set_entry_type(tar::EntryType::dir());
    dir.set_path("druid-0.7.0/").unwrap();
    dir.set_size(0);
    dir.set_mode(0o755);
    dir.set_cksum();
    builder.append(&dir, std::io::empty()).unwrap();

    let mut readme = tar::Header::new_gnu();
    readme.set_path("druid-0.7.0/README.md").unwrap();
    readme.set_size(9);
    readme.set_mode(0o644);
    readme.set_cksum();
    builder.append(&readme, &b"# readme\n"[..]).unwrap();

    let mut hello = tar::Header::new_gnu();
    hello.set_path(HELLO_NAME).unwrap();
    hello.set_size(HELLO_CONTENT.len() as u64);
    hello.set_mode(0o644);
    hello.set_cksum();
    builder.append(&hello, HELLO_CONTENT).unwrap();

    builder.into_inner().unwrap().finish().unwrap()
}

/// A small zip fixture with UTF-8 names: a directory and two files.
fn zip_fixture() -> Vec<u8> {
    let mut writer = zip::ZipWriter::new(std::io::Cursor::new(Vec::new()));
    let options = zip::write::SimpleFileOptions::default();
    writer.add_directory("docs", options).unwrap();
    writer.start_file("docs/a.txt", options).unwrap();
    writer.write_all(b"alpha").unwrap();
    writer.start_file("b.bin", options).unwrap();
    writer.write_all(&[0u8, 1, 2, 3]).unwrap();
    writer.finish().unwrap().into_inner()
}

fn le16(v: &mut Vec<u8>, x: u16) {
    v.extend_from_slice(&x.to_le_bytes());
}

fn le32(v: &mut Vec<u8>, x: u32) {
    v.extend_from_slice(&x.to_le_bytes());
}

/// A zip container written out by hand, with one stored member whose name
/// is raw bytes (no UTF-8 flag): the shape legacy archivers produce.
fn zip_fixture_raw_name(name: &[u8], content: &[u8]) -> Vec<u8> {
    let mut crc = flate2::Crc::new();
    crc.update(content);
    let crc = crc.sum();

    let mut v = Vec::new();
    // local file header
    v.extend_from_slice(b"PK\x03\x04");
    le16(&mut v, 20); // version needed
    le16(&mut v, 0); // flags: no UTF-8 bit
    le16(&mut v, 0); // method: stored
    le16(&mut v, 0); // time
    le16(&mut v, 0x21); // date
    le32(&mut v, crc);
    le32(&mut v, content.len() as u32);
    le32(&mut v, content.len() as u32);
    le16(&mut v, name.len() as u16);
    le16(&mut v, 0); // extra len
    v.extend_from_slice(name);
    v.extend_from_slice(content);

    let cd_offset = v.len() as u32;
    // central directory header
    v.extend_from_slice(b"PK\x01\x02");
    le16(&mut v, 20); // version made by
    le16(&mut v, 20); // version needed
    le16(&mut v, 0); // flags
    le16(&mut v, 0); // method
    le16(&mut v, 0); // time
    le16(&mut v, 0x21); // date
    le32(&mut v, crc);
    le32(&mut v, content.len() as u32);
    le32(&mut v, content.len() as u32);
    le16(&mut v, name.len() as u16);
    le16(&mut v, 0); // extra len
    le16(&mut v, 0); // comment len
    le16(&mut v, 0); // disk
    le16(&mut v, 0); // internal attrs
    le32(&mut v, 0); // external attrs
    le32(&mut v, 0); // local header offset
    v.extend_from_slice(name);
    let cd_size = v.len() as u32 - cd_offset;

    // end of central directory
    v.extend_from_slice(b"PK\x05\x06");
    le16(&mut v, 0);
    le16(&mut v, 0);
    le16(&mut v, 1);
    le16(&mut v, 1);
    le32(&mut v, cd_size);
    le32(&mut v, cd_offset);
    le16(&mut v, 0);
    v
}

fn entry_names<A: ArchiveFile>(archive: &mut A) -> Vec<String> {
    archive
        .entries()
        .unwrap()
        .into_iter()
        .map(|e| e.unwrap().name)
        .collect()
}

#[test]
fn list_tgz_files() {
    let mut file = TgzFile::open(tgz_fixture(), None);
    let names = entry_names(&mut file);
    assert_eq!(
        names,
        vec!["druid-0.7.0/", "druid-0.7.0/README.md", HELLO_NAME],
    );
}

#[test]
fn list_zip_files() {
    let text = "\u{4e2d}\u{6587}\u{6587}\u{4ef6}\u{540d}\u{6d4b}\u{8bd5}.txt";
    let (raw, _, had_errors) = encoding_rs::GBK.encode(text);
    assert!(!had_errors);
    let data = zip_fixture_raw_name(raw.as_ref(), b"gbk content");
    let mut file = ZipFile::open(data, Some(encoding_rs::GBK)).unwrap();
    let names = entry_names(&mut file);
    assert_eq!(names, vec![text]);
}

#[test]
fn entries_count_matches_zip_directory() {
    let mut file = ZipFile::open(zip_fixture(), None).unwrap();
    assert_eq!(entry_names(&mut file).len(), 3);
    // the directory is held in memory: re-listing yields the same sequence
    let first = entry_names(&mut file);
    let second = entry_names(&mut file);
    assert_eq!(first, second);
    assert_eq!(first, vec!["docs/", "docs/a.txt", "b.bin"]);
}

#[test]
fn entries_count_matches_tgz_stream() {
    let mut file = TgzFile::open(tgz_fixture(), None);
    assert_eq!(entry_names(&mut file).len(), 3);
}

#[test]
fn extract_tgz_single_to_file() {
    let mut file = TgzFile::open(tgz_fixture(), None);
    let plan = file
        .extract(HELLO_NAME, &ExtractDest::File("./wtf.rs".to_string()))
        .unwrap();
    assert_eq!(plan.len(), 1);
    match &plan[0] {
        FsNode::File { path, mode, content } => {
            assert_eq!(path, "./wtf.rs");
            assert_eq!(*mode, 0o644);
            assert_eq!(content, HELLO_CONTENT);
        },
        _ => panic!("expected a file write"),
    }
}

#[test]
fn extract_tgz_single_to_dir() {
    let mut file = TgzFile::open(tgz_fixture(), None);
    let plan = file
        .extract(HELLO_NAME, &ExtractDest::Dir(".".to_string()))
        .unwrap();
    assert_eq!(plan.len(), 1);
    match &plan[0] {
        FsNode::File { path, content, .. } => {
            assert_eq!(path, &format!("./{}", HELLO_NAME));
            assert_eq!(content, HELLO_CONTENT);
        },
        _ => panic!("expected a file write"),
    }
}

#[test]
fn extract_zip_single_to_file_roundtrip() {
    let mut file = ZipFile::open(zip_fixture(), None).unwrap();
    let plan = file
        .extract("docs/a.txt", &ExtractDest::File("out.txt".to_string()))
        .unwrap();
    match &plan[0] {
        FsNode::File { path, content, .. } => {
            assert_eq!(path, "out.txt");
            assert_eq!(content, b"alpha");
        },
        _ => panic!("expected a file write"),
    }
}

#[test]
fn extract_zip_single_to_dir() {
    let mut file = ZipFile::open(zip_fixture(), None).unwrap();
    let plan = file
        .extract("b.bin", &ExtractDest::Dir("dest".to_string()))
        .unwrap();
    match &plan[0] {
        FsNode::File { path, content, .. } => {
            assert_eq!(path, "dest/b.bin");
            assert_eq!(content, &[0u8, 1, 2, 3]);
        },
        _ => panic!("expected a file write"),
    }
}

#[test]
fn extract_missing_entry_is_not_found() {
    let mut tgz = TgzFile::open(tgz_fixture(), None);
    let r = tgz.extract("no/such/member", &ExtractDest::File("x".to_string()));
    assert!(matches!(r, Err(ArchiveError::NotFound)));

    let mut z = ZipFile::open(zip_fixture(), None).unwrap();
    let r = z.extract("no/such/member", &ExtractDest::Dir("x".to_string()));
    assert!(matches!(r, Err(ArchiveError::NotFound)));
}

#[test]
fn extract_directory_member_to_file_is_unsupported() {
    let mut tgz = TgzFile::open(tgz_fixture(), None);
    let r = tgz.extract("druid-0.7.0/", &ExtractDest::File("x".to_string()));
    assert!(matches!(r, Err(ArchiveError::Unsupported)));

    let mut z = ZipFile::open(zip_fixture(), None).unwrap();
    let r = z.extract("docs/", &ExtractDest::File("x".to_string()));
    assert!(matches!(r, Err(ArchiveError::Unsupported)));
}

#[test]
fn extract_directory_member_to_dir() {
    let mut z = ZipFile::open(zip_fixture(), None).unwrap();
    let plan = z.extract("docs/", &ExtractDest::Dir("out".to_string())).unwrap();
    assert_eq!(plan.len(), 1);
    assert!(matches!(&plan[0], FsNode::Dir { path, .. } if path == "out/docs/"));
}

#[test]
fn extract_all_reproduces_tree() {
    let mut tgz = TgzFile::open(tgz_fixture(), None);
    let plan = tgz.extract_all("root").unwrap();
    assert_eq!(plan.len(), 3);
    assert!(matches!(&plan[0], FsNode::Dir { path, mode } if path == "root/druid-0.7.0/" && *mode == 0o755));
    assert!(
        matches!(&plan[1], FsNode::File { path, content, .. } if path == "root/druid-0.7.0/README.md" && content == b"# readme\n")
    );
    assert!(
        matches!(&plan[2], FsNode::File { path, mode, content } if path == &format!("root/{}", HELLO_NAME) && *mode == 0o644 && content == HELLO_CONTENT)
    );

    let mut z = ZipFile::open(zip_fixture(), None).unwrap();
    let plan = z.extract_all("root").unwrap();
    assert_eq!(plan.len(), 3);
    assert!(matches!(&plan[0], FsNode::Dir { path, .. } if path == "root/docs/"));
    assert!(
        matches!(&plan[1], FsNode::File { path, content, .. } if path == "root/docs/a.txt" && content == b"alpha")
    );
    assert!(
        matches!(&plan[2], FsNode::File { path, content, .. } if path == "root/b.bin" && content == &[0u8, 1, 2, 3])
    );
}

#[test]
fn open_rejects_malformed_zip() {
    let r = ZipFile::open(b"this is not a zip container".to_vec(), None);
    assert!(matches!(r, Err(ArchiveError::Malformed)));
}

#[test]
fn malformed_tgz_surfaces_lazily() {
    // tar.gz has no upfront index: opening junk succeeds, the scan reports
    // the malformed stream.
    let mut file = TgzFile::open(b"garbage, not gzip".to_vec(), None);
    let items = file.entries().unwrap();
    assert!(matches!(items.last(), Some(Err(ArchiveError::Malformed))));
    let r = file.extract_all("root");
    assert!(matches!(r, Err(ArchiveError::Malformed)));
    let r = file.extract("anything", &ExtractDest::Dir("d".to_string()));
    assert!(matches!(r, Err(ArchiveError::Malformed)));
}

#[test]
fn error_messages() {
    assert_eq!(ArchiveError::NotFound.message(), "entry not found");
    assert_eq!(ArchiveError::Malformed.message(), "malformed archive");
}

#[test]
fn tar_symlink_and_mode_preserved() {
    let gz = flate2::write::GzEncoder::new(Vec::new(), flate2::Compression::default());
    let mut builder = tar::Builder::new(gz);

    let mut exe = tar::Header::new_gnu();
    exe.set_path("bin/run.sh").unwrap();
    exe.set_size(5);
    exe.set_mode(0o755);
    exe.set_cksum();
    builder.append(&exe, &b"echo\n"[..]).unwrap();

    let mut link = tar::Header::new_gnu();
    link.set_entry_type(tar::EntryType::symlink());
    link.set_path("bin/run").unwrap();
    link.set_link_name("run.sh").unwrap();
    link.set_size(0);
    link.set_mode(0o777);
    link.set_cksum();
    builder.append(&link, std::io::empty()).unwrap();

    let data = builder.into_inner().unwrap().finish().unwrap();
    let mut file = TgzFile::open(data, None);
    let plan = file.extract_all("out").unwrap();
    assert_eq!(plan.len(), 2);
    assert!(
        matches!(&plan[0], FsNode::File { path, mode, .. } if path == "out/bin/run.sh" && *mode == 0o755)
    );
    assert!(
        matches!(&plan[1], FsNode::Symlink { path, target } if path == "out/bin/run" && target == b"run.sh")
    );

    // a symbolic link is not a regular file: a single-file destination is refused
    let r = file.extract("bin/run", &ExtractDest::File("x".to_string()));
    assert!(matches!(r, Err(ArchiveError::Unsupported)));
}

#[test]
fn duplicate_names_first_match_wins() {
    let gz = flate2::write::GzEncoder::new(Vec::new(), flate2::Compression::default());
    let mut builder = tar::Builder::new(gz);
    for content in [&b"first"[..], &b"second"[..]] {
        let mut h = tar::Header::new_gnu();
        h.set_path("dup.txt").unwrap();
        h.set_size(content.len() as u64);
        h.set_mode(0o644);
        h.set_cksum();
        builder.append(&h, content).unwrap();
    }
    let data = builder.into_inner().unwrap().finish().unwrap();
    let mut file = TgzFile::open(data, None);
    let plan = file
        .extract("dup.txt", &ExtractDest::File("out".to_string()))
        .unwrap();
    assert!(matches!(&plan[0], FsNode::File { content, .. } if content == b"first"));
}
