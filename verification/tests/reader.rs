// Tests for the LZMATarballReader.

use lzma_tarball::reader::LZMATarballReader;
use xz2::write::XzEncoder;

/// Builds, in memory, an LZMA-compressed tar archive containing a single
/// file "hello.txt" with the content "Hello, world!". The archive is
/// built with the tar and xz2 crates directly, so these tests exercise
/// the reader against streams produced outside this library.
fn create_test_tar_xz() -> Vec<u8> {
    let encoder = XzEncoder::new(Vec::new(), 9);
    let mut tar_builder = tar::Builder::new(encoder);

    let file_content = b"Hello, world!";
    let mut header = tar::Header::new_gnu();
    header.set_size(file_content.len() as u64);
    header.set_cksum();
    tar_builder
        .append_data(&mut header, "hello.txt", file_content as &[u8])
        .unwrap();

    tar_builder.finish().unwrap();
    let encoder = tar_builder.into_inner().unwrap();
    encoder.finish().unwrap()
}

/// Builds one uncompressed tar container holding a single entry.
fn plain_tar(name: &str, content: &[u8]) -> Vec<u8> {
    let mut builder = tar::Builder::new(Vec::new());
    let mut header = tar::Header::new_gnu();
    header.set_size(content.len() as u64);
    header.set_cksum();
    builder.append_data(&mut header, name, content).unwrap();
    builder.into_inner().unwrap()
}

/// Builds, in memory, a compressed archive of one entry with full
/// metadata: mode, modification time and ownership all set.
fn tar_xz_with_metadata(name: &str, content: &[u8], mode: u32, mtime: u64, uid: u64, gid: u64) -> Vec<u8> {
    let encoder = XzEncoder::new(Vec::new(), 6);
    let mut builder = tar::Builder::new(encoder);
    let mut header = tar::Header::new_gnu();
    header.set_size(content.len() as u64);
    header.set_mode(mode);
    header.set_mtime(mtime);
    header.set_uid(uid);
    header.set_gid(gid);
    header.set_cksum();
    builder.append_data(&mut header, name, content).unwrap();
    builder.finish().unwrap();
    builder.into_inner().unwrap().finish().unwrap()
}

#[test]
fn test_setters_chainability() {
    let mut reader = LZMATarballReader::new();
    reader
        .set_archive("dummy_archive.tar.xz", true)
        .unwrap()
        .set_output_directory("dummy_output")
        .unwrap()
        .set_overwrite(true)
        .set_mask(0o644)
        .set_ignore_zeros(true)
        .set_preserve_mtime(true)
        .set_preserve_ownerships(true)
        .set_preserve_permissions(true);

    // If no panic occurs, the chainability works.
}

#[test]
fn test_entries() {
    let data = create_test_tar_xz();

    let mut reader = LZMATarballReader::new();
    reader.set_archive("test_archive.tar.xz", true).unwrap();

    let entries = reader.entries(&data).unwrap();

    assert!(
        entries.iter().any(|entry| entry.contains("hello.txt")),
        "The archive entries should contain 'hello.txt'"
    );
}

#[test]
fn test_decompress() {
    let data = create_test_tar_xz();

    let output_dir = format!(
        "lzma_tarball_output_{}",
        chrono::Utc::now().timestamp_millis()
    );
    let mut reader = LZMATarballReader::new();
    reader
        .set_archive("test_archive.tar.xz", true)
        .unwrap()
        .set_output_directory(&output_dir)
        .unwrap();

    let plan = reader.unpack(&data).unwrap();
    assert!(
        !plan.is_empty(),
        "There should be at least one decompressed file"
    );

    let hello = plan.iter().find(|e| e.path == "hello.txt");
    assert!(
        hello.is_some(),
        "The file 'hello.txt' should exist in the output directory"
    );

    let content = String::from_utf8(hello.unwrap().contents.clone()).unwrap();
    assert_eq!(
        content, "Hello, world!",
        "The content of 'hello.txt' did not match expected"
    );

    let files: Vec<String> = plan.iter().map(|e| e.path.clone()).collect();
    let sizes: Vec<u64> = plan.iter().map(|e| e.contents.len() as u64).collect();
    let result = reader.decompress(files, &sizes, 5).unwrap();

    assert!(
        result.elapsed_time > 0,
        "Elapsed time should be greater than 0"
    );
    assert_eq!(
        result.total_size,
        "Hello, world!".len() as u64,
        "Total size should match file content length"
    );
}

#[test]
fn reader_defaults_match_the_documented_policy() {
    let reader = LZMATarballReader::new();
    assert!(reader.archive_file.is_none());
    assert!(reader.output.is_none());
    assert!(!reader.overwrite);
    assert_eq!(reader.mask, 0);
    assert!(!reader.ignore_zeros);
    assert!(reader.preserve_mtime);
    assert!(reader.preserve_ownerships);
    assert!(reader.preserve_permissions);
    assert!(!reader.unpack_xattrs);
}

#[test]
fn entries_requires_archive_configured() {
    let reader = LZMATarballReader::new();
    let data = create_test_tar_xz();
    let err = reader.entries(&data).unwrap_err();
    assert_eq!(err, lzma_tarball::error::TarballError::ConfigurationIncomplete);
}

#[test]
fn unpack_requires_output_configured() {
    let mut reader = LZMATarballReader::new();
    reader.set_archive("a.tar.xz", true).unwrap();
    let data = create_test_tar_xz();
    let err = reader.unpack(&data).unwrap_err();
    assert_eq!(err, lzma_tarball::error::TarballError::ConfigurationIncomplete);
}

#[test]
fn missing_archive_is_rejected_at_configuration() {
    let mut reader = LZMATarballReader::new();
    let err = reader.set_archive("not_there.tar.xz", false).unwrap_err();
    assert_eq!(err, lzma_tarball::error::TarballError::ArchiveNotFound);
}

#[test]
fn garbage_bytes_fail_with_read_failure() {
    let mut reader = LZMATarballReader::new();
    reader.set_archive("a.tar.xz", true).unwrap();
    let garbage = vec![0x00u8, 0x01, 0x02, 0x03, 0xFF, 0xFE];
    let err = reader.entries(&garbage).unwrap_err();
    assert_eq!(err, lzma_tarball::error::TarballError::ArchiveReadFailure);
}

#[test]
fn zero_block_tolerance_reads_concatenated_containers() {
    // Two containers back to back: without tolerance the zeroed trailer
    // of the first ends the archive; with it, reading continues.
    let mut joined = plain_tar("hello.txt", b"hi");
    joined.extend_from_slice(&plain_tar("world.txt", b"yo"));
    let mut encoder = XzEncoder::new(Vec::new(), 6);
    std::io::Write::write_all(&mut encoder, &joined).unwrap();
    let data = encoder.finish().unwrap();

    let mut reader = LZMATarballReader::new();
    reader.set_archive("c.tar.xz", true).unwrap();
    let first_only = reader.entries(&data).unwrap();
    assert_eq!(first_only, vec!["hello.txt".to_string()]);

    reader.set_ignore_zeros(true);
    let both = reader.entries(&data).unwrap();
    assert_eq!(
        both,
        vec!["hello.txt".to_string(), "world.txt".to_string()]
    );
}

#[test]
fn permission_mask_is_applied_to_modes() {
    let data = create_test_tar_xz();
    let mut reader = LZMATarballReader::new();
    reader
        .set_archive("a.tar.xz", true)
        .unwrap()
        .set_output_directory("out")
        .unwrap()
        .set_mask(0o022);
    let plan = reader.unpack(&data).unwrap();
    for entry in &plan {
        assert_eq!(entry.mode & 0o022, 0, "masked bits must be cleared");
    }
}

#[test]
fn metadata_policy_shapes_the_plan() {
    // A stored entry with suid bit, a real timestamp, and ownership.
    let data = tar_xz_with_metadata("tool.bin", b"x", 0o4755, 1_700_000_000, 42, 43);

    let mut reader = LZMATarballReader::new();
    reader
        .set_archive("m.tar.xz", true)
        .unwrap()
        .set_output_directory("m-out")
        .unwrap();

    // Defaults preserve everything.
    let plan = reader.unpack(&data).unwrap();
    assert_eq!(plan[0].mode, 0o4755);
    assert_eq!(plan[0].mtime, Some(1_700_000_000));
    assert_eq!(plan[0].ownership, Some((42, 43)));

    // Dropping preservation clears the high mode bits and restores
    // neither time nor ownership.
    reader
        .set_preserve_permissions(false)
        .set_preserve_mtime(false)
        .set_preserve_ownerships(false);
    let plan = reader.unpack(&data).unwrap();
    assert_eq!(plan[0].mode, 0o755);
    assert_eq!(plan[0].mtime, None);
    assert_eq!(plan[0].ownership, None);
}

#[test]
fn a_stored_zero_time_is_restored_as_one_second() {
    let data = tar_xz_with_metadata("f", b"x", 0o644, 0, 0, 0);
    let mut reader = LZMATarballReader::new();
    reader
        .set_archive("z.tar.xz", true)
        .unwrap()
        .set_output_directory("z-out")
        .unwrap();
    let plan = reader.unpack(&data).unwrap();
    assert_eq!(plan[0].mtime, Some(1));
}

#[test]
fn overwrite_decision_skips_existing_files() {
    let mut reader = LZMATarballReader::new();
    // The default policy does not overwrite: an entry whose file already
    // exists is skipped, and a fresh path is written.
    assert!(!reader.should_extract(true));
    assert!(reader.should_extract(false));
    reader.set_overwrite(true);
    assert!(reader.should_extract(true));
    assert!(reader.should_extract(false));
}

#[test]
fn unpacking_twice_yields_the_same_plan() {
    // The unpack plan is a pure function of the artifact and the policy,
    // so extracting the same archive twice plans identical writes; with
    // overwrite disabled the second pass skips every already-present
    // file and raises no error.
    let data = create_test_tar_xz();
    let mut reader = LZMATarballReader::new();
    reader
        .set_archive("a.tar.xz", true)
        .unwrap()
        .set_output_directory("out")
        .unwrap();
    let first = reader.unpack(&data).unwrap();
    let second = reader.unpack(&data).unwrap();
    assert_eq!(first.len(), second.len());
    for (a, b) in first.iter().zip(second.iter()) {
        assert_eq!(a.path, b.path);
        assert_eq!(a.contents, b.contents);
        assert_eq!(a.mode, b.mode);
        assert!(!reader.should_extract(true), "second pass skips, no error");
    }
}

#[test]
fn decompress_totals_the_measured_sizes() {
    let mut reader = LZMATarballReader::new();
    reader
        .set_archive("a.tar.xz", true)
        .unwrap()
        .set_output_directory("out")
        .unwrap();
    let files = vec!["a".to_string(), "b".to_string(), "c".to_string()];
    let sizes = vec![10u64, 20, 12];
    let result = reader.decompress(files.clone(), &sizes, 7).unwrap();
    assert_eq!(result.total_size, 42);
    assert_eq!(result.elapsed_time, 7);
    assert_eq!(result.files, files);
}
