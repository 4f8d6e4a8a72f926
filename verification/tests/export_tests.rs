use indexer::errors::IndexError;
use indexer::store::{EntryDir, IndexStore};
use indexer::{subcommand, CommandOutcome, Indexer};

fn archive_with_entry(entry_name: &str, contents: &[u8]) -> Vec<u8> {
    let mut cursor = std::io::Cursor::new(Vec::new());
    {
        let mut writer = zip::ZipWriter::new(&mut cursor);
        let options = zip::write::FileOptions::default();
        writer.start_file(entry_name, options).unwrap();
        std::io::Write::write_all(&mut writer, contents).unwrap();
        writer.finish().unwrap();
    }
    cursor.into_inner()
}

fn archive_with_mod_json(mod_json: &str) -> Vec<u8> {
    archive_with_entry("mod.json", mod_json.as_bytes())
}

fn snapshot(store: &IndexStore) -> Vec<(String, Option<Vec<u8>>)> {
    store.dirs.iter().map(|d| (d.name.clone(), d.artifact.clone())).collect()
}

fn fresh_store() -> IndexStore {
    let mut store = IndexStore::new();
    let cloned: Option<(Vec<EntryDir>, u64)> = Some((Vec::new(), 1));
    let r = subcommand(&mut store, Indexer::Init { cloned });
    assert!(matches!(r, Ok(CommandOutcome::Initialized)));
    store
}

fn export(store: &mut IndexStore, archive: &[u8]) -> Result<CommandOutcome, IndexError> {
    subcommand(store, Indexer::Export { package: Some(archive.to_vec()) })
}

#[test]
fn export_requires_initialized_store() {
    let mut store = IndexStore::new();
    let archive = archive_with_mod_json(r#"{"id":"a.b","version":"1.0"}"#);
    let r = export(&mut store, &archive);
    assert!(matches!(r, Err(IndexError::NotInitialized)));
}

#[test]
fn export_reports_missing_source() {
    let mut store = fresh_store();
    let r = subcommand(&mut store, Indexer::Export { package: None });
    assert!(matches!(r, Err(IndexError::SourceNotFound)));
    assert!(snapshot(&store).is_empty());
}

#[test]
fn export_scenario_and_idempotent_re_export() {
    // Fresh store; export an archive with id geode.loader, version v4.2.1.
    let mut store = fresh_store();
    let archive = archive_with_mod_json(r#"{"id":"geode.loader","version":"v4.2.1"}"#);

    let r = export(&mut store, &archive);
    match r {
        Ok(CommandOutcome::Exported { entry, message }) => {
            assert_eq!(entry, "geode.loader@4");
            assert_eq!(message, "Add/Update geode.loader");
        },
        other => panic!("unexpected outcome: {:?}", other.err()),
    }
    // The store holds geode.loader@4 with the archive itself as artifact.
    assert_eq!(snapshot(&store), vec![("geode.loader@4".to_string(), Some(archive.clone()))]);
    assert_eq!(store.history_len, 2);

    // A second identical export changes no content and history stays at 2.
    let first = snapshot(&store);
    let r = export(&mut store, &archive);
    assert!(matches!(r, Ok(CommandOutcome::Exported { .. })));
    assert_eq!(snapshot(&store), first);
    assert_eq!(store.history_len, 2);
}

#[test]
fn export_overwrites_the_artifact_in_place() {
    let mut store = fresh_store();
    let old = archive_with_mod_json(r#"{"id":"a.b","version":"1.0"}"#);
    let new = archive_with_mod_json(r#"{"id":"a.b","version":"1.9.5"}"#);
    assert!(export(&mut store, &old).is_ok());
    assert!(export(&mut store, &new).is_ok());
    assert_eq!(snapshot(&store), vec![("a.b@1".to_string(), Some(new.clone()))]);
}

fn le16(v: &mut Vec<u8>, x: u16) {
    v.extend_from_slice(&x.to_le_bytes());
}

fn le32(v: &mut Vec<u8>, x: u32) {
    v.extend_from_slice(&x.to_le_bytes());
}

/// A hand-built archive whose only entry is marked AES-encrypted in an extra
/// field while its general-purpose encryption flag is left clear.
fn aes_marked_archive() -> Vec<u8> {
    let name = b"mod.json";
    let mut v = Vec::new();
    // local file header: stored, empty, flags clear
    le32(&mut v, 0x04034b50);
    le16(&mut v, 20);
    le16(&mut v, 0);
    le16(&mut v, 0);
    le16(&mut v, 0);
    le16(&mut v, 0);
    le32(&mut v, 0);
    le32(&mut v, 0);
    le32(&mut v, 0);
    le16(&mut v, name.len() as u16);
    le16(&mut v, 0);
    v.extend_from_slice(name);
    let cd_offset = v.len() as u32;
    // central directory header
    le32(&mut v, 0x02014b50);
    le16(&mut v, 20);
    le16(&mut v, 20);
    le16(&mut v, 0);
    le16(&mut v, 0);
    le16(&mut v, 0);
    le16(&mut v, 0);
    le32(&mut v, 0);
    le32(&mut v, 0);
    le32(&mut v, 0);
    le16(&mut v, name.len() as u16);
    le16(&mut v, 11);
    le16(&mut v, 0);
    le16(&mut v, 0);
    le16(&mut v, 0);
    le32(&mut v, 0);
    le32(&mut v, 0);
    v.extend_from_slice(name);
    // AES extra field: vendor AE version 1, strength AES-256, method stored
    le16(&mut v, 0x9901);
    le16(&mut v, 7);
    le16(&mut v, 0x0001);
    le16(&mut v, 0x4541);
    v.push(0x03);
    le16(&mut v, 0);
    let cd_size = v.len() as u32 - cd_offset;
    // end of central directory
    le32(&mut v, 0x06054b50);
    le16(&mut v, 0);
    le16(&mut v, 0);
    le16(&mut v, 1);
    le16(&mut v, 1);
    le32(&mut v, cd_size);
    le32(&mut v, cd_offset);
    le16(&mut v, 0);
    v
}

#[test]
fn export_of_aes_marked_entry_fails_cleanly() {
    // The metadata entry demands a password the tool never has: the archive
    // is reported unreadable, with no panic and no store change.
    let mut store = fresh_store();
    let r = export(&mut store, &aes_marked_archive());
    assert!(matches!(r, Err(IndexError::ArchiveUnreadable)));
    assert!(snapshot(&store).is_empty());
}

#[test]
fn export_of_unreadable_archive_fails() {
    let mut store = fresh_store();
    let r = export(&mut store, b"this is not a zip archive");
    assert!(matches!(r, Err(IndexError::ArchiveUnreadable)));
    assert!(snapshot(&store).is_empty());
}

#[test]
fn export_without_metadata_entry_fails() {
    let mut store = fresh_store();
    let archive = archive_with_entry("other.txt", b"hello");
    let r = export(&mut store, &archive);
    assert!(matches!(r, Err(IndexError::MetadataMissing)));
}

#[test]
fn export_with_malformed_metadata_fails() {
    let mut store = fresh_store();
    let archive = archive_with_mod_json("{not valid json");
    let r = export(&mut store, &archive);
    assert!(matches!(r, Err(IndexError::MetadataMalformed)));
}

#[test]
fn export_without_version_field_fails() {
    let mut store = fresh_store();
    let archive = archive_with_mod_json(r#"{"id":"a.b"}"#);
    match export(&mut store, &archive) {
        Err(IndexError::FieldMissing(field)) => assert_eq!(field, "version"),
        other => panic!("unexpected outcome: {:?}", other.err()),
    }
}

#[test]
fn export_with_non_string_version_fails() {
    let mut store = fresh_store();
    let archive = archive_with_mod_json(r#"{"id":"a.b","version":4}"#);
    match export(&mut store, &archive) {
        Err(IndexError::FieldTypeMismatch(field)) => assert_eq!(field, "version"),
        other => panic!("unexpected outcome: {:?}", other.err()),
    }
}

#[test]
fn export_without_id_field_fails() {
    let mut store = fresh_store();
    let archive = archive_with_mod_json(r#"{"version":"1.0"}"#);
    match export(&mut store, &archive) {
        Err(IndexError::FieldMissing(field)) => assert_eq!(field, "id"),
        other => panic!("unexpected outcome: {:?}", other.err()),
    }
}

#[test]
fn export_with_non_string_id_fails() {
    let mut store = fresh_store();
    let archive = archive_with_mod_json(r#"{"id":7,"version":"1.0"}"#);
    match export(&mut store, &archive) {
        Err(IndexError::FieldTypeMismatch(field)) => assert_eq!(field, "id"),
        other => panic!("unexpected outcome: {:?}", other.err()),
    }
}

#[test]
fn export_with_empty_major_version_fails() {
    let mut store = fresh_store();
    let archive = archive_with_mod_json(r#"{"id":"a.b","version":"vv.2"}"#);
    let r = export(&mut store, &archive);
    assert!(matches!(r, Err(IndexError::InvalidVersion)));
    assert!(snapshot(&store).is_empty());
}

#[test]
fn version_field_errors_take_precedence_over_id_errors() {
    let mut store = fresh_store();
    let archive = archive_with_mod_json(r#"{}"#);
    match export(&mut store, &archive) {
        Err(IndexError::FieldMissing(field)) => assert_eq!(field, "version"),
        other => panic!("unexpected outcome: {:?}", other.err()),
    }
}

#[test]
fn read_metadata_resolves_id_and_major() {
    let archive = archive_with_mod_json(r#"{"id":"geode.loader","version":"v4.2.1"}"#);
    let (id, major) = indexer::metadata::read_metadata(&archive).unwrap();
    assert_eq!(id, "geode.loader");
    assert_eq!(major, "4");
}
