use vstd::prelude::*;

use crate::archive::{zip_entry, zip_entry_bytes, ZipLookup};
use crate::errors::IndexError;
use crate::version::{major_version, major_version_spec};

verus! {

/// The name of the metadata entry every package archive must carry.
pub const METADATA_ENTRY: &'static str = "mod.json";

/// What one lookup of a string field in the metadata document returned.
pub enum JsonField {
    /// The document is not valid structured data.
    Malformed,
    /// The document has no field of the requested name.
    Missing,
    /// The field exists but its value is not a string.
    NotString,
    /// The field's string value.
    Str(String),
}

/// The top-level fields of the metadata document `doc`: `None` when `doc` is
/// not valid structured data; otherwise a map from each top-level field name
/// to `Some` of its string value, or `None` for a non-string value (a
/// document whose top level is not an object has no fields). A pure function
/// of the bytes: the document format fixes it.
pub uninterp spec fn json_fields(doc: Seq<u8>) -> Option<Map<Seq<char>, Option<Seq<char>>>>;

/// Relies on serde_json's `from_slice` (errors exactly on invalid documents),
/// `Value::get` (top-level field lookup, `None` for absent fields and for
/// non-object documents) and `Value::as_str` (`Some` exactly for strings).
/// Deterministic in `doc` and `key`.
#[verifier::external_body]
fn json_string_field(doc: &Vec<u8>, key: &str) -> (r: JsonField)
    ensures
        (r is Malformed) == (json_fields(doc@) is None),
        (r is Missing) == (json_fields(doc@) matches Some(m) && !m.dom().contains(key@)),
        (r is NotString) == (json_fields(doc@) matches Some(m) && m.dom().contains(key@)
            && m[key@] is None),
        (r matches JsonField::Str(s) ==> (json_fields(doc@) matches Some(m) && m.dom().contains(
            key@,
        ) && m[key@] == Some(s@))),
{
    let value: serde_json::Value = match serde_json::from_slice(doc.as_slice()) {
        Ok(v) => v,
        Err(_) => return JsonField::Malformed,
    };
    match value.get(key) {
        None => JsonField::Missing,
        Some(field) => match field.as_str() {
            None => JsonField::NotString,
            Some(s) => JsonField::Str(s.to_string()),
        },
    }
}

/// The decision the metadata resolver reaches for a package archive, stated
/// over the archive bytes alone.
pub enum MetadataOutcome {
    /// The archive cannot be read.
    BadArchive,
    /// The archive has no metadata entry.
    NoMetadata,
    /// The metadata entry is not a valid structured document.
    Malformed,
    /// A required field is absent.
    MissingField(Seq<char>),
    /// A required field is not a string.
    NotStringField(Seq<char>),
    /// The derived major version is empty after stripping.
    EmptyMajor,
    /// The canonical identifier and derived major version.
    Resolved { id: Seq<char>, major: Seq<char> },
}

/// How a package archive resolves: find the metadata entry, read the
/// `version` field, then the `id` field, then derive the major version.
/// Field errors on `version` take precedence over those on `id`, and the
/// empty-major check comes last.
pub open spec fn resolved_metadata(archive: Seq<u8>) -> MetadataOutcome {
    match zip_entry(archive, METADATA_ENTRY@) {
        None => MetadataOutcome::BadArchive,
        Some(None) => MetadataOutcome::NoMetadata,
        Some(Some(doc)) => match json_fields(doc) {
            None => MetadataOutcome::Malformed,
            Some(m) => if !m.dom().contains("version"@) {
                MetadataOutcome::MissingField("version"@)
            } else if m["version"@] is None {
                MetadataOutcome::NotStringField("version"@)
            } else if !m.dom().contains("id"@) {
                MetadataOutcome::MissingField("id"@)
            } else if m["id"@] is None {
                MetadataOutcome::NotStringField("id"@)
            } else if major_version_spec(m["version"@]->0).len() == 0 {
                MetadataOutcome::EmptyMajor
            } else {
                MetadataOutcome::Resolved {
                    id: m["id"@]->0,
                    major: major_version_spec(m["version"@]->0),
                }
            },
        },
    }
}

/// Read the metadata entry of the archive and resolve it to the canonical
/// package identifier and the derived major version, exactly as
/// `resolved_metadata` decides.
pub fn read_metadata(archive: &Vec<u8>) -> (r: Result<(String, String), IndexError>)
    ensures
        match resolved_metadata(archive@) {
            MetadataOutcome::BadArchive => r matches Err(e) && e is ArchiveUnreadable,
            MetadataOutcome::NoMetadata => r matches Err(e) && e is MetadataMissing,
            MetadataOutcome::Malformed => r matches Err(e) && e is MetadataMalformed,
            MetadataOutcome::MissingField(f) => r matches Err(e) && (
            e matches IndexError::FieldMissing(n) && n@ == f),
            MetadataOutcome::NotStringField(f) => r matches Err(e) && (
            e matches IndexError::FieldTypeMismatch(n) && n@ == f),
            MetadataOutcome::EmptyMajor => r matches Err(e) && e is InvalidVersion,
            MetadataOutcome::Resolved { id, major } => r matches Ok(p) && p.0@ == id && p.1@
                == major,
        },
{
    let doc = match zip_entry_bytes(archive, METADATA_ENTRY) {
        ZipLookup::BadArchive => {
            return Err(IndexError::ArchiveUnreadable);
        },
        ZipLookup::Missing => {
            return Err(IndexError::MetadataMissing);
        },
        ZipLookup::Found(doc) => doc,
    };
    let version = match json_string_field(&doc, "version") {
        JsonField::Malformed => {
            return Err(IndexError::MetadataMalformed);
        },
        JsonField::Missing => {
            return Err(IndexError::FieldMissing(String::from_str("version")));
        },
        JsonField::NotString => {
            return Err(IndexError::FieldTypeMismatch(String::from_str("version")));
        },
        JsonField::Str(s) => s,
    };
    let id = match json_string_field(&doc, "id") {
        JsonField::Malformed => {
            return Err(IndexError::MetadataMalformed);
        },
        JsonField::Missing => {
            return Err(IndexError::FieldMissing(String::from_str("id")));
        },
        JsonField::NotString => {
            return Err(IndexError::FieldTypeMismatch(String::from_str("id")));
        },
        JsonField::Str(s) => s,
    };
    let major = match major_version(version.as_str()) {
        Err(e) => {
            return Err(e);
        },
        Ok(m) => m,
    };
    Ok((id, major))
}

} // verus!
