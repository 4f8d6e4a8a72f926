use vstd::prelude::*;

verus! {

/// The outcome of looking one entry up in a package archive.
pub enum ZipLookup {
    /// The bytes are not a readable archive (no central directory, or the
    /// entry's data cannot be decoded).
    BadArchive,
    /// The archive is readable but holds no entry of the requested name.
    Missing,
    /// The full contents of the requested entry.
    Found(Vec<u8>),
}

/// What the zip reader makes of entry `name` in the archive `bytes`: `None`
/// when the archive or that entry cannot be read, `Some(None)` when no entry
/// carries the name, `Some(Some(data))` when the entry decodes to `data`. A
/// pure function of the bytes and the name: the zip format fixes it.
pub uninterp spec fn zip_entry(bytes: Seq<u8>, name: Seq<char>) -> Option<Option<Seq<u8>>>;

/// Relies on zip's `ZipArchive::new` (parses the central directory of the
/// bytes), `ZipArchive::by_name_decrypt` (exact-name lookup, `FileNotFound`
/// when absent; the empty password is discarded for plain entries, and an
/// encrypted or password-demanding entry comes back as an error instead of a
/// panic) and std's `Read::read_to_end` to decode one entry. Deterministic
/// in `archive` and `name`.
#[verifier::external_body]
pub(crate) fn zip_entry_bytes(archive: &Vec<u8>, name: &str) -> (r: ZipLookup)
    ensures
        (r is BadArchive) == (zip_entry(archive@, name@) is None),
        (r is Missing) == (zip_entry(archive@, name@) == Some(None::<Seq<u8>>)),
        (r matches ZipLookup::Found(data) ==> zip_entry(archive@, name@) == Some(
            Some(data@),
        )),
        (zip_entry(archive@, name@) matches Some(e) && e is Some) ==> r is Found,
{
    let mut zip = match zip::ZipArchive::new(std::io::Cursor::new(archive.as_slice())) {
        Ok(z) => z,
        Err(_) => return ZipLookup::BadArchive,
    };
    let mut file = match zip.by_name_decrypt(name, &[]) {
        Ok(Ok(f)) => f,
        Ok(Err(_)) => return ZipLookup::BadArchive,
        Err(zip::result::ZipError::FileNotFound) => return ZipLookup::Missing,
        Err(_) => return ZipLookup::BadArchive,
    };
    let mut buf = Vec::new();
    match std::io::Read::read_to_end(&mut file, &mut buf) {
        Ok(_) => ZipLookup::Found(buf),
        Err(_) => ZipLookup::BadArchive,
    }
}

} // verus!
