use vstd::prelude::*;

verus! {

/// Declares zip's archive reader so its values can cross signatures and
/// fields; the library sees nothing inside one beyond the named results
/// below.
#[verifier::external_type_specification]
#[verifier::external_body]
#[verifier::reject_recursive_types(R)]
pub struct ExZipArchive<R>(zip::ZipArchive<R>);

/// Declares the in-memory reader the archive wraps.
#[verifier::external_type_specification]
#[verifier::external_body]
#[verifier::reject_recursive_types(T)]
pub struct ExCursor<T>(std::io::Cursor<T>);

/// What an in-memory archive holds: for each entry, in index order, its raw
/// stored name and its decompressed contents, both as byte sequences.
pub uninterp spec fn zip_entries(a: zip::ZipArchive<std::io::Cursor<Vec<u8>>>) -> Seq<
    (Seq<u8>, Seq<u8>),
>;

/// Whether a byte buffer parses as a zip archive; a function of the bytes
/// alone.
pub uninterp spec fn zip_parse_ok(data: Seq<u8>) -> bool;

/// The entries a byte buffer parses to, when it parses; a function of the
/// bytes alone.
pub uninterp spec fn zip_parsed(data: Seq<u8>) -> Seq<(Seq<u8>, Seq<u8>)>;

/// The parse error's text, when the bytes do not parse; a function of the
/// bytes alone.
pub uninterp spec fn zip_parse_err(data: Seq<u8>) -> Seq<char>;

/// Whether the entry at index `i` reads back (decompresses, passes its
/// checks); a function of the archive value and the index alone, since the
/// archive holds all its bytes in memory.
pub uninterp spec fn zip_entry_ok(a: zip::ZipArchive<std::io::Cursor<Vec<u8>>>, i: int) -> bool;

/// The error's text when the entry at index `i` does not read back; a
/// function of the archive value and the index alone.
pub uninterp spec fn zip_entry_err(a: zip::ZipArchive<std::io::Cursor<Vec<u8>>>, i: int) -> Seq<
    char,
>;

/// Relies on `zip::ZipArchive::new`: parses an in-memory byte buffer as a
/// zip archive, deterministically in the bytes, returning the error's text
/// when they do not form one.
#[verifier::external_body]
pub(crate) fn zip_open(data: Vec<u8>) -> (r: Result<
    zip::ZipArchive<std::io::Cursor<Vec<u8>>>,
    String,
>)
    ensures
        r is Ok <==> zip_parse_ok(data@),
        r matches Ok(a) ==> zip_entries(a) == zip_parsed(data@),
        r matches Err(m) ==> m@ == zip_parse_err(data@),
{
    match zip::ZipArchive::new(std::io::Cursor::new(data)) {
        Ok(a) => Ok(a),
        Err(e) => Err(format!("{}", e)),
    }
}

/// Relies on `zip::ZipArchive::len`: the number of entries in the archive.
#[verifier::external_body]
pub(crate) fn zip_len(a: &zip::ZipArchive<std::io::Cursor<Vec<u8>>>) -> (r: usize)
    ensures
        r == zip_entries(*a).len(),
{
    a.len()
}

/// Relies on `zip::ZipArchive::by_index`, `zip::read::ZipFile::name_raw` and
/// `std::io::Read::read_to_end`: the raw stored name and the decompressed
/// contents of the entry at index `i`. The three calls share one wrapper
/// because the entry handle borrows the archive and cannot cross a function
/// boundary. Reading moves only the cursor, so which entries the archive
/// holds, which of them read back and with what error text all stay as they
/// were; whether this read succeeds, and its error text, depend on the
/// archive and the index alone.
#[verifier::external_body]
pub(crate) fn zip_entry(a: &mut zip::ZipArchive<std::io::Cursor<Vec<u8>>>, i: usize) -> (r: Result<
    (Vec<u8>, Vec<u8>),
    String,
>)
    requires
        i < zip_entries(*old(a)).len(),
    ensures
        zip_entries(*final(a)) == zip_entries(*old(a)),
        forall|j: int| #[trigger] zip_entry_ok(*final(a), j) == zip_entry_ok(*old(a), j),
        forall|j: int| #[trigger] zip_entry_err(*final(a), j) == zip_entry_err(*old(a), j),
        r is Ok <==> zip_entry_ok(*old(a), i as int),
        r matches Ok(e) ==> (e.0@, e.1@) == zip_entries(*final(a))[i as int],
        r matches Err(m) ==> m@ == zip_entry_err(*old(a), i as int),
{
    let mut file = match a.by_index(i) {
        Ok(f) => f,
        Err(e) => return Err(format!("{}", e)),
    };
    let name = file.name_raw().to_vec();
    let mut data = Vec::new();
    match std::io::Read::read_to_end(&mut file, &mut data) {
        Ok(_) => Ok((name, data)),
        Err(e) => Err(format!("{}", e)),
    }
}

} // verus!
