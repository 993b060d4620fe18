//! Trusted boundary to the outside zip crate: packing entries into an
//! in-memory archive and unpacking an archive's entries.
//!
//! An archive is modelled as the sequence of its entries, each a name and
//! raw contents. [`zip_entries`] names what a byte blob unpacks to; the
//! packer's contract states that the finished bytes unpack to exactly the
//! entries written, which conditions adding an entry needs, and when
//! adding and finishing are owed success.

use vstd::prelude::*;

verus! {

/// What a byte blob unpacks to: the entries `zip::ZipArchive` serves in
/// index order, each with its name and fully read contents; `None` when the
/// blob is not a readable archive or some entry's contents cannot be read.
pub uninterp spec fn zip_entries(bytes: Seq<u8>) -> Option<Seq<(Seq<char>, Seq<u8>)>>;

/// The names of a list of entries, in order.
pub open spec fn entry_names(es: Seq<(Seq<char>, Seq<u8>)>) -> Seq<Seq<char>> {
    es.map_values(|e: (Seq<char>, Seq<u8>)| e.0)
}

/// One entry read out of an archive: its name and uncompressed contents.
pub struct ZipEntry {
    pub name: String,
    pub data: Vec<u8>,
}

/// The name and contents of each read entry, in order.
pub open spec fn read_entries_view(es: Seq<ZipEntry>) -> Seq<(Seq<char>, Seq<u8>)> {
    es.map_values(|e: ZipEntry| (e.name@, e.data@))
}

/// Relies on `zip::ZipArchive::new`, `len`, `by_index` and
/// `std::io::Read::read_to_end`: reads the whole archive up front, in index
/// order. It succeeds exactly when the bytes are a readable archive whose
/// every entry's contents can be read — which is what [`zip_entries`] names.
#[verifier::external_body]
pub fn unpack_zip(bytes: Vec<u8>) -> (r: Result<Vec<ZipEntry>, ()>)
    ensures
        r is Ok <==> zip_entries(bytes@) is Some,
        r matches Ok(es) ==> Some(read_entries_view(es@)) == zip_entries(bytes@),
{
    let mut archive = match zip::ZipArchive::new(std::io::Cursor::new(bytes)) {
        Ok(a) => a,
        Err(_) => return Err(()),
    };
    let mut entries = Vec::new();
    for i in 0..archive.len() {
        let mut file = archive.by_index(i).map_err(|_| ())?;
        let name = file.name().to_string();
        let mut data = Vec::new();
        std::io::Read::read_to_end(&mut file, &mut data).map_err(|_| ())?;
        entries.push(ZipEntry { name, data });
    }
    Ok(entries)
}

/// Packs entries into an in-memory zip archive.
#[verifier::external_body]
pub struct ZipBuilder {
    writer: zip::ZipWriter<std::io::Cursor<Vec<u8>>>,
}

/// The entries written into the builder so far, in order.
pub uninterp spec fn zip_builder_entries(b: ZipBuilder) -> Seq<(Seq<char>, Seq<u8>)>;

impl ZipBuilder {
    /// Relies on `zip::ZipWriter::new`: a fresh writer over an empty buffer
    /// holds no entries.
    #[verifier::external_body]
    pub fn new() -> (r: ZipBuilder)
        ensures
            zip_builder_entries(r) == Seq::<(Seq<char>, Seq<u8>)>::empty(),
    {
        ZipBuilder { writer: zip::ZipWriter::new(std::io::Cursor::new(Vec::new())) }
    }

    /// Relies on `zip::ZipWriter::start_file` and `std::io::Write::write_all`
    /// over an in-memory buffer. Success requires a fresh name whose UTF-8
    /// encoding fits the format's 16-bit length field and contents within
    /// the 4 GiB per-entry limit. Success is only *owed* when contents stay
    /// at or below `0xFF00_0000` bytes — for this and every earlier entry —
    /// because deflate can slightly expand incompressible input and the
    /// writer re-checks the *compressed* size of an entry when it finalizes
    /// it (at the next entry, or at the archive's end); the margin absorbs
    /// the worst-case stored-block overhead many times over. On success
    /// exactly one deflated entry is appended; on failure the writer keeps
    /// the entries it had.
    #[verifier::external_body]
    pub fn add_entry(&mut self, name: &str, data: &[u8]) -> (r: Result<(), ()>)
        ensures
            (!entry_names(zip_builder_entries(*old(self))).contains(name@)
                && vstd::utf8::encode_utf8(name@).len() <= 65535 && data@.len() <= 0xFF00_0000
                && (forall|i: int|
                0 <= i < zip_builder_entries(*old(self)).len() ==> (#[trigger] zip_builder_entries(
                    *old(self),
                )[i]).1.len() <= 0xFF00_0000)) ==> r is Ok,
            r is Ok ==> (!entry_names(zip_builder_entries(*old(self))).contains(name@)
                && vstd::utf8::encode_utf8(name@).len() <= 65535 && data@.len() <= 0xFFFF_FFFF),
            r is Ok ==> zip_builder_entries(*final(self)) == zip_builder_entries(*old(self)).push(
                (name@, data@),
            ),
            !(r is Ok) ==> zip_builder_entries(*final(self)) == zip_builder_entries(*old(self)),
    {
        let options = zip::write::SimpleFileOptions::default().compression_method(
            zip::CompressionMethod::Deflated,
        );
        if self.writer.start_file(name, options).is_err() {
            return Err(());
        }
        match std::io::Write::write_all(&mut self.writer, data) {
            Ok(()) => Ok(()),
            Err(_) => Err(()),
        }
    }

    /// Relies on `zip::ZipWriter::finish` over an in-memory buffer: the
    /// finished buffer is an archive that unpacks to exactly the entries
    /// written, in order. Finishing is owed success when every entry's
    /// contents stay at or below `0xFF00_0000` bytes: beyond that, deflate
    /// expansion of incompressible input can push an entry's *compressed*
    /// size over the 4 GiB field when the writer finalizes it.
    #[verifier::external_body]
    pub fn finish(self) -> (r: Result<Vec<u8>, ()>)
        ensures
            (forall|i: int|
                0 <= i < zip_builder_entries(self).len() ==> (#[trigger] zip_builder_entries(
                    self,
                )[i]).1.len() <= 0xFF00_0000) ==> r is Ok,
            r matches Ok(bytes) ==> zip_entries(bytes@) == Some(zip_builder_entries(self)),
    {
        match self.writer.finish() {
            Ok(cursor) => Ok(cursor.into_inner()),
            Err(_) => Err(()),
        }
    }
}

} // verus!
