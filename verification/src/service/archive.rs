//! The build context: one `Dockerfile` entry in a tar image, gzip-compressed.

use std::io::Read;
use std::io::Write;
use vstd::prelude::*;

verus! {

/// Name of the single entry of a build context.
pub const DOCKERFILE: &'static str = "Dockerfile";

/// Permission bits written into the entry's header.
pub const ENTRY_MODE: u32 = 0o755;

/// The entry name, as a sequence of characters.
pub open spec fn dockerfile_name() -> Seq<char> {
    "Dockerfile"@
}

/// `n` zero bytes.
pub open spec fn zeros(n: nat) -> Seq<u8> {
    Seq::new(n, |i: int| 0u8)
}

/// Number of zero bytes that follow `len` bytes of content to fill its last block.
pub open spec fn padding(len: nat) -> nat {
    ((512 - len % 512) % 512) as nat
}

/// A tar image with a single entry: the header block, the content, zeros up
/// to the next block boundary, and the two zero blocks that end an archive.
pub open spec fn tar_image(header: Seq<u8>, content: Seq<u8>) -> Seq<u8> {
    header + content + zeros(padding(content.len())) + zeros(1024)
}

/// An entry name made of 1 to 100 ASCII letters and digits: one path
/// component on every platform.
pub open spec fn plain_entry_name(name: Seq<char>) -> bool {
    &&& 1 <= name.len() <= 100
    &&& forall|i: int|
        0 <= i < name.len() ==> {
            let c = #[trigger] name[i];
            ('a' <= c <= 'z') || ('A' <= c <= 'Z') || ('0' <= c <= '9')
        }
}

/// The 512-byte GNU header block that the `tar` crate writes for a
/// regular entry with this name, size and mode.
pub uninterp spec fn gnu_header(name: Seq<char>, size: u64, mode: u32) -> Seq<u8>;

/// A header block names an entry when it is one block long and begins
/// with the characters of the name, followed by a zero byte where the name
/// is shorter than the 100 bytes of the field.
pub open spec fn names_entry(header: Seq<u8>, name: Seq<char>) -> bool {
    &&& header.len() == 512
    &&& name.len() <= 100
    &&& forall|i: int| 0 <= i < name.len() ==> #[trigger] header[i] == name[i] as u8
    &&& name.len() < 100 ==> header[name.len() as int] == 0
}

/// The gzip stream that `flate2` emits for these bytes at its default level.
pub uninterp spec fn gzip_stream(data: Seq<u8>) -> Seq<u8>;

/// What `flate2` inflates a gzip stream to; `None` where it reports an error.
pub uninterp spec fn gunzipped(stream: Seq<u8>) -> Option<Seq<u8>>;

/// The tar image of a build context that holds `dockerfile`.
pub open spec fn context_image(dockerfile: Seq<u8>) -> Seq<u8> {
    tar_image(gnu_header(dockerfile_name(), dockerfile.len() as u64, ENTRY_MODE), dockerfile)
}

/// `archive` inflates to the tar image whose single entry is named
/// `Dockerfile` and holds exactly `dockerfile`.
pub open spec fn holds_dockerfile(archive: Seq<u8>, dockerfile: Seq<u8>) -> bool {
    gunzipped(archive) == Some(context_image(dockerfile))
}

/// Builds a one-entry archive in memory with `tar::Header::new_gnu`, its
/// setters for path, size, mode and checksum, and `tar::Builder` (`new`,
/// `append`, `into_inner`). The contract names the header block and states
/// the framing that `Builder` writes round it: header, content, zero fill to
/// a block boundary, two closing zero blocks. Of the header it states that
/// `set_path` puts a plain entry name at its start. `None` stands for an
/// error of the crate; `set_path` reports none for a plain entry name, and
/// writing into a vector reports none.
#[verifier::external_body]
fn tar_single_entry(name: &str, size: u64, mode: u32, content: &[u8]) -> (r: Option<Vec<u8>>)
    requires
        size == content@.len(),
    ensures
        plain_entry_name(name@) ==> r is Some,
        r matches Some(image) ==> image@ == tar_image(gnu_header(name@, size, mode), content@),
        r is Some ==> gnu_header(name@, size, mode).len() == 512,
        r is Some ==> (plain_entry_name(name@) ==> names_entry(
            gnu_header(name@, size, mode),
            name@,
        )),
{
    let mut header = tar::Header::new_gnu();
    header.set_path(name).ok()?;
    header.set_size(size);
    header.set_mode(mode);
    header.set_cksum();
    let mut builder = tar::Builder::new(Vec::new());
    builder.append(&header, content).ok()?;
    builder.into_inner().ok()
}

/// Compresses with `flate2::write::GzEncoder` at `Compression::default()`.
/// The contract names the stream and claims that `flate2` inflates it back
/// to the input. `None` stands for an I/O error, which writing into a
/// vector does not report.
#[verifier::external_body]
fn gzip(data: &[u8]) -> (r: Option<Vec<u8>>)
    ensures
        r is Some,
        r matches Some(stream) ==> stream@ == gzip_stream(data@),
        r matches Some(stream) ==> gunzipped(stream@) == Some(data@),
{
    let mut encoder = flate2::write::GzEncoder::new(Vec::new(), flate2::Compression::default());
    encoder.write_all(data).ok()?;
    encoder.finish().ok()
}

/// Inflates with `flate2::read::GzDecoder`, reading to the end. The
/// contract claims only that the outcome is a function of the stream:
/// the bytes on success, `None` where the decoder reports an error.
#[verifier::external_body]
fn gunzip(stream: &[u8]) -> (r: Option<Vec<u8>>)
    ensures
        r matches Some(data) ==> gunzipped(stream@) == Some(data@),
        r is None ==> gunzipped(stream@) is None,
{
    let mut data = Vec::new();
    flate2::read::GzDecoder::new(stream).read_to_end(&mut data).ok()?;
    Some(data)
}

/// The entry name of a build context is a plain entry name.
pub proof fn lemma_dockerfile_name_is_plain()
    ensures
        plain_entry_name(dockerfile_name()),
{
    reveal_strlit("Dockerfile");
}

/// The tar image of a build context that holds `dockerfile`: one header
/// block that names the entry `Dockerfile`, then the content, the fill and
/// the end of the archive.
pub fn context_tar(dockerfile: &[u8]) -> (image: Vec<u8>)
    ensures
        image@ == context_image(dockerfile@),
        image@.len() == 512 + dockerfile@.len() + padding(dockerfile@.len()) + 1024,
        names_entry(image@.subrange(0, 512), dockerfile_name()),
        image@.subrange(512, 512 + dockerfile@.len() as int) == dockerfile@,
        image@.subrange(512 + dockerfile@.len() as int, image@.len() as int) == zeros(
            padding(dockerfile@.len()) + 1024,
        ),
{
    proof {
        lemma_dockerfile_name_is_plain();
    }
    let size = dockerfile.len() as u64;
    let image = tar_single_entry(DOCKERFILE, size, ENTRY_MODE, dockerfile).unwrap();
    assert(image@.subrange(0, 512) =~= gnu_header(dockerfile_name(), size, ENTRY_MODE));
    assert(image@.subrange(512, 512 + dockerfile@.len() as int) =~= dockerfile@);
    assert(image@.subrange(512 + dockerfile@.len() as int, image@.len() as int) =~= zeros(
        padding(dockerfile@.len()) + 1024,
    ));
    image
}

/// The build context that holds `dockerfile`: its tar image, compressed.
/// The archive inflates back to that image.
pub fn build_context(dockerfile: &[u8]) -> (archive: Vec<u8>)
    ensures
        archive@ == gzip_stream(context_image(dockerfile@)),
        holds_dockerfile(archive@, dockerfile@),
{
    let image = context_tar(dockerfile);
    gzip(image.as_slice()).unwrap()
}

/// Whether two byte strings are equal.
pub fn same_bytes(left: &[u8], right: &[u8]) -> (same: bool)
    ensures
        same == (left@ == right@),
{
    if left.len() != right.len() {
        return false;
    }
    let mut i: usize = 0;
    while i < left.len()
        invariant
            i <= left.len(),
            left@.len() == right@.len(),
            forall|k: int| 0 <= k < i ==> left@[k] == right@[k],
        decreases left.len() - i,
    {
        if left[i] != right[i] {
            return false;
        }
        i = i + 1;
    }
    assert(left@ =~= right@);
    true
}

/// Whether `archive` is a build context that holds exactly `dockerfile`:
/// whether it inflates to the tar image with that single entry.
pub fn context_holds(archive: &[u8], dockerfile: &[u8]) -> (holds: bool)
    ensures
        holds == holds_dockerfile(archive@, dockerfile@),
{
    match gunzip(archive) {
        Some(image) => {
            let wanted = context_tar(dockerfile);
            same_bytes(image.as_slice(), wanted.as_slice())
        },
        None => false,
    }
}

} // verus!
