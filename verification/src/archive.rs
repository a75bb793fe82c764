//! Tar archives in memory, built by the `tar` crate.
//!
//! The crate's builder is used as it is. What an archive holds while it is
//! built and the bytes that come out are named here, not defined: the
//! contracts below say how the calls relate to those names, and the
//! packager's contract is stated over them.
use vstd::prelude::*;
use vstd::string::*;

use crate::text::{join_spec, to_chars};

verus! {

/// An archive that is being built in memory: `tar::Builder` over a vector
/// of bytes.
#[verifier::external_body]
pub struct TarBuilder {
    inner: tar::Builder<Vec<u8>>,
}

/// One entry of an archive: its path, the byte of its type (`0` a regular
/// file, `5` a directory), its permission bits and its contents.
pub type ArchiveItem = (Seq<char>, u8, u32, Seq<u8>);

/// The entries that were appended to a builder, in order.
pub uninterp spec fn archive_entries(builder: TarBuilder) -> Seq<ArchiveItem>;

/// The bytes of the archive that holds `entries`, as
/// `tar::Builder::into_inner` gives them.
pub uninterp spec fn tar_image(entries: Seq<ArchiveItem>) -> Seq<u8>;

/// Byte of the entry type of a regular file.
pub const KIND_FILE: u8 = 0x30;

/// Byte of the entry type of a directory.
pub const KIND_DIR: u8 = 0x35;

/// The largest permission bits that a header holds: seven octal digits.
pub const MODE_MAX: u32 = 0o7777777;

/// Whether `name` can be one component of a path on every platform: it is
/// not empty, is neither `.` nor `..`, and holds no slash, backslash or NUL.
/// A backslash parts components on some platforms and not on others.
pub open spec fn portable_name(name: Seq<char>) -> bool {
    &&& name.len() > 0
    &&& name != seq!['.']
    &&& name != seq!['.', '.']
    &&& forall|i: int|
        0 <= i < name.len() ==> {
            &&& #[trigger] name[i] != '/'
            &&& name[i] != '\\'
            &&& name[i] != '\0'
        }
}

/// Whether `name` can be the first component of a path on every platform: a
/// portable name without a colon. At the beginning of a path a colon names a
/// drive on some platforms.
pub open spec fn portable_top(name: Seq<char>) -> bool {
    portable_name(name) && forall|i: int| 0 <= i < name.len() ==> #[trigger] name[i] != ':'
}

/// Whether `path` is made of portable names with `/` between them, the first
/// of them without a colon.
pub open spec fn portable_path(path: Seq<char>) -> bool {
    exists|names: Seq<Seq<char>>|
        {
            &&& names.len() > 0
            &&& portable_top(names[0])
            &&& forall|i: int| 0 <= i < names.len() ==> portable_name(#[trigger] names[i])
            &&& path == join_spec(names, seq!['/'])
        }
}

/// Whether `name` can be one component of a path on every platform.
pub fn is_portable_name(name: &str) -> (b: bool)
    ensures
        b == portable_name(name@),
{
    let chars = to_chars(name);
    if chars.len() == 0 {
        return false;
    }
    if chars.len() == 1 && chars[0] == '.' {
        assert(chars@ =~= seq!['.']);
        return false;
    }
    if chars.len() == 2 && chars[0] == '.' && chars[1] == '.' {
        assert(chars@ =~= seq!['.', '.']);
        return false;
    }
    let mut i: usize = 0;
    while i < chars.len()
        invariant
            i <= chars.len(),
            chars@ == name@,
            forall|j: int|
                0 <= j < i ==> {
                    &&& #[trigger] chars@[j] != '/'
                    &&& chars@[j] != '\\'
                    &&& chars@[j] != '\0'
                },
        decreases chars.len() - i,
    {
        let c = chars[i];
        if c == '/' || c == '\\' || c == '\0' {
            return false;
        }
        i += 1;
    }
    true
}

/// Whether `name` can be the first component of a path on every platform.
pub fn is_portable_top(name: &str) -> (b: bool)
    ensures
        b == portable_top(name@),
{
    if !is_portable_name(name) {
        return false;
    }
    let chars = to_chars(name);
    let mut i: usize = 0;
    while i < chars.len()
        invariant
            i <= chars.len(),
            chars@ == name@,
            forall|j: int| 0 <= j < i ==> #[trigger] chars@[j] != ':',
        decreases chars.len() - i,
    {
        if chars[i] == ':' {
            return false;
        }
        i += 1;
    }
    true
}

/// `tar::Builder::new` over an empty vector: a builder that holds no entry.
#[verifier::external_body]
pub(crate) fn new_builder() -> (builder: TarBuilder)
    ensures
        archive_entries(builder) == Seq::<ArchiveItem>::empty(),
{
    TarBuilder { inner: tar::Builder::new(Vec::new()) }
}

/// `tar::Builder::append_data` with a fresh GNU header that holds the entry
/// type `kind`, the permission bits `mode` and the size of `data`; the
/// header's other fields stay as `tar::Header::new_gnu` sets them, the
/// modification time at zero. The entry is appended after those that the
/// builder holds.
///
/// The kind is that of a regular file or of a directory: other bytes are
/// stored as another byte or read back as something else than an entry. The
/// mode fits the seven octal digits of the header. The path is made of
/// portable names, the first without a colon, so that every platform reads
/// the same components. Such a
/// path is always taken: up to 100 bytes it fits the header's name, and a
/// longer one is written as a long-name entry before the header, which then
/// holds the first 100 bytes. The call writes into memory, so nothing else
/// can fail.
#[verifier::external_body]
pub(crate) fn append_data(
    builder: &mut TarBuilder,
    path: &str,
    kind: u8,
    mode: u32,
    data: &[u8],
)
    requires
        portable_path(path@),
        kind == KIND_FILE || kind == KIND_DIR,
        mode <= MODE_MAX,
    ensures
        archive_entries(*final(builder)) == archive_entries(*old(builder)).push(
            (path@, kind, mode, data@),
        ),
{
    let mut header = tar::Header::new_gnu();
    header.set_entry_type(tar::EntryType::new(kind));
    header.set_mode(mode);
    header.set_size(data.len() as u64);
    let _ = builder.inner.append_data(&mut header, path, data);
}

/// `tar::Builder::into_inner`: ends the archive and gives its bytes. The
/// writer is a vector, so there is no error to report. The bytes depend on
/// the entries alone.
#[verifier::external_body]
pub(crate) fn into_inner(builder: TarBuilder) -> (bytes: Vec<u8>)
    ensures
        bytes@ == tar_image(archive_entries(builder)),
{
    match builder.inner.into_inner() {
        Ok(bytes) => bytes,
        Err(_) => Vec::new(),
    }
}

} // verus!
