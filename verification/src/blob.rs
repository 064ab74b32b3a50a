//! Blob objects: names of files in the blob directory, and the decisions taken when an
//! image is checked and recoded to fit a size.

use vstd::prelude::*;

use crate::text::{
    all_ascii, ascii_lower, ascii_lower_no_capital, chars_of, has_char, has_prefix, lit, lowercase,
    no_ascii_capital, push_all, starts_with, string_of, sub_chars, to_lowercase,
};

verus! {

/// The prefix of every blob name.
pub open spec fn blobdir_prefix() -> Seq<char> {
    "$BLOBDIR/"@
}

/// A blob name is acceptable: it holds no path separator and no NUL character.
pub open spec fn acceptable_blob_name(name: Seq<char>) -> bool {
    !name.contains('/') && !name.contains('\\') && !name.contains('\0')
}

/// The name of the blob that `name` refers to, with or without the blob directory
/// prefix, if it is acceptable.
pub open spec fn spec_blob_name(name: Seq<char>) -> Option<Seq<char>> {
    let n = if starts_with(name, blobdir_prefix()) {
        name.skip(9)
    } else {
        name
    };
    if acceptable_blob_name(n) {
        Some(blobdir_prefix() + n)
    } else {
        None
    }
}

/// The extension of a blob name: what follows its last `.`, if it has one.
pub open spec fn spec_suffix(name: Seq<char>) -> Option<Seq<char>> {
    if name.contains('.') {
        let i = choose|i: int| 0 <= i < name.len() && name[i] == '.' && forall|j: int| i < j < name.len() ==> name[j] != '.';
        Some(name.skip(i + 1))
    } else {
        None
    }
}

/// Why a blob could not be referred to.
#[derive(Debug, Clone, Copy, PartialEq, Eq, Structural)]
pub enum BlobError {
    /// The path is not inside the blob directory.
    WrongBlobdir,
    /// The name holds a path separator or a NUL character.
    BadBlobName,
}

/// Represents a file in the blob directory.
///
/// The object has a name, which will always be valid UTF-8.  Having a
/// blob object does not imply the respective file exists, however
/// when using one of the `create*()` methods a unique file is
/// created.
#[derive(Debug)]
pub struct BlobObject {
    blobdir: String,
    name: String,
}

/// What referring to a blob by its path relative to the blob directory `blobdir` gives:
/// `rel` is that path, `None` where the path was not inside the directory.
pub open spec fn relative_path_outcome(
    blobdir: Seq<char>,
    rel: Option<Seq<char>>,
    r: Result<BlobObject, BlobError>,
) -> bool {
    match rel {
        None => r matches Err(e) && e == BlobError::WrongBlobdir,
        Some(n) => match r {
            Ok(b) => acceptable_blob_name(n) && b.name_view() == blobdir_prefix() + n
                && b.blobdir_view() == blobdir,
            Err(e) => !acceptable_blob_name(n) && e == BlobError::BadBlobName,
        },
    }
}

/// A directory path that `std::path::Path` splits into components alike on every
/// platform: not empty, with no `\` and no `:` (so no Windows prefix), not ending in
/// `/`, and not starting with `//` (which Windows reads as a network share).
pub open spec fn plain_dir_path(d: Seq<char>) -> bool {
    &&& d.len() > 0
    &&& !d.contains('\\')
    &&& !d.contains(':')
    &&& d.last() != '/'
    &&& !(d.len() >= 2 && d[0] == '/' && d[1] == '/')
}

/// A file name that `std::path::Path` reads as at most one component: no separator, no
/// `:`, and not `.` (which is dropped from inside a path).
pub open spec fn plain_file_name(n: Seq<char>) -> bool {
    !n.contains('/') && !n.contains('\\') && !n.contains(':') && n != seq!['.']
}

/// `path` is the plain directory path `dir`, one `/`, and a plain file name.
pub open spec fn plain_path_in_dir(dir: Seq<char>, path: Seq<char>) -> bool {
    &&& plain_dir_path(dir)
    &&& path.len() > dir.len()
    &&& path.take(dir.len() as int) == dir
    &&& path[dir.len() as int] == '/'
    &&& plain_file_name(path.skip(dir.len() as int + 1))
}

/// What `std::path::Path::strip_prefix` leaves of `path` once `base` is taken off its
/// front, as UTF-8; `None` where `base` is not a prefix of `path`. The documentation says
/// that the result, joined onto `base`, yields `path`, comparing whole components. Stated
/// is the case where `path` is a plain directory `base`, `/` and a plain file name: its
/// components are those of `base` and the file name, and the file name is what is left.
/// Left unsaid: the result for other paths, whose components each platform reads its own
/// way.
#[verifier::external_body]
fn strip_path_prefix(path: &str, base: &str) -> (r: Option<String>)
    ensures
        plain_path_in_dir(base@, path@) ==> r.deep_view() == Some(path@.skip(base@.len() as int + 1)),
{
    std::path::Path::new(path).strip_prefix(base).ok().and_then(|p| p.to_str()).map(
        |s| s.to_string(),
    )
}

/// `joined` is `base` with `name` adjoined as `Path::join` adjoins a file name: right
/// behind a `base` that ends in `/`, and behind one separator (`/`, or `\` on Windows)
/// behind a `base` that is not empty, does not end in `/` and holds no `:`. Where `base`
/// is empty or holds a `:` (which Windows may read as a drive), the separator may or may
/// not be put in between.
pub open spec fn is_joined_path(base: Seq<char>, name: Seq<char>, joined: Seq<char>) -> bool {
    if base.len() > 0 && base.last() == '/' {
        joined == base + name
    } else if base.len() > 0 && !base.contains(':') {
        ||| joined == base + seq!['/'] + name
        ||| joined == base + seq!['\\'] + name
    } else {
        ||| joined == base + name
        ||| joined == base + seq!['/'] + name
        ||| joined == base + seq!['\\'] + name
    }
}

/// Calls `std::path::Path::join` and returns the joined path as text. `Path::join` and
/// `PathBuf::push` document that a relative `name` is adjoined to `base` (`/etc` joined
/// with `passwd` gives `/etc/passwd`): the platform's separator is put behind a `base`
/// that does not end in a separator, and none behind one that does. That is what is
/// stated, as `is_joined_path` says it, for a `name` that holds no separator and no `:`
/// (so it has neither a root nor a Windows prefix) and a `base` that holds no `\` (so it
/// has no verbatim prefix, under which Windows normalizes the joined path). Left unsaid:
/// which separator (`/`, or `\` on Windows), whether one is put behind an empty `base`
/// or a Windows drive, and the result where those conditions fail.
#[verifier::external_body]
fn join_path(base: &str, name: &str) -> (r: String)
    ensures
        !base@.contains('\\') && !name@.contains('/') && !name@.contains('\\') && !name@.contains(
            ':',
        ) ==> is_joined_path(base@, name@, r@),
{
    std::path::Path::new(base).join(name).to_string_lossy().into_owned()
}

impl Clone for BlobObject {
    fn clone(&self) -> (r: BlobObject)
        ensures
            r.name_view() == self.name_view(),
            r.blobdir_view() == self.blobdir_view(),
    {
        proof {
            use_type_invariant(self);
        }
        BlobObject { blobdir: self.blobdir.clone(), name: self.name.clone() }
    }
}

impl BlobObject {
    #[verifier::type_invariant]
    spec fn inv(self) -> bool {
        &&& starts_with(self.name@, blobdir_prefix())
        &&& acceptable_blob_name(self.name@.skip(9))
    }

    /// The name of the blob, starting with `$BLOBDIR/`.
    pub closed spec fn name_view(&self) -> Seq<char> {
        self.name@
    }

    /// The blob directory.
    pub closed spec fn blobdir_view(&self) -> Seq<char> {
        self.blobdir@
    }

    /// Whether `name` is acceptable as the name of a file in the blob directory.
    pub fn is_acceptible_blob_name(name: &str) -> (r: bool)
        ensures
            r == acceptable_blob_name(name@),
    {
        let v = chars_of(name);
        !has_char(&v, '/') && !has_char(&v, '\\') && !has_char(&v, '\0')
    }

    /// Returns a [`BlobObject`] for an existing blob, from its name with or without the
    /// `$BLOBDIR/` prefix.
    pub fn from_name(blobdir: &str, name: &str) -> (r: Result<BlobObject, BlobError>)
        ensures
            match r {
                Ok(b) => spec_blob_name(name@) == Some(b.name_view()) && b.blobdir_view() == blobdir@,
                Err(e) => spec_blob_name(name@) is None && e == BlobError::BadBlobName,
            },
    {
        let v = chars_of(name);
        let prefix = lit("$BLOBDIR/");
        proof {
            reveal_strlit("$BLOBDIR/");
        }
        let n = if has_prefix(&v, &prefix) {
            sub_chars(&v, 9, v.len())
        } else {
            v
        };
        proof {
            assert(v@.subrange(9, v@.len() as int) == v@.skip(9));
        }
        if has_char(&n, '/') || has_char(&n, '\\') || has_char(&n, '\0') {
            return Err(BlobError::BadBlobName);
        }
        let mut full = string_of(&prefix);
        push_all(&mut full, &n);
        proof {
            assert(full@.skip(9) == n@);
            assert(full@.subrange(0, 9) == blobdir_prefix());
        }
        Ok(BlobObject { blobdir: blobdir.to_owned(), name: full })
    }

    /// Returns a [`BlobObject`] for an existing blob from its absolute path, which
    /// lies directly inside the blob directory. Which paths lie inside it is decided by
    /// `std::path::Path::strip_prefix`; what follows is [`BlobObject::from_relative_path`].
    /// A path made of a plain blob directory, `/` and a plain file name refers to that file.
    pub fn from_path(blobdir: &str, path: &str) -> (r: Result<BlobObject, BlobError>)
        ensures
            exists|rel: Option<Seq<char>>| relative_path_outcome(blobdir@, rel, r),
            plain_path_in_dir(blobdir@, path@) ==> relative_path_outcome(
                blobdir@,
                Some(path@.skip(blobdir@.len() as int + 1)),
                r,
            ),
    {
        let rel = strip_path_prefix(path, blobdir);
        let ghost rel_view = rel.deep_view();
        let r = BlobObject::from_relative_path(blobdir, rel);
        proof {
            assert(relative_path_outcome(blobdir@, rel_view, r));
        }
        r
    }

    /// Returns a [`BlobObject`] for a blob from its path relative to the blob directory,
    /// `None` where the path was not inside it: the path must be an acceptable blob name.
    pub fn from_relative_path(blobdir: &str, rel: Option<String>) -> (r: Result<BlobObject, BlobError>)
        ensures
            relative_path_outcome(blobdir@, rel.deep_view(), r),
    {
        let rel = match rel {
            Some(rel) => rel,
            None => {
                return Err(BlobError::WrongBlobdir);
            },
        };
        if !BlobObject::is_acceptible_blob_name(rel.as_str()) {
            return Err(BlobError::BadBlobName);
        }
        proof {
            reveal_strlit("$BLOBDIR/");
            if starts_with(rel@, blobdir_prefix()) {
                assert(blobdir_prefix()[8] == '/');
                assert(rel@.subrange(0, 9)[8] == rel@[8]);
                assert(rel@.contains('/'));
            }
        }
        BlobObject::from_name(blobdir, rel.as_str())
    }

    /// Returns the absolute path to the blob in the filesystem: the blob directory with
    /// the file name (the name without `$BLOBDIR/`) adjoined as `Path::join` adjoins it,
    /// behind one separator where the directory does not end in `/`; stated where the
    /// directory holds no `\` and the file name no `:`.
    pub fn to_abs_path(&self) -> (r: String)
        ensures
            !self.blobdir_view().contains('\\') && !self.name_view().skip(9).contains(':')
                ==> is_joined_path(self.blobdir_view(), self.name_view().skip(9), r@),
    {
        proof {
            use_type_invariant(self);
            reveal_strlit("$BLOBDIR/");
        }
        let v = chars_of(self.name.as_str());
        let fname = string_of(&sub_chars(&v, 9, v.len()));
        proof {
            assert(v@.subrange(9, v@.len() as int) == self.name@.skip(9));
        }
        join_path(self.blobdir.as_str(), fname.as_str())
    }

    /// Returns the blob name, as stored in the database: `$BLOBDIR/` and the file name.
    pub fn as_name(&self) -> (r: &str)
        ensures
            r@ == self.name_view(),
            starts_with(r@, blobdir_prefix()),
    {
        proof {
            use_type_invariant(self);
        }
        self.name.as_str()
    }

    /// Returns the extension of the blob: what follows the last `.` of its name,
    /// lowercased. If a blob's filename has an extension, the extension returned is
    /// always lowercase.
    pub fn suffix(&self) -> (r: Option<String>)
        ensures
            match r {
                Some(s) => spec_suffix(self.name_view()) is Some && s@ == lowercase(
                    spec_suffix(self.name_view())->0,
                ),
                None => spec_suffix(self.name_view()) is None,
            },
            r matches Some(s) ==> (all_ascii(spec_suffix(self.name_view())->0) ==> s@ == ascii_lower(
                spec_suffix(self.name_view())->0,
            ) && no_ascii_capital(s@)),
    {
        let v = chars_of(self.name.as_str());
        let mut i: usize = v.len();
        while i > 0
            invariant
                i <= v@.len(),
                v@ == self.name@,
                forall|j: int| i <= j < v@.len() ==> v@[j] != '.',
            decreases i,
        {
            if v[i - 1] == '.' {
                let ghost k = i - 1;
                let ext = string_of(&sub_chars(&v, i, v.len()));
                let s = to_lowercase(ext.as_str());
                proof {
                    ascii_lower_no_capital(ext@);
                }
                proof {
                    let name = self.name@;
                    assert(name.contains('.'));
                    assert(0 <= k < name.len() && name[k] == '.' && forall|j: int|
                        k < j < name.len() ==> name[j] != '.');
                    let c = choose|c: int|
                        0 <= c < name.len() && name[c] == '.' && forall|j: int| c < j < name.len() ==> name[j] != '.';
                    assert(c == k) by {
                        if c < k {
                            assert(name[k] != '.');
                        }
                        if c > k {
                            assert(name[c] != '.');
                        }
                    }
                    assert(v@.subrange(i as int, v@.len() as int) == name.skip(k + 1));
                }
                return Some(s);
            }
            i = i - 1;
        }
        proof {
            assert(!self.name@.contains('.'));
        }
        None
    }
}

/// The format an image was read in, as far as recoding cares.
#[derive(Debug, Clone, Copy, PartialEq, Eq, Structural)]
pub enum SourceFormat {
    /// PNG.
    Png,
    /// JPEG.
    Jpeg,
    /// Any other format.
    Other,
}

/// The format an image is recoded to.
#[derive(Debug, Clone, Copy, PartialEq, Eq, Structural)]
pub enum ImageOutputFormat {
    /// PNG.
    Png,
    /// JPEG with the given quality.
    Jpeg { quality: u8 },
}

/// The JPEG quality that recoded images are written with.
pub const JPEG_QUALITY: u8 = 75;

/// The format that an image read as `fmt` is recoded to, and whether a white
/// background is still to be added: PNG stays PNG unless it is too large, anything
/// else becomes JPEG, and a JPEG source needs no white background.
pub fn output_format(fmt: SourceFormat, exceeds_max_bytes: bool, add_white_bg: bool) -> (r: (
    ImageOutputFormat,
    bool,
))
    ensures
        r.0 == (if fmt == SourceFormat::Png && !exceeds_max_bytes {
            ImageOutputFormat::Png
        } else {
            ImageOutputFormat::Jpeg { quality: JPEG_QUALITY }
        }),
        r.1 == (add_white_bg && fmt != SourceFormat::Jpeg),
{
    match fmt {
        SourceFormat::Png => if !exceeds_max_bytes {
            (ImageOutputFormat::Png, add_white_bg)
        } else {
            (ImageOutputFormat::Jpeg { quality: JPEG_QUALITY }, add_white_bg)
        },
        SourceFormat::Jpeg => (ImageOutputFormat::Jpeg { quality: JPEG_QUALITY }, false),
        SourceFormat::Other => (ImageOutputFormat::Jpeg { quality: JPEG_QUALITY }, add_white_bg),
    }
}

/// Whether an image to be sent as a sticker stays a sticker: it has pixels and one of
/// its corners (alpha values given) is transparent.
pub fn keeps_sticker(width: u32, height: u32, corner_alphas: [u8; 4]) -> (r: bool)
    ensures
        r == (width > 0 && height > 0 && (corner_alphas[0] == 0 || corner_alphas[1] == 0
            || corner_alphas[2] == 0 || corner_alphas[3] == 0)),
{
    width > 0 && height > 0 && (corner_alphas[0] == 0 || corner_alphas[1] == 0 || corner_alphas[2]
        == 0 || corner_alphas[3] == 0)
}

/// Whether an image is scaled down.
#[derive(Debug, Clone, Copy, PartialEq, Eq, Structural)]
pub enum ScaleDecision {
    /// Scale it down.
    Scale,
    /// Keep its size.
    Keep,
    /// Encode it first, and scale it down if the encoding exceeds the byte limit.
    ScaleIfEncodingTooLarge,
}

/// Whether an image of `width` x `height` pixels and `nr_bytes` bytes is scaled down:
/// always where it exceeds the byte limit; an avatar also where it exceeds the
/// resolution limit, or, where it carries Exif data, where its encoding turns out too
/// large.
pub fn scale_decision(
    width: u32,
    height: u32,
    nr_bytes: u64,
    max_wh: u32,
    max_bytes: u64,
    is_avatar: bool,
    has_exif: bool,
) -> (r: ScaleDecision)
    ensures
        r == (if nr_bytes > max_bytes {
            ScaleDecision::Scale
        } else if is_avatar && (width > max_wh || height > max_wh) {
            ScaleDecision::Scale
        } else if is_avatar && has_exif {
            ScaleDecision::ScaleIfEncodingTooLarge
        } else {
            ScaleDecision::Keep
        }),
{
    if nr_bytes > max_bytes {
        ScaleDecision::Scale
    } else if is_avatar && (width > max_wh || height > max_wh) {
        ScaleDecision::Scale
    } else if is_avatar && has_exif {
        ScaleDecision::ScaleIfEncodingTooLarge
    } else {
        ScaleDecision::Keep
    }
}

/// Aligns a resolution limit down to a multiple of 8 pixels, where it is below the
/// longest side and above 8, so that fewer JPEG blocks are partially used.
pub fn align_resolution_limit(resolution_limit: u32, longest_side_len: u32) -> (r: u32)
    ensures
        if resolution_limit < longest_side_len && resolution_limit > 8 {
            r % 8 == 0 && r <= resolution_limit && resolution_limit - r < 8
        } else {
            r == resolution_limit
        },
{
    let mut r = resolution_limit;
    if r < longest_side_len && r > 8 {
        while r % 8 != 0
            invariant
                8 <= r <= resolution_limit,
                resolution_limit - r <= resolution_limit % 8,
            decreases r,
        {
            r = r - 1;
        }
    }
    r
}

/// The target size of the longest side: at most the longest side itself, and at most
/// 65535 pixels, the largest that JPEG can hold.
pub fn clamp_target_size(target_wh: u32, longest_side_len: u32) -> (r: u32)
    ensures
        r == if target_wh <= longest_side_len && target_wh <= 65535 {
            target_wh
        } else if longest_side_len <= 65535 {
            longest_side_len
        } else {
            65535
        },
{
    let t = if target_wh < longest_side_len {
        target_wh
    } else {
        longest_side_len
    };
    if t < 65535 {
        t
    } else {
        65535
    }
}

/// What follows one attempt at scaling an image down.
#[derive(Debug, Clone, Copy, PartialEq, Eq, Structural)]
pub enum ScaleStep {
    /// The scaled image is kept.
    Done,
    /// An avatar is still too large: try again at this size.
    Retry { target_wh: u32 },
    /// An avatar cannot be made small enough.
    TooLarge,
}

/// What follows scaling an image to `target_wh` pixels: an avatar whose encoding is
/// still too large is tried again at seven eighths of the size, unless that size is
/// already below 20 pixels; anything else is done.
pub fn scale_step(target_wh: u32, encoding_too_large: bool, is_avatar: bool) -> (r: ScaleStep)
    ensures
        r == if encoding_too_large && is_avatar {
            if target_wh < 20 {
                ScaleStep::TooLarge
            } else {
                ScaleStep::Retry { target_wh: (target_wh * 7 / 8) as u32 }
            }
        } else {
            ScaleStep::Done
        },
{
    if encoding_too_large && is_avatar {
        if target_wh < 20 {
            ScaleStep::TooLarge
        } else {
            let next = (target_wh / 8) * 7 + (target_wh % 8) * 7 / 8;
            proof {
                let t = target_wh as int;
                assert((t / 8) * 7 + (t % 8) * 7 / 8 == t * 7 / 8) by (nonlinear_arith);
            }
            ScaleStep::Retry { target_wh: next }
        }
    } else {
        ScaleStep::Done
    }
}

/// Whether the recoded file's name gets the extension `jpg`: it is recoded to JPEG
/// from another format.
pub fn needs_jpg_extension(fmt: SourceFormat, ofmt: ImageOutputFormat) -> (r: bool)
    ensures
        r == (fmt != SourceFormat::Jpeg && ofmt is Jpeg),
{
    fmt != SourceFormat::Jpeg && match ofmt {
        ImageOutputFormat::Jpeg { .. } => true,
        ImageOutputFormat::Png => false,
    }
}

/// Whether a failed recoding falls back to sending the original data as a file: it is
/// no avatar and it carries no Exif data.
pub fn keeps_original_on_failure(is_avatar: bool, no_exif: bool) -> (r: bool)
    ensures
        r == (!is_avatar && no_exif),
{
    !is_avatar && no_exif
}

/// An avatar only gets smaller while it is retried, and stops being retried.
pub proof fn avatar_retries_shrink(target_wh: u32)
    requires
        target_wh >= 20,
    ensures
        (target_wh * 7 / 8) < target_wh,
        (target_wh * 7 / 8) >= 17,
{
}

} // verus!
