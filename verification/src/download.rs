//! What a download is and the decisions of the actor that performs it:
//! which failures are worth retrying, whether a partial download can be
//! resumed, whether the disk has room, and where the temporary file goes.
//!
//! The HTTP transfer, the backoff timing and the file handling are
//! unverified collaborators; every one of their decisions is a function
//! here, from plain values to plain values.

use vstd::prelude::*;
use vstd::string::StrSliceExecFns;
use vstd::string::StringExecFns;

use crate::text::str_eq;
use crate::text::trim;
use crate::text::trim_of;

verus! {

/// Whether a failed operation is worth trying again.
#[derive(Debug, Clone, Copy, PartialEq, Eq, Structural)]
pub enum Retry {
    /// The failure may have been a passing condition: retry with backoff.
    Transient,
    /// The failure will repeat: give up at once.
    Permanent,
}

/// Describes a request used to retrieve a file.
#[derive(Debug, Clone, Eq, PartialEq)]
pub struct DownloadInfo {
    /// Where the file comes from.
    pub url: String,
    /// Extra headers to send with the request, as name/value pairs.
    pub headers: Vec<(String, String)>,
}

impl DownloadInfo {
    /// A download from the given URL, with no extra headers.
    pub fn new(url: &str) -> (r: DownloadInfo)
        ensures
            r.url@ == url@,
            r.headers@ == Seq::<(String, String)>::empty(),
    {
        DownloadInfo { url: url.to_owned(), headers: Vec::new() }
    }

    /// The same download, sending these headers.
    pub fn with_headers(self, headers: Vec<(String, String)>) -> (r: DownloadInfo)
        ensures
            r.url == self.url,
            r.headers == headers,
    {
        DownloadInfo { headers, ..self }
    }

    /// The URL the file comes from.
    pub fn url(&self) -> (r: &str)
        ensures
            r@ == self.url@,
    {
        self.url.as_str()
    }

    /// Whether no URL worth requesting is given: the URL is empty or
    /// whitespace only.
    pub fn is_empty(&self) -> (r: bool)
        ensures
            r == (trim_of(self.url@).len() == 0),
    {
        trim(self.url.as_str()).is_empty()
    }
}

/// Whether a failed download request is worth retrying.
///
/// A timeout, a connection failure, or a server-side error status (500 to
/// 599) may pass on retry; any other failure blames the request and will
/// repeat.
pub fn classify_download_error(is_timeout: bool, is_connect: bool, status: Option<u16>) -> (r:
    Retry)
    ensures
        r == (if is_timeout || is_connect {
            Retry::Transient
        } else {
            match status {
                Some(s) => if 500 <= s < 600 {
                    Retry::Transient
                } else {
                    Retry::Permanent
                },
                None => Retry::Permanent,
            }
        }),
{
    if is_timeout || is_connect {
        return Retry::Transient;
    }
    match status {
        Some(s) => {
            if 500 <= s && s < 600 {
                Retry::Transient
            } else {
                Retry::Permanent
            }
        },
        None => Retry::Permanent,
    }
}

/// Whether a partial download can be resumed with a range request: only if
/// the server answered with an `Accept-Ranges: bytes` header.
pub fn resume_supported(accept_ranges: Option<&str>) -> (r: bool)
    ensures
        r == (accept_ranges matches Some(unit) && unit@ == "bytes"@),
{
    match accept_ranges {
        Some(unit) => str_eq(unit, "bytes"),
        None => false,
    }
}

/// The usable disk space in bytes once five percent of the disk — one
/// twentieth — is held back, given the file system's block counts and block
/// size.
pub open spec fn spec_usable_space(blocks: int, block_size: int, blocks_free: int) -> int {
    blocks_free * block_size - (blocks * block_size) / 20
}

/// Whether a file of `file_len` bytes may be written, keeping five percent
/// of the disk free: a zero-length file always may, any other must fit
/// strictly under the usable space.
pub fn has_space_for(blocks: u64, block_size: u64, blocks_free: u64, file_len: u64) -> (r: bool)
    ensures
        r == (file_len == 0 || (file_len as int) < vstd::math::max(
            spec_usable_space(blocks as int, block_size as int, blocks_free as int),
            0,
        )),
{
    if file_len == 0 {
        return true;
    }
    proof {
        assert((blocks as int) * (block_size as int) <= (0xFFFF_FFFF_FFFF_FFFFu64 as int) * (
        0xFFFF_FFFF_FFFF_FFFFu64 as int) && (blocks_free as int) * (block_size as int) <= (
        0xFFFF_FFFF_FFFF_FFFFu64 as int) * (0xFFFF_FFFF_FFFF_FFFFu64 as int))
            by (nonlinear_arith)
            requires
                blocks <= 0xFFFF_FFFF_FFFF_FFFFu64,
                block_size <= 0xFFFF_FFFF_FFFF_FFFFu64,
                blocks_free <= 0xFFFF_FFFF_FFFF_FFFFu64,
        ;
    }
    let total: u128 = (blocks as u128) * (block_size as u128);
    let free: u128 = (blocks_free as u128) * (block_size as u128);
    let reserve: u128 = total / 20;
    proof {
        assert(free == blocks_free * block_size) by (nonlinear_arith)
            requires free == (blocks_free as u128) * (block_size as u128),
        ;
        assert(total == blocks * block_size) by (nonlinear_arith)
            requires total == (blocks as u128) * (block_size as u128),
        ;
    }
    if free <= reserve {
        false
    } else {
        (file_len as u128) < free - reserve
    }
}

/// Why no download can go to the requested path.
#[derive(Debug, Clone, PartialEq, Eq)]
pub enum InvalidFilePath {
    /// The path is relative; a download target must be absolute.
    RelativePath,
    /// The path does not name a file: it ends in a separator.
    NoFileName,
}

impl InvalidFilePath {
    /// A short description of what is wrong with the path.
    pub fn message(&self) -> (r: &'static str)
        ensures
            *self == InvalidFilePath::RelativePath ==> r@ == "Path can't be relative"@,
            *self == InvalidFilePath::NoFileName ==> r@ == "Does not name a valid file"@,
    {
        match self {
            InvalidFilePath::RelativePath => "Path can't be relative",
            InvalidFilePath::NoFileName => "Does not name a valid file",
        }
    }
}

/// The temporary path a download is written to before it is moved to its
/// final place: the target path with `.tmp` appended.
///
/// The target must be absolute and must name a file: a relative path or one
/// ending in a separator is rejected, each with its own error.
pub fn temp_download_path(target: &str) -> (r: Result<String, InvalidFilePath>)
    ensures
        target@.len() == 0 || target@[0] != '/' ==> r == Result::<String, InvalidFilePath>::Err(
            InvalidFilePath::RelativePath,
        ),
        target@.len() > 0 && target@[0] == '/' && target@[target@.len() - 1] == '/' ==> r
            == Result::<String, InvalidFilePath>::Err(InvalidFilePath::NoFileName),
        target@.len() > 0 && target@[0] == '/' && target@[target@.len() - 1] != '/' ==> (r matches
            Ok(t) && t@ == target@ + ".tmp"@),
{
    let n = target.unicode_len();
    if n == 0 || target.get_char(0) != '/' {
        return Err(InvalidFilePath::RelativePath);
    }
    if target.get_char(n - 1) == '/' {
        return Err(InvalidFilePath::NoFileName);
    }
    let mut tmp = target.to_owned();
    tmp.append(".tmp");
    Ok(tmp)
}

} // verus!
