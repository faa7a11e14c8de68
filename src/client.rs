//! The client's side of each exchange: which remote path a local file goes
//! to, the request it sends, and what it makes of the server's answer.

use vstd::prelude::*;
use crate::listing::{forward_slash_name, forward_slashes};
use crate::protocol::{FileEntry, Request, Response};
use crate::state::{trim_trailing_slashes, trimmed_len};
use crate::text::{owned, push_char};

verus! {

/// What went wrong with a server's answer.
#[derive(Debug, Clone, PartialEq, Eq)]
pub enum ClientError {
    /// The server did not let an upload begin.
    Rejected,
    /// The server refused explicitly, with this message.
    Server { message: String },
    /// The answer does not fit the request.
    Unexpected,
}

/// Where a local file named `file_name` goes: under `dest` when one is
/// given, else at the top of the server's tree.
pub fn remote_file_path(dest: Option<&str>, file_name: &str) -> (r: String)
    ensures
        r@ == match dest {
            Some(d) => trim_trailing_slashes(d@) + seq!['/'] + file_name@,
            None => file_name@,
        },
{
    match dest {
        Some(d) => {
            let k = trimmed_len(d);
            let mut p = owned(d.substring_char(0, k));
            push_char(&mut p, '/');
            p.append(file_name);
            assert(p@ =~= trim_trailing_slashes(d@) + seq!['/'] + file_name@);
            p
        },
        None => owned(file_name),
    }
}

/// Where a file found at `rel` inside an uploaded directory goes, below the
/// directory's remote path `base`; separators become `/`.
pub fn remote_entry_path(base: &str, rel: &str) -> (r: String)
    ensures
        r@ == base@ + seq!['/'] + forward_slashes(rel@),
{
    let mut p = owned(base);
    push_char(&mut p, '/');
    let tail = forward_slash_name(rel);
    p.append(tail.as_str());
    assert(p@ =~= base@ + seq!['/'] + forward_slashes(rel@));
    p
}

/// The request that uploads `size` bytes to `remote_path`.
pub fn put_request(remote_path: &str, size: u64, hash: Option<String>) -> (r: Request)
    ensures
        r matches Request::Put { path, size: s, hash: h } && path@ == remote_path@ && s == size
            && h == hash,
{
    Request::Put { path: owned(remote_path), size, hash }
}

/// The request that lists `path`.
pub fn list_request(path: &str, recursive: bool, long: bool) -> (r: Request)
    ensures
        r matches Request::List { path: p, recursive: rc, long: lg } && p@ == path@ && rc
            == recursive && lg == long,
{
    Request::List { path: owned(path), recursive, long }
}

/// The request that downloads `path`.
pub fn get_request(path: &str) -> (r: Request)
    ensures
        r matches Request::Get { path: p } && p@ == path@,
{
    Request::Get { path: owned(path) }
}

/// An upload may begin only on `ok`.
pub fn expect_ready(resp: &Response) -> (r: Result<(), ClientError>)
    ensures
        *resp == Response::Ready ==> r is Ok,
        *resp != Response::Ready ==> r == Err::<(), ClientError>(ClientError::Rejected),
{
    match resp {
        Response::Ready => Ok(()),
        _ => Err(ClientError::Rejected),
    }
}

/// The bytes an upload stored, from the answer that closes it.
pub fn expect_done(resp: &Response) -> (r: Result<u64, ClientError>)
    ensures
        *resp matches Response::Done { written } ==> r == Ok::<u64, ClientError>(written),
        !(resp is Done) ==> r == Err::<u64, ClientError>(ClientError::Unexpected),
{
    match resp {
        Response::Done { written } => Ok(*written),
        _ => Err(ClientError::Unexpected),
    }
}

/// The size of the download that follows, or the server's refusal.
pub fn expect_file(resp: Response) -> (r: Result<u64, ClientError>)
    ensures
        resp matches Response::File { size } ==> r == Ok::<u64, ClientError>(size),
        resp matches Response::Error { message } ==> r == Err::<u64, ClientError>(
            ClientError::Server { message },
        ),
        !(resp is File) && !(resp is Error) ==> r == Err::<u64, ClientError>(
            ClientError::Unexpected,
        ),
{
    match resp {
        Response::File { size } => Ok(size),
        Response::Error { message } => Err(ClientError::Server { message }),
        _ => Err(ClientError::Unexpected),
    }
}

/// The entries of a listing answer.
pub fn expect_listing(resp: Response) -> (r: Result<Vec<FileEntry>, ClientError>)
    ensures
        resp matches Response::List { entries } ==> r == Ok::<Vec<FileEntry>, ClientError>(
            entries,
        ),
        !(resp is List) ==> r == Err::<Vec<FileEntry>, ClientError>(ClientError::Unexpected),
{
    match resp {
        Response::List { entries } => Ok(entries),
        _ => Err(ClientError::Unexpected),
    }
}

/// Whole mebibytes in a byte count, rounded down.
pub fn whole_megabytes(total: u64) -> (r: u64)
    ensures
        r == total / 1048576,
{
    total / 1024 / 1024
}

} // verus!
