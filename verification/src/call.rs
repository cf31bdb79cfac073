//! The native calls of the file operations, grouped by the kind of answer
//! that each gives, and what each answer means.
//!
//! A call is a plain description: the native entry point and its arguments,
//! strings already in native form. Completing a call takes the answer and
//! gives the operation's result. A negative code is a failure, whose message
//! is the last-error indicator, read at that moment and at no other.

use crate::error::{get_error, GlusterError};
use crate::marshal::{
    leading, lossy_text, text_of_native, text_of_prefix, until_terminator, NativeString,
};
use vstd::prelude::*;
use vstd::utf8::*;

verus! {

/// The metadata of a file, with the fields and types of the platform's
/// `stat` record. The client hands it on as the native call filled it.
#[derive(Clone, Copy, Debug, PartialEq, Eq, Structural)]
pub struct Stat {
    pub st_dev: libc::dev_t,
    pub st_ino: libc::ino_t,
    pub st_nlink: libc::nlink_t,
    pub st_mode: libc::mode_t,
    pub st_uid: libc::uid_t,
    pub st_gid: libc::gid_t,
    pub st_rdev: libc::dev_t,
    pub st_size: libc::off_t,
    pub st_blksize: libc::blksize_t,
    pub st_blocks: libc::blkcnt_t,
    pub st_atime: libc::time_t,
    pub st_atime_nsec: i64,
    pub st_mtime: libc::time_t,
    pub st_mtime_nsec: i64,
    pub st_ctime: libc::time_t,
    pub st_ctime_nsec: i64,
}

/// An open file or directory of a volume, known by the address of its
/// native descriptor. Zero is the address of no descriptor.
#[derive(Clone, Copy, Debug, PartialEq, Eq, Hash, Structural)]
pub struct FileHandle {
    pub raw: usize,
}

/// Native calls that answer with a status code: negative on failure.
#[derive(Debug, PartialEq, Eq)]
#[allow(inconsistent_fields)]
pub enum StatusCall<'a> {
    Close { fd: FileHandle },
    Truncate { fs: usize, path: NativeString, length: i64 },
    Ftruncate { fd: FileHandle, length: i64 },
    Fsync { fd: FileHandle },
    Fdatasync { fd: FileHandle },
    Access { fs: usize, path: NativeString, mode: i32 },
    Symlink { fs: usize, oldpath: NativeString, newpath: NativeString },
    Mknod { fs: usize, path: NativeString, mode: libc::mode_t, dev: libc::dev_t },
    Mkdir { fs: usize, path: NativeString, mode: libc::mode_t },
    Unlink { fs: usize, path: NativeString },
    Rmdir { fs: usize, path: NativeString },
    Rename { fs: usize, oldpath: NativeString, newpath: NativeString },
    Link { fs: usize, oldpath: NativeString, newpath: NativeString },
    Setxattr { fs: usize, path: NativeString, name: NativeString, value: &'a [u8], flags: i32 },
    Lsetxattr { fs: usize, path: NativeString, name: NativeString, value: &'a [u8], flags: i32 },
    Fsetxattr { fd: FileHandle, name: NativeString, value: &'a [u8], flags: i32 },
    Removexattr { fs: usize, path: NativeString, name: NativeString },
    Lremovexattr { fs: usize, path: NativeString, name: NativeString },
    Fremovexattr { fd: FileHandle, name: NativeString },
    Fallocate { fd: FileHandle, keep_size: i32, offset: i64, len: usize },
    Discard { fd: FileHandle, offset: i64, len: usize },
    Zerofill { fd: FileHandle, offset: i64, len: i64 },
    Chdir { fs: usize, path: NativeString },
    Fchdir { fd: FileHandle },
}

/// What a call that answers with a status code holds: each string by its
/// bytes in native form, the attribute value by its bytes.
#[allow(inconsistent_fields)]
pub enum StatusCallView {
    Close { fd: FileHandle },
    Truncate { fs: usize, path: Seq<u8>, length: i64 },
    Ftruncate { fd: FileHandle, length: i64 },
    Fsync { fd: FileHandle },
    Fdatasync { fd: FileHandle },
    Access { fs: usize, path: Seq<u8>, mode: i32 },
    Symlink { fs: usize, oldpath: Seq<u8>, newpath: Seq<u8> },
    Mknod { fs: usize, path: Seq<u8>, mode: libc::mode_t, dev: libc::dev_t },
    Mkdir { fs: usize, path: Seq<u8>, mode: libc::mode_t },
    Unlink { fs: usize, path: Seq<u8> },
    Rmdir { fs: usize, path: Seq<u8> },
    Rename { fs: usize, oldpath: Seq<u8>, newpath: Seq<u8> },
    Link { fs: usize, oldpath: Seq<u8>, newpath: Seq<u8> },
    Setxattr { fs: usize, path: Seq<u8>, name: Seq<u8>, value: Seq<u8>, flags: i32 },
    Lsetxattr { fs: usize, path: Seq<u8>, name: Seq<u8>, value: Seq<u8>, flags: i32 },
    Fsetxattr { fd: FileHandle, name: Seq<u8>, value: Seq<u8>, flags: i32 },
    Removexattr { fs: usize, path: Seq<u8>, name: Seq<u8> },
    Lremovexattr { fs: usize, path: Seq<u8>, name: Seq<u8> },
    Fremovexattr { fd: FileHandle, name: Seq<u8> },
    Fallocate { fd: FileHandle, keep_size: i32, offset: i64, len: usize },
    Discard { fd: FileHandle, offset: i64, len: usize },
    Zerofill { fd: FileHandle, offset: i64, len: i64 },
    Chdir { fs: usize, path: Seq<u8> },
    Fchdir { fd: FileHandle },
}

impl<'a> View for StatusCall<'a> {
    type V = StatusCallView;

    open spec fn view(&self) -> StatusCallView {
        match *self {
            StatusCall::Close { fd } => StatusCallView::Close { fd },
            StatusCall::Truncate { fs, path, length } => StatusCallView::Truncate {
                fs,
                path: path@,
                length,
            },
            StatusCall::Ftruncate { fd, length } => StatusCallView::Ftruncate { fd, length },
            StatusCall::Fsync { fd } => StatusCallView::Fsync { fd },
            StatusCall::Fdatasync { fd } => StatusCallView::Fdatasync { fd },
            StatusCall::Access { fs, path, mode } => StatusCallView::Access {
                fs,
                path: path@,
                mode,
            },
            StatusCall::Symlink { fs, oldpath, newpath } => StatusCallView::Symlink {
                fs,
                oldpath: oldpath@,
                newpath: newpath@,
            },
            StatusCall::Mknod { fs, path, mode, dev } => StatusCallView::Mknod {
                fs,
                path: path@,
                mode,
                dev,
            },
            StatusCall::Mkdir { fs, path, mode } => StatusCallView::Mkdir { fs, path: path@, mode },
            StatusCall::Unlink { fs, path } => StatusCallView::Unlink { fs, path: path@ },
            StatusCall::Rmdir { fs, path } => StatusCallView::Rmdir { fs, path: path@ },
            StatusCall::Rename { fs, oldpath, newpath } => StatusCallView::Rename {
                fs,
                oldpath: oldpath@,
                newpath: newpath@,
            },
            StatusCall::Link { fs, oldpath, newpath } => StatusCallView::Link {
                fs,
                oldpath: oldpath@,
                newpath: newpath@,
            },
            StatusCall::Setxattr { fs, path, name, value, flags } => StatusCallView::Setxattr {
                fs,
                path: path@,
                name: name@,
                value: value@,
                flags,
            },
            StatusCall::Lsetxattr { fs, path, name, value, flags } => StatusCallView::Lsetxattr {
                fs,
                path: path@,
                name: name@,
                value: value@,
                flags,
            },
            StatusCall::Fsetxattr { fd, name, value, flags } => StatusCallView::Fsetxattr {
                fd,
                name: name@,
                value: value@,
                flags,
            },
            StatusCall::Removexattr { fs, path, name } => StatusCallView::Removexattr {
                fs,
                path: path@,
                name: name@,
            },
            StatusCall::Lremovexattr { fs, path, name } => StatusCallView::Lremovexattr {
                fs,
                path: path@,
                name: name@,
            },
            StatusCall::Fremovexattr { fd, name } => StatusCallView::Fremovexattr {
                fd,
                name: name@,
            },
            StatusCall::Fallocate { fd, keep_size, offset, len } => StatusCallView::Fallocate {
                fd,
                keep_size,
                offset,
                len,
            },
            StatusCall::Discard { fd, offset, len } => StatusCallView::Discard { fd, offset, len },
            StatusCall::Zerofill { fd, offset, len } => StatusCallView::Zerofill {
                fd,
                offset,
                len,
            },
            StatusCall::Chdir { fs, path } => StatusCallView::Chdir { fs, path: path@ },
            StatusCall::Fchdir { fd } => StatusCallView::Fchdir { fd },
        }
    }
}

/// Native calls that write the caller's bytes to a file and answer with the
/// number of bytes accepted: negative on failure.
#[derive(Debug, PartialEq, Eq)]
pub enum WriteCall<'a> {
    Write { fd: FileHandle, buffer: &'a [u8], flags: i32 },
    Writev { fd: FileHandle, iov: &'a [&'a [u8]], flags: i32 },
    Pwrite { fd: FileHandle, buffer: &'a [u8], count: usize, offset: i64, flags: i32 },
    Pwritev { fd: FileHandle, iov: &'a [&'a [u8]], offset: i64, flags: i32 },
}

/// The native call that reads up to `count` bytes at `offset` of a file
/// into a buffer of the caller. It answers with the number of bytes read:
/// negative on failure.
#[derive(Debug, PartialEq, Eq)]
pub struct PreadCall {
    pub fd: FileHandle,
    pub count: usize,
    pub offset: i64,
    pub flags: i32,
}

/// The native call that reads at the position of a file into `buffers`
/// buffers of the caller, in their order. It answers with the number of
/// bytes read into all of them together: negative on failure.
#[derive(Debug, PartialEq, Eq)]
pub struct ReadvCall {
    pub fd: FileHandle,
    pub buffers: usize,
    pub flags: i32,
}

/// The native call that reads at `offset` of a file into `buffers` buffers
/// of the caller, in their order. It answers with the number of bytes read
/// into all of them together: negative on failure.
#[derive(Debug, PartialEq, Eq)]
pub struct PreadvCall {
    pub fd: FileHandle,
    pub buffers: usize,
    pub offset: i64,
    pub flags: i32,
}

/// The native call that reads the target of a symbolic link into a buffer
/// of `size` bytes of the caller. It answers with a status code: negative
/// on failure.
#[derive(Debug, PartialEq, Eq)]
pub struct ReadlinkCall {
    pub fs: usize,
    pub path: NativeString,
    pub size: usize,
}

/// What the call that reads the target of a symbolic link holds.
pub struct ReadlinkCallView {
    pub fs: usize,
    pub path: Seq<u8>,
    pub size: usize,
}

impl View for ReadlinkCall {
    type V = ReadlinkCallView;

    open spec fn view(&self) -> ReadlinkCallView {
        ReadlinkCallView { fs: self.fs, path: self.path@, size: self.size }
    }
}

/// The native call that reads from a file's position into a buffer of
/// `count` bytes. It answers with the number of bytes read, negative on
/// failure, and with the buffer.
#[derive(Debug, PartialEq, Eq)]
pub struct ReadCall {
    pub fd: FileHandle,
    pub count: usize,
    pub flags: i32,
}

/// The native call that moves a file's position. It answers with the new
/// position from the start of the file: negative on failure.
#[derive(Debug, PartialEq, Eq)]
pub struct SeekCall {
    pub fd: FileHandle,
    pub offset: i64,
    pub whence: i32,
}

/// Native calls that answer with the address of a descriptor.
#[derive(Debug, PartialEq, Eq)]
pub enum HandleCall {
    Open { fs: usize, path: NativeString, flags: i32 },
    Creat { fs: usize, path: NativeString, flags: i32, mode: libc::mode_t },
    Opendir { fs: usize, path: NativeString },
    Dup { fd: FileHandle },
}

/// What a call that answers with the address of a descriptor holds.
pub enum HandleCallView {
    Open { fs: usize, path: Seq<u8>, flags: i32 },
    Creat { fs: usize, path: Seq<u8>, flags: i32, mode: libc::mode_t },
    Opendir { fs: usize, path: Seq<u8> },
    Dup { fd: FileHandle },
}

impl View for HandleCall {
    type V = HandleCallView;

    open spec fn view(&self) -> HandleCallView {
        match *self {
            HandleCall::Open { fs, path, flags } => HandleCallView::Open { fs, path: path@, flags },
            HandleCall::Creat { fs, path, flags, mode } => HandleCallView::Creat {
                fs,
                path: path@,
                flags,
                mode,
            },
            HandleCall::Opendir { fs, path } => HandleCallView::Opendir { fs, path: path@ },
            HandleCall::Dup { fd } => HandleCallView::Dup { fd },
        }
    }
}

/// Native calls that fill a metadata record, which starts out zeroed, and
/// answer with a status code.
#[derive(Debug, PartialEq, Eq)]
pub enum MetadataCall {
    Lstat { fs: usize, path: NativeString },
    Stat { fs: usize, path: NativeString },
    Fstat { fd: FileHandle },
}

/// What a call that fills a metadata record holds.
pub enum MetadataCallView {
    Lstat { fs: usize, path: Seq<u8> },
    Stat { fs: usize, path: Seq<u8> },
    Fstat { fd: FileHandle },
}

impl View for MetadataCall {
    type V = MetadataCallView;

    open spec fn view(&self) -> MetadataCallView {
        match *self {
            MetadataCall::Lstat { fs, path } => MetadataCallView::Lstat { fs, path: path@ },
            MetadataCall::Stat { fs, path } => MetadataCallView::Stat { fs, path: path@ },
            MetadataCall::Fstat { fd } => MetadataCallView::Fstat { fd },
        }
    }
}

/// Native calls that write an extended attribute's value, or the list of
/// attribute names, into a buffer of `size` bytes and answer with the number
/// of bytes written: negative on failure.
#[derive(Debug, PartialEq, Eq)]
pub enum AttributeCall {
    Getxattr { fs: usize, path: NativeString, name: NativeString, size: usize },
    Lgetxattr { fs: usize, path: NativeString, name: NativeString, size: usize },
    Fgetxattr { fd: FileHandle, name: NativeString, size: usize },
    Listxattr { fs: usize, path: NativeString, size: usize },
    Llistxattr { fs: usize, path: NativeString, size: usize },
    Flistxattr { fd: FileHandle, size: usize },
}

/// What a call that reads an extended attribute or their names holds.
pub enum AttributeCallView {
    Getxattr { fs: usize, path: Seq<u8>, name: Seq<u8>, size: usize },
    Lgetxattr { fs: usize, path: Seq<u8>, name: Seq<u8>, size: usize },
    Fgetxattr { fd: FileHandle, name: Seq<u8>, size: usize },
    Listxattr { fs: usize, path: Seq<u8>, size: usize },
    Llistxattr { fs: usize, path: Seq<u8>, size: usize },
    Flistxattr { fd: FileHandle, size: usize },
}

impl View for AttributeCall {
    type V = AttributeCallView;

    open spec fn view(&self) -> AttributeCallView {
        match *self {
            AttributeCall::Getxattr { fs, path, name, size } => AttributeCallView::Getxattr {
                fs,
                path: path@,
                name: name@,
                size,
            },
            AttributeCall::Lgetxattr { fs, path, name, size } => AttributeCallView::Lgetxattr {
                fs,
                path: path@,
                name: name@,
                size,
            },
            AttributeCall::Fgetxattr { fd, name, size } => AttributeCallView::Fgetxattr {
                fd,
                name: name@,
                size,
            },
            AttributeCall::Listxattr { fs, path, size } => AttributeCallView::Listxattr {
                fs,
                path: path@,
                size,
            },
            AttributeCall::Llistxattr { fs, path, size } => AttributeCallView::Llistxattr {
                fs,
                path: path@,
                size,
            },
            AttributeCall::Flistxattr { fd, size } => AttributeCallView::Flistxattr { fd, size },
        }
    }
}

/// The native call that writes the connection's working directory, as a
/// native string, into a buffer of `size` bytes. It answers with the address
/// of the buffer, or with zero on failure.
#[derive(Debug, PartialEq, Eq)]
pub struct GetcwdCall {
    pub fs: usize,
    pub size: usize,
}

/// Size in bytes of the buffer that is offered for an extended attribute's
/// value, for a list of attribute names and for the working directory.
pub const TEXT_BUFFER_SIZE: usize = 1024;

/// A transfer whose count is no more than the buffer holds is taken whole:
/// the leading part has the length of the count and is the start of the
/// buffer, byte for byte.
pub proof fn lemma_leading_is_prefix(buffer: Seq<u8>, count: int)
    requires
        0 <= count <= buffer.len(),
    ensures
        leading(buffer, count).len() == count,
        forall|i: int| 0 <= i < count ==> leading(buffer, count)[i] == buffer[i],
{
}

/// Bytes that the native layer delivers at the start of a buffer, with
/// their number as its count, come out as they went in, whatever the rest
/// of the buffer holds.
pub proof fn lemma_leading_delivers(data: Seq<u8>, rest: Seq<u8>)
    ensures
        leading(data + rest, data.len() as int) == data,
{
    assert(leading(data + rest, data.len() as int) =~= data);
}

/// A text that the native layer delivers at the start of a buffer as its
/// UTF-8 bytes, with their number as its count, is decoded as that text,
/// whatever the rest of the buffer holds.
pub proof fn lemma_text_delivers(text: Seq<char>, rest: Seq<u8>)
    ensures
        lossy_text(leading(encode_utf8(text) + rest, encode_utf8(text).len() as int)) == text,
{
    lemma_leading_delivers(encode_utf8(text), rest);
    encode_utf8_valid_utf8(text);
    encode_utf8_decode_utf8(text);
}

/// What a status code means. A negative code is a failure, which carries
/// the last-error indicator as it stands at this moment; any other code is
/// success.
pub fn status_result(code: i32) -> (r: Result<(), GlusterError>)
    ensures
        match r {
            Ok(_) => code >= 0,
            Err(e) => code < 0 && e.is_native_failure(),
        },
{
    if code < 0 {
        return Err(GlusterError::new(get_error()));
    }
    Ok(())
}

/// What a count of bytes means. A negative count is a failure, which
/// carries the last-error indicator as it stands at this moment. Any other
/// is the number of bytes moved, which may be less than was asked for: a
/// short transfer is no failure, and nothing is tried again.
pub fn count_result(code: isize) -> (r: Result<isize, GlusterError>)
    ensures
        match r {
            Ok(moved) => code >= 0 && moved == code,
            Err(e) => code < 0 && e.is_native_failure(),
        },
{
    if code < 0 {
        return Err(GlusterError::new(get_error()));
    }
    Ok(code)
}

impl<'a> StatusCall<'a> {
    /// Takes the status code that the native call answered with. A negative
    /// code is a failure of the operation; any other is its success.
    pub fn complete(self, code: i32) -> (r: Result<(), GlusterError>)
        ensures
            match r {
                Ok(_) => code >= 0,
                Err(e) => code < 0 && e.is_native_failure(),
            },
    {
        status_result(code)
    }
}

impl ReadlinkCall {
    /// Takes the status code that the native call answered with. A negative
    /// code is a failure of the operation. On success the target stands in
    /// the caller's buffer; its length is not handed on.
    pub fn complete(self, code: i32) -> (r: Result<(), GlusterError>)
        ensures
            match r {
                Ok(_) => code >= 0,
                Err(e) => code < 0 && e.is_native_failure(),
            },
    {
        status_result(code)
    }
}

impl<'a> WriteCall<'a> {
    /// Takes the count that the native call answered with. A negative count
    /// is a failure of the operation. Any other is the number of bytes that
    /// were accepted, over all buffers of the call together.
    pub fn complete(self, code: isize) -> (r: Result<isize, GlusterError>)
        ensures
            match r {
                Ok(written) => code >= 0 && written == code,
                Err(e) => code < 0 && e.is_native_failure(),
            },
    {
        count_result(code)
    }
}

impl PreadCall {
    /// Takes the count that the native call answered with. A negative count
    /// is a failure of the operation. Any other is the number of bytes that
    /// stand in the caller's buffer.
    pub fn complete(self, code: isize) -> (r: Result<isize, GlusterError>)
        ensures
            match r {
                Ok(read) => code >= 0 && read == code,
                Err(e) => code < 0 && e.is_native_failure(),
            },
    {
        count_result(code)
    }
}

impl ReadvCall {
    /// Takes the count that the native call answered with. A negative count
    /// is a failure of the operation. Any other is the number of bytes that
    /// stand in the caller's buffers, all of them together.
    pub fn complete(self, code: isize) -> (r: Result<isize, GlusterError>)
        ensures
            match r {
                Ok(read) => code >= 0 && read == code,
                Err(e) => code < 0 && e.is_native_failure(),
            },
    {
        count_result(code)
    }
}

impl PreadvCall {
    /// Takes the count that the native call answered with. A negative count
    /// is a failure of the operation. Any other is the number of bytes that
    /// stand in the caller's buffers, all of them together.
    pub fn complete(self, code: isize) -> (r: Result<isize, GlusterError>)
        ensures
            match r {
                Ok(read) => code >= 0 && read == code,
                Err(e) => code < 0 && e.is_native_failure(),
            },
    {
        count_result(code)
    }
}

impl ReadCall {
    /// Takes the count that the native call answered with and the buffer
    /// that it wrote to. A negative count is a failure of the operation,
    /// which leaves `fill_buffer` as it was. Otherwise `fill_buffer` becomes
    /// the bytes that were read, the first `code` bytes of `data`, and holds
    /// nothing after them.
    pub fn complete(self, code: isize, data: Vec<u8>, fill_buffer: &mut Vec<u8>) -> (r: Result<
        isize,
        GlusterError,
    >)
        ensures
            match r {
                Ok(read) => {
                    &&& code >= 0
                    &&& read == code
                    &&& final(fill_buffer)@ == leading(data@, code as int)
                    &&& code <= data@.len() ==> final(fill_buffer)@.len() == code
                },
                Err(e) => {
                    &&& code < 0
                    &&& e.is_native_failure()
                    &&& final(fill_buffer)@ == old(fill_buffer)@
                },
            },
    {
        if code < 0 {
            return Err(GlusterError::new(get_error()));
        }
        let mut data = data;
        data.truncate(code as usize);
        *fill_buffer = data;
        Ok(code)
    }
}

impl SeekCall {
    /// Takes the position that the native call answered with. A negative
    /// position is a failure of the operation; any other is the file's new
    /// position.
    pub fn complete(self, code: i64) -> (r: Result<i64, GlusterError>)
        ensures
            match r {
                Ok(position) => code >= 0 && position == code,
                Err(e) => code < 0 && e.is_native_failure(),
            },
    {
        if code < 0 {
            return Err(GlusterError::new(get_error()));
        }
        Ok(code)
    }
}

impl HandleCall {
    /// True of the one call whose answer is checked: creating a file.
    pub open spec fn checks_answer(self) -> bool {
        self is Creat
    }

    /// Takes the address that the native call answered with. Creating a
    /// file fails on the address zero. Every other call hands the address
    /// on as it is, zero included.
    pub fn complete(self, address: usize) -> (r: Result<FileHandle, GlusterError>)
        ensures
            match r {
                Ok(handle) => handle.raw == address && !(self.checks_answer() && address == 0),
                Err(e) => self.checks_answer() && address == 0 && e.is_native_failure(),
            },
    {
        match self {
            HandleCall::Creat { .. } => {
                if address == 0 {
                    return Err(GlusterError::new(get_error()));
                }
                Ok(FileHandle { raw: address })
            },
            _ => Ok(FileHandle { raw: address }),
        }
    }
}

impl MetadataCall {
    /// Takes the status code that the native call answered with and the
    /// record that it filled. A negative code is a failure of the
    /// operation; otherwise the record is handed on unchanged.
    pub fn complete(self, code: i32, record: Stat) -> (r: Result<Stat, GlusterError>)
        ensures
            match r {
                Ok(metadata) => code >= 0 && metadata == record,
                Err(e) => code < 0 && e.is_native_failure(),
            },
    {
        if code < 0 {
            return Err(GlusterError::new(get_error()));
        }
        Ok(record)
    }
}

impl AttributeCall {
    /// Takes the count that the native call answered with and the buffer
    /// that it wrote to. A negative count is a failure of the operation.
    /// Otherwise the result is the text of the first `code` bytes of the
    /// buffer, decoded lossily.
    pub fn complete(self, code: isize, buffer: Vec<u8>) -> (r: Result<String, GlusterError>)
        ensures
            match r {
                Ok(text) => code >= 0 && text@ == lossy_text(leading(buffer@, code as int)),
                Err(e) => code < 0 && e.is_native_failure(),
            },
    {
        if code < 0 {
            return Err(GlusterError::new(get_error()));
        }
        Ok(text_of_prefix(buffer.as_slice(), code as usize))
    }
}

impl GetcwdCall {
    /// Takes the address that the native call answered with and the buffer
    /// that it wrote to. The address zero is a failure of the operation.
    /// Otherwise the result is the text of the native string at the start
    /// of the buffer, decoded lossily.
    pub fn complete(self, address: usize, buffer: Vec<u8>) -> (r: Result<String, GlusterError>)
        ensures
            match r {
                Ok(text) => address != 0 && text@ == lossy_text(until_terminator(buffer@)),
                Err(e) => address == 0 && e.is_native_failure(),
            },
    {
        if address == 0 {
            return Err(GlusterError::new(get_error()));
        }
        Ok(text_of_native(buffer.as_slice()))
    }
}

} // verus!
