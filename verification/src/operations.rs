//! The file, directory and extended-attribute operations of a connection.
//!
//! Each operation marshals its string arguments, in the order of its
//! parameters, then checks the value of an extended attribute where it
//! takes one, and describes one native call. An argument that holds a
//! terminator byte is refused with the position of its first terminator,
//! and then no call is described: nothing reaches the native layer. The
//! answer of the call goes to `complete` of the description.

use crate::call::{
    AttributeCall, AttributeCallView, FileHandle, GetcwdCall, HandleCall, HandleCallView,
    MetadataCall, MetadataCallView, PreadCall, PreadvCall, ReadCall, ReadlinkCall,
    ReadlinkCallView, ReadvCall, SeekCall, StatusCall, StatusCallView, WriteCall,
    TEXT_BUFFER_SIZE,
};
use crate::connection::Gluster;
use crate::error::GlusterError;
use crate::marshal::{
    accepts, check_value, has_nul, marshal_argument, native, refuses, refuses_any, refuses_bytes,
    refuses_either,
};
use vstd::prelude::*;

verus! {

impl Gluster {
    /// Opens the file at `path`. The address that the native call answers
    /// with is handed on unchecked: a failed open shows as a handle whose
    /// address is zero.
    pub fn open(&self, path: &str, flags: i32) -> (r: Result<HandleCall, GlusterError>)
        ensures
            match r {
                Ok(call) => {
                    &&& accepts(path@)
                    &&& call@ == (HandleCallView::Open { fs: self@, path: native(path@), flags })
                },
                Err(e) => refuses(path@, e),
            },
    {
        let path = marshal_argument(path)?;
        Ok(HandleCall::Open { fs: self.context(), path, flags })
    }

    /// Creates and opens the file at `path` with the given permission bits.
    /// The operation fails where the native call answers with the address
    /// zero.
    pub fn create(
        &self,
        path: &str,
        flags: i32,
        mode: libc::mode_t,
    ) -> (r: Result<HandleCall, GlusterError>)
        ensures
            match r {
                Ok(call) => {
                    &&& accepts(path@)
                    &&& call@ == (HandleCallView::Creat {
                        fs: self@,
                        path: native(path@),
                        flags,
                        mode,
                    })
                },
                Err(e) => refuses(path@, e),
            },
    {
        let path = marshal_argument(path)?;
        Ok(HandleCall::Creat { fs: self.context(), path, flags, mode })
    }

    /// Closes an open file. The handle must not be used afterwards.
    pub fn close(&self, file_handle: FileHandle) -> (call: StatusCall<'static>)
        ensures
            call == (StatusCall::Close { fd: file_handle }),
    {
        StatusCall::Close { fd: file_handle }
    }

    /// Reads up to `count` bytes at the position of an open file. The
    /// embedding program offers the native call a buffer of `count` bytes,
    /// and completing the call leaves exactly the bytes that were read in the
    /// caller's buffer.
    pub fn read(&self, file_handle: FileHandle, count: usize, flags: i32) -> (call: ReadCall)
        ensures
            call == (ReadCall { fd: file_handle, count, flags }),
    {
        ReadCall { fd: file_handle, count, flags }
    }

    /// Writes `buffer` at the position of an open file. The call may accept
    /// fewer bytes than the buffer holds.
    pub fn write<'a>(
        &self,
        file_handle: FileHandle,
        buffer: &'a [u8],
        flags: i32,
    ) -> (call: WriteCall<'a>)
        ensures
            call == (WriteCall::Write { fd: file_handle, buffer, flags }),
    {
        WriteCall::Write { fd: file_handle, buffer, flags }
    }

    /// Reads at the position of an open file into `buffers` buffers of the
    /// caller, in their order. The count that the call answers with is for
    /// all buffers together.
    pub fn readv(&self, file_handle: FileHandle, buffers: usize, flags: i32) -> (call: ReadvCall)
        ensures
            call == (ReadvCall { fd: file_handle, buffers, flags }),
    {
        ReadvCall { fd: file_handle, buffers, flags }
    }

    /// Writes the buffers of `iov`, in their order, at the position of an
    /// open file. The count that the call answers with is for all buffers
    /// together.
    pub fn writev<'a>(
        &self,
        file_handle: FileHandle,
        iov: &'a [&'a [u8]],
        flags: i32,
    ) -> (call: WriteCall<'a>)
        ensures
            call == (WriteCall::Writev { fd: file_handle, iov, flags }),
    {
        WriteCall::Writev { fd: file_handle, iov, flags }
    }

    /// Reads up to `count` bytes at `offset` of an open file into a buffer of
    /// the caller that holds `capacity` bytes. The native call writes up to
    /// `count` bytes into the buffer, so the buffer must have room for them.
    pub fn pread(
        &self,
        file_handle: FileHandle,
        capacity: usize,
        count: usize,
        offset: i64,
        flags: i32,
    ) -> (call: PreadCall)
        requires
            count <= capacity,
        ensures
            call == (PreadCall { fd: file_handle, count, offset, flags }),
    {
        PreadCall { fd: file_handle, count, offset, flags }
    }

    /// Writes `count` bytes, the start of `buffer`, at `offset` of an open
    /// file. The native call reads that many bytes from the buffer, so the
    /// buffer must hold them.
    pub fn pwrite<'a>(
        &self,
        file_handle: FileHandle,
        buffer: &'a [u8],
        count: usize,
        offset: i64,
        flags: i32,
    ) -> (call: WriteCall<'a>)
        requires
            count <= buffer@.len(),
        ensures
            call == (WriteCall::Pwrite { fd: file_handle, buffer, count, offset, flags }),
    {
        WriteCall::Pwrite { fd: file_handle, buffer, count, offset, flags }
    }

    /// Reads at `offset` of an open file into `buffers` buffers of the
    /// caller, in their order.
    pub fn preadv(
        &self,
        file_handle: FileHandle,
        buffers: usize,
        offset: i64,
        flags: i32,
    ) -> (call: PreadvCall)
        ensures
            call == (PreadvCall { fd: file_handle, buffers, offset, flags }),
    {
        PreadvCall { fd: file_handle, buffers, offset, flags }
    }

    /// Writes the buffers of `iov`, in their order, at `offset` of an open
    /// file.
    pub fn pwritev<'a>(
        &self,
        file_handle: FileHandle,
        iov: &'a [&'a [u8]],
        offset: i64,
        flags: i32,
    ) -> (call: WriteCall<'a>)
        ensures
            call == (WriteCall::Pwritev { fd: file_handle, iov, offset, flags }),
    {
        WriteCall::Pwritev { fd: file_handle, iov, offset, flags }
    }

    /// Moves the position of an open file by `offset` from the place that
    /// `whence` names.
    pub fn lseek(&self, file_handle: FileHandle, offset: i64, whence: i32) -> (call: SeekCall)
        ensures
            call == (SeekCall { fd: file_handle, offset, whence }),
    {
        SeekCall { fd: file_handle, offset, whence }
    }

    /// Sets the length of the file at `path`.
    pub fn truncate(
        &self,
        path: &str,
        length: i64,
    ) -> (r: Result<StatusCall<'static>, GlusterError>)
        ensures
            match r {
                Ok(call) => {
                    &&& accepts(path@)
                    &&& call@ == (StatusCallView::Truncate {
                        fs: self@,
                        path: native(path@),
                        length,
                    })
                },
                Err(e) => refuses(path@, e),
            },
    {
        let path = marshal_argument(path)?;
        Ok(StatusCall::Truncate { fs: self.context(), path, length })
    }

    /// Sets the length of an open file.
    pub fn ftruncate(&self, file_handle: FileHandle, length: i64) -> (call: StatusCall<'static>)
        ensures
            call == (StatusCall::Ftruncate { fd: file_handle, length }),
    {
        StatusCall::Ftruncate { fd: file_handle, length }
    }

    /// Reads the metadata of what `path` names, a symbolic link itself where
    /// the path ends in one.
    pub fn lsstat(&self, path: &str) -> (r: Result<MetadataCall, GlusterError>)
        ensures
            match r {
                Ok(call) => {
                    &&& accepts(path@)
                    &&& call@ == (MetadataCallView::Lstat { fs: self@, path: native(path@) })
                },
                Err(e) => refuses(path@, e),
            },
    {
        let path = marshal_argument(path)?;
        Ok(MetadataCall::Lstat { fs: self.context(), path })
    }

    /// Reads the metadata of what `path` names, following a symbolic link at
    /// its end.
    pub fn stat(&self, path: &str) -> (r: Result<MetadataCall, GlusterError>)
        ensures
            match r {
                Ok(call) => {
                    &&& accepts(path@)
                    &&& call@ == (MetadataCallView::Stat { fs: self@, path: native(path@) })
                },
                Err(e) => refuses(path@, e),
            },
    {
        let path = marshal_argument(path)?;
        Ok(MetadataCall::Stat { fs: self.context(), path })
    }

    /// Reads the metadata of an open file.
    pub fn fstat(&self, file_handle: FileHandle) -> (call: MetadataCall)
        ensures
            call == (MetadataCall::Fstat { fd: file_handle }),
    {
        MetadataCall::Fstat { fd: file_handle }
    }

    /// Flushes an open file, data and metadata, to storage.
    pub fn fsync(&self, file_handle: FileHandle) -> (call: StatusCall<'static>)
        ensures
            call == (StatusCall::Fsync { fd: file_handle }),
    {
        StatusCall::Fsync { fd: file_handle }
    }

    /// Flushes the data of an open file to storage.
    pub fn fdatasync(&self, file_handle: FileHandle) -> (call: StatusCall<'static>)
        ensures
            call == (StatusCall::Fdatasync { fd: file_handle }),
    {
        StatusCall::Fdatasync { fd: file_handle }
    }

    /// Tests whether the permissions in `mode` are granted on what `path`
    /// names. Whatever the reason, a refusal is a failure of the operation.
    pub fn access(&self, path: &str, mode: i32) -> (r: Result<StatusCall<'static>, GlusterError>)
        ensures
            match r {
                Ok(call) => {
                    &&& accepts(path@)
                    &&& call@ == (StatusCallView::Access { fs: self@, path: native(path@), mode })
                },
                Err(e) => refuses(path@, e),
            },
    {
        let path = marshal_argument(path)?;
        Ok(StatusCall::Access { fs: self.context(), path, mode })
    }

    /// Makes `newpath` a symbolic link to `oldpath`.
    pub fn symlink(
        &self,
        oldpath: &str,
        newpath: &str,
    ) -> (r: Result<StatusCall<'static>, GlusterError>)
        ensures
            match r {
                Ok(call) => {
                    &&& accepts(oldpath@)
                    &&& accepts(newpath@)
                    &&& call@ == (StatusCallView::Symlink {
                        fs: self@,
                        oldpath: native(oldpath@),
                        newpath: native(newpath@),
                    })
                },
                Err(e) => refuses_either(oldpath@, newpath@, e),
            },
    {
        let oldpath = marshal_argument(oldpath)?;
        let newpath = marshal_argument(newpath)?;
        Ok(StatusCall::Symlink { fs: self.context(), oldpath, newpath })
    }

    /// Reads the target of the symbolic link at `path` into a buffer of
    /// `size` bytes of the caller. The buffer is neither terminated nor
    /// resized, and the length of the target is not handed on.
    pub fn readlink(&self, path: &str, size: usize) -> (r: Result<ReadlinkCall, GlusterError>)
        ensures
            match r {
                Ok(call) => {
                    &&& accepts(path@)
                    &&& call@ == (ReadlinkCallView { fs: self@, path: native(path@), size })
                },
                Err(e) => refuses(path@, e),
            },
    {
        let path = marshal_argument(path)?;
        Ok(ReadlinkCall { fs: self.context(), path, size })
    }

    /// Makes a file system node at `path`.
    pub fn mknod(
        &self,
        path: &str,
        mode: libc::mode_t,
        dev: libc::dev_t,
    ) -> (r: Result<StatusCall<'static>, GlusterError>)
        ensures
            match r {
                Ok(call) => {
                    &&& accepts(path@)
                    &&& call@ == (StatusCallView::Mknod {
                        fs: self@,
                        path: native(path@),
                        mode,
                        dev,
                    })
                },
                Err(e) => refuses(path@, e),
            },
    {
        let path = marshal_argument(path)?;
        Ok(StatusCall::Mknod { fs: self.context(), path, mode, dev })
    }

    /// Makes a directory at `path`.
    pub fn mkdir(
        &self,
        path: &str,
        mode: libc::mode_t,
    ) -> (r: Result<StatusCall<'static>, GlusterError>)
        ensures
            match r {
                Ok(call) => {
                    &&& accepts(path@)
                    &&& call@ == (StatusCallView::Mkdir { fs: self@, path: native(path@), mode })
                },
                Err(e) => refuses(path@, e),
            },
    {
        let path = marshal_argument(path)?;
        Ok(StatusCall::Mkdir { fs: self.context(), path, mode })
    }

    /// Removes the name `path`.
    pub fn unlink(&self, path: &str) -> (r: Result<StatusCall<'static>, GlusterError>)
        ensures
            match r {
                Ok(call) => {
                    &&& accepts(path@)
                    &&& call@ == (StatusCallView::Unlink { fs: self@, path: native(path@) })
                },
                Err(e) => refuses(path@, e),
            },
    {
        let path = marshal_argument(path)?;
        Ok(StatusCall::Unlink { fs: self.context(), path })
    }

    /// Removes the directory at `path`.
    pub fn rmdir(&self, path: &str) -> (r: Result<StatusCall<'static>, GlusterError>)
        ensures
            match r {
                Ok(call) => {
                    &&& accepts(path@)
                    &&& call@ == (StatusCallView::Rmdir { fs: self@, path: native(path@) })
                },
                Err(e) => refuses(path@, e),
            },
    {
        let path = marshal_argument(path)?;
        Ok(StatusCall::Rmdir { fs: self.context(), path })
    }

    /// Renames `oldpath` to `newpath`.
    pub fn rename(
        &self,
        oldpath: &str,
        newpath: &str,
    ) -> (r: Result<StatusCall<'static>, GlusterError>)
        ensures
            match r {
                Ok(call) => {
                    &&& accepts(oldpath@)
                    &&& accepts(newpath@)
                    &&& call@ == (StatusCallView::Rename {
                        fs: self@,
                        oldpath: native(oldpath@),
                        newpath: native(newpath@),
                    })
                },
                Err(e) => refuses_either(oldpath@, newpath@, e),
            },
    {
        let oldpath = marshal_argument(oldpath)?;
        let newpath = marshal_argument(newpath)?;
        Ok(StatusCall::Rename { fs: self.context(), oldpath, newpath })
    }

    /// Makes `newpath` another name of the file at `oldpath`.
    pub fn link(
        &self,
        oldpath: &str,
        newpath: &str,
    ) -> (r: Result<StatusCall<'static>, GlusterError>)
        ensures
            match r {
                Ok(call) => {
                    &&& accepts(oldpath@)
                    &&& accepts(newpath@)
                    &&& call@ == (StatusCallView::Link {
                        fs: self@,
                        oldpath: native(oldpath@),
                        newpath: native(newpath@),
                    })
                },
                Err(e) => refuses_either(oldpath@, newpath@, e),
            },
    {
        let oldpath = marshal_argument(oldpath)?;
        let newpath = marshal_argument(newpath)?;
        Ok(StatusCall::Link { fs: self.context(), oldpath, newpath })
    }

    /// Opens the directory at `path`. The address that the native call
    /// answers with is handed on unchecked: a failed open shows as a handle
    /// whose address is zero.
    pub fn opendir(&self, path: &str) -> (r: Result<HandleCall, GlusterError>)
        ensures
            match r {
                Ok(call) => {
                    &&& accepts(path@)
                    &&& call@ == (HandleCallView::Opendir { fs: self@, path: native(path@) })
                },
                Err(e) => refuses(path@, e),
            },
    {
        let path = marshal_argument(path)?;
        Ok(HandleCall::Opendir { fs: self.context(), path })
    }

    /// Reads the extended attribute `name` of what `path` names, as text. A
    /// value that does not fit the buffer that is offered is a failure of the
    /// native call.
    pub fn getxattr(&self, path: &str, name: &str) -> (r: Result<AttributeCall, GlusterError>)
        ensures
            match r {
                Ok(call) => {
                    &&& accepts(path@)
                    &&& accepts(name@)
                    &&& call@ == (AttributeCallView::Getxattr {
                        fs: self@,
                        path: native(path@),
                        name: native(name@),
                        size: TEXT_BUFFER_SIZE,
                    })
                },
                Err(e) => refuses_either(path@, name@, e),
            },
    {
        let path = marshal_argument(path)?;
        let name = marshal_argument(name)?;
        Ok(AttributeCall::Getxattr { fs: self.context(), path, name, size: TEXT_BUFFER_SIZE })
    }

    /// Reads the extended attribute `name` of what `path` names, a symbolic
    /// link itself where the path ends in one.
    pub fn lgetxattr(&self, path: &str, name: &str) -> (r: Result<AttributeCall, GlusterError>)
        ensures
            match r {
                Ok(call) => {
                    &&& accepts(path@)
                    &&& accepts(name@)
                    &&& call@ == (AttributeCallView::Lgetxattr {
                        fs: self@,
                        path: native(path@),
                        name: native(name@),
                        size: TEXT_BUFFER_SIZE,
                    })
                },
                Err(e) => refuses_either(path@, name@, e),
            },
    {
        let path = marshal_argument(path)?;
        let name = marshal_argument(name)?;
        Ok(AttributeCall::Lgetxattr { fs: self.context(), path, name, size: TEXT_BUFFER_SIZE })
    }

    /// Reads the extended attribute `name` of an open file.
    pub fn fgetxattr(
        &self,
        file_handle: FileHandle,
        name: &str,
    ) -> (r: Result<AttributeCall, GlusterError>)
        ensures
            match r {
                Ok(call) => {
                    &&& accepts(name@)
                    &&& call@ == (AttributeCallView::Fgetxattr {
                        fd: file_handle,
                        name: native(name@),
                        size: TEXT_BUFFER_SIZE,
                    })
                },
                Err(e) => refuses(name@, e),
            },
    {
        let name = marshal_argument(name)?;
        Ok(AttributeCall::Fgetxattr { fd: file_handle, name, size: TEXT_BUFFER_SIZE })
    }

    /// Reads the names of the extended attributes of what `path` names, as
    /// one text in which a terminator follows each name.
    pub fn listxattr(&self, path: &str) -> (r: Result<AttributeCall, GlusterError>)
        ensures
            match r {
                Ok(call) => {
                    &&& accepts(path@)
                    &&& call@ == (AttributeCallView::Listxattr {
                        fs: self@,
                        path: native(path@),
                        size: TEXT_BUFFER_SIZE,
                    })
                },
                Err(e) => refuses(path@, e),
            },
    {
        let path = marshal_argument(path)?;
        Ok(AttributeCall::Listxattr { fs: self.context(), path, size: TEXT_BUFFER_SIZE })
    }

    /// Reads the names of the extended attributes of what `path` names, a
    /// symbolic link itself where the path ends in one.
    pub fn llistxattr(&self, path: &str) -> (r: Result<AttributeCall, GlusterError>)
        ensures
            match r {
                Ok(call) => {
                    &&& accepts(path@)
                    &&& call@ == (AttributeCallView::Llistxattr {
                        fs: self@,
                        path: native(path@),
                        size: TEXT_BUFFER_SIZE,
                    })
                },
                Err(e) => refuses(path@, e),
            },
    {
        let path = marshal_argument(path)?;
        Ok(AttributeCall::Llistxattr { fs: self.context(), path, size: TEXT_BUFFER_SIZE })
    }

    /// Reads the names of the extended attributes of an open file.
    pub fn flistxattr(&self, file_handle: FileHandle) -> (call: AttributeCall)
        ensures
            call == (AttributeCall::Flistxattr { fd: file_handle, size: TEXT_BUFFER_SIZE }),
    {
        AttributeCall::Flistxattr { fd: file_handle, size: TEXT_BUFFER_SIZE }
    }

    /// Sets the extended attribute `name` of what `path` names to `value`.
    /// The value is handed on as it is, with its length; like the path and
    /// the name it must hold no terminator byte, and it is checked after
    /// them.
    pub fn setxattr<'a>(
        &self,
        path: &str,
        name: &str,
        value: &'a [u8],
        flags: i32,
    ) -> (r: Result<StatusCall<'a>, GlusterError>)
        ensures
            match r {
                Ok(call) => {
                    &&& accepts(path@)
                    &&& accepts(name@)
                    &&& !has_nul(value@)
                    &&& call@ == (StatusCallView::Setxattr {
                        fs: self@,
                        path: native(path@),
                        name: native(name@),
                        value: value@,
                        flags,
                    })
                },
                Err(e) => refuses_any(path@, name@, value@, e),
            },
    {
        let path = marshal_argument(path)?;
        let name = marshal_argument(name)?;
        check_value(value)?;
        Ok(StatusCall::Setxattr { fs: self.context(), path, name, value, flags })
    }

    /// Sets the extended attribute `name` of what `path` names, a symbolic
    /// link itself where the path ends in one. The name is marshalled before
    /// the path, and the value is checked after both.
    pub fn lsetxattr<'a>(
        &self,
        name: &str,
        value: &'a [u8],
        path: &str,
        flags: i32,
    ) -> (r: Result<StatusCall<'a>, GlusterError>)
        ensures
            match r {
                Ok(call) => {
                    &&& accepts(name@)
                    &&& accepts(path@)
                    &&& !has_nul(value@)
                    &&& call@ == (StatusCallView::Lsetxattr {
                        fs: self@,
                        path: native(path@),
                        name: native(name@),
                        value: value@,
                        flags,
                    })
                },
                Err(e) => refuses_any(name@, path@, value@, e),
            },
    {
        let name = marshal_argument(name)?;
        let path = marshal_argument(path)?;
        check_value(value)?;
        Ok(StatusCall::Lsetxattr { fs: self.context(), path, name, value, flags })
    }

    /// Sets the extended attribute `name` of an open file to `value`. The
    /// value is checked after the name.
    pub fn fsetxattr<'a>(
        &self,
        file_handle: FileHandle,
        name: &str,
        value: &'a [u8],
        flags: i32,
    ) -> (r: Result<StatusCall<'a>, GlusterError>)
        ensures
            match r {
                Ok(call) => {
                    &&& accepts(name@)
                    &&& !has_nul(value@)
                    &&& call@ == (StatusCallView::Fsetxattr {
                        fd: file_handle,
                        name: native(name@),
                        value: value@,
                        flags,
                    })
                },
                Err(e) => refuses(name@, e) || (accepts(name@) && refuses_bytes(value@, e)),
            },
    {
        let name = marshal_argument(name)?;
        check_value(value)?;
        Ok(StatusCall::Fsetxattr { fd: file_handle, name, value, flags })
    }

    /// Removes the extended attribute `name` of what `path` names.
    pub fn removexattr(
        &self,
        path: &str,
        name: &str,
    ) -> (r: Result<StatusCall<'static>, GlusterError>)
        ensures
            match r {
                Ok(call) => {
                    &&& accepts(path@)
                    &&& accepts(name@)
                    &&& call@ == (StatusCallView::Removexattr {
                        fs: self@,
                        path: native(path@),
                        name: native(name@),
                    })
                },
                Err(e) => refuses_either(path@, name@, e),
            },
    {
        let path = marshal_argument(path)?;
        let name = marshal_argument(name)?;
        Ok(StatusCall::Removexattr { fs: self.context(), path, name })
    }

    /// Removes the extended attribute `name` of what `path` names, a symbolic
    /// link itself where the path ends in one.
    pub fn lremovexattr(
        &self,
        path: &str,
        name: &str,
    ) -> (r: Result<StatusCall<'static>, GlusterError>)
        ensures
            match r {
                Ok(call) => {
                    &&& accepts(path@)
                    &&& accepts(name@)
                    &&& call@ == (StatusCallView::Lremovexattr {
                        fs: self@,
                        path: native(path@),
                        name: native(name@),
                    })
                },
                Err(e) => refuses_either(path@, name@, e),
            },
    {
        let path = marshal_argument(path)?;
        let name = marshal_argument(name)?;
        Ok(StatusCall::Lremovexattr { fs: self.context(), path, name })
    }

    /// Removes the extended attribute `name` of an open file.
    pub fn fremovexattr(
        &self,
        file_handle: FileHandle,
        name: &str,
    ) -> (r: Result<StatusCall<'static>, GlusterError>)
        ensures
            match r {
                Ok(call) => {
                    &&& accepts(name@)
                    &&& call@ == (StatusCallView::Fremovexattr {
                        fd: file_handle,
                        name: native(name@),
                    })
                },
                Err(e) => refuses(name@, e),
            },
    {
        let name = marshal_argument(name)?;
        Ok(StatusCall::Fremovexattr { fd: file_handle, name })
    }

    /// Reserves `len` bytes of space at `offset` of an open file. With
    /// `keep_size` set the size of the file stays as it is, else it grows to
    /// cover the reserved range.
    pub fn fallocate(
        &self,
        file_handle: FileHandle,
        offset: i64,
        keep_size: i32,
        len: usize,
    ) -> (call: StatusCall<'static>)
        ensures
            call == (StatusCall::Fallocate { fd: file_handle, keep_size, offset, len }),
    {
        StatusCall::Fallocate { fd: file_handle, keep_size, offset, len }
    }

    /// Gives back the space of `len` bytes at `offset` of an open file.
    pub fn discard(
        &self,
        file_handle: FileHandle,
        offset: i64,
        len: usize,
    ) -> (call: StatusCall<'static>)
        ensures
            call == (StatusCall::Discard { fd: file_handle, offset, len }),
    {
        StatusCall::Discard { fd: file_handle, offset, len }
    }

    /// Fills `len` bytes at `offset` of an open file with zeros.
    pub fn zerofill(
        &self,
        file_handle: FileHandle,
        offset: i64,
        len: i64,
    ) -> (call: StatusCall<'static>)
        ensures
            call == (StatusCall::Zerofill { fd: file_handle, offset, len }),
    {
        StatusCall::Zerofill { fd: file_handle, offset, len }
    }

    /// Reads the working directory of the connection, as text.
    pub fn getcwd(&self) -> (call: GetcwdCall)
        ensures
            call == (GetcwdCall { fs: self@, size: TEXT_BUFFER_SIZE }),
    {
        GetcwdCall { fs: self.context(), size: TEXT_BUFFER_SIZE }
    }

    /// Makes `path` the working directory of the connection.
    pub fn chdir(&self, path: &str) -> (r: Result<StatusCall<'static>, GlusterError>)
        ensures
            match r {
                Ok(call) => {
                    &&& accepts(path@)
                    &&& call@ == (StatusCallView::Chdir { fs: self@, path: native(path@) })
                },
                Err(e) => refuses(path@, e),
            },
    {
        let path = marshal_argument(path)?;
        Ok(StatusCall::Chdir { fs: self.context(), path })
    }

    /// Makes an open directory the working directory of the connection.
    pub fn fchdir(&self, file_handle: FileHandle) -> (call: StatusCall<'static>)
        ensures
            call == (StatusCall::Fchdir { fd: file_handle }),
    {
        StatusCall::Fchdir { fd: file_handle }
    }

    /// Duplicates the native descriptor of an open file. The duplicate is a
    /// handle of its own, to be closed on its own. The address that the
    /// native call answers with is handed on unchecked.
    pub fn dup(&self, file_handle: FileHandle) -> (call: HandleCall)
        ensures
            call == (HandleCall::Dup { fd: file_handle }),
    {
        HandleCall::Dup { fd: file_handle }
    }
}

} // verus!
