//! The connection to a volume: how it is set up, step by step, and how it
//! is released.
//!
//! Connecting makes a native context and then configures and initialises
//! it. A step that fails after the context was made hands back, beside the
//! error, the native call that releases the context: however connecting
//! ends, the context is owned by the connection or released once.

use crate::error::{get_error, GlusterError};
use crate::marshal::{
    accepts, has_nul, marshal_argument, marshalled, native, refuses_either, NativeString,
};
use vstd::prelude::*;
use vstd::string::*;
use vstd::utf8::*;

verus! {

/// The bytes of the only transport that the client asks for, `tcp`.
pub open spec fn transport_bytes() -> Seq<u8> {
    seq![0x74u8, 0x63u8, 0x70u8]
}

/// The UTF-8 bytes of the transport's name are `transport_bytes`, which hold
/// no terminator.
pub proof fn lemma_transport_bytes()
    ensures
        encode_utf8("tcp"@) == transport_bytes(),
        !has_nul(transport_bytes()),
{
    reveal_strlit("tcp");
    let chars = "tcp"@;
    assert(chars.len() == 3);
    assert(chars[0] == 't' && chars[1] == 'c' && chars[2] == 'p');
    assert(is_ascii_chars(chars));
    is_ascii_chars_encode_utf8(chars);
    assert(encode_utf8(chars) =~= transport_bytes());
    crate::marshal::lemma_terminator_is(transport_bytes(), 3);
}

/// A connection to one volume, known by the address of its native context.
/// The address is zero once the context has been released.
#[derive(Debug)]
pub struct Gluster {
    cluster_handle: usize,
}

impl View for Gluster {
    type V = usize;

    /// The address of the native context, zero after release.
    closed spec fn view(&self) -> usize {
        self.cluster_handle
    }
}

/// The native call that tears a context down.
#[derive(Debug, PartialEq, Eq)]
pub struct FiniCall {
    /// Address of the context to release.
    pub fs: usize,
}

/// A step of connecting that failed after the context was made: the error,
/// whose message was rendered before anything else ran, and the native call
/// that releases the context.
#[derive(Debug)]
pub struct ConnectFailure {
    pub error: GlusterError,
    pub release: FiniCall,
}

/// What a step on the context `fs` owes the context when the native call
/// answers with `code`: its release, where the code is a failure.
pub open spec fn owed_release(fs: usize, code: i32) -> Option<FiniCall> {
    if code < 0 {
        Some(FiniCall { fs })
    } else {
        None
    }
}

/// How connecting ends: the context that the connection owns, if it was
/// made, and the releases that were asked for on the way.
pub struct ConnectRun {
    pub connection: Option<usize>,
    pub releases: Seq<FiniCall>,
}

/// Connecting with the three native answers in turn: the address of the
/// context, the code of configuring it, the code of initialising it. A
/// step is only made where the steps before it succeeded.
pub open spec fn connect_run(address: usize, server_code: i32, init_code: i32) -> ConnectRun {
    if address == 0 {
        ConnectRun { connection: None, releases: Seq::empty() }
    } else {
        match owed_release(address, server_code) {
            Some(release) => ConnectRun { connection: None, releases: seq![release] },
            None => match owed_release(address, init_code) {
                Some(release) => ConnectRun { connection: None, releases: seq![release] },
                None => ConnectRun { connection: Some(address), releases: Seq::empty() },
            },
        }
    }
}

/// Connecting leaves no context behind. Where it succeeds, the connection
/// owns the context that was made and no release was asked for. Where it
/// fails, there is no connection, and the context, if one was made, has
/// been released exactly once.
pub proof fn lemma_connect_leaves_no_context(address: usize, server_code: i32, init_code: i32)
    ensures
        match connect_run(address, server_code, init_code).connection {
            Some(fs) => {
                &&& address != 0 && server_code >= 0 && init_code >= 0
                &&& fs == address
                &&& connect_run(address, server_code, init_code).releases
                    == Seq::<FiniCall>::empty()
            },
            None => {
                &&& address == 0 || server_code < 0 || init_code < 0
                &&& address == 0 ==> connect_run(address, server_code, init_code).releases
                    == Seq::<FiniCall>::empty()
                &&& address != 0 ==> connect_run(address, server_code, init_code).releases
                    == seq![FiniCall { fs: address }]
            },
        },
{
}

/// What the first step of connecting holds.
pub struct NewCallView {
    pub volume: Seq<u8>,
    pub transport: Seq<u8>,
    pub host: Seq<u8>,
    pub port: u16,
}

/// First step of connecting: the native call that makes a context for a
/// volume. It answers with the address of the context, zero on failure.
#[derive(Debug)]
pub struct NewCall {
    volume: NativeString,
    transport: NativeString,
    host: NativeString,
    port: u16,
}

impl View for NewCall {
    type V = NewCallView;

    closed spec fn view(&self) -> NewCallView {
        NewCallView {
            volume: self.volume@,
            transport: self.transport@,
            host: self.host@,
            port: self.port,
        }
    }
}

/// What the second step of connecting holds.
pub struct SetVolfileServerCallView {
    pub fs: usize,
    pub transport: Seq<u8>,
    pub host: Seq<u8>,
    pub port: i32,
}

/// Second step of connecting: the native call that names the server from
/// which the context fetches the volume's description. It answers with a
/// status code.
#[derive(Debug)]
pub struct SetVolfileServerCall {
    fs: usize,
    transport: NativeString,
    host: NativeString,
    port: i32,
}

impl View for SetVolfileServerCall {
    type V = SetVolfileServerCallView;

    closed spec fn view(&self) -> SetVolfileServerCallView {
        SetVolfileServerCallView {
            fs: self.fs,
            transport: self.transport@,
            host: self.host@,
            port: self.port,
        }
    }
}

/// Last step of connecting: the native call that initialises the context.
/// It answers with a status code.
#[derive(Debug)]
pub struct InitCall {
    fs: usize,
}

impl View for InitCall {
    type V = usize;

    /// The address of the context to initialise.
    closed spec fn view(&self) -> usize {
        self.fs
    }
}

impl NewCall {
    /// The volume's name in native form.
    pub fn volume(&self) -> (volume: &NativeString)
        ensures
            volume@ == self@.volume,
    {
        &self.volume
    }

    /// Takes the address that the native call answered with. Zero means that
    /// no context was made: connecting fails with the message
    /// `glfs_new failed`, and the last-error indicator is not consulted. Any
    /// other address is the context that the next step configures, with the
    /// transport, host and port given at the start.
    pub fn complete(self, context: usize) -> (r: Result<SetVolfileServerCall, GlusterError>)
        ensures
            match r {
                Ok(next) => context != 0 && next@ == (SetVolfileServerCallView {
                    fs: context,
                    transport: self@.transport,
                    host: self@.host,
                    port: self@.port as i32,
                }),
                Err(GlusterError::Error(message)) => context == 0 && message@ == "glfs_new failed"@,
                Err(_) => false,
            },
    {
        if context == 0 {
            return Err(GlusterError::new("glfs_new failed".to_owned()));
        }
        Ok(
            SetVolfileServerCall {
                fs: context,
                transport: self.transport,
                host: self.host,
                port: self.port as i32,
            },
        )
    }
}

impl SetVolfileServerCall {
    /// Address of the context to configure.
    pub fn context(&self) -> (fs: usize)
        ensures
            fs == self@.fs,
    {
        self.fs
    }

    /// The transport's name in native form.
    pub fn transport(&self) -> (transport: &NativeString)
        ensures
            transport@ == self@.transport,
    {
        &self.transport
    }

    /// The server's host in native form.
    pub fn host(&self) -> (host: &NativeString)
        ensures
            host@ == self@.host,
    {
        &self.host
    }

    /// The server's port.
    pub fn port(&self) -> (port: i32)
        ensures
            port == self@.port,
    {
        self.port
    }

    /// Takes the status code that the native call answered with. A negative
    /// code fails connecting with the rendered last-error indicator, and
    /// the context is to be released; any other leads to the last step, on
    /// the same context.
    pub fn complete(self, code: i32) -> (r: Result<InitCall, ConnectFailure>)
        ensures
            match r {
                Ok(next) => code >= 0 && next@ == self@.fs,
                Err(failure) => {
                    &&& code < 0
                    &&& failure.error.is_native_failure()
                    &&& owed_release(self@.fs, code) == Some(failure.release)
                },
            },
    {
        if code < 0 {
            let error = GlusterError::new(get_error());
            return Err(ConnectFailure { error, release: FiniCall { fs: self.fs } });
        }
        Ok(InitCall { fs: self.fs })
    }
}

impl InitCall {
    /// Address of the context to initialise.
    pub fn context(&self) -> (fs: usize)
        ensures
            fs == self@,
    {
        self.fs
    }

    /// Takes the status code that the native call answered with. A negative
    /// code fails connecting with the rendered last-error indicator, and
    /// the context is to be released; any other gives the connection, which
    /// owns the context.
    pub fn complete(self, code: i32) -> (r: Result<Gluster, ConnectFailure>)
        ensures
            match r {
                Ok(connection) => code >= 0 && connection@ == self@,
                Err(failure) => {
                    &&& code < 0
                    &&& failure.error.is_native_failure()
                    &&& owed_release(self@, code) == Some(failure.release)
                },
            },
    {
        if code < 0 {
            let error = GlusterError::new(get_error());
            return Err(ConnectFailure { error, release: FiniCall { fs: self.fs } });
        }
        Ok(Gluster { cluster_handle: self.fs })
    }
}

impl Gluster {
    /// Starts connecting to a volume on a server. The volume's name, the
    /// transport `tcp` and the server's host are marshalled in this order;
    /// the first that holds a terminator byte is refused and no native call
    /// is described. Otherwise the result is the first of three native
    /// calls, each of which leads to the next when it is completed.
    pub fn connect(volume_name: &str, server: &str, port: u16) -> (r: Result<NewCall, GlusterError>)
        ensures
            match r {
                Ok(call) => {
                    &&& accepts(volume_name@)
                    &&& accepts(server@)
                    &&& call@ == (NewCallView {
                        volume: native(volume_name@),
                        transport: marshalled(transport_bytes()),
                        host: native(server@),
                        port,
                    })
                },
                Err(e) => refuses_either(volume_name@, server@, e),
            },
    {
        proof {
            lemma_transport_bytes();
        }
        let volume = marshal_argument(volume_name)?;
        let transport = marshal_argument("tcp")?;
        let host = marshal_argument(server)?;
        Ok(NewCall { volume, transport, host, port })
    }

    /// Address of the native context, zero after release.
    pub fn context(&self) -> (fs: usize)
        ensures
            fs == self@,
    {
        self.cluster_handle
    }

    /// Gives up the native context. The first call on a connection yields
    /// the native call that releases the context and leaves the connection
    /// without one; on a connection without a context nothing is to be done.
    pub fn release(&mut self) -> (r: Option<FiniCall>)
        ensures
            final(self)@ == 0,
            old(self)@ == 0 ==> r is None,
            old(self)@ != 0 ==> r == Some(FiniCall { fs: old(self)@ }),
    {
        if self.cluster_handle == 0 {
            return None;
        }
        let fs: usize = self.cluster_handle;
        self.cluster_handle = 0;
        Some(FiniCall { fs })
    }

    /// Ends the connection. Yields the native call that releases the
    /// context, or nothing where the context is already released.
    pub fn disconnect(self) -> (r: Option<FiniCall>)
        ensures
            self@ == 0 ==> r is None,
            self@ != 0 ==> r == Some(FiniCall { fs: self@ }),
    {
        if self.cluster_handle == 0 {
            return None;
        }
        Some(FiniCall { fs: self.cluster_handle })
    }
}

} // verus!
