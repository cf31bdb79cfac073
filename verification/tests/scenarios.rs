// Whole operations against a cluster that lives in memory. The cluster
// stands in for the native layer: it takes the description of a call, does
// what the call asks, and answers as the native layer would, with the
// last-error indicator set on failure.

use errno::{set_errno, Errno};
use gluster::{
    AttributeCall, ClosedirCall, ConnectFailure, DirEntry, FileHandle, FiniCall, Gluster,
    GlusterDirectory, GlusterError, HandleCall, InitCall, Lookahead, NewCall, ReadCall,
    ReaddirCall, SetVolfileServerCall, StatusCall, TelldirCall, WriteCall,
};
use std::collections::BTreeMap;

struct Node {
    data: Vec<u8>,
    attributes: BTreeMap<Vec<u8>, Vec<u8>>,
    children: Option<Vec<(Vec<u8>, u64, u8)>>,
}

struct Descriptor {
    path: Vec<u8>,
    position: usize,
}

struct Cluster {
    reachable: bool,
    chunk: usize,
    nodes: BTreeMap<Vec<u8>, Node>,
    open: BTreeMap<usize, Descriptor>,
    next_address: usize,
    calls: usize,
    closed_directories: Vec<usize>,
    positions_asked: usize,
    accepts_server: bool,
    contexts: Vec<usize>,
    released: Vec<usize>,
}

fn fail(code: i32) -> i32 {
    set_errno(Errno(code));
    -1
}

impl Cluster {
    fn new() -> Cluster {
        Cluster {
            reachable: true,
            chunk: usize::MAX,
            nodes: BTreeMap::new(),
            open: BTreeMap::new(),
            next_address: 0x1000,
            calls: 0,
            closed_directories: Vec::new(),
            positions_asked: 0,
            accepts_server: true,
            contexts: Vec::new(),
            released: Vec::new(),
        }
    }

    fn address(&mut self) -> usize {
        self.next_address += 0x10;
        self.next_address
    }

    fn new_context(&mut self, call: &NewCall) -> usize {
        self.calls += 1;
        assert_eq!(call.volume().as_bytes_with_nul().last(), Some(&0u8));
        let context = self.address();
        self.contexts.push(context);
        context
    }

    fn set_volfile_server(&mut self, call: &SetVolfileServerCall) -> i32 {
        self.calls += 1;
        assert_eq!(call.transport().as_bytes(), b"tcp");
        if self.accepts_server {
            0
        } else {
            fail(libc::EINVAL)
        }
    }

    fn fini(&mut self, call: &FiniCall) {
        self.calls += 1;
        let live = self.contexts.iter().position(|context| *context == call.fs).unwrap();
        self.contexts.remove(live);
        self.released.push(call.fs);
    }

    fn init(&mut self, _call: &InitCall) -> i32 {
        self.calls += 1;
        if self.reachable {
            0
        } else {
            fail(libc::ENOTCONN)
        }
    }

    fn descriptor(&mut self, path: &[u8]) -> usize {
        let address = self.address();
        self.open.insert(address, Descriptor { path: path.to_vec(), position: 0 });
        address
    }

    fn handle(&mut self, call: &HandleCall) -> usize {
        self.calls += 1;
        match call {
            HandleCall::Creat { path, .. } => {
                let node = Node { data: Vec::new(), attributes: BTreeMap::new(), children: None };
                self.nodes.insert(path.as_bytes().to_vec(), node);
                self.descriptor(path.as_bytes())
            }
            HandleCall::Open { path, .. } | HandleCall::Opendir { path, .. } => {
                if self.nodes.contains_key(path.as_bytes()) {
                    self.descriptor(path.as_bytes())
                } else {
                    set_errno(Errno(libc::ENOENT));
                    0
                }
            }
            HandleCall::Dup { fd } => match self.open.get(&fd.raw) {
                Some(descriptor) => {
                    let path = descriptor.path.clone();
                    self.descriptor(&path)
                }
                None => {
                    set_errno(Errno(libc::EBADF));
                    0
                }
            },
        }
    }

    fn status(&mut self, call: &StatusCall) -> i32 {
        self.calls += 1;
        match call {
            StatusCall::Close { fd } => match self.open.remove(&fd.raw) {
                Some(_) => 0,
                None => fail(libc::EBADF),
            },
            StatusCall::Setxattr { path, name, value, .. } => match self.nodes.get_mut(path.as_bytes()) {
                Some(node) => {
                    node.attributes.insert(name.as_bytes().to_vec(), value.to_vec());
                    0
                }
                None => fail(libc::ENOENT),
            },
            StatusCall::Removexattr { path, name, .. } => match self.nodes.get_mut(path.as_bytes()) {
                Some(node) => match node.attributes.remove(name.as_bytes()) {
                    Some(_) => 0,
                    None => fail(libc::ENODATA),
                },
                None => fail(libc::ENOENT),
            },
            StatusCall::Unlink { path, .. } => match self.nodes.remove(path.as_bytes()) {
                Some(_) => 0,
                None => fail(libc::ENOENT),
            },
            _ => fail(libc::ENOSYS),
        }
    }

    fn write(&mut self, call: &WriteCall) -> isize {
        self.calls += 1;
        match call {
            WriteCall::Write { fd, buffer, .. } => {
                let accepted = buffer.len().min(self.chunk);
                let Some(descriptor) = self.open.get_mut(&fd.raw) else {
                    return fail(libc::EBADF) as isize;
                };
                let node = self.nodes.get_mut(&descriptor.path).unwrap();
                node.data.truncate(descriptor.position);
                node.data.extend_from_slice(&buffer[..accepted]);
                descriptor.position += accepted;
                accepted as isize
            }
            _ => fail(libc::ENOSYS) as isize,
        }
    }

    fn read(&mut self, call: &ReadCall) -> (isize, Vec<u8>) {
        self.calls += 1;
        // The buffer that the native call writes into: `count` bytes, of
        // which only the first are written.
        let mut buffer = vec![0xeeu8; call.count];
        let Some(descriptor) = self.open.get_mut(&call.fd.raw) else {
            return (fail(libc::EBADF) as isize, buffer);
        };
        let node = &self.nodes[&descriptor.path];
        let rest = &node.data[descriptor.position.min(node.data.len())..];
        let moved = rest.len().min(call.count).min(self.chunk);
        buffer[..moved].copy_from_slice(&rest[..moved]);
        descriptor.position += moved;
        (moved as isize, buffer)
    }

    fn attribute(&mut self, call: &AttributeCall) -> (isize, Vec<u8>) {
        self.calls += 1;
        match call {
            AttributeCall::Getxattr { path, name, size, .. } => {
                let mut buffer = vec![0xeeu8; *size];
                let Some(node) = self.nodes.get(path.as_bytes()) else {
                    return (fail(libc::ENOENT) as isize, buffer);
                };
                let Some(value) = node.attributes.get(name.as_bytes()) else {
                    return (fail(libc::ENODATA) as isize, buffer);
                };
                if value.len() > *size {
                    return (fail(libc::ERANGE) as isize, buffer);
                }
                buffer[..value.len()].copy_from_slice(value);
                (value.len() as isize, buffer)
            }
            _ => (fail(libc::ENOSYS) as isize, Vec::new()),
        }
    }

    fn readdir(&mut self, call: &ReaddirCall) -> Lookahead {
        self.calls += 1;
        let mut answer = Lookahead { code: 0, next_entry: 0, name: vec![0u8; 256], inode: 0, file_type: 0 };
        let Some(descriptor) = self.open.get_mut(&call.fd.raw) else {
            answer.code = fail(libc::EBADF);
            return answer;
        };
        let children = self.nodes[&descriptor.path].children.as_ref().unwrap();
        if let Some((name, inode, file_type)) = children.get(descriptor.position) {
            descriptor.position += 1;
            answer.next_entry = call.fd.raw + 1;
            answer.name[..name.len()].copy_from_slice(name);
            answer.inode = *inode;
            answer.file_type = *file_type;
        }
        answer
    }

    fn telldir(&mut self, call: &TelldirCall) {
        self.calls += 1;
        assert!(self.open.contains_key(&call.fd.raw));
        self.positions_asked += 1;
    }

    fn closedir(&mut self, call: &ClosedirCall) {
        self.calls += 1;
        self.open.remove(&call.fd.raw);
        self.closed_directories.push(call.fd.raw);
    }
}

fn connect(cluster: &mut Cluster, volume: &str, server: &str, port: u16) -> Result<Gluster, GlusterError> {
    let new = Gluster::connect(volume, server, port)?;
    let context = cluster.new_context(&new);
    let server = new.complete(context)?;
    let code = cluster.set_volfile_server(&server);
    let init = match server.complete(code) {
        Ok(init) => init,
        Err(failure) => return Err(give_up(cluster, failure)),
    };
    let code = cluster.init(&init);
    match init.complete(code) {
        Ok(connection) => Ok(connection),
        Err(failure) => Err(give_up(cluster, failure)),
    }
}

fn give_up(cluster: &mut Cluster, failure: ConnectFailure) -> GlusterError {
    cluster.fini(&failure.release);
    failure.error
}

fn create(g: &Gluster, cluster: &mut Cluster, path: &str) -> Result<FileHandle, GlusterError> {
    let call = g.create(path, libc::O_CREAT | libc::O_RDWR, 0o644)?;
    let address = cluster.handle(&call);
    call.complete(address)
}

fn open(g: &Gluster, cluster: &mut Cluster, path: &str) -> Result<FileHandle, GlusterError> {
    let call = g.open(path, libc::O_RDONLY)?;
    let address = cluster.handle(&call);
    call.complete(address)
}

fn close(g: &Gluster, cluster: &mut Cluster, file: FileHandle) -> Result<(), GlusterError> {
    let call = g.close(file);
    let code = cluster.status(&call);
    call.complete(code)
}

fn write(g: &Gluster, cluster: &mut Cluster, file: FileHandle, data: &[u8]) -> Result<isize, GlusterError> {
    let call = g.write(file, data, 0);
    let code = cluster.write(&call);
    call.complete(code)
}

fn read(
    g: &Gluster,
    cluster: &mut Cluster,
    file: FileHandle,
    fill: &mut Vec<u8>,
    count: usize,
) -> Result<isize, GlusterError> {
    let call = g.read(file, count, 0);
    let (code, data) = cluster.read(&call);
    call.complete(code, data, fill)
}

fn setxattr(g: &Gluster, cluster: &mut Cluster, path: &str, name: &str, value: &[u8]) -> Result<(), GlusterError> {
    let call = g.setxattr(path, name, value, 0)?;
    let code = cluster.status(&call);
    call.complete(code)
}

fn getxattr(g: &Gluster, cluster: &mut Cluster, path: &str, name: &str) -> Result<String, GlusterError> {
    let call = g.getxattr(path, name)?;
    let (code, buffer) = cluster.attribute(&call);
    call.complete(code, buffer)
}

fn removexattr(g: &Gluster, cluster: &mut Cluster, path: &str, name: &str) -> Result<(), GlusterError> {
    let call = g.removexattr(path, name)?;
    let code = cluster.status(&call);
    call.complete(code)
}

fn step(directory: &mut GlusterDirectory, cluster: &mut Cluster) -> Option<DirEntry> {
    let call = directory.lookahead()?;
    let answer = cluster.readdir(&call);
    let step = directory.next(answer);
    if let Some(tell) = step.tell {
        cluster.telldir(&tell);
    }
    if let Some(close) = step.close {
        cluster.closedir(&close);
    }
    step.entry
}

fn is_operation_failure(error: &GlusterError, message: &str) -> bool {
    matches!(error, GlusterError::Error(text) if text == message)
}

#[test]
fn what_was_written_is_read_back() {
    let mut cluster = Cluster::new();
    let g = connect(&mut cluster, "gv0", "server", 24007).unwrap();
    let data = b"The quick brown fox\0jumps over\xff the lazy dog".to_vec();

    let file = create(&g, &mut cluster, "/fox.txt").unwrap();
    assert_eq!(write(&g, &mut cluster, file, &data).unwrap(), data.len() as isize);
    close(&g, &mut cluster, file).unwrap();

    let file = open(&g, &mut cluster, "/fox.txt").unwrap();
    let mut fill = Vec::new();
    assert_eq!(read(&g, &mut cluster, file, &mut fill, data.len()).unwrap(), data.len() as isize);
    assert_eq!(fill, data);
    close(&g, &mut cluster, file).unwrap();
}

#[test]
fn what_was_written_in_pieces_is_read_back_in_pieces() {
    let mut cluster = Cluster::new();
    cluster.chunk = 7;
    let g = connect(&mut cluster, "gv0", "server", 24007).unwrap();
    let data: Vec<u8> = (0..100u8).collect();

    // A short write is data, not an error: the caller goes on from there.
    let file = create(&g, &mut cluster, "/pieces").unwrap();
    let mut written = 0;
    while written < data.len() {
        let accepted = write(&g, &mut cluster, file, &data[written..]).unwrap();
        assert!(accepted > 0 && accepted <= 7);
        written += accepted as usize;
    }
    close(&g, &mut cluster, file).unwrap();

    let file = open(&g, &mut cluster, "/pieces").unwrap();
    let mut all = Vec::new();
    loop {
        let mut fill = vec![0x55u8; 3];
        let n = read(&g, &mut cluster, file, &mut fill, 32).unwrap();
        // The buffer holds what was read and nothing after it.
        assert_eq!(fill.len(), n as usize);
        assert!(n <= 7);
        if n == 0 {
            break;
        }
        all.extend_from_slice(&fill);
    }
    assert_eq!(all, data);
}

#[test]
fn a_read_at_the_end_of_the_file_is_empty() {
    let mut cluster = Cluster::new();
    let g = connect(&mut cluster, "gv0", "server", 24007).unwrap();
    let file = create(&g, &mut cluster, "/empty").unwrap();
    let mut fill = b"stale".to_vec();
    assert_eq!(read(&g, &mut cluster, file, &mut fill, 16).unwrap(), 0);
    assert!(fill.is_empty());
}

#[test]
fn a_read_on_a_closed_handle_fails() {
    let mut cluster = Cluster::new();
    let g = connect(&mut cluster, "gv0", "server", 24007).unwrap();
    let file = create(&g, &mut cluster, "/f").unwrap();
    close(&g, &mut cluster, file).unwrap();
    let mut fill = b"kept".to_vec();
    let error = read(&g, &mut cluster, file, &mut fill, 16).unwrap_err();
    assert!(is_operation_failure(&error, "Bad file descriptor"));
    assert_eq!(fill, b"kept");
    let error = close(&g, &mut cluster, file).unwrap_err();
    assert!(is_operation_failure(&error, "Bad file descriptor"));
}

#[test]
fn open_of_a_missing_file_hands_the_zero_address_on() {
    let mut cluster = Cluster::new();
    let g = connect(&mut cluster, "gv0", "server", 24007).unwrap();
    assert_eq!(open(&g, &mut cluster, "/missing").unwrap(), FileHandle { raw: 0 });
}

#[test]
fn an_attribute_that_was_set_is_read_back() {
    let mut cluster = Cluster::new();
    let g = connect(&mut cluster, "gv0", "server", 24007).unwrap();
    let file = create(&g, &mut cluster, "/f").unwrap();
    close(&g, &mut cluster, file).unwrap();

    setxattr(&g, &mut cluster, "/f", "user.test", b"value").unwrap();
    assert_eq!(getxattr(&g, &mut cluster, "/f", "user.test").unwrap(), "value");

    removexattr(&g, &mut cluster, "/f", "user.test").unwrap();
    let error = getxattr(&g, &mut cluster, "/f", "user.test").unwrap_err();
    assert!(is_operation_failure(&error, "No data available"));
}

#[test]
fn an_attribute_of_1024_bytes_is_read_whole() {
    let mut cluster = Cluster::new();
    let g = connect(&mut cluster, "gv0", "server", 24007).unwrap();
    let file = create(&g, &mut cluster, "/f").unwrap();
    close(&g, &mut cluster, file).unwrap();
    let value = vec![b'v'; 1024];
    setxattr(&g, &mut cluster, "/f", "user.big", &value).unwrap();
    let text = getxattr(&g, &mut cluster, "/f", "user.big").unwrap();
    assert_eq!(text.as_bytes(), &value[..]);
}

#[test]
fn an_attribute_of_more_than_1024_bytes_is_not_cut_short() {
    let mut cluster = Cluster::new();
    let g = connect(&mut cluster, "gv0", "server", 24007).unwrap();
    let file = create(&g, &mut cluster, "/f").unwrap();
    close(&g, &mut cluster, file).unwrap();
    setxattr(&g, &mut cluster, "/f", "user.big", &vec![b'v'; 1025]).unwrap();
    let error = getxattr(&g, &mut cluster, "/f", "user.big").unwrap_err();
    assert!(is_operation_failure(&error, "Numerical result out of range"));
}

#[test]
fn connect_to_a_server_out_of_reach_fails() {
    let mut cluster = Cluster::new();
    cluster.reachable = false;
    let error = connect(&mut cluster, "gv0", "192.0.2.1", 1).unwrap_err();
    assert!(is_operation_failure(&error, "Transport endpoint is not connected"));
    // The context that was made on the way is released, once.
    assert!(cluster.contexts.is_empty());
    assert_eq!(cluster.released.len(), 1);
}

#[test]
fn connect_to_a_server_that_cannot_be_named_fails() {
    let mut cluster = Cluster::new();
    cluster.accepts_server = false;
    let error = connect(&mut cluster, "gv0", "server", 24007).unwrap_err();
    assert!(is_operation_failure(&error, "Invalid argument"));
    assert!(cluster.contexts.is_empty());
    assert_eq!(cluster.released.len(), 1);
    // Initialisation was not tried: a context, its server, its release.
    assert_eq!(cluster.calls, 3);
}

#[test]
fn a_connection_that_is_made_keeps_its_context_until_it_is_released() {
    let mut cluster = Cluster::new();
    let mut g = connect(&mut cluster, "gv0", "server", 24007).unwrap();
    assert_eq!(cluster.contexts, vec![g.context()]);
    assert!(cluster.released.is_empty());
    let release = g.release().unwrap();
    cluster.fini(&release);
    assert!(cluster.contexts.is_empty());
    assert!(g.release().is_none());
}

#[test]
fn an_attribute_value_with_a_terminator_reaches_no_native_call() {
    let mut cluster = Cluster::new();
    let g = connect(&mut cluster, "gv0", "server", 24007).unwrap();
    let file = create(&g, &mut cluster, "/f").unwrap();
    close(&g, &mut cluster, file).unwrap();
    let before = cluster.calls;
    let error = setxattr(&g, &mut cluster, "/f", "user.test", b"va\0lue").unwrap_err();
    assert!(matches!(error, GlusterError::NulError(e) if e.position == 2));
    assert_eq!(cluster.calls, before);
    let error = getxattr(&g, &mut cluster, "/f", "user.test").unwrap_err();
    assert!(is_operation_failure(&error, "No data available"));
}

#[test]
fn a_refused_argument_reaches_no_native_call() {
    let mut cluster = Cluster::new();
    let g = connect(&mut cluster, "gv0", "server", 24007).unwrap();
    let before = cluster.calls;
    assert!(matches!(create(&g, &mut cluster, "/a\0b"), Err(GlusterError::NulError(_))));
    assert!(matches!(open(&g, &mut cluster, "\0"), Err(GlusterError::NulError(_))));
    assert!(matches!(setxattr(&g, &mut cluster, "/f", "user\0", b"v"), Err(GlusterError::NulError(_))));
    assert!(matches!(getxattr(&g, &mut cluster, "/f\0", "user.test"), Err(GlusterError::NulError(_))));
    assert!(matches!(removexattr(&g, &mut cluster, "/f", "\0user"), Err(GlusterError::NulError(_))));
    assert!(matches!(connect(&mut cluster, "gv\00", "server", 1), Err(GlusterError::NulError(_))));
    assert!(matches!(connect(&mut cluster, "gv0", "ser\0ver", 1), Err(GlusterError::NulError(_))));
    assert_eq!(cluster.calls, before);
    assert!(cluster.nodes.is_empty());
}

#[test]
fn a_directory_is_listed_once_and_closed_by_the_listing() {
    let mut cluster = Cluster::new();
    let g = connect(&mut cluster, "gv0", "server", 24007).unwrap();
    let children: Vec<(Vec<u8>, u64, u8)> = vec![
        (b".".to_vec(), 1, libc::DT_DIR),
        (b"..".to_vec(), 1, libc::DT_DIR),
        (b"zeta".to_vec(), 12, libc::DT_REG),
        (b"alpha".to_vec(), 11, libc::DT_LNK),
        (b"sub".to_vec(), 13, libc::DT_DIR),
    ];
    let node = Node { data: Vec::new(), attributes: BTreeMap::new(), children: Some(children.clone()) };
    cluster.nodes.insert(b"/dir".to_vec(), node);

    let call = g.opendir("/dir").unwrap();
    let address = cluster.handle(&call);
    let handle = call.complete(address).unwrap();
    let mut directory = GlusterDirectory::new(handle);

    let mut listed = Vec::new();
    while let Some(entry) = step(&mut directory, &mut cluster) {
        listed.push((entry.path.into_bytes(), entry.inode, entry.file_type));
    }
    // Every entry, in the order of the cursor, which is not sorted.
    assert_eq!(listed, children);
    assert!(directory.is_exhausted());
    assert_eq!(cluster.positions_asked, children.len());

    // The listing closed the descriptor; the caller owes no close.
    assert_eq!(cluster.closed_directories, vec![handle.raw]);
    assert!(cluster.open.is_empty());

    // Going on after the end yields nothing, closes nothing again and
    // reaches no native call.
    let calls = cluster.calls;
    assert!(step(&mut directory, &mut cluster).is_none());
    assert!(step(&mut directory, &mut cluster).is_none());
    assert_eq!(cluster.closed_directories, vec![handle.raw]);
    assert_eq!(cluster.calls, calls);
}

#[test]
fn an_empty_directory_is_listed_as_nothing() {
    let mut cluster = Cluster::new();
    let g = connect(&mut cluster, "gv0", "server", 24007).unwrap();
    let node = Node { data: Vec::new(), attributes: BTreeMap::new(), children: Some(Vec::new()) };
    cluster.nodes.insert(b"/dir".to_vec(), node);
    let call = g.opendir("/dir").unwrap();
    let address = cluster.handle(&call);
    let mut directory = GlusterDirectory::new(call.complete(address).unwrap());
    assert!(step(&mut directory, &mut cluster).is_none());
    assert_eq!(cluster.closed_directories.len(), 1);
}

#[test]
fn a_duplicate_is_closed_on_its_own() {
    let mut cluster = Cluster::new();
    let g = connect(&mut cluster, "gv0", "server", 24007).unwrap();
    let file = create(&g, &mut cluster, "/f").unwrap();
    let call = g.dup(file);
    let address = cluster.handle(&call);
    let copy = call.complete(address).unwrap();
    assert_ne!(copy, file);
    close(&g, &mut cluster, file).unwrap();
    close(&g, &mut cluster, copy).unwrap();
    assert!(cluster.open.is_empty());
}

#[test]
fn unlink_of_a_missing_file_fails() {
    let mut cluster = Cluster::new();
    let g = connect(&mut cluster, "gv0", "server", 24007).unwrap();
    let call = g.unlink("/missing").unwrap();
    let code = cluster.status(&call);
    let error = call.complete(code).unwrap_err();
    assert!(is_operation_failure(&error, "No such file or directory"));
}
