//! The hosting side's state: which folders are shared, under which password
//! and on which port, and whether the service is running. Folders, password
//! and port can be changed only while the service is offline, and a service is
//! started with copies of them, so a running service never sees a change.

use crate::service::{roots_view, FileService};
use crate::tree::{clone_forest, forest_view, FolderItem, PathItem, TreeNode};
use vstd::prelude::*;

verus! {

/// The highest port there is.
pub const MAX_PORT: i64 = 65535;

/// Why a server could not be started.
#[derive(Clone, Copy, Debug, PartialEq, Eq, Structural)]
pub enum SpawnError {
    /// The port is not between 0 and 65535.
    PortOutOfRange,
    /// The service is running already.
    AlreadyRunning,
}

/// What a server is started with: the port to listen on, on all interfaces,
/// and the service to expose there.
pub struct Listener {
    pub port: u16,
    pub service: FileService,
}

/// Whether `port` is a port.
pub open spec fn valid_port(port: i64) -> bool {
    0 <= port <= MAX_PORT
}

/// Prepares a server: checks the port and binds password, tree and roots
/// into the service that the server exposes.
pub fn server_spawner(
    password: String,
    port: i64,
    file_list: Vec<PathItem>,
    roots: Vec<Vec<String>>,
) -> (prepared: Result<Listener, SpawnError>)
    ensures
        valid_port(port) <==> prepared is Ok,
        prepared matches Ok(listener) ==> listener.port == port && listener.service.password()
            == password@ && listener.service.snapshot() == forest_view(file_list@)
            && listener.service.roots() == roots_view(roots@),
        prepared matches Err(error) ==> error == SpawnError::PortOutOfRange,
{
    if 0 <= port && port <= MAX_PORT {
        Ok(Listener { port: port as u16, service: FileService::new(password, file_list, roots) })
    } else {
        Err(SpawnError::PortOutOfRange)
    }
}

/// Copies a location.
fn clone_location(location: &Vec<String>) -> (copy: Vec<String>)
    ensures
        copy@ == location@,
{
    let mut copy: Vec<String> = Vec::new();
    let mut i: usize = 0;
    while i < location.len()
        invariant
            i <= location.len(),
            copy@ == location@.subrange(0, i as int),
        decreases location.len() - i,
    {
        copy.push(location[i].clone());
        assert(copy@ =~= location@.subrange(0, i as int + 1));
        i += 1;
    }
    assert(copy@ =~= location@);
    copy
}

/// Copies a list of roots.
fn clone_roots(roots: &Vec<Vec<String>>) -> (copy: Vec<Vec<String>>)
    ensures
        roots_view(copy@) == roots_view(roots@),
{
    let mut copy: Vec<Vec<String>> = Vec::new();
    let mut i: usize = 0;
    while i < roots.len()
        invariant
            i <= roots.len(),
            copy.len() == i,
            forall|k: int| 0 <= k < i ==> (#[trigger] copy@[k])@ == roots@[k]@,
        decreases roots.len() - i,
    {
        copy.push(clone_location(&roots[i]));
        i += 1;
    }
    assert(roots_view(copy@) =~= roots_view(roots@));
    copy
}

/// The hosting side's state.
pub struct Server {
    shared_folders: Vec<PathItem>,
    roots: Vec<Vec<String>>,
    server_password: String,
    server_port: i64,
    running: bool,
}

impl Server {
    /// The shared trees.
    pub closed spec fn folders(&self) -> Seq<TreeNode> {
        forest_view(self.shared_folders@)
    }

    /// The locations of the shared folders, one for each tree.
    pub closed spec fn roots(&self) -> Seq<Seq<Seq<char>>> {
        roots_view(self.roots@)
    }

    /// The password that a service is started with.
    pub closed spec fn password(&self) -> Seq<char> {
        self.server_password@
    }

    /// The port that a service is started on.
    pub closed spec fn port(&self) -> i64 {
        self.server_port
    }

    /// Whether the service is running.
    pub closed spec fn running(&self) -> bool {
        self.running
    }

    /// Every shared folder has its location.
    pub closed spec fn wf(&self) -> bool {
        self.shared_folders.len() == self.roots.len()
    }

    /// A server that shares nothing, offline, with an empty password and
    /// port 0.
    pub fn new() -> (server: Self)
        ensures
            server.wf(),
            server.folders().len() == 0,
            server.roots().len() == 0,
            server.password().len() == 0,
            server.port() == 0,
            !server.running(),
    {
        Server {
            shared_folders: Vec::new(),
            roots: Vec::new(),
            server_password: String::new(),
            server_port: 0,
            running: false,
        }
    }

    /// Whether the service is running.
    pub fn is_running(&self) -> (running: bool)
        ensures
            running == self.running(),
    {
        self.running
    }

    /// The shared trees, to show them.
    pub fn shared_folders(&self) -> (folders: &Vec<PathItem>)
        ensures
            forest_view(folders@) == self.folders(),
    {
        &self.shared_folders
    }

    /// The locations of the shared folders, one for each tree and in the
    /// same order.
    pub fn shared_roots(&self) -> (roots: &Vec<Vec<String>>)
        ensures
            roots_view(roots@) == self.roots(),
    {
        &self.roots
    }

    /// The port that a service is started on.
    pub fn server_port(&self) -> (port: i64)
        ensures
            port == self.port(),
    {
        self.server_port
    }

    /// The password that a service is started with.
    pub fn server_password(&self) -> (password: &String)
        ensures
            password@ == self.password(),
    {
        &self.server_password
    }

    /// Shares one more folder, found at `root`. Refused while the service is
    /// running: then nothing changes.
    pub fn add_folder(&mut self, folder: FolderItem, root: Vec<String>) -> (added: bool)
        requires
            old(self).wf(),
        ensures
            final(self).wf(),
            added == !old(self).running(),
            final(self).running() == old(self).running(),
            final(self).password() == old(self).password(),
            final(self).port() == old(self).port(),
            added ==> final(self).folders() == old(self).folders().push(folder@)
                && final(self).roots() == old(self).roots().push(
                crate::service::location_view(root@),
            ),
            !added ==> final(self).folders() == old(self).folders() && final(self).roots() == old(
                self,
            ).roots(),
    {
        if self.running {
            return false;
        }
        let ghost before = self.shared_folders@;
        let ghost roots_before = self.roots@;
        let ghost tree = folder@;
        self.shared_folders.push(PathItem::Folder(folder));
        self.roots.push(root);
        assert(forest_view(self.shared_folders@) =~= forest_view(before).push(tree));
        assert(roots_view(self.roots@) =~= roots_view(roots_before).push(
            crate::service::location_view(root@),
        ));
        true
    }

    /// Stops sharing the folder at `index`. Refused while the service is
    /// running, and where there is no such folder: then nothing changes.
    pub fn remove_folder(&mut self, index: usize) -> (removed: bool)
        requires
            old(self).wf(),
        ensures
            final(self).wf(),
            removed == (!old(self).running() && index < old(self).folders().len()),
            final(self).running() == old(self).running(),
            final(self).password() == old(self).password(),
            final(self).port() == old(self).port(),
            removed ==> final(self).folders() == old(self).folders().remove(index as int)
                && final(self).roots() == old(self).roots().remove(index as int),
            !removed ==> final(self).folders() == old(self).folders() && final(self).roots() == old(
                self,
            ).roots(),
    {
        if self.running || index >= self.shared_folders.len() {
            return false;
        }
        let ghost before = self.shared_folders@;
        let ghost roots_before = self.roots@;
        self.shared_folders.remove(index);
        self.roots.remove(index);
        assert(forest_view(self.shared_folders@) =~= forest_view(before).remove(index as int));
        assert(roots_view(self.roots@) =~= roots_view(roots_before).remove(index as int));
        true
    }

    /// Sets the password of the next service. Refused while the service is
    /// running.
    pub fn set_password(&mut self, password: String) -> (set: bool)
        ensures
            final(self).wf() == old(self).wf(),
            set == !old(self).running(),
            final(self).running() == old(self).running(),
            final(self).folders() == old(self).folders(),
            final(self).roots() == old(self).roots(),
            final(self).port() == old(self).port(),
            final(self).password() == if set {
                password@
            } else {
                old(self).password()
            },
    {
        if self.running {
            return false;
        }
        self.server_password = password;
        true
    }

    /// Sets the port of the next service, brought into the range of ports.
    /// Refused while the service is running.
    pub fn set_port(&mut self, port: i64) -> (set: bool)
        ensures
            final(self).wf() == old(self).wf(),
            set == !old(self).running(),
            final(self).running() == old(self).running(),
            final(self).folders() == old(self).folders(),
            final(self).roots() == old(self).roots(),
            final(self).password() == old(self).password(),
            final(self).port() == if !set {
                old(self).port()
            } else if port < 0 {
                0
            } else if port > MAX_PORT {
                MAX_PORT
            } else {
                port
            },
    {
        if self.running {
            return false;
        }
        self.server_port = if port < 0 {
            0
        } else if port > MAX_PORT {
            MAX_PORT
        } else {
            port
        };
        true
    }

    /// Starts the service: what it is to be started with is made of copies of
    /// password, trees and roots as they are now. Refused while the service
    /// is running, and for a port out of range: then nothing changes.
    pub fn start(&mut self) -> (started: Result<Listener, SpawnError>)
        ensures
            final(self).wf() == old(self).wf(),
            final(self).folders() == old(self).folders(),
            final(self).roots() == old(self).roots(),
            final(self).password() == old(self).password(),
            final(self).port() == old(self).port(),
            match started {
                Ok(listener) => !old(self).running() && valid_port(old(self).port())
                    && final(self).running() && listener.port == old(self).port()
                    && listener.service.password() == old(self).password()
                    && listener.service.snapshot() == old(self).folders()
                    && listener.service.roots() == old(self).roots(),
                Err(error) => final(self).running() == old(self).running() && error == (if old(
                    self,
                ).running() {
                    SpawnError::AlreadyRunning
                } else {
                    SpawnError::PortOutOfRange
                }) && (old(self).running() || !valid_port(old(self).port())),
            },
    {
        if self.running {
            return Err(SpawnError::AlreadyRunning);
        }
        let prepared = server_spawner(
            self.server_password.clone(),
            self.server_port,
            clone_forest(&self.shared_folders),
            clone_roots(&self.roots),
        );
        if prepared.is_ok() {
            self.running = true;
        }
        prepared
    }

    /// Stops the service. Says whether there was one to stop, that is,
    /// whether the shutdown signal is to be sent.
    pub fn stop(&mut self) -> (signal: bool)
        ensures
            final(self).wf() == old(self).wf(),
            signal == old(self).running(),
            !final(self).running(),
            final(self).folders() == old(self).folders(),
            final(self).roots() == old(self).roots(),
            final(self).password() == old(self).password(),
            final(self).port() == old(self).port(),
    {
        let signal = self.running;
        self.running = false;
        signal
    }
}

} // verus!
