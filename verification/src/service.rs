//! The session service: one password, one snapshot of the shared tree, and
//! for every call the same cycle of authenticating, reading the request and
//! answering it. The service keeps nothing between calls.
//!
//! Reading a file is not done here. A request for a file is answered in
//! steps: the service says which path is to be resolved, then decides from the
//! resolved location whether the file lies under a shared root, and at last
//! turns the outcome of the read into the answer.

use crate::format::{decode_request, encode_status};
use crate::protocol::{
    ClientRequest, FileView, ReplyStatus, ReplyView, RequestView, ServerFile, ServerList,
    ServerReply, StatusView,
};
use crate::tree::{clone_forest, forest_view, PathItem, TreeNode};
use vstd::prelude::*;

verus! {

/// What comes in with one call: a serialized request and the password.
#[derive(Debug)]
pub struct HostRequest {
    pub serialized_request: String,
    pub password: String,
}

/// What goes back for one call: a serialized status.
#[derive(Debug)]
pub struct HostReply {
    pub serialized_reply: String,
}

/// The message given for a file that cannot be located, whether it does not
/// exist or lies outside every shared root: the two are not told apart.
pub open spec fn unavailable() -> Seq<char> {
    "No such file or directory"@
}

/// Whether two strings hold the same characters. Strings of one length are
/// compared over their whole length, wherever they first differ.
pub fn same_text(left: &str, right: &str) -> (same: bool)
    ensures
        same == (left@ == right@),
{
    let a = left.as_bytes();
    let b = right.as_bytes();
    proof {
        vstd::utf8::encode_utf8_decode_utf8(left@);
        vstd::utf8::encode_utf8_decode_utf8(right@);
    }
    if a.len() != b.len() {
        return false;
    }
    let mut difference: u8 = 0;
    let mut i: usize = 0;
    while i < a.len()
        invariant
            i <= a.len(),
            a.len() == b.len(),
            difference == 0 <==> a@.subrange(0, i as int) =~= b@.subrange(0, i as int),
        decreases a.len() - i,
    {
        let x = a[i];
        let y = b[i];
        let ghost before = difference;
        difference = difference | (x ^ y);
        proof {
            assert((before | (x ^ y)) == 0 <==> (before == 0 && x == y)) by (bit_vector);
            let next = i as int + 1;
            if a@.subrange(0, next) == b@.subrange(0, next) {
                assert(a@.subrange(0, i as int) =~= a@.subrange(0, next).subrange(0, i as int));
                assert(b@.subrange(0, i as int) =~= b@.subrange(0, next).subrange(0, i as int));
                assert(a@.subrange(0, next)[i as int] == b@.subrange(0, next)[i as int]);
            }
            if before == 0 && x == y {
                assert(a@.subrange(0, next) =~= a@.subrange(0, i as int).push(x));
                assert(b@.subrange(0, next) =~= b@.subrange(0, i as int).push(y));
            }
        }
        i += 1;
    }
    proof {
        assert(a@.subrange(0, a.len() as int) =~= a@);
        assert(b@.subrange(0, b.len() as int) =~= b@);
    }
    difference == 0
}

/// The next thing to do for a call.
#[derive(Debug)]
pub enum Provision {
    /// The call is answered: send this back.
    Reply(HostReply),
    /// The request asks for the file at `path`: find out where the path
    /// leads, and hand the answer to `locate`.
    Resolve { path: String },
    /// The file lies under a shared root: read it, and hand the outcome to
    /// `deliver`.
    Read { path: String },
}

/// The mathematical value of a `Provision`.
pub enum ProvisionView {
    Reply(Seq<char>),
    Resolve(Seq<char>),
    Read(Seq<char>),
}

impl View for Provision {
    type V = ProvisionView;

    open spec fn view(&self) -> ProvisionView {
        match self {
            Provision::Reply(reply) => ProvisionView::Reply(reply.serialized_reply@),
            Provision::Resolve { path } => ProvisionView::Resolve(path@),
            Provision::Read { path } => ProvisionView::Read(path@),
        }
    }
}

/// A location, as the names passed on the way from the top of the file
/// system down to it.
pub open spec fn location_view(location: Seq<String>) -> Seq<Seq<char>> {
    location.map_values(|name: String| name@)
}

/// The locations of a list of roots.
pub open spec fn roots_view(roots: Seq<Vec<String>>) -> Seq<Seq<Seq<char>>> {
    roots.map_values(|root: Vec<String>| location_view(root@))
}

/// Whether `location` lies under one of `roots`: one of them leads to it.
pub open spec fn under_a_root(roots: Seq<Seq<Seq<char>>>, location: Seq<Seq<char>>) -> bool {
    exists|i: int| 0 <= i < roots.len() && (#[trigger] roots[i]).is_prefix_of(location)
}

/// The answer that a file cannot be had, with the reason.
pub open spec fn failed_file(path: Seq<char>, message: Seq<char>) -> StatusView {
    StatusView::Answer(ReplyView::File(FileView { path, bytes: None, error: Some(message) }))
}

/// The answer that carries a file's contents.
pub open spec fn served_file(path: Seq<char>, bytes: Seq<u8>) -> StatusView {
    StatusView::Answer(ReplyView::File(FileView { path, bytes: Some(bytes), error: None }))
}

/// The text of the answer that a file cannot be had, with the reason.
pub open spec fn file_failure(path: Seq<char>, message: Seq<char>) -> Seq<char> {
    encode_status(failed_file(path, message))
}

/// The text of the answer that carries a file's contents.
pub open spec fn file_success(path: Seq<char>, bytes: Seq<u8>) -> Seq<char> {
    encode_status(served_file(path, bytes))
}

/// What the service does with a call, given its password and its snapshot:
/// a wrong password is refused whatever the payload; then an unreadable
/// payload is refused; then the tree is answered from the snapshot, and a
/// file request goes on to be resolved.
pub open spec fn provide(
    password: Seq<char>,
    snapshot: Seq<TreeNode>,
    given_password: Seq<char>,
    payload: Seq<char>,
) -> ProvisionView {
    if given_password != password {
        ProvisionView::Reply(encode_status(StatusView::AuthFailed))
    } else {
        match decode_request(payload) {
            Err(_) => ProvisionView::Reply(encode_status(StatusView::BadRequest)),
            Ok(RequestView::ListRequest) => ProvisionView::Reply(
                encode_status(StatusView::Answer(ReplyView::List(snapshot))),
            ),
            Ok(RequestView::FileRequest(path)) => ProvisionView::Resolve(path),
        }
    }
}

/// The service behind one running server: the password it asks for, the tree
/// it shows, and the roots under which it hands out files. All three are fixed
/// when the service is made.
pub struct FileService {
    password: String,
    file_list: Vec<PathItem>,
    roots: Vec<Vec<String>>,
}

impl FileService {
    /// The password that the service asks for.
    pub closed spec fn password(&self) -> Seq<char> {
        self.password@
    }

    /// The tree that the service shows.
    pub closed spec fn snapshot(&self) -> Seq<TreeNode> {
        forest_view(self.file_list@)
    }

    /// The roots under which the service hands out files.
    pub closed spec fn roots(&self) -> Seq<Seq<Seq<char>>> {
        roots_view(self.roots@)
    }

    /// A service with the given password, tree and roots.
    pub fn new(password: String, file_list: Vec<PathItem>, roots: Vec<Vec<String>>) -> (service:
        Self)
        ensures
            service.password() == password@,
            service.snapshot() == forest_view(file_list@),
            service.roots() == roots_view(roots@),
    {
        FileService { password, file_list, roots }
    }

    /// The first step of a call. The password is compared before the payload
    /// is looked at, so a call with a wrong password is refused whatever it
    /// carries, and a tree is always answered from the service's own snapshot.
    pub fn server_provide(&self, request: &HostRequest) -> (step: Provision)
        ensures
            step@ == provide(
                self.password(),
                self.snapshot(),
                request.password@,
                request.serialized_request@,
            ),
            request.password@ != self.password() ==> step@ == ProvisionView::Reply(
                encode_status(StatusView::AuthFailed),
            ),
            !(step is Read),
    {
        if !same_text(request.password.as_str(), self.password.as_str()) {
            return Provision::Reply(reply_of(&ReplyStatus::AuthFailed));
        }
        match ClientRequest::deserialize(request.serialized_request.as_str()) {
            Err(_) => Provision::Reply(reply_of(&ReplyStatus::BadRequest)),
            Ok(ClientRequest::ListRequest) => {
                let list = ServerList::new(clone_forest(&self.file_list));
                Provision::Reply(reply_of(&ReplyStatus::Answer(ServerReply::List(list))))
            },
            Ok(ClientRequest::FileRequest(path)) => Provision::Resolve { path },
        }
    }

    /// The second step of a request for a file. `location` is where the
    /// requested path leads, or `None` where it leads nowhere. The file is read
    /// only if that place lies under a shared root. A path that leads nowhere
    /// and one that leads outside every root get the same answer.
    pub fn locate(&self, path: String, location: Option<Vec<String>>) -> (step: Provision)
        ensures
            step@ == (match location {
                Some(place) => if under_a_root(self.roots(), location_view(place@)) {
                    ProvisionView::Read(path@)
                } else {
                    ProvisionView::Reply(file_failure(path@, unavailable()))
                },
                None => ProvisionView::Reply(file_failure(path@, unavailable())),
            }),
    {
        let admitted = match &location {
            Some(place) => within_roots(&self.roots, place),
            None => false,
        };
        if admitted {
            Provision::Read { path }
        } else {
            FileService::deliver(path, Err("No such file or directory".to_owned()))
        }
    }

    /// The last step of a request for a file: the answer for the outcome of
    /// reading it, the bytes read or the message of the failure.
    pub fn deliver(path: String, contents: Result<Vec<u8>, String>) -> (step: Provision)
        ensures
            step@ == (match contents {
                Ok(bytes) => ProvisionView::Reply(file_success(path@, bytes@)),
                Err(message) => ProvisionView::Reply(file_failure(path@, message@)),
            }),
    {
        let file = ServerFile::new(path, contents);
        Provision::Reply(reply_of(&ReplyStatus::Answer(ServerReply::File(file))))
    }
}

/// The envelope that carries `status` back.
fn reply_of(status: &ReplyStatus) -> (reply: HostReply)
    ensures
        reply.serialized_reply@ == encode_status(status@),
{
    HostReply { serialized_reply: status.serialize() }
}

/// Whether `root` leads to `place`.
fn leads_to(root: &Vec<String>, place: &Vec<String>) -> (leads: bool)
    ensures
        leads == location_view(root@).is_prefix_of(location_view(place@)),
{
    if root.len() > place.len() {
        return false;
    }
    let ghost r = location_view(root@);
    let ghost p = location_view(place@);
    let mut i: usize = 0;
    while i < root.len()
        invariant
            i <= root.len() <= place.len(),
            r == location_view(root@),
            p == location_view(place@),
            forall|k: int| 0 <= k < i ==> r[k] == p[k],
        decreases root.len() - i,
    {
        if !same_text(root[i].as_str(), place[i].as_str()) {
            assert(r[i as int] != p.subrange(0, r.len() as int)[i as int]);
            return false;
        }
        i += 1;
    }
    assert(r =~= p.subrange(0, r.len() as int));
    true
}

/// Whether `place` lies under one of `roots`.
fn within_roots(roots: &Vec<Vec<String>>, place: &Vec<String>) -> (within: bool)
    ensures
        within == under_a_root(roots_view(roots@), location_view(place@)),
{
    let ghost all = roots_view(roots@);
    let mut i: usize = 0;
    while i < roots.len()
        invariant
            i <= roots.len(),
            all == roots_view(roots@),
            forall|k: int| 0 <= k < i ==> !(#[trigger] all[k]).is_prefix_of(location_view(place@)),
        decreases roots.len() - i,
    {
        if leads_to(&roots[i], place) {
            assert(all[i as int].is_prefix_of(location_view(place@)));
            return true;
        }
        i += 1;
    }
    false
}

} // verus!
