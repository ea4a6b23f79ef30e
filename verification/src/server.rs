//! The connection registry and the lifecycle of restartable background
//! workers: at most one worker of a given purpose runs at a time, and a
//! replacement fully joins its predecessor before it is installed.

use vstd::prelude::*;

use crate::channel::send_message;
use crate::incoming::render_update;
use crate::incoming::spec_render_update;
use crate::shared::UpdateChange;
use crate::text::copy_bytes;

verus! {

/// A connected client: its generated identifier and its peer address.
pub struct ClientInfo {
    pub id: String,
    pub address: String,
}

/// Spec-level value of a client entry.
pub ghost struct ClientInfoView {
    pub id: Seq<char>,
    pub address: Seq<char>,
}

impl View for ClientInfo {
    type V = ClientInfoView;

    open spec fn view(&self) -> ClientInfoView {
        ClientInfoView { id: self.id@, address: self.address@ }
    }
}

/// Relies on uuid's `Uuid::new_v4` and its hyphenated display form: a fresh
/// random identifier always renders as exactly 36 ASCII characters. The
/// value itself is random, so nothing more is promised.
#[verifier::external_body]
fn new_client_id() -> (r: String)
    ensures
        r@.len() == 36,
{
    uuid::Uuid::new_v4().to_string()
}

/// The registry entries left when every entry of one client is removed; the
/// others keep their order.
pub open spec fn spec_remove_id(s: Seq<ClientInfoView>, id: Seq<char>) -> Seq<ClientInfoView>
    decreases s.len(),
{
    if s.len() == 0 {
        Seq::empty()
    } else {
        let rest = spec_remove_id(s.drop_last(), id);
        if s.last().id == id {
            rest
        } else {
            rest.push(s.last())
        }
    }
}

/// The registry of connected clients: each entry pairs the client's info
/// with the sender that feeds its outbound writer task. An entry exists for
/// exactly the lifetime of its connection: the accept path registers it, the
/// cleanup path removes it.
pub struct ClientRegistry {
    clients: Vec<(ClientInfo, tokio::sync::mpsc::UnboundedSender<Vec<u8>>)>,
}

impl View for ClientRegistry {
    type V = Seq<ClientInfoView>;

    closed spec fn view(&self) -> Seq<ClientInfoView> {
        Seq::new(self.clients@.len(), |i: int| self.clients@[i].0@)
    }
}

impl ClientRegistry {
    pub fn new() -> (r: ClientRegistry)
        ensures
            r@.len() == 0,
    {
        let r = ClientRegistry { clients: Vec::new() };
        proof {
            assert(r@ =~= Seq::<ClientInfoView>::empty());
        }
        r
    }

    pub fn len(&self) -> (r: usize)
        ensures
            r == self@.len(),
    {
        self.clients.len()
    }

    /// Register a new connection under a fresh random identifier; the entry
    /// is appended before the connection's tasks start.
    pub fn register(
        &mut self,
        address: String,
        sender: tokio::sync::mpsc::UnboundedSender<Vec<u8>>,
    ) -> (info: ClientInfo)
        ensures
            info.id@.len() == 36,
            info.address@ == address@,
            final(self)@ == old(self)@.push(info@),
    {
        let id = new_client_id();
        let info = ClientInfo { id: id.clone(), address };
        let entry_info = ClientInfo { id, address: info.address.clone() };
        self.clients.push((entry_info, sender));
        proof {
            assert(final(self)@ =~= old(self)@.push(info@));
        }
        info
    }

    /// Remove every entry of the given client; the rest keep their order.
    pub fn remove(&mut self, id: &String)
        ensures
            final(self)@ == spec_remove_id(old(self)@, id@),
    {
        let mut rest: Vec<(ClientInfo, tokio::sync::mpsc::UnboundedSender<Vec<u8>>)> = Vec::new();
        core::mem::swap(&mut self.clients, &mut rest);
        let ghost orig = Seq::new(rest@.len(), |i: int| rest@[i].0@);
        proof {
            assert(orig =~= old(self)@);
            assert(Seq::new(self.clients@.len(), |k: int| self.clients@[k].0@) =~= Seq::<
                ClientInfoView,
            >::empty());
            assert(orig.subrange(0, 0) =~= Seq::<ClientInfoView>::empty());
            assert(spec_remove_id(Seq::<ClientInfoView>::empty(), id@) =~= Seq::<
                ClientInfoView,
            >::empty());
        }
        let n = rest.len();
        proof {
            assert(orig.len() == n);
        }
        let mut i: usize = 0;
        while rest.len() > 0
            invariant
                i + rest@.len() == orig.len(),
                orig.len() == n,
                forall|j: int| 0 <= j < rest@.len() ==> #[trigger] rest@[j].0@ == orig[i + j],
                Seq::new(self.clients@.len(), |k: int| self.clients@[k].0@) =~= spec_remove_id(
                    orig.subrange(0, i as int),
                    id@,
                ),
            decreases rest@.len(),
        {
            let (info, sender) = rest.remove(0);
            let keep = !info.id.eq(id);
            proof {
                let prefix = orig.subrange(0, i as int);
                let next = orig.subrange(0, i + 1);
                assert(next.drop_last() =~= prefix);
                assert(next.last() == orig[i as int]);
                assert(orig[i as int] == info@);
                assert(spec_remove_id(next, id@) == if next.last().id == id@ {
                    spec_remove_id(prefix, id@)
                } else {
                    spec_remove_id(prefix, id@).push(next.last())
                });
                assert(keep == (info.id@ != id@));
            }
            if keep {
                self.clients.push((info, sender));
            }
            proof {
                assert(Seq::new(self.clients@.len(), |k: int| self.clients@[k].0@)
                    =~= spec_remove_id(orig.subrange(0, i + 1), id@));
            }
            i = i + 1;
        }
        proof {
            assert(orig.subrange(0, orig.len() as int) =~= orig);
        }
    }

    /// Drop every entry at once: the server is shutting down.
    pub fn clear(&mut self)
        ensures
            final(self)@.len() == 0,
    {
        self.clients.clear();
        proof {
            assert(final(self)@ =~= Seq::<ClientInfoView>::empty());
        }
    }

    /// Send one already-rendered frame to every registered client, in
    /// registry order. Each client is attempted exactly once whatever
    /// happened to the ones before it; the result records, per client, its
    /// id and whether its channel took the frame.
    pub fn broadcast(&self, frame: &Vec<u8>) -> (outcomes: Vec<(String, bool)>)
        ensures
            outcomes@.len() == self@.len(),
            forall|k: int|
                0 <= k < outcomes@.len() ==> (#[trigger] outcomes@[k]).0@ == self@[k].id,
    {
        let mut outcomes: Vec<(String, bool)> = Vec::new();
        let mut i: usize = 0;
        while i < self.clients.len()
            invariant
                i <= self.clients@.len(),
                outcomes@.len() == i,
                self@.len() == self.clients@.len(),
                forall|k: int|
                    0 <= k < outcomes@.len() ==> (#[trigger] outcomes@[k]).0@ == self@[k].id,
            decreases self.clients@.len() - i,
        {
            let copy = copy_bytes(frame.as_slice());
            let ok = send_message(&self.clients[i].1, copy);
            let id = self.clients[i].0.id.clone();
            proof {
                assert(self@[i as int].id == self.clients@[i as int].0@.id);
            }
            outcomes.push((id, ok));
            i = i + 1;
        }
        outcomes
    }
}

/// Fan one update event out: render it once, hand it to the UI sink
/// best-effort, then broadcast it to every registered client; one client's
/// failure never affects another. Returns whether the UI sink took the frame
/// and the per-client outcomes.
pub fn propagate_update(
    registry: &ClientRegistry,
    ui_sink: &tokio::sync::mpsc::UnboundedSender<Vec<u8>>,
    event: &UpdateChange,
) -> (r: (bool, Vec<(String, bool)>))
    ensures
        r.1@.len() == registry@.len(),
        forall|k: int| 0 <= k < r.1@.len() ==> (#[trigger] r.1@[k]).0@ == registry@[k].id,
{
    let frame = render_update(event);
    let ghost frame_view = frame@;
    proof {
        assert(frame_view == spec_render_update(event@));
    }
    let ui_copy = copy_bytes(frame.as_slice());
    let ui_ok = send_message(ui_sink, ui_copy);
    let outcomes = registry.broadcast(&frame);
    (ui_ok, outcomes)
}

/// One event in the life of the workers of one purpose.
#[derive(Debug)]
pub enum WorkerEvent {
    Cancelled(Vec<u8>),
    Joined(Vec<u8>),
    Installed(Vec<u8>),
}

/// Spec-level value of a worker event.
pub ghost enum WorkerEventView {
    Cancelled(Seq<u8>),
    Joined(Seq<u8>),
    Installed(Seq<u8>),
}

impl View for WorkerEvent {
    type V = WorkerEventView;

    open spec fn view(&self) -> WorkerEventView {
        match self {
            WorkerEvent::Cancelled(n) => WorkerEventView::Cancelled(n@),
            WorkerEvent::Joined(n) => WorkerEventView::Joined(n@),
            WorkerEvent::Installed(n) => WorkerEventView::Installed(n@),
        }
    }
}

/// One restartable background worker as the lifecycle model sees it: its
/// purpose name, whether its cancellation signal has fired, and whether its
/// completion has been awaited. The running task itself lives with the
/// embedding program, which mirrors these transitions on the real handle.
#[derive(Debug)]
pub struct RunningServer {
    pub name: Vec<u8>,
    pub cancelled: bool,
    pub joined: bool,
}

impl RunningServer {
    pub fn new(name: Vec<u8>) -> (r: RunningServer)
        ensures
            r.name@ == name@,
            !r.cancelled,
            !r.joined,
    {
        RunningServer { name, cancelled: false, joined: false }
    }

    /// Shut the worker down: fire its cancellation signal, then await its
    /// completion. Both marks are set when this returns.
    pub fn shutdown(&mut self)
        ensures
            final(self).name@ == old(self).name@,
            final(self).cancelled,
            final(self).joined,
    {
        self.cancelled = true;
        self.joined = true;
    }
}

/// The slot that holds the at-most-one running worker of one purpose,
/// together with the ordered log of lifecycle events it has produced.
pub struct WorkerSlot {
    pub current: Option<RunningServer>,
    pub log: Vec<WorkerEvent>,
}

/// Spec-level state of a worker slot: the current worker's name, if one
/// runs, and the event log.
pub ghost struct WorkerSlotView {
    pub current: Option<Seq<u8>>,
    pub log: Seq<WorkerEventView>,
}

impl View for WorkerSlot {
    type V = WorkerSlotView;

    open spec fn view(&self) -> WorkerSlotView {
        WorkerSlotView {
            current: match self.current {
                Option::Some(ref w) => Option::Some(w.name@),
                Option::None => Option::None,
            },
            log: Seq::new(self.log@.len(), |i: int| self.log@[i]@),
        }
    }
}

impl WorkerSlotView {
    /// Effect of replacing the worker: the predecessor, if any, is cancelled
    /// and joined first, then the newcomer is installed.
    pub open spec fn replace_result(self, name: Seq<u8>) -> WorkerSlotView {
        match self.current {
            Some(o) => WorkerSlotView {
                current: Some(name),
                log: self.log + seq![
                    WorkerEventView::Cancelled(o),
                    WorkerEventView::Joined(o),
                    WorkerEventView::Installed(name),
                ],
            },
            None => WorkerSlotView {
                current: Some(name),
                log: self.log.push(WorkerEventView::Installed(name)),
            },
        }
    }

    /// Effect of stopping: the worker, if any, is cancelled and joined, and
    /// the slot is left empty.
    pub open spec fn clear_result(self) -> WorkerSlotView {
        match self.current {
            Some(o) => WorkerSlotView {
                current: None,
                log: self.log + seq![
                    WorkerEventView::Cancelled(o),
                    WorkerEventView::Joined(o),
                ],
            },
            None => WorkerSlotView { current: None, log: self.log },
        }
    }
}

impl WorkerSlot {
    pub fn new() -> (r: WorkerSlot)
        ensures
            r@.current is None,
            r@.log.len() == 0,
    {
        let r = WorkerSlot { current: None, log: Vec::new() };
        proof {
            assert(r@.log =~= Seq::<WorkerEventView>::empty());
        }
        r
    }

    /// Install a replacement worker: the previous one, if any, is shut down
    /// — cancelled, then joined — before the newcomer takes the slot.
    pub fn replace(&mut self, name: Vec<u8>)
        ensures
            final(self)@ == old(self)@.replace_result(name@),
    {
        let fresh = RunningServer::new(copy_bytes(name.as_slice()));
        let mut holder = Some(fresh);
        core::mem::swap(&mut self.current, &mut holder);
        let previous = holder;
        match previous {
            Some(mut old_worker) => {
                old_worker.shutdown();
                self.log.push(WorkerEvent::Cancelled(copy_bytes(old_worker.name.as_slice())));
                self.log.push(WorkerEvent::Joined(old_worker.name));
                self.log.push(WorkerEvent::Installed(name));
                proof {
                    assert(final(self)@.log =~= old(self)@.replace_result(name@).log);
                }
            },
            None => {
                self.log.push(WorkerEvent::Installed(name));
                proof {
                    assert(final(self)@.log =~= old(self)@.replace_result(name@).log);
                }
            },
        }
    }

    /// Stop and clear the running worker, if any; idempotent.
    pub fn clear(&mut self)
        ensures
            final(self)@ == old(self)@.clear_result(),
    {
        let previous = self.current.take();
        match previous {
            Some(mut old_worker) => {
                old_worker.shutdown();
                self.log.push(WorkerEvent::Cancelled(copy_bytes(old_worker.name.as_slice())));
                self.log.push(WorkerEvent::Joined(old_worker.name));
                proof {
                    assert(final(self)@.log =~= old(self)@.clear_result().log);
                }
            },
            None => {
                proof {
                    assert(final(self)@.log =~= old(self)@.clear_result().log);
                }
            },
        }
    }
}

/// Replacing a running worker fully joins the predecessor before the
/// replacement begins serving: in the log a replacement produces, the
/// predecessor's Joined event stands strictly before the successor's
/// Installed event, nothing follows the installation, and the slot holds
/// exactly the one new worker.
pub proof fn law_replace_joins_before_install(s: WorkerSlotView, o: Seq<u8>, n: Seq<u8>)
    requires
        s.current == Some(o),
    ensures
        ({
            let s1 = s.replace_result(n);
            &&& s1.current == Some(n)
            &&& s1.log.len() == s.log.len() + 3
            &&& s1.log[s.log.len() as int + 1] == WorkerEventView::Joined(o)
            &&& s1.log[s.log.len() as int + 2] == WorkerEventView::Installed(n)
            &&& s1.log[s.log.len() as int] == WorkerEventView::Cancelled(o)
            &&& s.log.len() < s.log.len() + 1 < s.log.len() + 2
            &&& s1.log.subrange(0, s.log.len() as int) == s.log
        }),
{
    let s1 = s.replace_result(n);
    assert(s1.log.subrange(0, s.log.len() as int) =~= s.log);
}

/// The state behind the command server: the client registry and the slot of
/// the at-most-one listener worker.
pub struct WebSocketServerState {
    pub clients: ClientRegistry,
    pub server: WorkerSlot,
}

impl WebSocketServerState {
    pub fn new() -> (r: WebSocketServerState)
        ensures
            r.clients@.len() == 0,
            r.server@.current is None,
    {
        WebSocketServerState { clients: ClientRegistry::new(), server: WorkerSlot::new() }
    }

    /// Shut the listener down, then drop every client entry.
    pub fn shutdown(&mut self)
        ensures
            final(self).server@ == old(self).server@.clear_result(),
            final(self).clients@.len() == 0,
    {
        self.server.clear();
        self.clients.clear();
    }
}

/// The state behind service discovery: the slot of the at-most-one
/// registrar worker.
pub struct ServiceDiscovery {
    pub server: WorkerSlot,
}

impl ServiceDiscovery {
    pub fn new() -> (r: ServiceDiscovery)
        ensures
            r.server@.current is None,
    {
        ServiceDiscovery { server: WorkerSlot::new() }
    }

    /// Stop the registrar, if one runs; idempotent.
    pub fn shutdown(&mut self)
        ensures
            final(self).server@ == old(self).server@.clear_result(),
    {
        self.server.clear();
    }
}

} // verus!
