//! The run engine: a state machine that drives one full pass over the
//! configuration service — open a session, enumerate the interfaces, list
//! and fetch each interface's profiles, classify every fetched document —
//! while accounting for every service-owned buffer and for the session
//! itself.
//!
//! The engine decides; its driver performs. Each call of [`Engine::step`]
//! consumes the outcome of the previous action and returns the next one.
//! Ghost bookkeeping records every buffer acquisition and every release the
//! engine orders, and the well-formedness invariant forces the two to agree:
//! a finished run has released every acquired buffer exactly once and closed
//! the session exactly once per open.

use vstd::prelude::*;
use vstd::multiset::Multiset;
use crate::text::{has_nul, field_text, parse_utf16_slice};
use crate::doc::{Node, resolve, resolve_path};
use crate::classify::{CredentialResult, classify, classified_key, auth_type_path,
    auth_type_path_vec};

verus! {

/// A wireless interface as the service reports it: its identifier and the
/// raw fixed-width description field, terminator included when well formed.
pub struct RawInterface {
    pub guid: u128,
    pub description: Vec<u16>,
}

/// A saved profile as the service reports it: the raw fixed-width name
/// field.
pub struct RawProfile {
    pub name: Vec<u16>,
}

/// A diagnostic the run logs when it skips a unit of work or gives up.
#[derive(Clone, Copy, PartialEq, Eq, Structural, Debug)]
pub enum Diag {
    /// The session could not be opened; the run is over.
    SessionOpenFailed,
    /// The interfaces could not be enumerated; the run closes and fails.
    EnumerationFailed,
    /// One interface's description field has no terminator; the interface
    /// is skipped.
    InterfaceDescriptionMalformed,
    /// One interface's profiles could not be listed; the interface is
    /// skipped.
    ProfileListFailed,
    /// One profile's name field has no terminator; the profile is skipped.
    ProfileNameMalformed,
    /// One profile's document could not be fetched; the profile is skipped.
    ProfileFetchFailed,
    /// The fetched text could not be turned into a document; the profile is
    /// skipped.
    DocumentUnavailable,
    /// The document carries no authentication-type field; the profile is
    /// skipped.
    AuthTypeNotFound,
}

/// What the engine asks its driver to do next.
pub enum Action {
    /// Open a session with the configuration service; answer with
    /// `Event::Opened`.
    OpenSession,
    /// Enumerate the wireless interfaces; answer with `Event::Enumerated`
    /// or `Event::EnumFailed`.
    EnumInterfaces,
    /// List the saved profiles of the given interface; answer with
    /// `Event::Listed` or `Event::ListFailed`.
    ListProfiles { interface: u128 },
    /// Fetch the named profile's document, asking for the plaintext key;
    /// answer with `Event::Fetched` or `Event::FetchFailed`.
    FetchProfile { interface: u128, profile: String },
    /// Release the service-owned buffer; answer with `Event::Acked`.
    FreeBuffer { buffer: u64 },
    /// Close the session; answer with `Event::Acked`.
    CloseSession,
    /// The run is over; no further event is expected.
    Finish { failed: bool },
}

/// What the driver reports back to the engine.
pub enum Event {
    /// Begin the run.
    Started,
    /// Outcome of `Action::OpenSession`.
    Opened { ok: bool },
    /// `Action::EnumInterfaces` succeeded: the service filled a buffer,
    /// identified here by a driver-chosen handle, with these records.
    Enumerated { buffer: u64, interfaces: Vec<RawInterface> },
    /// `Action::EnumInterfaces` reported a non-success status.
    EnumFailed,
    /// `Action::ListProfiles` succeeded, with the buffer's handle and its
    /// records.
    Listed { buffer: u64, profiles: Vec<RawProfile> },
    /// `Action::ListProfiles` reported a non-success status.
    ListFailed,
    /// `Action::FetchProfile` succeeded: the service filled a buffer; the
    /// driver's conversion of it into a document may itself have failed,
    /// in which case the document is absent but the buffer still exists.
    Fetched { buffer: u64, document: Option<Node> },
    /// `Action::FetchProfile` reported a non-success status.
    FetchFailed,
    /// The previous `FreeBuffer` or `CloseSession` action was performed.
    Acked,
}

/// Where the engine stands: each phase names the action whose outcome the
/// next event must report.
#[derive(Clone, Copy, PartialEq, Eq, Structural, Debug)]
pub enum Phase {
    /// Not yet started.
    Start,
    /// `OpenSession` issued.
    AwaitOpen,
    /// `EnumInterfaces` issued.
    AwaitEnum,
    /// `ListProfiles` issued for the current interface.
    AwaitList,
    /// `FetchProfile` issued for the current profile.
    AwaitFetch,
    /// `FreeBuffer` issued for a fetched document's buffer.
    AwaitFreeFetched,
    /// `FreeBuffer` issued for the current interface's profile-list buffer.
    AwaitFreeProfiles,
    /// `FreeBuffer` issued for the interface-list buffer.
    AwaitFreeInterfaces,
    /// `CloseSession` issued.
    AwaitClose,
    /// The run is over.
    Finished,
}

/// Whether a raw interface record's description field is well formed.
pub open spec fn iface_ok(r: RawInterface) -> bool {
    has_nul(r.description@)
}

/// Whether a raw profile record's name field is well formed.
pub open spec fn prof_ok(p: RawProfile) -> bool {
    has_nul(p.name@)
}

/// First index at or after `from` of an interface whose description parses;
/// the length when none is left.
pub open spec fn next_iface(ifs: Seq<RawInterface>, from: int) -> int
    decreases ifs.len() - from when 0 <= from <= ifs.len()
{
    if from >= ifs.len() {
        ifs.len() as int
    } else if iface_ok(ifs[from]) {
        from
    } else {
        next_iface(ifs, from + 1)
    }
}

/// First index at or after `from` of a profile whose name parses; the
/// length when none is left.
pub open spec fn next_prof(ps: Seq<RawProfile>, from: int) -> int
    decreases ps.len() - from when 0 <= from <= ps.len()
{
    if from >= ps.len() {
        ps.len() as int
    } else if prof_ok(ps[from]) {
        from
    } else {
        next_prof(ps, from + 1)
    }
}

/// The whole run's state, with ghost accounting of the resource protocol.
pub struct Engine {
    pub phase: Phase,
    /// Whether the run has hit a fatal failure.
    pub failed: bool,
    /// The enumerated interfaces and the index of the one being worked on.
    pub interfaces: Vec<RawInterface>,
    pub iface_idx: usize,
    /// Handle of the buffer the interface records came in.
    pub iface_buf: u64,
    /// The current interface's profiles and the index of the current one.
    pub profiles: Vec<RawProfile>,
    pub prof_idx: usize,
    /// Handle of the buffer the profile records came in.
    pub prof_buf: u64,
    /// Decoded name of the profile being worked on.
    pub cur_ssid: String,
    /// Document of the profile being worked on, between fetch and
    /// classification.
    pub pending_doc: Option<Node>,
    /// One record per successfully classified profile, in order.
    pub records: Vec<CredentialResult>,
    /// One entry per skipped unit of work, in order.
    pub diags: Vec<Diag>,
    /// Every buffer acquisition the driver has reported.
    pub acquired: Ghost<Multiset<u64>>,
    /// Every buffer release the engine has ordered.
    pub released: Ghost<Multiset<u64>>,
    /// How often the engine has had the session opened, and ordered it
    /// closed.
    pub opened: Ghost<int>,
    pub closed: Ghost<int>,
}

impl Engine {
    /// The buffers acquired but not yet ordered released, by phase.
    pub open spec fn held(self) -> Multiset<u64> {
        match self.phase {
            Phase::AwaitList => Multiset::empty().insert(self.iface_buf),
            Phase::AwaitFetch => Multiset::empty().insert(self.iface_buf).insert(self.prof_buf),
            Phase::AwaitFreeFetched => Multiset::empty().insert(self.iface_buf).insert(
                self.prof_buf,
            ),
            Phase::AwaitFreeProfiles => Multiset::empty().insert(self.iface_buf),
            _ => Multiset::empty(),
        }
    }

    /// Session accounting by phase: opened before enumeration, close
    /// ordered exactly once on both the failing and the successful path.
    pub open spec fn session_ok(self) -> bool {
        match self.phase {
            Phase::Start | Phase::AwaitOpen => self.opened@ == 0 && self.closed@ == 0,
            Phase::AwaitEnum | Phase::AwaitList | Phase::AwaitFetch | Phase::AwaitFreeFetched
            | Phase::AwaitFreeProfiles | Phase::AwaitFreeInterfaces => self.opened@ == 1
                && self.closed@ == 0,
            Phase::AwaitClose => self.opened@ == 1 && self.closed@ == 1,
            Phase::Finished => self.opened@ == self.closed@ && 0 <= self.opened@ <= 1,
        }
    }

    /// The engine's invariant: the resource accounts balance — acquisitions
    /// equal ordered releases plus what is still held — the session account
    /// balances, and the loop indices are in bounds for their phase.
    pub open spec fn wf(self) -> bool {
        &&& self.acquired@ == self.released@.add(self.held())
        &&& self.session_ok()
        &&& match self.phase {
            Phase::AwaitList => self.iface_idx < self.interfaces@.len(),
            Phase::AwaitFetch | Phase::AwaitFreeFetched => self.iface_idx
                < self.interfaces@.len() && self.prof_idx < self.profiles@.len(),
            Phase::AwaitFreeProfiles => self.iface_idx < self.interfaces@.len(),
            _ => true,
        }
    }

    /// A fresh engine, before anything has happened.
    pub fn new() -> (e: Engine)
        ensures
            e.wf(),
            e.phase is Start,
            e.records@.len() == 0,
            e.diags@.len() == 0,
            e.acquired@ == Multiset::<u64>::empty(),
            e.released@ == Multiset::<u64>::empty(),
            e.opened@ == 0,
            e.closed@ == 0,
    {
        let e = Engine {
            phase: Phase::Start,
            failed: false,
            interfaces: Vec::new(),
            iface_idx: 0,
            iface_buf: 0,
            profiles: Vec::new(),
            prof_idx: 0,
            prof_buf: 0,
            cur_ssid: String::new(),
            pending_doc: None,
            records: Vec::new(),
            diags: Vec::new(),
            acquired: Ghost(Multiset::empty()),
            released: Ghost(Multiset::empty()),
            opened: Ghost(0),
            closed: Ghost(0),
        };
        proof {
            assert(e.released@.add(e.held()) =~= Multiset::<u64>::empty());
        }
        e
    }
}

/// Which events answer which phase.
pub open spec fn event_fits(phase: Phase, ev: Event) -> bool {
    match phase {
        Phase::Start => ev is Started,
        Phase::AwaitOpen => ev is Opened,
        Phase::AwaitEnum => ev is Enumerated || ev is EnumFailed,
        Phase::AwaitList => ev is Listed || ev is ListFailed,
        Phase::AwaitFetch => ev is Fetched || ev is FetchFailed,
        Phase::AwaitFreeFetched => ev is Acked,
        Phase::AwaitFreeProfiles => ev is Acked,
        Phase::AwaitFreeInterfaces => ev is Acked,
        Phase::AwaitClose => ev is Acked,
        Phase::Finished => false,
    }
}

/// How the engine advances through the interface list: from index `from`,
/// every interface with a malformed description is skipped with one
/// diagnostic each; the first well-formed one has its profiles listed, and
/// when none is left the interface buffer's release is ordered.
pub open spec fn iface_advance_rel(
    base_records: Seq<CredentialResult>,
    base_diags: Seq<Diag>,
    base_released: Multiset<u64>,
    ifs: Seq<RawInterface>,
    buf: u64,
    from: int,
    post: Engine,
    act: Action,
) -> bool {
    let nx = next_iface(ifs, from);
    &&& post.interfaces@ == ifs
    &&& post.iface_buf == buf
    &&& post.records@ == base_records
    &&& post.diags@ == base_diags + Seq::new(
        (nx - from) as nat,
        |j: int| Diag::InterfaceDescriptionMalformed,
    )
    &&& if nx < ifs.len() {
        &&& post.phase is AwaitList
        &&& post.iface_idx == nx
        &&& post.released@ == base_released
        &&& act == (Action::ListProfiles { interface: ifs[nx].guid })
    } else {
        &&& post.phase is AwaitFreeInterfaces
        &&& post.released@ == base_released.insert(buf)
        &&& act == (Action::FreeBuffer { buffer: buf })
    }
}

/// How the engine advances through a profile list: from index `from`, every
/// profile with a malformed name is skipped with one diagnostic each; the
/// first well-formed one is fetched under its decoded name, and when none
/// is left the profile buffer's release is ordered.
pub open spec fn prof_advance_rel(
    base_records: Seq<CredentialResult>,
    base_diags: Seq<Diag>,
    base_released: Multiset<u64>,
    interface: u128,
    ps: Seq<RawProfile>,
    buf: u64,
    from: int,
    post: Engine,
    act: Action,
) -> bool {
    let nx = next_prof(ps, from);
    &&& post.profiles@ == ps
    &&& post.prof_buf == buf
    &&& post.records@ == base_records
    &&& post.diags@ == base_diags + Seq::new(
        (nx - from) as nat,
        |j: int| Diag::ProfileNameMalformed,
    )
    &&& if nx < ps.len() {
        &&& post.phase is AwaitFetch
        &&& post.prof_idx == nx
        &&& post.released@ == base_released
        &&& post.cur_ssid@ == field_text(ps[nx].name@)
        &&& act matches Action::FetchProfile { interface: i, profile } && i == interface
            && profile@ == field_text(ps[nx].name@)
    } else {
        &&& post.phase is AwaitFreeProfiles
        &&& post.released@ == base_released.insert(buf)
        &&& act == (Action::FreeBuffer { buffer: buf })
    }
}

/// Outputs that a transition leaves untouched.
pub open spec fn same_outputs(pre: Engine, post: Engine) -> bool {
    &&& post.records@ == pre.records@
    &&& post.diags@ == pre.diags@
}

/// Resource accounts that a transition leaves untouched.
pub open spec fn same_resources(pre: Engine, post: Engine) -> bool {
    &&& post.acquired@ == pre.acquired@
    &&& post.released@ == pre.released@
    &&& post.opened@ == pre.opened@
    &&& post.closed@ == pre.closed@
}

/// The interface identifier the engine is currently working on.
pub open spec fn cur_guid(pre: Engine) -> u128 {
    pre.interfaces@[pre.iface_idx as int].guid
}

/// The engine's full transition relation: for each phase and fitting event,
/// what the step emits, records, logs, acquires and releases.
pub open spec fn step_relation(pre: Engine, ev: Event, post: Engine, act: Action) -> bool {
    match (pre.phase, ev) {
        (Phase::Start, Event::Started) => {
            &&& same_outputs(pre, post)
            &&& same_resources(pre, post)
            &&& post.phase is AwaitOpen
            &&& post.failed == pre.failed
            &&& act is OpenSession
        },
        (Phase::AwaitOpen, Event::Opened { ok }) => if ok {
            &&& same_outputs(pre, post)
            &&& post.acquired@ == pre.acquired@
            &&& post.released@ == pre.released@
            &&& post.opened@ == 1
            &&& post.closed@ == 0
            &&& post.phase is AwaitEnum
            &&& post.failed == pre.failed
            &&& act is EnumInterfaces
        } else {
            &&& post.records@ == pre.records@
            &&& post.diags@ == pre.diags@ + seq![Diag::SessionOpenFailed]
            &&& same_resources(pre, post)
            &&& post.phase is Finished
            &&& post.failed
            &&& act == (Action::Finish { failed: true })
        },
        (Phase::AwaitEnum, Event::Enumerated { buffer, interfaces }) => {
            &&& post.acquired@ == pre.acquired@.insert(buffer)
            &&& post.opened@ == pre.opened@
            &&& post.closed@ == pre.closed@
            &&& post.failed == pre.failed
            &&& iface_advance_rel(
                pre.records@,
                pre.diags@,
                pre.released@,
                interfaces@,
                buffer,
                0,
                post,
                act,
            )
        },
        (Phase::AwaitEnum, Event::EnumFailed) => {
            &&& post.records@ == pre.records@
            &&& post.diags@ == pre.diags@ + seq![Diag::EnumerationFailed]
            &&& post.acquired@ == pre.acquired@
            &&& post.released@ == pre.released@
            &&& post.opened@ == pre.opened@
            &&& post.closed@ == 1
            &&& post.phase is AwaitClose
            &&& post.failed
            &&& act is CloseSession
        },
        (Phase::AwaitList, Event::Listed { buffer, profiles }) => {
            &&& post.acquired@ == pre.acquired@.insert(buffer)
            &&& post.opened@ == pre.opened@
            &&& post.closed@ == pre.closed@
            &&& post.failed == pre.failed
            &&& post.interfaces@ == pre.interfaces@
            &&& post.iface_idx == pre.iface_idx
            &&& post.iface_buf == pre.iface_buf
            &&& prof_advance_rel(
                pre.records@,
                pre.diags@,
                pre.released@,
                cur_guid(pre),
                profiles@,
                buffer,
                0,
                post,
                act,
            )
        },
        (Phase::AwaitList, Event::ListFailed) => {
            &&& post.acquired@ == pre.acquired@
            &&& post.opened@ == pre.opened@
            &&& post.closed@ == pre.closed@
            &&& post.failed == pre.failed
            &&& iface_advance_rel(
                pre.records@,
                pre.diags@ + seq![Diag::ProfileListFailed],
                pre.released@,
                pre.interfaces@,
                pre.iface_buf,
                pre.iface_idx + 1,
                post,
                act,
            )
        },
        (Phase::AwaitFetch, Event::Fetched { buffer, document }) => {
            &&& same_outputs(pre, post)
            &&& post.acquired@ == pre.acquired@.insert(buffer)
            &&& post.released@ == pre.released@.insert(buffer)
            &&& post.opened@ == pre.opened@
            &&& post.closed@ == pre.closed@
            &&& post.failed == pre.failed
            &&& post.phase is AwaitFreeFetched
            &&& post.pending_doc == document
            &&& post.cur_ssid@ == pre.cur_ssid@
            &&& post.interfaces@ == pre.interfaces@
            &&& post.iface_idx == pre.iface_idx
            &&& post.iface_buf == pre.iface_buf
            &&& post.profiles@ == pre.profiles@
            &&& post.prof_idx == pre.prof_idx
            &&& post.prof_buf == pre.prof_buf
            &&& act == (Action::FreeBuffer { buffer })
        },
        (Phase::AwaitFetch, Event::FetchFailed) => {
            &&& post.acquired@ == pre.acquired@
            &&& post.opened@ == pre.opened@
            &&& post.closed@ == pre.closed@
            &&& post.failed == pre.failed
            &&& post.interfaces@ == pre.interfaces@
            &&& post.iface_idx == pre.iface_idx
            &&& post.iface_buf == pre.iface_buf
            &&& prof_advance_rel(
                pre.records@,
                pre.diags@ + seq![Diag::ProfileFetchFailed],
                pre.released@,
                cur_guid(pre),
                pre.profiles@,
                pre.prof_buf,
                pre.prof_idx + 1,
                post,
                act,
            )
        },
        (Phase::AwaitFreeFetched, Event::Acked) => {
            &&& post.acquired@ == pre.acquired@
            &&& post.opened@ == pre.opened@
            &&& post.closed@ == pre.closed@
            &&& post.failed == pre.failed
            &&& post.interfaces@ == pre.interfaces@
            &&& post.iface_idx == pre.iface_idx
            &&& post.iface_buf == pre.iface_buf
            &&& match pre.pending_doc {
                None => prof_advance_rel(
                    pre.records@,
                    pre.diags@ + seq![Diag::DocumentUnavailable],
                    pre.released@,
                    cur_guid(pre),
                    pre.profiles@,
                    pre.prof_buf,
                    pre.prof_idx + 1,
                    post,
                    act,
                ),
                Some(doc) => match resolve_path(doc.children@, auth_type_path()) {
                    None => prof_advance_rel(
                        pre.records@,
                        pre.diags@ + seq![Diag::AuthTypeNotFound],
                        pre.released@,
                        cur_guid(pre),
                        pre.profiles@,
                        pre.prof_buf,
                        pre.prof_idx + 1,
                        post,
                        act,
                    ),
                    Some(auth) => {
                        &&& post.records@.len() == pre.records@.len() + 1
                        &&& post.records@.drop_last() == pre.records@
                        &&& post.records@.last().ssid@ == pre.cur_ssid@
                        &&& post.records@.last().auth_type@ == auth
                        &&& (match post.records@.last().key {
                            Some(k) => classified_key(auth, doc) == Some(k@),
                            None => classified_key(auth, doc) is None,
                        })
                        &&& prof_advance_rel(
                            post.records@,
                            pre.diags@,
                            pre.released@,
                            cur_guid(pre),
                            pre.profiles@,
                            pre.prof_buf,
                            pre.prof_idx + 1,
                            post,
                            act,
                        )
                    },
                },
            }
        },
        (Phase::AwaitFreeProfiles, Event::Acked) => {
            &&& post.acquired@ == pre.acquired@
            &&& post.opened@ == pre.opened@
            &&& post.closed@ == pre.closed@
            &&& post.failed == pre.failed
            &&& iface_advance_rel(
                pre.records@,
                pre.diags@,
                pre.released@,
                pre.interfaces@,
                pre.iface_buf,
                pre.iface_idx + 1,
                post,
                act,
            )
        },
        (Phase::AwaitFreeInterfaces, Event::Acked) => {
            &&& same_outputs(pre, post)
            &&& post.acquired@ == pre.acquired@
            &&& post.released@ == pre.released@
            &&& post.opened@ == pre.opened@
            &&& post.closed@ == 1
            &&& post.phase is AwaitClose
            &&& post.failed == pre.failed
            &&& act is CloseSession
        },
        (Phase::AwaitClose, Event::Acked) => {
            &&& same_outputs(pre, post)
            &&& same_resources(pre, post)
            &&& post.phase is Finished
            &&& post.failed == pre.failed
            &&& act == (Action::Finish { failed: pre.failed })
        },
        _ => false,
    }
}

/// Law of the ownership layer: a finished run has released every buffer it
/// acquired exactly as often as it acquired it — no leak, no double release
/// — and has closed the session exactly as often as it opened it.
pub proof fn lemma_finished_run_releases_all(e: Engine)
    requires
        e.wf(),
        e.phase is Finished,
    ensures
        e.acquired@ == e.released@,
        e.opened@ == e.closed@,
{
    assert(e.released@.add(Multiset::<u64>::empty()) =~= e.released@);
}

/// One acquisition while the account balances keeps it balanced with the
/// buffer now held.
proof fn lemma_acquire(acq: Multiset<u64>, rel: Multiset<u64>, held: Multiset<u64>, b: u64)
    requires
        acq == rel.add(held),
    ensures
        acq.insert(b) == rel.add(held.insert(b)),
        acq.insert(b) == rel.insert(b).add(held),
{
    assert(acq.insert(b) =~= rel.add(held.insert(b)));
    assert(acq.insert(b) =~= rel.insert(b).add(held));
}

/// Ordering the release of one held buffer moves it from held to released.
proof fn lemma_release(acq: Multiset<u64>, rel: Multiset<u64>, held: Multiset<u64>, b: u64)
    requires
        acq == rel.add(held.insert(b)),
    ensures
        acq == rel.insert(b).add(held),
{
    assert(rel.add(held.insert(b)) =~= rel.insert(b).add(held));
}

impl Engine {
    /// Skip interfaces with malformed descriptions from `from` on, logging
    /// one diagnostic each, then either ask for the next well-formed
    /// interface's profiles or order the interface buffer released.
    fn advance_ifaces(&mut self, from: usize) -> (act: Action)
        requires
            from <= old(self).interfaces@.len(),
            old(self).acquired@ == old(self).released@.add(
                Multiset::empty().insert(old(self).iface_buf),
            ),
            old(self).opened@ == 1,
            old(self).closed@ == 0,
        ensures
            final(self).wf(),
            iface_advance_rel(
                old(self).records@,
                old(self).diags@,
                old(self).released@,
                old(self).interfaces@,
                old(self).iface_buf,
                from as int,
                *final(self),
                act,
            ),
            final(self).acquired@ == old(self).acquired@,
            final(self).opened@ == old(self).opened@,
            final(self).closed@ == old(self).closed@,
            final(self).failed == old(self).failed,
    {
        let ghost ifs = old(self).interfaces@;
        let n = self.interfaces.len();
        let mut i: usize = from;
        let mut found = false;
        while !found && i < n
            invariant
                from <= i <= n,
                n == ifs.len(),
                self.interfaces@ == ifs,
                found ==> i < n && iface_ok(ifs[i as int]),
                next_iface(ifs, from as int) == next_iface(ifs, i as int),
                self.diags@ == old(self).diags@ + Seq::new(
                    (i - from) as nat,
                    |j: int| Diag::InterfaceDescriptionMalformed,
                ),
                self.records@ == old(self).records@,
                self.acquired@ == old(self).acquired@,
                self.released@ == old(self).released@,
                self.opened@ == old(self).opened@,
                self.closed@ == old(self).closed@,
                self.failed == old(self).failed,
                self.iface_buf == old(self).iface_buf,
            decreases n - i + (if found { 0int } else { 1int }),
        {
            if field_has_terminator(&self.interfaces[i].description) {
                found = true;
            } else {
                self.diags.push(Diag::InterfaceDescriptionMalformed);
                proof {
                    assert(self.diags@ =~= old(self).diags@ + Seq::new(
                        (i + 1 - from) as nat,
                        |j: int| Diag::InterfaceDescriptionMalformed,
                    ));
                }
                i = i + 1;
            }
        }
        if found {
            proof {
                assert(next_iface(ifs, i as int) == i);
            }
            self.iface_idx = i;
            self.phase = Phase::AwaitList;
            Action::ListProfiles { interface: self.interfaces[i].guid }
        } else {
            proof {
                assert(next_iface(ifs, i as int) == n);
                lemma_release(self.acquired@, self.released@, Multiset::empty(), self.iface_buf);
            }
            self.phase = Phase::AwaitFreeInterfaces;
            let b = self.iface_buf;
            self.released = Ghost(self.released@.insert(b));
            proof {
                assert(self.acquired@ == self.released@.add(self.held())) by {
                    assert(self.released@.add(Multiset::<u64>::empty()) =~= self.released@);
                }
            }
            Action::FreeBuffer { buffer: b }
        }
    }

    /// Skip profiles with malformed names from `from` on, logging one
    /// diagnostic each, then either ask for the next well-formed profile's
    /// document or order the profile buffer released.
    fn advance_profiles(&mut self, from: usize) -> (act: Action)
        requires
            from <= old(self).profiles@.len(),
            old(self).iface_idx < old(self).interfaces@.len(),
            old(self).acquired@ == old(self).released@.add(
                Multiset::empty().insert(old(self).iface_buf).insert(old(self).prof_buf),
            ),
            old(self).opened@ == 1,
            old(self).closed@ == 0,
        ensures
            final(self).wf(),
            prof_advance_rel(
                old(self).records@,
                old(self).diags@,
                old(self).released@,
                cur_guid(*old(self)),
                old(self).profiles@,
                old(self).prof_buf,
                from as int,
                *final(self),
                act,
            ),
            final(self).interfaces@ == old(self).interfaces@,
            final(self).iface_idx == old(self).iface_idx,
            final(self).iface_buf == old(self).iface_buf,
            final(self).acquired@ == old(self).acquired@,
            final(self).opened@ == old(self).opened@,
            final(self).closed@ == old(self).closed@,
            final(self).failed == old(self).failed,
    {
        let ghost ps = old(self).profiles@;
        let n = self.profiles.len();
        let mut i: usize = from;
        let mut name: Option<String> = None;
        while name.is_none() && i < n
            invariant
                from <= i <= n,
                n == ps.len(),
                self.profiles@ == ps,
                name matches Some(s) ==> i < n && prof_ok(ps[i as int]) && s@ == field_text(
                    ps[i as int].name@,
                ),
                next_prof(ps, from as int) == next_prof(ps, i as int),
                self.diags@ == old(self).diags@ + Seq::new(
                    (i - from) as nat,
                    |j: int| Diag::ProfileNameMalformed,
                ),
                self.records@ == old(self).records@,
                self.acquired@ == old(self).acquired@,
                self.released@ == old(self).released@,
                self.opened@ == old(self).opened@,
                self.closed@ == old(self).closed@,
                self.failed == old(self).failed,
                self.interfaces@ == old(self).interfaces@,
                self.iface_idx == old(self).iface_idx,
                self.iface_buf == old(self).iface_buf,
                self.prof_buf == old(self).prof_buf,
            decreases n - i + (if name is None { 1int } else { 0int }),
        {
            match parse_utf16_slice(&self.profiles[i].name) {
                Some(s) => {
                    name = Some(s);
                },
                None => {
                    self.diags.push(Diag::ProfileNameMalformed);
                    proof {
                        assert(self.diags@ =~= old(self).diags@ + Seq::new(
                            (i + 1 - from) as nat,
                            |j: int| Diag::ProfileNameMalformed,
                        ));
                    }
                    i = i + 1;
                },
            }
        }
        match name {
            Some(s) => {
                proof {
                    assert(next_prof(ps, i as int) == i);
                }
                self.prof_idx = i;
                self.cur_ssid = s.clone();
                self.phase = Phase::AwaitFetch;
                Action::FetchProfile {
                    interface: self.interfaces[self.iface_idx].guid,
                    profile: s,
                }
            },
            None => {
                proof {
                    assert(next_prof(ps, i as int) == n);
                    lemma_release(
                        self.acquired@,
                        self.released@,
                        Multiset::empty().insert(self.iface_buf),
                        self.prof_buf,
                    );
                }
                self.phase = Phase::AwaitFreeProfiles;
                let b = self.prof_buf;
                self.released = Ghost(self.released@.insert(b));
                Action::FreeBuffer { buffer: b }
            },
        }
    }

    /// Advance the run by one protocol step: consume the outcome of the
    /// previous action and return the next one. The driver performs each
    /// returned action and reports its outcome; the engine keeps the
    /// records, the diagnostics and the resource accounts.
    pub fn step(&mut self, ev: Event) -> (act: Action)
        requires
            old(self).wf(),
            !(old(self).phase is Finished),
            event_fits(old(self).phase, ev),
        ensures
            final(self).wf(),
            step_relation(*old(self), ev, *final(self), act),
    {
        match (self.phase, ev) {
            (Phase::Start, Event::Started) => {
                self.phase = Phase::AwaitOpen;
                Action::OpenSession
            },
            (Phase::AwaitOpen, Event::Opened { ok }) => {
                if ok {
                    self.phase = Phase::AwaitEnum;
                    self.opened = Ghost(1int);
                    Action::EnumInterfaces
                } else {
                    self.diags.push(Diag::SessionOpenFailed);
                    proof {
                        assert(self.diags@ =~= old(self).diags@ + seq![Diag::SessionOpenFailed]);
                    }
                    self.phase = Phase::Finished;
                    self.failed = true;
                    Action::Finish { failed: true }
                }
            },
            (Phase::AwaitEnum, Event::Enumerated { buffer, interfaces }) => {
                proof {
                    lemma_acquire(self.acquired@, self.released@, Multiset::empty(), buffer);
                }
                self.interfaces = interfaces;
                self.iface_buf = buffer;
                self.acquired = Ghost(self.acquired@.insert(buffer));
                self.advance_ifaces(0)
            },
            (Phase::AwaitEnum, Event::EnumFailed) => {
                self.diags.push(Diag::EnumerationFailed);
                proof {
                    assert(self.diags@ =~= old(self).diags@ + seq![Diag::EnumerationFailed]);
                }
                self.failed = true;
                self.phase = Phase::AwaitClose;
                self.closed = Ghost(1int);
                Action::CloseSession
            },
            (Phase::AwaitList, Event::Listed { buffer, profiles }) => {
                proof {
                    lemma_acquire(
                        self.acquired@,
                        self.released@,
                        Multiset::empty().insert(self.iface_buf),
                        buffer,
                    );
                }
                self.profiles = profiles;
                self.prof_buf = buffer;
                self.acquired = Ghost(self.acquired@.insert(buffer));
                self.advance_profiles(0)
            },
            (Phase::AwaitList, Event::ListFailed) => {
                self.diags.push(Diag::ProfileListFailed);
                proof {
                    assert(self.diags@ =~= old(self).diags@ + seq![Diag::ProfileListFailed]);
                }
                let bound = self.interfaces.len();
                proof {
                    assert(self.iface_idx < bound);
                }
                let next = self.iface_idx + 1;
                self.advance_ifaces(next)
            },
            (Phase::AwaitFetch, Event::Fetched { buffer, document }) => {
                proof {
                    lemma_acquire(
                        self.acquired@,
                        self.released@,
                        Multiset::empty().insert(self.iface_buf).insert(self.prof_buf),
                        buffer,
                    );
                }
                self.pending_doc = document;
                self.acquired = Ghost(self.acquired@.insert(buffer));
                self.released = Ghost(self.released@.insert(buffer));
                self.phase = Phase::AwaitFreeFetched;
                Action::FreeBuffer { buffer }
            },
            (Phase::AwaitFetch, Event::FetchFailed) => {
                self.diags.push(Diag::ProfileFetchFailed);
                proof {
                    assert(self.diags@ =~= old(self).diags@ + seq![Diag::ProfileFetchFailed]);
                }
                let bound = self.profiles.len();
                proof {
                    assert(self.prof_idx < bound);
                }
                let next = self.prof_idx + 1;
                self.advance_profiles(next)
            },
            (Phase::AwaitFreeFetched, Event::Acked) => {
                let bound = self.profiles.len();
                proof {
                    assert(self.prof_idx < bound);
                }
                let next = self.prof_idx + 1;
                let doc_opt = self.pending_doc.take();
                match doc_opt {
                    None => {
                        self.diags.push(Diag::DocumentUnavailable);
                        proof {
                            assert(self.diags@ =~= old(self).diags@ + seq![Diag::DocumentUnavailable]);
                        }
                        self.advance_profiles(next)
                    },
                    Some(doc) => {
                        let path = auth_type_path_vec();
                        match resolve(&doc, &path) {
                            None => {
                                self.diags.push(Diag::AuthTypeNotFound);
                                proof {
                                    assert(self.diags@ =~= old(self).diags@ + seq![Diag::AuthTypeNotFound]);
                                }
                                self.advance_profiles(next)
                            },
                            Some(auth) => {
                                let rec = classify(self.cur_ssid.clone(), auth, &doc);
                                let ghost pre_records = self.records@;
                                self.records.push(rec);
                                proof {
                                    assert(self.records@.drop_last() =~= pre_records);
                                }
                                self.advance_profiles(next)
                            },
                        }
                    },
                }
            },
            (Phase::AwaitFreeProfiles, Event::Acked) => {
                let bound = self.interfaces.len();
                proof {
                    assert(self.iface_idx < bound);
                }
                let next = self.iface_idx + 1;
                self.advance_ifaces(next)
            },
            (Phase::AwaitFreeInterfaces, Event::Acked) => {
                self.phase = Phase::AwaitClose;
                self.closed = Ghost(1int);
                Action::CloseSession
            },
            (Phase::AwaitClose, Event::Acked) => {
                self.phase = Phase::Finished;
                Action::Finish { failed: self.failed }
            },
            _ => {
                proof {
                    assert(false);
                }
                Action::Finish { failed: true }
            },
        }
    }
}

/// Whether a fixed-width field holds a terminator: the well-formedness test
/// for description fields, whose decoded text the run does not keep.
pub fn field_has_terminator(field: &Vec<u16>) -> (r: bool)
    ensures
        r == has_nul(field@),
{
    let n = field.len();
    let mut i: usize = 0;
    while i < n
        invariant
            n == field@.len(),
            0 <= i <= n,
            forall|j: int| 0 <= j < i ==> field@[j] != 0,
        decreases n - i,
    {
        if field[i] == 0 {
            return true;
        }
        i = i + 1;
    }
    false
}

} // verus!

