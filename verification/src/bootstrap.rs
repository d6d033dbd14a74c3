//! One-shot session bootstrap. While peers are still being discovered it
//! does nothing but wait; the instant the required player count is reached
//! it assigns stable handles in discovery order, truncating any excess
//! peers, builds the session plan (per-handle kind, input token width,
//! rollback window, per-local-handle frame delay) and goes live — all
//! within the same tick, never lingering in the ready state across ticks.
//! Going live is irreversible; a transport failure before that is fatal
//! and latched. The constructed plan is what the caller hands to the
//! rollback engine.

use vstd::prelude::*;
use crate::discovery::{has_id, ids_distinct, DiscoveryGate, Peer, PlayerKind};

verus! {

/// Why a bootstrap step failed.
#[derive(Clone, Copy, PartialEq, Eq, Structural, Debug)]
pub enum BootstrapError {
    /// The signaling transport errored before all peers joined.
    DiscoveryFailed,
    /// Programmer-level misuse: a frame delay set on a remote handle or
    /// set twice, or a handle assigned out of order. Fatal, never
    /// auto-corrected.
    InvalidConfiguration,
    /// A player addition was rejected (duplicate peer id). Fatal to the
    /// bootstrap; no retry with partial state.
    SessionConstructionFailed,
}

/// Process-level configuration, fixed at start; no runtime
/// reconfiguration.
#[derive(Clone, Copy, PartialEq, Eq, Structural, Debug)]
pub struct BootstrapConfig {
    /// How many players the session needs before it can go live.
    pub required_player_count: usize,
    /// Wire width of one encoded input token, agreed by all peers.
    pub input_token_width_bytes: usize,
    /// Largest number of frames the engine may re-simulate on a
    /// correction.
    pub max_rollback_window: usize,
    /// Input buffering, in frames, applied to every local handle.
    pub local_frame_delay: usize,
}

impl BootstrapConfig {
    /// Well-formedness: at least one player, a positive rollback window,
    /// and a positive token width.
    pub open spec fn wf(&self) -> bool {
        &&& self.required_player_count >= 1
        &&& self.max_rollback_window >= 1
        &&& self.input_token_width_bytes >= 1
    }
}

/// Session lifecycle. `Ready` is only ever passed through inside a single
/// tick; `Live` and `Failed` are terminal.
#[derive(Clone, Copy, PartialEq, Eq, Structural, Debug)]
pub enum SessionState {
    Discovering,
    Ready,
    Live,
    Failed,
}

/// Everything the rollback engine needs to construct the live session:
/// player count, wire width, rollback window, and per-handle peer and
/// frame delay. Handles are the indices: `players[h]` is the peer assigned
/// handle `h`, and `frame_delays[h]` is set exactly for local handles.
#[derive(Clone, Debug)]
pub struct SessionPlan {
    pub num_players: usize,
    pub input_token_width_bytes: usize,
    pub max_rollback_window: usize,
    pub players: Vec<Peer>,
    pub frame_delays: Vec<Option<usize>>,
}

impl SessionPlan {
    /// Well-formedness: one delay slot per added player, no more players
    /// than the session size, no duplicate peer id, and a delay only ever
    /// set on a local handle.
    pub open spec fn wf(&self) -> bool {
        &&& self.players@.len() == self.frame_delays@.len()
        &&& self.players@.len() <= self.num_players
        &&& ids_distinct(self.players@)
        &&& forall|h: int|
            0 <= h < self.frame_delays@.len() ==> (self.frame_delays@[h] is Some
                ==> self.players@[h].kind == PlayerKind::Local)
    }

    /// Whether every handle of the session has been assigned a peer.
    pub open spec fn complete(&self) -> bool {
        self.players@.len() == self.num_players
    }

    /// An empty plan for a session of the given size.
    pub fn new(num_players: usize, input_token_width_bytes: usize, max_rollback_window: usize) -> (r:
        SessionPlan)
        ensures
            r.wf(),
            r.num_players == num_players,
            r.input_token_width_bytes == input_token_width_bytes,
            r.max_rollback_window == max_rollback_window,
            r.players@ == Seq::<Peer>::empty(),
            r.frame_delays@ == Seq::<Option<usize>>::empty(),
    {
        SessionPlan {
            num_players,
            input_token_width_bytes,
            max_rollback_window,
            players: Vec::new(),
            frame_delays: Vec::new(),
        }
    }

    /// Assigns the next handle to a peer. Handles must be assigned
    /// contiguously from zero: the call succeeds exactly when `handle` is
    /// the next unassigned one, the session still has room, and the peer's
    /// id is new. A handle out of order is a configuration error; a
    /// duplicate peer id is a construction failure. Either failure leaves
    /// the plan untouched.
    pub fn add_player(&mut self, peer: Peer, handle: usize) -> (r: Result<(), BootstrapError>)
        requires
            old(self).wf(),
        ensures
            final(self).wf(),
            final(self).num_players == old(self).num_players,
            final(self).input_token_width_bytes == old(self).input_token_width_bytes,
            final(self).max_rollback_window == old(self).max_rollback_window,
            (handle != old(self).players@.len() || handle >= old(self).num_players) ==> (r
                == Err::<(), BootstrapError>(BootstrapError::InvalidConfiguration) && *final(self)
                == *old(self)),
            (handle == old(self).players@.len() && handle < old(self).num_players && has_id(
                old(self).players@,
                peer.id,
            )) ==> (r == Err::<(), BootstrapError>(BootstrapError::SessionConstructionFailed)
                && *final(self) == *old(self)),
            (handle == old(self).players@.len() && handle < old(self).num_players && !has_id(
                old(self).players@,
                peer.id,
            )) ==> (r == Ok::<(), BootstrapError>(()) && final(self).players@ == old(
                self,
            ).players@.push(peer) && final(self).frame_delays@ == old(self).frame_delays@.push(
                None,
            )),
    {
        if handle != self.players.len() || handle >= self.num_players {
            return Err(BootstrapError::InvalidConfiguration);
        }
        let m = self.players.len();
        let mut i: usize = 0;
        while i < m
            invariant
                *self == *old(self),
                old(self).wf(),
                handle == old(self).players@.len(),
                handle < old(self).num_players,
                m == self.players@.len(),
                i <= m,
                forall|j: int| 0 <= j < i ==> self.players@[j].id != peer.id,
            decreases m - i,
        {
            if self.players[i].id == peer.id {
                return Err(BootstrapError::SessionConstructionFailed);
            }
            i = i + 1;
        }
        assert(!has_id(self.players@, peer.id));
        self.players.push(peer);
        self.frame_delays.push(None);
        Ok(())
    }

    /// Sets the input frame delay of one handle. Succeeds exactly when
    /// the handle is assigned, local, and has no delay yet: a delay on a
    /// remote handle, on an unassigned handle, or set a second time is a
    /// programmer error and fails fast, leaving the plan untouched.
    pub fn set_frame_delay(&mut self, delay: usize, handle: usize) -> (r: Result<
        (),
        BootstrapError,
    >)
        requires
            old(self).wf(),
        ensures
            final(self).wf(),
            final(self).num_players == old(self).num_players,
            final(self).input_token_width_bytes == old(self).input_token_width_bytes,
            final(self).max_rollback_window == old(self).max_rollback_window,
            final(self).players@ == old(self).players@,
            (handle < old(self).players@.len() && old(self).players@[handle as int].kind
                == PlayerKind::Local && old(self).frame_delays@[handle as int] is None) ==> (r
                == Ok::<(), BootstrapError>(()) && final(self).frame_delays@ == old(
                self,
            ).frame_delays@.update(handle as int, Some(delay))),
            !(handle < old(self).players@.len() && old(self).players@[handle as int].kind
                == PlayerKind::Local && old(self).frame_delays@[handle as int] is None) ==> (r
                == Err::<(), BootstrapError>(BootstrapError::InvalidConfiguration) && *final(self)
                == *old(self)),
    {
        if handle >= self.players.len() {
            return Err(BootstrapError::InvalidConfiguration);
        }
        if !(self.players[handle].kind == PlayerKind::Local) {
            return Err(BootstrapError::InvalidConfiguration);
        }
        if self.frame_delays[handle].is_some() {
            return Err(BootstrapError::InvalidConfiguration);
        }
        self.frame_delays.set(handle, Some(delay));
        Ok(())
    }
}

/// The delay column of a finished plan: the configured delay for every
/// local handle, nothing for remote ones.
pub open spec fn planned_delays(peers: Seq<Peer>, required: int, delay: usize) -> Seq<
    Option<usize>,
> {
    Seq::new(required as nat, |h: int|
        if peers[h].kind == PlayerKind::Local {
            Some(delay)
        } else {
            None
        },
    )
}

/// The bootstrap state machine. Drive it once per scheduler tick with the
/// current discovery gate until it reports a plan or a failure; after
/// that every further tick is a no-op.
pub struct Bootstrap {
    pub config: BootstrapConfig,
    pub state: SessionState,
}

impl Bootstrap {
    /// Well-formedness: the configuration is valid and the machine is
    /// never left resting in `Ready`.
    pub open spec fn wf(&self) -> bool {
        &&& self.config.wf()
        &&& !(self.state is Ready)
    }

    /// A fresh bootstrap, discovering.
    pub fn new(config: BootstrapConfig) -> (r: Bootstrap)
        requires
            config.wf(),
        ensures
            r.config == config,
            r.state is Discovering,
            r.wf(),
    {
        Bootstrap { config, state: SessionState::Discovering }
    }

    /// The current lifecycle state.
    pub fn state(&self) -> (r: SessionState)
        ensures
            r == self.state,
    {
        self.state
    }

    /// One tick of the bootstrap. While discovering: a latched transport
    /// failure is fatal; too few peers means keep waiting with no other
    /// effect; once the required count is present, handles are assigned
    /// in first-seen order (excess peers deterministically truncated),
    /// local handles get the configured frame delay, and the machine goes
    /// live in this same tick, returning the finished plan exactly once.
    /// After `Live` or `Failed` the tick does nothing at all.
    pub fn tick(&mut self, gate: &DiscoveryGate) -> (r: Result<Option<SessionPlan>, BootstrapError>)
        requires
            old(self).wf(),
            gate.wf(),
        ensures
            final(self).wf(),
            final(self).config == old(self).config,
            !(old(self).state is Discovering) ==> (*final(self) == *old(self) && r == Ok::<
                Option<SessionPlan>,
                BootstrapError,
            >(None)),
            (old(self).state is Discovering && gate.failed_spec()) ==> (final(self).state is Failed
                && r == Err::<Option<SessionPlan>, BootstrapError>(
                BootstrapError::DiscoveryFailed,
            )),
            (old(self).state is Discovering && !gate.failed_spec() && gate.peers_seq().len() < old(
                self,
            ).config.required_player_count) ==> (final(self).state is Discovering && r == Ok::<
                Option<SessionPlan>,
                BootstrapError,
            >(None)),
            (old(self).state is Discovering && !gate.failed_spec() && gate.peers_seq().len() >= old(
                self,
            ).config.required_player_count) ==> (final(self).state is Live && (r matches Ok(p)
                && p matches Some(plan) && plan.wf() && plan.complete() && plan.num_players == old(
                self,
            ).config.required_player_count && plan.input_token_width_bytes == old(
                self,
            ).config.input_token_width_bytes && plan.max_rollback_window == old(
                self,
            ).config.max_rollback_window && plan.players@ == gate.peers_seq().take(
                old(self).config.required_player_count as int,
            ) && plan.frame_delays@ == planned_delays(
                gate.peers_seq(),
                old(self).config.required_player_count as int,
                old(self).config.local_frame_delay,
            ))),
    {
        if !(self.state == SessionState::Discovering) {
            return Ok(None);
        }
        if gate.has_failed() {
            self.state = SessionState::Failed;
            return Err(BootstrapError::DiscoveryFailed);
        }
        let required = self.config.required_player_count;
        if gate.known_count() < required {
            return Ok(None);
        }
        // Threshold reached: pass through Ready and build the plan now,
        // within this same tick.
        self.state = SessionState::Ready;
        let peers = gate.known_peers();
        let mut plan = SessionPlan::new(
            required,
            self.config.input_token_width_bytes,
            self.config.max_rollback_window,
        );
        let ghost all = gate.peers_seq();
        let mut h: usize = 0;
        while h < required
            invariant
                gate.wf(),
                all == gate.peers_seq(),
                peers@ == all,
                required <= all.len(),
                h <= required,
                plan.wf(),
                plan.num_players == required,
                plan.input_token_width_bytes == old(self).config.input_token_width_bytes,
                plan.max_rollback_window == old(self).config.max_rollback_window,
                plan.players@ == all.take(h as int),
                plan.frame_delays@ == planned_delays(
                    all,
                    required as int,
                    old(self).config.local_frame_delay,
                ).take(h as int),
                self.config == old(self).config,
                self.state == SessionState::Ready,
                old(self).wf(),
                required == old(self).config.required_player_count,
            decreases required - h,
        {
            let peer = peers[h];
            proof {
                assert(!has_id(plan.players@, peer.id)) by {
                    assert forall|j: int| 0 <= j < h implies all.take(h as int)[j].id != peer.id by {
                        assert(all[j].id != all[h as int].id);
                    }
                }
            }
            let added = plan.add_player(peer, h);
            match added {
                Ok(()) => {},
                Err(e) => {
                    // Unreachable: the discovery cache holds distinct peer ids
                    // and handles are assigned in order. Kept as the
                    // fatal path the policy demands of any assignment
                    // error.
                    self.state = SessionState::Failed;
                    return Err(e);
                },
            }
            if peer.kind == PlayerKind::Local {
                let delayed = plan.set_frame_delay(self.config.local_frame_delay, h);
                match delayed {
                    Ok(()) => {},
                    Err(e) => {
                        self.state = SessionState::Failed;
                        return Err(e);
                    },
                }
            }
            proof {
                assert(plan.players@ =~= all.take(h as int + 1));
                assert(plan.frame_delays@ =~= planned_delays(
                    all,
                    required as int,
                    old(self).config.local_frame_delay,
                ).take(h as int + 1));
            }
            h = h + 1;
        }
        proof {
            assert(plan.frame_delays@ =~= planned_delays(
                all,
                required as int,
                old(self).config.local_frame_delay,
            ));
        }
        self.state = SessionState::Live;
        Ok(Some(plan))
    }
}

/// Handle stability: the plan assigns handle `h` to the `h`-th peer in
/// first-seen discovery order, for every handle of the session — so a
/// discovery order of two peers always yields handles zero and one in
/// that order, on every peer that saw the same order.
pub proof fn lemma_handle_assignment(peers: Seq<Peer>, required: int, h: int)
    requires
        0 <= h < required <= peers.len(),
    ensures
        peers.take(required)[h] == peers[h],
{
}

} // verus!
