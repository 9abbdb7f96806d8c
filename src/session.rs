use vstd::prelude::*;

use crate::error::VmmError;
use crate::frame::{exit_of, stderr_of, stdout_of, ExecutionFrame};
use crate::job::{
    default_config, request_is_valid, ExecuteRequest, RunVmmRequest, VmmService, PREPARE_AND_RUN,
};
use crate::language::{language_of_tag, name_of, Language};

verus! {

/// The first wait before dialling the agent, in milliseconds.
pub const FIRST_DELAY_MS: u64 = 100;

/// The longest wait between two dials, in milliseconds.
pub const MAX_DELAY_MS: u64 = 5000;

/// The most time spent waiting for the agent before giving up, in milliseconds.
pub const CONNECT_BUDGET_MS: u64 = 30000;

/// vCPUs given to each guest.
pub const VCPUS: u8 = 1;

/// Guest memory, in MiB.
pub const MEMORY_MIB: u32 = 4000;

/// Where a request stands.
#[derive(Clone, Copy, Debug, PartialEq, Eq, Structural)]
pub enum Phase {
    ResolvingKernel,
    ResolvingInitramfs,
    StartingVm,
    Connecting,
    Streaming,
    Closed,
}

/// What the host must do next for a request.
#[derive(Debug)]
pub enum Action {
    /// Make sure the kernel exists.
    ResolveKernel,
    /// Make sure the initramfs of this language (and the agent in it) exists.
    ResolveInitramfs(Language),
    /// Build, configure and launch the MicroVM in a background task.
    StartVm { vcpus: u8, mem_mib: u32 },
    /// Wait this long, then try once to reach the agent.
    Dial { delay_ms: u64 },
    /// Issue this call to the agent and read its stream.
    Execute(ExecuteRequest),
    /// Hand this frame to the caller.
    Forward(ExecutionFrame),
    /// The agent's stream ended: close the caller's stream.
    Close { teardown: bool },
    /// End the caller's stream with this error.
    Fail { error: VmmError, teardown: bool },
    /// The caller went away: stop the agent call.
    Stop { teardown: bool },
    /// The event changes nothing.
    Nothing,
}

/// The model of a request in flight.
pub ghost struct SessionView {
    pub phase: Phase,
    pub language: Language,
    pub call: Option<ExecuteRequest>,
    pub vm_up: bool,
    pub delay_ms: u64,
    pub waited_ms: u64,
    pub completed: bool,
    pub error: Option<VmmError>,
    pub delivered: Seq<ExecutionFrame>,
    pub vms_created: nat,
    pub vms_destroyed: nat,
}

impl SessionView {
    /// The request's invariant: at most one VM, released before the end, and
    /// frames only once a VM ran.
    pub open spec fn wf(self) -> bool {
        &&& self.vms_created <= 1
        &&& self.vms_destroyed <= self.vms_created
        &&& self.vm_up <==> self.vms_created > self.vms_destroyed
        &&& self.phase == Phase::ResolvingKernel || self.phase == Phase::ResolvingInitramfs
            || self.phase == Phase::StartingVm ==> self.vms_created == 0
        &&& self.phase == Phase::Connecting || self.phase == Phase::Streaming
            ==> self.vms_created == 1
        &&& self.phase == Phase::ResolvingKernel || self.phase == Phase::ResolvingInitramfs
            || self.phase == Phase::StartingVm || self.phase == Phase::Connecting
            ==> self.call is Some
        &&& self.phase == Phase::Connecting ==> self.vm_up
        &&& self.phase != Phase::Closed ==> self.error is None
        &&& self.phase == Phase::Closed ==> !self.vm_up
        &&& self.completed ==> self.phase == Phase::Closed && self.vms_created == 1
            && self.error is None
        &&& self.delivered.len() > 0 ==> self.vms_created == 1
        &&& self.phase != Phase::Streaming && self.phase != Phase::Closed
            ==> self.delivered.len() == 0
        &&& 0 < self.delay_ms <= MAX_DELAY_MS
        &&& self.waited_ms <= CONNECT_BUDGET_MS
    }

    /// This request closed; everything it held is released.
    pub open spec fn closed(self, error: Option<VmmError>) -> SessionView {
        SessionView {
            phase: Phase::Closed,
            vm_up: false,
            error,
            vms_destroyed: self.vms_created,
            ..self
        }
    }
}

/// The wait after a failed dial: double the last one, up to the cap.
pub open spec fn next_delay(d: u64) -> u64 {
    if 2 * d <= MAX_DELAY_MS {
        (2 * d) as u64
    } else {
        MAX_DELAY_MS
    }
}

/// Whether another dial still fits in the budget after the last one failed.
pub open spec fn may_retry(v: SessionView) -> bool {
    v.waited_ms + v.delay_ms + next_delay(v.delay_ms) <= CONNECT_BUDGET_MS
}

/// A failed dial: back off and dial again while the budget allows, else fail
/// with `AgentConnect`, releasing the VM.
pub open spec fn dial_failed(v: SessionView) -> SessionView {
    if may_retry(v) {
        SessionView {
            delay_ms: next_delay(v.delay_ms),
            waited_ms: (v.waited_ms + v.delay_ms) as u64,
            ..v
        }
    } else {
        v.closed(Some(VmmError::AgentConnect))
    }
}

/// The state after at most `n` failed dials (fewer once the request closed).
pub open spec fn after_failed_dials(v: SessionView, n: nat) -> SessionView
    decreases n,
{
    if n == 0 || v.phase != Phase::Connecting {
        v
    } else {
        after_failed_dials(dial_failed(v), (n - 1) as nat)
    }
}

/// A frame arriving: in the streaming phase it is recorded and passed on as it
/// is; otherwise nothing happens.
pub open spec fn frame_step(v: SessionView, f: ExecutionFrame) -> (SessionView, Option<ExecutionFrame>) {
    if v.phase == Phase::Streaming {
        (SessionView { delivered: v.delivered.push(f), ..v }, Some(f))
    } else {
        (v, None)
    }
}

/// The state after a run of frames.
pub open spec fn after_frames(v: SessionView, fs: Seq<ExecutionFrame>) -> SessionView
    decreases fs.len(),
{
    if fs.len() == 0 {
        v
    } else {
        frame_step(after_frames(v, fs.drop_last()), fs.last()).0
    }
}

/// The frames passed on to the caller during a run of frames, in order.
pub open spec fn forwarded(v: SessionView, fs: Seq<ExecutionFrame>) -> Seq<ExecutionFrame>
    decreases fs.len(),
{
    if fs.len() == 0 {
        Seq::empty()
    } else {
        let out = forwarded(v, fs.drop_last());
        match frame_step(after_frames(v, fs.drop_last()), fs.last()).1 {
            Some(f) => out.push(f),
            None => out,
        }
    }
}

/// One request, from validation to the end of its output stream.
pub struct Session {
    phase: Phase,
    language: Language,
    request: Option<ExecuteRequest>,
    vm_up: bool,
    delay_ms: u64,
    waited_ms: u64,
    completed: bool,
    error: Option<VmmError>,
    delivered: Ghost<Seq<ExecutionFrame>>,
    vms_created: Ghost<nat>,
    vms_destroyed: Ghost<nat>,
}

impl View for Session {
    type V = SessionView;

    closed spec fn view(&self) -> SessionView {
        SessionView {
            phase: self.phase,
            language: self.language,
            call: self.request,
            vm_up: self.vm_up,
            delay_ms: self.delay_ms,
            waited_ms: self.waited_ms,
            completed: self.completed,
            error: self.error,
            delivered: self.delivered@,
            vms_created: self.vms_created@,
            vms_destroyed: self.vms_destroyed@,
        }
    }
}

impl Session {
    /// Takes a job in. A malformed one is refused with `Validation` before any
    /// side effect; a valid one asks for the kernel first.
    pub fn start(service: &VmmService, req: RunVmmRequest) -> (r: (Session, Action))
        ensures
            r.0@.wf(),
            r.0@.vms_created == 0,
            r.0@.delivered.len() == 0,
            request_is_valid(req) ==> {
                &&& r.0@.phase == Phase::ResolvingKernel
                &&& Some(r.0@.language) == language_of_tag(req.language)
                &&& r.0@.call matches Some(c) && {
                    &&& c.workload_name == req.workload_name
                    &&& c.language@ == name_of(r.0@.language)
                    &&& c.action == PREPARE_AND_RUN
                    &&& c.code == req.code
                    &&& c.config_str@ == default_config()
                }
                &&& r.1 is ResolveKernel
            },
            !request_is_valid(req) ==> {
                &&& r.0@.phase == Phase::Closed
                &&& r.0@.error == Some(VmmError::Validation)
                &&& r.1 == (Action::Fail { error: VmmError::Validation, teardown: false })
            },
    {
        match service.validate(&req) {
            Err(e) => {
                let s = Session {
                    phase: Phase::Closed,
                    language: Language::Rust,
                    request: None,
                    vm_up: false,
                    delay_ms: FIRST_DELAY_MS,
                    waited_ms: 0,
                    completed: false,
                    error: Some(e),
                    delivered: Ghost(Seq::empty()),
                    vms_created: Ghost(0),
                    vms_destroyed: Ghost(0),
                };
                (s, Action::Fail { error: e, teardown: false })
            },
            Ok(language) => {
                let request = service.get_agent_request(req);
                let s = Session {
                    phase: Phase::ResolvingKernel,
                    language,
                    request: Some(request),
                    vm_up: false,
                    delay_ms: FIRST_DELAY_MS,
                    waited_ms: 0,
                    completed: false,
                    error: None,
                    delivered: Ghost(Seq::empty()),
                    vms_created: Ghost(0),
                    vms_destroyed: Ghost(0),
                };
                (s, Action::ResolveKernel)
            },
        }
    }

    /// The phase the request is in.
    pub fn phase(&self) -> (r: Phase)
        ensures
            r == self@.phase,
    {
        self.phase
    }

    /// The error the request ended with, if it did.
    pub fn error(&self) -> (r: Option<VmmError>)
        ensures
            r == self@.error,
    {
        self.error
    }

    /// The kernel was found or built (`ok`), or its build failed.
    pub fn kernel_resolved(&mut self, ok: bool) -> (r: Action)
        requires
            old(self)@.wf(),
        ensures
            final(self)@.wf(),
            old(self)@.phase != Phase::ResolvingKernel ==> r is Nothing && final(self)@ == old(self)@,
            old(self)@.phase == Phase::ResolvingKernel && ok ==> {
                &&& final(self)@ == (SessionView { phase: Phase::ResolvingInitramfs, ..old(self)@ })
                &&& r == Action::ResolveInitramfs(old(self)@.language)
            },
            old(self)@.phase == Phase::ResolvingKernel && !ok ==> {
                &&& final(self)@ == old(self)@.closed(Some(VmmError::ArtifactBuild))
                &&& r == (Action::Fail { error: VmmError::ArtifactBuild, teardown: false })
            },
    {
        if self.phase != Phase::ResolvingKernel {
            return Action::Nothing;
        }
        if ok {
            self.phase = Phase::ResolvingInitramfs;
            Action::ResolveInitramfs(self.language)
        } else {
            self.phase = Phase::Closed;
            self.error = Some(VmmError::ArtifactBuild);
            Action::Fail { error: VmmError::ArtifactBuild, teardown: false }
        }
    }

    /// The initramfs was found or built (`ok`), or its build failed.
    pub fn initramfs_resolved(&mut self, ok: bool) -> (r: Action)
        requires
            old(self)@.wf(),
        ensures
            final(self)@.wf(),
            old(self)@.phase != Phase::ResolvingInitramfs ==> r is Nothing && final(self)@
                == old(self)@,
            old(self)@.phase == Phase::ResolvingInitramfs && ok ==> {
                &&& final(self)@ == (SessionView { phase: Phase::StartingVm, ..old(self)@ })
                &&& r == (Action::StartVm { vcpus: VCPUS, mem_mib: MEMORY_MIB })
            },
            old(self)@.phase == Phase::ResolvingInitramfs && !ok ==> {
                &&& final(self)@ == old(self)@.closed(Some(VmmError::ArtifactBuild))
                &&& r == (Action::Fail { error: VmmError::ArtifactBuild, teardown: false })
            },
    {
        if self.phase != Phase::ResolvingInitramfs {
            return Action::Nothing;
        }
        if ok {
            self.phase = Phase::StartingVm;
            Action::StartVm { vcpus: VCPUS, mem_mib: MEMORY_MIB }
        } else {
            self.phase = Phase::Closed;
            self.error = Some(VmmError::ArtifactBuild);
            Action::Fail { error: VmmError::ArtifactBuild, teardown: false }
        }
    }

    /// The MicroVM was built, configured and launched, or one of those failed
    /// (`VmmNew`, `VmmConfigure`), having released what it had taken.
    pub fn vm_started(&mut self, result: Result<(), VmmError>) -> (r: Action)
        requires
            old(self)@.wf(),
        ensures
            final(self)@.wf(),
            old(self)@.phase != Phase::StartingVm ==> r is Nothing && final(self)@ == old(self)@,
            old(self)@.phase == Phase::StartingVm && result is Ok ==> {
                &&& final(self)@ == (SessionView {
                    phase: Phase::Connecting,
                    vm_up: true,
                    vms_created: 1,
                    ..old(self)@
                })
                &&& r == (Action::Dial { delay_ms: old(self)@.delay_ms })
            },
            old(self)@.phase == Phase::StartingVm ==> (result matches Err(e) ==> {
                &&& final(self)@ == old(self)@.closed(Some(e))
                &&& r == (Action::Fail { error: e, teardown: false })
            }),
    {
        if self.phase != Phase::StartingVm {
            return Action::Nothing;
        }
        match result {
            Ok(()) => {
                self.phase = Phase::Connecting;
                self.vm_up = true;
                self.vms_created = Ghost(1);
                Action::Dial { delay_ms: self.delay_ms }
            },
            Err(e) => {
                self.phase = Phase::Closed;
                self.error = Some(e);
                Action::Fail { error: e, teardown: false }
            },
        }
    }

    /// The last dial reached the agent (`ok`) or not. On success the agent's
    /// call is issued; on failure the wait doubles, up to its cap, until the
    /// budget is spent, and then the request fails with `AgentConnect` and its
    /// VM is torn down.
    pub fn connect_result(&mut self, ok: bool) -> (r: Action)
        requires
            old(self)@.wf(),
        ensures
            final(self)@.wf(),
            old(self)@.phase != Phase::Connecting ==> r is Nothing && final(self)@ == old(self)@,
            old(self)@.phase == Phase::Connecting && ok ==> {
                &&& final(self)@ == (SessionView {
                    phase: Phase::Streaming,
                    call: None,
                    ..old(self)@
                })
                &&& r == Action::Execute(old(self)@.call->Some_0)
            },
            old(self)@.phase == Phase::Connecting && !ok ==> final(self)@ == dial_failed(old(self)@),
            old(self)@.phase == Phase::Connecting && !ok && may_retry(old(self)@) ==> {
                &&& final(self)@ == (SessionView {
                    delay_ms: next_delay(old(self)@.delay_ms),
                    waited_ms: (old(self)@.waited_ms + old(self)@.delay_ms) as u64,
                    ..old(self)@
                })
                &&& r == (Action::Dial { delay_ms: next_delay(old(self)@.delay_ms) })
            },
            old(self)@.phase == Phase::Connecting && !ok && !may_retry(old(self)@) ==> {
                &&& final(self)@ == old(self)@.closed(Some(VmmError::AgentConnect))
                &&& r == (Action::Fail { error: VmmError::AgentConnect, teardown: true })
            },
    {
        if self.phase != Phase::Connecting {
            return Action::Nothing;
        }
        if ok {
            self.phase = Phase::Streaming;
            match self.request.take() {
                Some(req) => Action::Execute(req),
                None => Action::Nothing,
            }
        } else {
            let next = if self.delay_ms <= MAX_DELAY_MS / 2 {
                2 * self.delay_ms
            } else {
                MAX_DELAY_MS
            };
            if self.waited_ms + self.delay_ms + next <= CONNECT_BUDGET_MS {
                self.waited_ms = self.waited_ms + self.delay_ms;
                self.delay_ms = next;
                Action::Dial { delay_ms: next }
            } else {
                self.phase = Phase::Closed;
                self.vm_up = false;
                self.error = Some(VmmError::AgentConnect);
                self.vms_destroyed = Ghost(self.vms_created@);
                Action::Fail { error: VmmError::AgentConnect, teardown: true }
            }
        }
    }

    /// A frame arrived from the agent. While streaming it is handed to the
    /// caller unchanged; at any other time it is ignored.
    pub fn frame(&mut self, f: ExecutionFrame) -> (r: Action)
        requires
            old(self)@.wf(),
        ensures
            final(self)@.wf(),
            final(self)@ == frame_step(old(self)@, f).0,
            frame_step(old(self)@, f).1 matches Some(g) ==> r == Action::Forward(g),
            frame_step(old(self)@, f).1 is None ==> r is Nothing,
    {
        if self.phase != Phase::Streaming {
            return Action::Nothing;
        }
        let ghost g = f;
        self.delivered = Ghost(self.delivered@.push(g));
        Action::Forward(f)
    }

    /// The agent closed its stream: the caller's stream closes and the VM, if
    /// still up, is torn down.
    pub fn stream_ended(&mut self) -> (r: Action)
        requires
            old(self)@.wf(),
        ensures
            final(self)@.wf(),
            old(self)@.phase != Phase::Streaming ==> r is Nothing && final(self)@ == old(self)@,
            old(self)@.phase == Phase::Streaming ==> {
                &&& final(self)@ == (SessionView { completed: true, ..old(self)@.closed(None) })
                &&& r == (Action::Close { teardown: old(self)@.vm_up })
            },
    {
        if self.phase != Phase::Streaming {
            return Action::Nothing;
        }
        let teardown = self.vm_up;
        self.phase = Phase::Closed;
        self.vm_up = false;
        self.completed = true;
        self.vms_destroyed = Ghost(self.vms_created@);
        Action::Close { teardown }
    }

    /// The agent's stream broke off: the request fails with `AgentRpc`; frames
    /// already handed on stay valid.
    pub fn rpc_failed(&mut self) -> (r: Action)
        requires
            old(self)@.wf(),
        ensures
            final(self)@.wf(),
            old(self)@.phase != Phase::Streaming ==> r is Nothing && final(self)@ == old(self)@,
            old(self)@.phase == Phase::Streaming ==> {
                &&& final(self)@ == old(self)@.closed(Some(VmmError::AgentRpc))
                &&& r == (Action::Fail { error: VmmError::AgentRpc, teardown: old(self)@.vm_up })
            },
    {
        if self.phase != Phase::Streaming {
            return Action::Nothing;
        }
        let teardown = self.vm_up;
        self.phase = Phase::Closed;
        self.vm_up = false;
        self.error = Some(VmmError::AgentRpc);
        self.vms_destroyed = Ghost(self.vms_created@);
        Action::Fail { error: VmmError::AgentRpc, teardown }
    }

    /// The VM's run loop ended on its own, cleanly (`ok`) or not. Its handle is
    /// gone. A fault, or any halt before the agent answered, fails the request
    /// with `VmmRun`; a clean halt while streaming lets the stream run out.
    pub fn vm_exited(&mut self, ok: bool) -> (r: Action)
        requires
            old(self)@.wf(),
        ensures
            final(self)@.wf(),
            !old(self)@.vm_up ==> r is Nothing && final(self)@ == old(self)@,
            old(self)@.vm_up && (old(self)@.phase == Phase::Connecting || !ok) ==> {
                &&& final(self)@ == old(self)@.closed(Some(VmmError::VmmRun))
                &&& r == (Action::Fail { error: VmmError::VmmRun, teardown: false })
            },
            old(self)@.vm_up && old(self)@.phase == Phase::Streaming && ok ==> {
                &&& final(self)@ == (SessionView {
                    vm_up: false,
                    vms_destroyed: old(self)@.vms_created,
                    ..old(self)@
                })
                &&& r is Nothing
            },
    {
        if !self.vm_up {
            return Action::Nothing;
        }
        self.vm_up = false;
        self.vms_destroyed = Ghost(self.vms_created@);
        if self.phase == Phase::Connecting || !ok {
            self.phase = Phase::Closed;
            self.error = Some(VmmError::VmmRun);
            Action::Fail { error: VmmError::VmmRun, teardown: false }
        } else {
            Action::Nothing
        }
    }

    /// The caller dropped its stream: the agent call stops and the VM, if up,
    /// is torn down; nothing is left held.
    pub fn cancel(&mut self) -> (r: Action)
        requires
            old(self)@.wf(),
        ensures
            final(self)@.wf(),
            old(self)@.phase == Phase::Closed ==> r is Nothing && final(self)@ == old(self)@,
            old(self)@.phase != Phase::Closed ==> {
                &&& final(self)@ == old(self)@.closed(old(self)@.error)
                &&& r == (Action::Stop { teardown: old(self)@.vm_up })
            },
            final(self)@.vms_destroyed == final(self)@.vms_created,
    {
        if self.phase == Phase::Closed {
            return Action::Nothing;
        }
        let teardown = self.vm_up;
        self.phase = Phase::Closed;
        self.vm_up = false;
        self.vms_destroyed = Ghost(self.vms_created@);
        Action::Stop { teardown }
    }
}

/// Every request that completed created exactly one VM and destroyed exactly one.
pub proof fn lemma_completed_request_balances_vms(v: SessionView)
    requires
        v.wf(),
        v.completed,
    ensures
        v.vms_created == 1,
        v.vms_destroyed == 1,
{
}

/// While streaming, the frames the caller receives are exactly the agent's, in
/// the order it sent them: none dropped, added, merged, split or reordered.
pub proof fn lemma_frames_forwarded_in_order(v: SessionView, fs: Seq<ExecutionFrame>)
    requires
        v.phase == Phase::Streaming,
    ensures
        forwarded(v, fs) == fs,
        after_frames(v, fs).delivered == v.delivered + fs,
        after_frames(v, fs).phase == Phase::Streaming,
    decreases fs.len(),
{
    if fs.len() > 0 {
        lemma_frames_forwarded_in_order(v, fs.drop_last());
        assert(fs.drop_last().push(fs.last()) == fs);
        assert(v.delivered + fs.drop_last().push(fs.last()) == (v.delivered + fs.drop_last()).push(
            fs.last(),
        ));
    }
}

/// What the agent printed on each stream, and its exit code, is what the caller
/// gets when it joins the frames it received.
pub proof fn lemma_delivered_output_is_agent_output(v: SessionView, fs: Seq<ExecutionFrame>)
    requires
        v.phase == Phase::Streaming,
        v.delivered.len() == 0,
    ensures
        stdout_of(after_frames(v, fs).delivered) == stdout_of(fs),
        stderr_of(after_frames(v, fs).delivered) == stderr_of(fs),
        exit_of(after_frames(v, fs).delivered) == exit_of(fs),
{
    lemma_frames_forwarded_in_order(v, fs);
    assert(v.delivered + fs == fs);
}

proof fn lemma_dial_failed_wf(v: SessionView)
    requires
        v.wf(),
        v.phase == Phase::Connecting,
    ensures
        dial_failed(v).wf(),
        dial_failed(v).phase == Phase::Connecting ==> dial_failed(v).waited_ms > v.waited_ms,
{
}

/// An agent that never answers: once the dials have used up the budget the
/// request has failed with `AgentConnect`, delivered no frame, and released its VM.
pub proof fn lemma_unreachable_agent_fails(v: SessionView, n: nat)
    requires
        v.wf(),
        v.phase == Phase::Connecting,
        n > CONNECT_BUDGET_MS - v.waited_ms,
    ensures
        after_failed_dials(v, n).phase == Phase::Closed,
        after_failed_dials(v, n).error == Some(VmmError::AgentConnect),
        after_failed_dials(v, n).delivered.len() == 0,
        after_failed_dials(v, n).vms_destroyed == after_failed_dials(v, n).vms_created,
    decreases n,
{
    lemma_dial_failed_wf(v);
    let w = dial_failed(v);
    assert(after_failed_dials(v, n) == after_failed_dials(w, (n - 1) as nat));
    if w.phase == Phase::Connecting {
        lemma_unreachable_agent_fails(w, (n - 1) as nat);
    } else {
        assert(after_failed_dials(w, (n - 1) as nat) == w);
    }
}

} // verus!
