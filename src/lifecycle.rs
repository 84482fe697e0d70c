//! The life cycle of a region handle as a state machine.
//!
//! Creating a region takes four system calls (exclusive open, resize, map,
//! lock initialisation); opening one takes three (open, size query, map). The
//! machine says which call comes next ([`Region::next_action`]); the caller
//! performs it and hands back its outcome ([`Region::advance`]). Teardown is a
//! plan of calls derived from what the handle holds ([`Region::teardown_steps`]),
//! which also rolls back a creation that failed half way.
use vstd::prelude::*;
use crate::layout::{ctl_size, max_region_len, region_len, control_block_size};

verus! {

/// Failure of a system call, as its errno classifies it.
#[derive(Clone, Copy, Debug, PartialEq, Eq, Structural)]
pub enum OsError {
    /// The named object already exists.
    Exists,
    /// No object of that name exists.
    Missing,
    /// Any other errno value.
    Other(i32),
}

/// Why a region could not be created or opened.
#[derive(Clone, Copy, Debug, PartialEq, Eq, Structural)]
pub enum RegionError {
    /// `create` on an identifier that is already taken.
    AlreadyExists,
    /// `open` on an identifier that names no region.
    NotFound,
    /// Creating, resizing or mapping a new backing object failed; `None` when
    /// the requested size cannot be laid out at all.
    BackingAllocationError(Option<OsError>),
    /// Opening or mapping an existing backing object failed; `None` when the
    /// object's size cannot hold a control block.
    MapError(Option<OsError>),
    /// The identifier is empty, or an outcome was handed back that does not
    /// answer the action asked for.
    InvalidState,
}

/// Where a handle stands in its life cycle.
#[derive(Clone, Copy, Debug, PartialEq, Eq, Structural)]
pub enum Phase {
    /// Nothing acquired yet.
    Start,
    /// The backing object is open.
    Opened,
    /// The size of the backing object is settled.
    Sized,
    /// The backing object is mapped; its lock is not initialised yet.
    Mapped,
    /// The region is usable.
    Ready,
    /// Creation or opening failed; what was acquired is still held.
    Failed(RegionError),
    /// Everything was released.
    TornDown,
}

/// The next system call a handle asks for.
#[derive(Clone, Copy, Debug, PartialEq, Eq, Structural)]
pub enum Action {
    /// Open the backing object, creating it, failing if it exists, read-write.
    OpenExclusive,
    /// Open the existing backing object read-write.
    OpenExisting,
    /// Set the length of the backing object to this many bytes.
    Resize(usize),
    /// Ask the backing object for its length.
    QuerySize,
    /// Map this many bytes of the backing object, shared and read-write.
    MapRegion(usize),
    /// Initialise the control block's lock as shared between processes.
    InitLock,
    /// No call: the handle is ready, failed or torn down.
    Finished,
}

/// The outcome of the action performed.
#[derive(Clone, Copy, Debug, PartialEq, Eq, Structural)]
pub enum Outcome {
    /// The backing object was opened, with this descriptor.
    Opened(i32),
    /// A resize, map or lock initialisation succeeded.
    Done,
    /// The backing object has this length in bytes.
    Size(i64),
    /// The call failed.
    Failed(OsError),
}

/// One system call of a teardown.
#[derive(Clone, Copy, Debug, PartialEq, Eq, Structural)]
pub enum TeardownStep {
    /// Unmap this many bytes of the mapping.
    Unmap(usize),
    /// Remove the backing object's name.
    Unlink,
    /// Release the descriptor.
    Close,
}

/// A teardown call that failed. Teardown goes on after it; the warning is
/// reported, never raised.
#[derive(Clone, Copy, Debug, PartialEq, Eq, Structural)]
pub struct TeardownWarning {
    /// The call that failed.
    pub step: TeardownStep,
    /// How it failed.
    pub error: OsError,
}

/// The warnings of the first `n` teardown calls, in order: one for each call
/// whose result is an error.
pub open spec fn warnings_of(
    steps: Seq<TeardownStep>,
    results: Seq<Option<OsError>>,
    n: nat,
) -> Seq<TeardownWarning>
    decreases n,
{
    if n == 0 {
        seq![]
    } else {
        let earlier = warnings_of(steps, results, (n - 1) as nat);
        match results[n - 1] {
            Some(e) => earlier.push(TeardownWarning { step: steps[n - 1], error: e }),
            None => earlier,
        }
    }
}

/// What a handle holds, apart from its identifier.
#[derive(Clone, Copy, Debug, PartialEq, Eq, Structural)]
pub struct Machine {
    /// The handle created the backing object and removes it on teardown.
    pub owner: bool,
    /// Descriptor of the backing object, while it is open.
    pub fd: Option<i32>,
    /// Length of the whole region, control block included.
    pub region_size: usize,
    /// The region is mapped into this process.
    pub mapped: bool,
    /// Where the handle stands.
    pub phase: Phase,
}

/// A region handle: the identifier of its backing object and its machine.
pub struct Region {
    /// Identifier of the backing object, stable across processes.
    pub name: String,
    /// What the handle holds and where it stands.
    pub state: Machine,
}

/// The state a handle holds at each phase.
pub open spec fn wf(m: Machine) -> bool {
    &&& m.owner ==> m.region_size >= ctl_size() && m.region_size <= max_region_len()
    &&& m.mapped ==> m.fd.is_some()
    &&& (m.phase == Phase::Start || m.phase == Phase::TornDown) ==> m.fd.is_none() && !m.mapped
    &&& (m.phase == Phase::Opened || m.phase == Phase::Sized) ==> m.fd.is_some() && !m.mapped
    &&& m.phase == Phase::Sized ==> m.region_size >= ctl_size()
    &&& m.phase == Phase::Mapped ==> m.owner && m.mapped
    &&& m.phase == Phase::Ready ==> m.mapped && m.region_size >= ctl_size()
}

/// A handle about to create a region with `user_size` bytes of user data.
pub open spec fn create_start(user_size: nat) -> Machine {
    Machine {
        owner: true,
        fd: None,
        region_size: (user_size + ctl_size()) as usize,
        mapped: false,
        phase: Phase::Start,
    }
}

/// A handle about to open an existing region.
pub open spec fn open_start() -> Machine {
    Machine { owner: false, fd: None, region_size: 0, mapped: false, phase: Phase::Start }
}

/// The system call that a handle in state `m` asks for.
pub open spec fn action_of(m: Machine) -> Action {
    match m.phase {
        Phase::Start => if m.owner { Action::OpenExclusive } else { Action::OpenExisting },
        Phase::Opened => if m.owner { Action::Resize(m.region_size) } else { Action::QuerySize },
        Phase::Sized => Action::MapRegion(m.region_size),
        Phase::Mapped => Action::InitLock,
        _ => Action::Finished,
    }
}

/// The error of a failed call made in phase `phase`: the first call tells a
/// taken or missing identifier apart; later calls fail as allocation errors
/// when creating and as mapping errors when opening.
pub open spec fn error_of(owner: bool, phase: Phase, e: OsError) -> RegionError {
    if owner {
        if phase == Phase::Start && e == OsError::Exists {
            RegionError::AlreadyExists
        } else {
            RegionError::BackingAllocationError(Some(e))
        }
    } else {
        if phase == Phase::Start && e == OsError::Missing {
            RegionError::NotFound
        } else {
            RegionError::MapError(Some(e))
        }
    }
}

/// A length reported by the backing object that a region can have.
pub open spec fn usable_len(n: i64) -> bool {
    ctl_size() <= n && n <= max_region_len()
}

/// The state after outcome `o` of the action that `m` asked for. A failure
/// keeps what was acquired, so that teardown releases it. An outcome that does
/// not answer the action fails the handle; one handed to a finished handle is
/// ignored.
pub open spec fn step(m: Machine, o: Outcome) -> Machine {
    let fail = |e: RegionError| Machine { phase: Phase::Failed(e), ..m };
    match action_of(m) {
        Action::Finished => m,
        Action::OpenExclusive | Action::OpenExisting => match o {
            Outcome::Opened(fd) => Machine { fd: Some(fd), phase: Phase::Opened, ..m },
            Outcome::Failed(e) => fail(error_of(m.owner, m.phase, e)),
            _ => fail(RegionError::InvalidState),
        },
        Action::QuerySize => match o {
            Outcome::Size(n) => if usable_len(n) {
                Machine { region_size: n as usize, phase: Phase::Sized, ..m }
            } else {
                fail(RegionError::MapError(None))
            },
            Outcome::Failed(e) => fail(error_of(m.owner, m.phase, e)),
            _ => fail(RegionError::InvalidState),
        },
        Action::Resize(_) | Action::MapRegion(_) | Action::InitLock => match o {
            Outcome::Done => match m.phase {
                Phase::Opened => Machine { phase: Phase::Sized, ..m },
                Phase::Sized => Machine {
                    mapped: true,
                    phase: if m.owner { Phase::Mapped } else { Phase::Ready },
                    ..m
                },
                _ => Machine { phase: Phase::Ready, ..m },
            },
            Outcome::Failed(e) => fail(error_of(m.owner, m.phase, e)),
            _ => fail(RegionError::InvalidState),
        },
    }
}

/// The calls that release what `m` holds, in order: unmap, then remove the
/// name (owner only), then close the descriptor.
pub open spec fn teardown_plan(m: Machine) -> Seq<TeardownStep> {
    (if m.mapped { seq![TeardownStep::Unmap(m.region_size)] } else { seq![] })
        + (if m.fd.is_some() && m.owner { seq![TeardownStep::Unlink] } else { seq![] })
        + (if m.fd.is_some() { seq![TeardownStep::Close] } else { seq![] })
}

/// The state once the teardown plan has run.
pub open spec fn torn_down(m: Machine) -> Machine {
    Machine { fd: None, mapped: false, phase: Phase::TornDown, ..m }
}

/// Bytes of user data of a ready handle.
pub open spec fn user_size_of(m: Machine) -> Option<usize> {
    if m.phase == Phase::Ready && m.region_size >= ctl_size() {
        Some((m.region_size - ctl_size()) as usize)
    } else {
        None
    }
}

fn error_for(owner: bool, phase: Phase, e: OsError) -> (r: RegionError)
    ensures
        r == error_of(owner, phase, e),
{
    if owner {
        if phase == Phase::Start && e == OsError::Exists {
            RegionError::AlreadyExists
        } else {
            RegionError::BackingAllocationError(Some(e))
        }
    } else {
        if phase == Phase::Start && e == OsError::Missing {
            RegionError::NotFound
        } else {
            RegionError::MapError(Some(e))
        }
    }
}

impl Region {
    /// A handle that will create the region `name` with `user_size` bytes of
    /// user data. Fails with `InvalidState` on an empty name and with
    /// `BackingAllocationError(None)` when the region would be too large to map.
    pub fn begin_create(name: String, user_size: usize) -> (r: Result<Region, RegionError>)
        ensures
            name@.len() == 0 ==> r == Err::<Region, RegionError>(RegionError::InvalidState),
            name@.len() > 0 && user_size + ctl_size() > max_region_len() ==> r == Err::<
                Region,
                RegionError,
            >(RegionError::BackingAllocationError(None)),
            name@.len() > 0 && user_size + ctl_size() <= max_region_len() ==> r is Ok,
            r matches Ok(h) ==> h.name@ == name@ && h.state == create_start(user_size as nat)
                && wf(h.state),
    {
        if name.as_str().is_empty() {
            return Err(RegionError::InvalidState);
        }
        match region_len(user_size) {
            Some(len) => Ok(Region {
                name,
                state: Machine {
                    owner: true,
                    fd: None,
                    region_size: len,
                    mapped: false,
                    phase: Phase::Start,
                },
            }),
            None => Err(RegionError::BackingAllocationError(None)),
        }
    }

    /// A handle that will open the existing region `name`. Fails with
    /// `InvalidState` on an empty name.
    pub fn begin_open(name: String) -> (r: Result<Region, RegionError>)
        ensures
            name@.len() == 0 ==> r == Err::<Region, RegionError>(RegionError::InvalidState),
            name@.len() > 0 ==> r is Ok,
            r matches Ok(h) ==> h.name@ == name@ && h.state == open_start() && wf(h.state),
    {
        if name.as_str().is_empty() {
            return Err(RegionError::InvalidState);
        }
        Ok(Region { name, state: Machine { owner: false, fd: None, region_size: 0, mapped: false, phase: Phase::Start } })
    }

    /// The system call this handle asks for next.
    pub fn next_action(&self) -> (r: Action)
        ensures
            r == action_of(self.state),
    {
        let m = self.state;
        match m.phase {
            Phase::Start => if m.owner { Action::OpenExclusive } else { Action::OpenExisting },
            Phase::Opened => if m.owner { Action::Resize(m.region_size) } else { Action::QuerySize },
            Phase::Sized => Action::MapRegion(m.region_size),
            Phase::Mapped => Action::InitLock,
            _ => Action::Finished,
        }
    }

    /// Takes in the outcome of the action asked for.
    pub fn advance(&mut self, o: Outcome)
        ensures
            final(self).state == step(old(self).state, o),
            final(self).name == old(self).name,
            wf(old(self).state) ==> wf(final(self).state),
    {
        let m = self.state;
        let action = self.next_action();
        let failed = match o {
            Outcome::Failed(e) => Some(error_for(m.owner, m.phase, e)),
            _ => None,
        };
        match action {
            Action::Finished => {},
            Action::OpenExclusive | Action::OpenExisting => match o {
                Outcome::Opened(fd) => {
                    self.state.fd = Some(fd);
                    self.state.phase = Phase::Opened;
                },
                _ => {
                    self.state.phase = Phase::Failed(failed.unwrap_or(RegionError::InvalidState));
                },
            },
            Action::QuerySize => match o {
                Outcome::Size(n) => {
                    let ctl = control_block_size();
                    if 0 <= n && n <= isize::MAX as i64 && n as usize >= ctl {
                        self.state.region_size = n as usize;
                        self.state.phase = Phase::Sized;
                    } else {
                        self.state.phase = Phase::Failed(RegionError::MapError(None));
                    }
                },
                _ => {
                    self.state.phase = Phase::Failed(failed.unwrap_or(RegionError::InvalidState));
                },
            },
            Action::Resize(_) | Action::MapRegion(_) | Action::InitLock => match o {
                Outcome::Done => match m.phase {
                    Phase::Opened => {
                        self.state.phase = Phase::Sized;
                    },
                    Phase::Sized => {
                        self.state.mapped = true;
                        self.state.phase = if m.owner { Phase::Mapped } else { Phase::Ready };
                    },
                    _ => {
                        self.state.phase = Phase::Ready;
                    },
                },
                _ => {
                    self.state.phase = Phase::Failed(failed.unwrap_or(RegionError::InvalidState));
                },
            },
        }
    }

    /// The calls that release what this handle holds, in the order to make
    /// them.
    pub fn teardown_steps(&self) -> (r: Vec<TeardownStep>)
        ensures
            r@ == teardown_plan(self.state),
    {
        let mut steps: Vec<TeardownStep> = Vec::new();
        if self.state.mapped {
            steps.push(TeardownStep::Unmap(self.state.region_size));
        }
        if self.state.fd.is_some() && self.state.owner {
            steps.push(TeardownStep::Unlink);
        }
        if self.state.fd.is_some() {
            steps.push(TeardownStep::Close);
        }
        proof {
            assert(steps@ =~= teardown_plan(self.state));
        }
        steps
    }

    /// Records that the teardown plan has run, whatever each call reported.
    pub fn finish_teardown(&mut self)
        ensures
            final(self).state == torn_down(old(self).state),
            final(self).name == old(self).name,
    {
        self.state.fd = None;
        self.state.mapped = false;
        self.state.phase = Phase::TornDown;
    }

    /// The warnings of a teardown whose calls `steps` had results `results`
    /// (`None` for a call that succeeded).
    pub fn teardown_warnings(steps: &Vec<TeardownStep>, results: &Vec<Option<OsError>>) -> (r: Vec<
        TeardownWarning,
    >)
        requires
            steps.len() == results.len(),
        ensures
            r@ == warnings_of(steps@, results@, steps.len() as nat),
    {
        let mut warnings: Vec<TeardownWarning> = Vec::new();
        let mut i: usize = 0;
        while i < steps.len()
            invariant
                i <= steps.len(),
                steps.len() == results.len(),
                warnings@ == warnings_of(steps@, results@, i as nat),
            decreases steps.len() - i,
        {
            match results[i] {
                Some(e) => warnings.push(TeardownWarning { step: steps[i], error: e }),
                None => {},
            }
            i = i + 1;
        }
        warnings
    }

    /// Bytes of user data, once the handle is ready.
    pub fn user_size(&self) -> (r: Option<usize>)
        ensures
            r == user_size_of(self.state),
    {
        let ctl = control_block_size();
        if self.state.phase == Phase::Ready && self.state.region_size >= ctl {
            Some(self.state.region_size - ctl)
        } else {
            None
        }
    }

    /// The error of a failed handle.
    pub fn failure(&self) -> (r: Option<RegionError>)
        ensures
            r == (match self.state.phase {
                Phase::Failed(e) => Some(e),
                _ => None::<RegionError>,
            }),
    {
        match self.state.phase {
            Phase::Failed(e) => Some(e),
            _ => None,
        }
    }
}

/// A region created with `user_size` bytes of user data, then opened by a
/// second handle whose size query reports the length the creator asked the
/// backing object to have, shows that second handle `user_size` bytes of user
/// data; both handles are ready and only the creator owns the region.
pub proof fn lemma_open_sees_created_size(user_size: usize, fd_c: i32, fd_o: i32)
    requires
        user_size + ctl_size() <= max_region_len(),
    ensures
        ({
            let c0 = create_start(user_size as nat);
            let c1 = step(c0, Outcome::Opened(fd_c));
            let len = match action_of(c1) {
                Action::Resize(n) => n,
                _ => 0,
            };
            let c = step(step(step(c1, Outcome::Done), Outcome::Done), Outcome::Done);
            let o = step(
                step(step(open_start(), Outcome::Opened(fd_o)), Outcome::Size(len as i64)),
                Outcome::Done,
            );
            &&& action_of(c1) == Action::Resize(len)
            &&& c.phase == Phase::Ready && c.owner
            &&& user_size_of(c) == Some(user_size)
            &&& o.phase == Phase::Ready && !o.owner
            &&& user_size_of(o) == Some(user_size)
        }),
{
}

/// Creating a region under a taken identifier fails with `AlreadyExists` and
/// leaves nothing to release: the existing backing object is neither
/// resized, mapped nor removed.
pub proof fn lemma_create_on_taken_name(user_size: usize)
    requires
        user_size + ctl_size() <= max_region_len(),
    ensures
        ({
            let m = step(create_start(user_size as nat), Outcome::Failed(OsError::Exists));
            &&& m.phase == Phase::Failed(RegionError::AlreadyExists)
            &&& action_of(m) == Action::Finished
            &&& teardown_plan(m) == Seq::<TeardownStep>::empty()
        }),
{
    let m = step(create_start(user_size as nat), Outcome::Failed(OsError::Exists));
    assert(teardown_plan(m) =~= Seq::<TeardownStep>::empty());
}

/// Opening an identifier that names no region fails with `NotFound`, and
/// leaves nothing to release.
pub proof fn lemma_open_missing()
    ensures
        ({
            let m = step(open_start(), Outcome::Failed(OsError::Missing));
            &&& m.phase == Phase::Failed(RegionError::NotFound)
            &&& action_of(m) == Action::Finished
            &&& teardown_plan(m) == Seq::<TeardownStep>::empty()
        }),
{
    let m = step(open_start(), Outcome::Failed(OsError::Missing));
    assert(teardown_plan(m) =~= Seq::<TeardownStep>::empty());
}

/// Teardown removes the backing object exactly when the handle owns it and
/// holds its descriptor; it unmaps before it removes the name and removes the
/// name before it closes the descriptor; a second teardown does nothing.
pub proof fn lemma_teardown_order(m: Machine)
    requires
        wf(m),
    ensures
        teardown_plan(m).contains(TeardownStep::Unlink) <==> m.owner && m.fd.is_some(),
        teardown_plan(m).contains(TeardownStep::Close) <==> m.fd.is_some(),
        forall|i: int, j: int|
            0 <= i < teardown_plan(m).len() && 0 <= j < teardown_plan(m).len()
                && teardown_plan(m)[j] == TeardownStep::Unlink ==> (teardown_plan(m)[i] is Unmap
                ==> i < j),
        forall|i: int, j: int|
            0 <= i < teardown_plan(m).len() && 0 <= j < teardown_plan(m).len()
                && teardown_plan(m)[j] == TeardownStep::Close ==> (teardown_plan(m)[i] != TeardownStep::Close
                ==> i < j),
        teardown_plan(torn_down(m)) == Seq::<TeardownStep>::empty(),
{
    let p = teardown_plan(m);
    let a: Seq<TeardownStep> = if m.mapped { seq![TeardownStep::Unmap(m.region_size)] } else { seq![] };
    let b: Seq<TeardownStep> = if m.fd.is_some() && m.owner { seq![TeardownStep::Unlink] } else { seq![] };
    let c: Seq<TeardownStep> = if m.fd.is_some() { seq![TeardownStep::Close] } else { seq![] };
    assert(p =~= a + b + c);
    if m.owner && m.fd.is_some() {
        assert(p[a.len() as int] == TeardownStep::Unlink);
    }
    if m.fd.is_some() {
        assert(p[p.len() - 1] == TeardownStep::Close);
    }
    assert(teardown_plan(torn_down(m)) =~= Seq::<TeardownStep>::empty());
}

/// Only the handle that created the region initialises its lock, once the
/// region is mapped; a handle that opened it attaches to the lock as it is.
pub proof fn lemma_only_creator_inits_lock(m: Machine)
    requires
        wf(m),
    ensures
        action_of(m) == Action::InitLock ==> m.owner && m.mapped,
        !m.owner ==> action_of(m) != Action::InitLock,
{
}

/// Every state reached from a well-formed one stays well formed, and a ready
/// handle always reports its user size.
pub proof fn lemma_step_keeps_wf(m: Machine, o: Outcome)
    requires
        wf(m),
    ensures
        wf(step(m, o)),
        step(m, o).phase == Phase::Ready ==> user_size_of(step(m, o)) is Some,
{
}

} // verus!
