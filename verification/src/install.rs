use vstd::prelude::*;
use crate::error::Error;
use crate::status::HookStatus;

verus! {

/// The four functions of the game the library needs, in the order in which
/// their code signatures are searched for and their originals are stored.
#[derive(Debug, Clone, Copy, PartialEq, Eq, Structural)]
pub enum HookTarget {
    /// Opens a resource container; this is the function that gets hooked.
    OpenContainer,
    /// Constructs an in-memory file object.
    FileMemoryCtor,
    /// Hands a read-only buffer to an in-memory file object.
    FileSetReadOnly,
    /// The game's allocator.
    IdNew,
}

/// The number of functions the library needs.
pub const TARGET_COUNT: usize = 4;

/// The function at a place in the search order.
pub open spec fn target_at(i: int) -> HookTarget {
    if i == 0 {
        HookTarget::OpenContainer
    } else if i == 1 {
        HookTarget::FileMemoryCtor
    } else if i == 2 {
        HookTarget::FileSetReadOnly
    } else {
        HookTarget::IdNew
    }
}

fn target_for(i: usize) -> (t: HookTarget)
    ensures
        t == target_at(i as int),
{
    if i == 0 {
        HookTarget::OpenContainer
    } else if i == 1 {
        HookTarget::FileMemoryCtor
    } else if i == 2 {
        HookTarget::FileSetReadOnly
    } else {
        HookTarget::IdNew
    }
}

/// Where installation stands.
#[derive(Debug, Clone, Copy, PartialEq, Eq)]
pub enum Stage {
    /// Searching the main module for the signatures, in order.
    Scanning,
    /// Hooking the container opener.
    Hooking,
    /// Storing the original of the given function (a place in the order).
    Storing(usize),
    /// Enabling the hooks.
    Enabling,
    /// Done, with this outcome.
    Finished(Result<(), Error>),
}

/// What the application reports back after carrying out an action.
#[derive(Debug, Clone, Copy, PartialEq, Eq)]
pub enum InstallEvent {
    /// The offset in the main module at which the signature was found, if
    /// it was.
    Scanned(Option<usize>),
    /// What the hooking engine answered when asked to hook the opener.
    HookCreated(HookStatus),
    /// Whether the original could be stored (each slot takes one value).
    Stored(bool),
    /// What the hooking engine answered when asked to enable all hooks.
    Enabled(HookStatus),
}

/// What the application is to do next.
#[derive(Debug, Clone, Copy, PartialEq, Eq)]
pub enum InstallAction {
    /// Search the main module for this function's signature.
    Scan(HookTarget),
    /// Hook the container opener, found at this offset in the main module.
    CreateHook { offset: usize },
    /// Store the original of this function: for the opener the trampoline
    /// the engine returned, for the others the function at this offset in
    /// the main module.
    Store { target: HookTarget, offset: usize },
    /// Enable all created hooks.
    EnableHooks,
    /// Installation is over, with this outcome.
    Finish(Result<(), Error>),
}

/// The state of an installation: the offsets found so far, in search
/// order, and the stage.
pub struct InstallState {
    pub offsets: Seq<usize>,
    pub stage: Stage,
}

/// One step of installation: the state after `event` and the action it
/// calls for.
///
/// Signatures are searched for in order; the first one missing ends the
/// installation with [`Error::PatternNotFound`]. With all four found, the
/// opener is hooked, then the four originals are stored in order, then the
/// hooks are enabled. An engine failure ends it with
/// [`Error::MinHookError`] carrying the engine's status, a failed store with
/// [`Error::UnhandledError`]. An event that does not answer the current
/// stage's action ends it with [`Error::UnhandledError`]; once finished, the
/// installation stays finished with its outcome.
pub open spec fn next(st: InstallState, event: InstallEvent) -> (InstallState, InstallAction) {
    let fail = |e: Error| (InstallState { offsets: st.offsets, stage: Stage::Finished(Err(e)) }, InstallAction::Finish(Err(e)));
    match st.stage {
        Stage::Finished(r) => (st, InstallAction::Finish(r)),
        Stage::Scanning => match event {
            InstallEvent::Scanned(Some(o)) => {
                let found = st.offsets.push(o);
                if found.len() >= TARGET_COUNT {
                    (InstallState { offsets: found, stage: Stage::Hooking }, InstallAction::CreateHook { offset: found[0] })
                } else {
                    (InstallState { offsets: found, stage: Stage::Scanning }, InstallAction::Scan(target_at(found.len() as int)))
                }
            },
            InstallEvent::Scanned(None) => fail(Error::PatternNotFound),
            _ => fail(Error::UnhandledError),
        },
        Stage::Hooking => match event {
            InstallEvent::HookCreated(HookStatus::MH_OK) => (
                InstallState { offsets: st.offsets, stage: Stage::Storing(0) },
                InstallAction::Store { target: target_at(0), offset: st.offsets[0] },
            ),
            InstallEvent::HookCreated(s) => fail(Error::MinHookError(s)),
            _ => fail(Error::UnhandledError),
        },
        Stage::Storing(k) => match event {
            InstallEvent::Stored(true) => if k + 1 >= TARGET_COUNT {
                (InstallState { offsets: st.offsets, stage: Stage::Enabling }, InstallAction::EnableHooks)
            } else {
                (
                    InstallState { offsets: st.offsets, stage: Stage::Storing((k + 1) as usize) },
                    InstallAction::Store { target: target_at(k + 1), offset: st.offsets[k + 1] },
                )
            },
            InstallEvent::Stored(false) => fail(Error::UnhandledError),
            _ => fail(Error::UnhandledError),
        },
        Stage::Enabling => match event {
            InstallEvent::Enabled(HookStatus::MH_OK) => (
                InstallState { offsets: st.offsets, stage: Stage::Finished(Ok(())) },
                InstallAction::Finish(Ok(())),
            ),
            InstallEvent::Enabled(s) => fail(Error::MinHookError(s)),
            _ => fail(Error::UnhandledError),
        },
    }
}

/// The state installation starts in.
pub open spec fn initial_state() -> InstallState {
    InstallState { offsets: Seq::empty(), stage: Stage::Scanning }
}

/// Whether a state can be reached: while scanning fewer than four offsets
/// are known, afterwards all four, and stores count within the four.
pub open spec fn reachable_shape(st: InstallState) -> bool {
    match st.stage {
        Stage::Scanning => st.offsets.len() < TARGET_COUNT,
        Stage::Storing(k) => st.offsets.len() == TARGET_COUNT && k < TARGET_COUNT,
        Stage::Finished(_) => st.offsets.len() <= TARGET_COUNT,
        _ => st.offsets.len() == TARGET_COUNT,
    }
}

/// The state after a series of events, and the actions they called for.
pub open spec fn run(st: InstallState, events: Seq<InstallEvent>) -> (InstallState, Seq<InstallAction>)
    decreases events.len(),
{
    if events.len() == 0 {
        (st, Seq::empty())
    } else {
        let (mid, first) = next(st, events[0]);
        let (last, rest) = run(mid, events.drop_first());
        (last, seq![first] + rest)
    }
}

/// The events of an installation in which every signature is found, at the
/// given offsets, and every request succeeds.
pub open spec fn successful_events(o: Seq<usize>) -> Seq<InstallEvent> {
    seq![
        InstallEvent::Scanned(Some(o[0])),
        InstallEvent::Scanned(Some(o[1])),
        InstallEvent::Scanned(Some(o[2])),
        InstallEvent::Scanned(Some(o[3])),
        InstallEvent::HookCreated(HookStatus::MH_OK),
        InstallEvent::Stored(true),
        InstallEvent::Stored(true),
        InstallEvent::Stored(true),
        InstallEvent::Stored(true),
        InstallEvent::Enabled(HookStatus::MH_OK),
    ]
}

/// When every signature is found and every request succeeds, installation
/// searches for the four signatures in order, hooks the opener, stores the
/// four originals in order, enables the hooks and succeeds.
pub proof fn lemma_successful_install(o: Seq<usize>)
    requires
        o.len() == TARGET_COUNT,
    ensures
        run(initial_state(), successful_events(o)).0 == (InstallState { offsets: o, stage: Stage::Finished(Ok(())) }),
        run(initial_state(), successful_events(o)).1 == seq![
            InstallAction::Scan(HookTarget::FileMemoryCtor),
            InstallAction::Scan(HookTarget::FileSetReadOnly),
            InstallAction::Scan(HookTarget::IdNew),
            InstallAction::CreateHook { offset: o[0] },
            InstallAction::Store { target: HookTarget::OpenContainer, offset: o[0] },
            InstallAction::Store { target: HookTarget::FileMemoryCtor, offset: o[1] },
            InstallAction::Store { target: HookTarget::FileSetReadOnly, offset: o[2] },
            InstallAction::Store { target: HookTarget::IdNew, offset: o[3] },
            InstallAction::EnableHooks,
            InstallAction::Finish(Ok(())),
        ],
{
    reveal_with_fuel(run, 11);
    let ev = successful_events(o);
    assert(Seq::<usize>::empty().push(o[0]).push(o[1]).push(o[2]).push(o[3]) =~= o);
    assert(seq![o[0], o[1], o[2], o[3]] =~= o);
    assert(ev.drop_first().drop_first().drop_first().drop_first().drop_first().drop_first()
        .drop_first().drop_first().drop_first().drop_first() =~= Seq::<InstallEvent>::empty());
    assert(run(initial_state(), ev).1 =~= seq![
            InstallAction::Scan(HookTarget::FileMemoryCtor),
            InstallAction::Scan(HookTarget::FileSetReadOnly),
            InstallAction::Scan(HookTarget::IdNew),
            InstallAction::CreateHook { offset: o[0] },
            InstallAction::Store { target: HookTarget::OpenContainer, offset: o[0] },
            InstallAction::Store { target: HookTarget::FileMemoryCtor, offset: o[1] },
            InstallAction::Store { target: HookTarget::FileSetReadOnly, offset: o[2] },
            InstallAction::Store { target: HookTarget::IdNew, offset: o[3] },
            InstallAction::EnableHooks,
            InstallAction::Finish(Ok(())),
        ]);
}

/// Once installation is over, later events change nothing: the state stays
/// as it is and every action reports the same outcome.
pub proof fn lemma_finished_is_final(st: InstallState, r: Result<(), Error>, events: Seq<InstallEvent>)
    requires
        st.stage == Stage::Finished(r),
    ensures
        run(st, events).0 == st,
        forall|i: int| 0 <= i < events.len() ==> #[trigger] run(st, events).1[i] == InstallAction::Finish(r),
    decreases events.len(),
{
    if events.len() > 0 {
        lemma_finished_is_final(st, r, events.drop_first());
        lemma_run_len(st, events.drop_first());
        let acts = run(st, events).1;
        let rest = run(st, events.drop_first()).1;
        assert(acts == seq![InstallAction::Finish(r)] + rest);
        assert forall|i: int| 0 <= i < events.len() implies #[trigger] acts[i] == InstallAction::Finish(r) by {
            if i > 0 {
                assert(acts[i] == rest[i - 1]);
            }
        }
    }
}

/// Every event calls for exactly one action.
pub proof fn lemma_run_len(st: InstallState, events: Seq<InstallEvent>)
    ensures
        run(st, events).1.len() == events.len(),
    decreases events.len(),
{
    if events.len() > 0 {
        lemma_run_len(next(st, events[0]).0, events.drop_first());
    }
}

/// The work is done in order: the opener is hooked only once the last
/// signature has been found, the hooks are enabled only once the last
/// original has been stored, and installation succeeds only once they have
/// been enabled (or it had already succeeded).
pub proof fn lemma_order_of_work(st: InstallState, event: InstallEvent)
    requires
        reachable_shape(st),
    ensures
        next(st, event).1 is CreateHook ==> {
            &&& st.stage == Stage::Scanning
            &&& st.offsets.len() == TARGET_COUNT - 1
            &&& event is Scanned && event->Scanned_0 is Some
        },
        next(st, event).1 == InstallAction::EnableHooks ==> {
            &&& st.stage == Stage::Storing((TARGET_COUNT - 1) as usize)
            &&& event == InstallEvent::Stored(true)
        },
        next(st, event).1 == InstallAction::Finish(Ok(())) ==> {
            ||| st.stage == Stage::Enabling && event == InstallEvent::Enabled(HookStatus::MH_OK)
            ||| st.stage == Stage::Finished(Ok(()))
        },
{
}

/// The engine's refusal ends installation with its status: when the engine
/// answers the request to hook the opener, or to enable the hooks, with
/// anything but `MH_OK`, installation is over with that status as its error,
/// and no further work is asked for; only `MH_OK` lets it go on.
pub proof fn lemma_engine_refusal_ends(offsets: Seq<usize>, s: HookStatus)
    requires
        offsets.len() == TARGET_COUNT,
    ensures
        s != HookStatus::MH_OK ==> next(
            InstallState { offsets, stage: Stage::Hooking },
            InstallEvent::HookCreated(s),
        ) == (
            InstallState { offsets, stage: Stage::Finished(Err(Error::MinHookError(s))) },
            InstallAction::Finish(Err(Error::MinHookError(s))),
        ),
        s != HookStatus::MH_OK ==> next(
            InstallState { offsets, stage: Stage::Enabling },
            InstallEvent::Enabled(s),
        ) == (
            InstallState { offsets, stage: Stage::Finished(Err(Error::MinHookError(s))) },
            InstallAction::Finish(Err(Error::MinHookError(s))),
        ),
        next(InstallState { offsets, stage: Stage::Hooking }, InstallEvent::HookCreated(s)).1 is Store
            ==> s == HookStatus::MH_OK,
        next(InstallState { offsets, stage: Stage::Enabling }, InstallEvent::Enabled(s)).1
            == InstallAction::Finish(Ok(())) ==> s == HookStatus::MH_OK,
{
}

/// A failed store ends installation with `UnhandledError`, whichever
/// original it was.
pub proof fn lemma_failed_store_ends(offsets: Seq<usize>, k: usize)
    requires
        offsets.len() == TARGET_COUNT,
        k < TARGET_COUNT,
    ensures
        next(InstallState { offsets, stage: Stage::Storing(k) }, InstallEvent::Stored(false)) == (
            InstallState { offsets, stage: Stage::Finished(Err(Error::UnhandledError)) },
            InstallAction::Finish(Err(Error::UnhandledError)),
        ),
{
}

/// The events of a search in which the given offsets were found and then a
/// signature was missing.
pub open spec fn missing_signature_events(found: Seq<usize>) -> Seq<InstallEvent> {
    found.map_values(|o: usize| InstallEvent::Scanned(Some(o))).push(InstallEvent::Scanned(None))
}

/// A missing signature ends installation with `PatternNotFound`, whatever
/// happens afterwards, and nothing is hooked.
pub proof fn lemma_missing_signature(found: Seq<usize>, later: Seq<InstallEvent>)
    requires
        found.len() < TARGET_COUNT,
    ensures
        run(initial_state(), missing_signature_events(found) + later).0.stage
            == Stage::Finished(Err(Error::PatternNotFound)),
        forall|i: int| 0 <= i < run(initial_state(), missing_signature_events(found) + later).1.len()
            ==> !(#[trigger] run(initial_state(), missing_signature_events(found) + later).1[i] is CreateHook),
{
    lemma_scan_then_miss(Seq::empty(), found, later);
    assert(initial_state().offsets =~= Seq::<usize>::empty());
}

proof fn lemma_scan_then_miss(known: Seq<usize>, found: Seq<usize>, later: Seq<InstallEvent>)
    requires
        known.len() + found.len() < TARGET_COUNT,
    ensures
        run(InstallState { offsets: known, stage: Stage::Scanning }, missing_signature_events(found) + later).0.stage
            == Stage::Finished(Err(Error::PatternNotFound)),
        forall|i: int| 0 <= i < run(InstallState { offsets: known, stage: Stage::Scanning }, missing_signature_events(found) + later).1.len()
            ==> !(#[trigger] run(InstallState { offsets: known, stage: Stage::Scanning }, missing_signature_events(found) + later).1[i] is CreateHook),
    decreases found.len(),
{
    let st = InstallState { offsets: known, stage: Stage::Scanning };
    let ev = missing_signature_events(found) + later;
    if found.len() == 0 {
        assert(ev[0] == InstallEvent::Scanned(None));
        let mid = InstallState { offsets: known, stage: Stage::Finished(Err(Error::PatternNotFound)) };
        assert(next(st, ev[0]).0 == mid);
        lemma_finished_is_final(mid, Err(Error::PatternNotFound), ev.drop_first());
        lemma_run_len(mid, ev.drop_first());
        let acts = run(st, ev).1;
        let rest = run(mid, ev.drop_first()).1;
        assert(acts == seq![next(st, ev[0]).1] + rest);
        assert forall|i: int| 0 <= i < acts.len() implies !(#[trigger] acts[i] is CreateHook) by {
            if i > 0 {
                assert(acts[i] == rest[i - 1]);
            }
        }
    } else {
        assert(ev[0] == InstallEvent::Scanned(Some(found[0])));
        let mid = InstallState { offsets: known.push(found[0]), stage: Stage::Scanning };
        assert(next(st, ev[0]).0 == mid);
        assert(ev.drop_first() =~= missing_signature_events(found.drop_first()) + later);
        lemma_scan_then_miss(known.push(found[0]), found.drop_first(), later);
        let acts = run(st, ev).1;
        let rest = run(mid, ev.drop_first()).1;
        assert(acts == seq![next(st, ev[0]).1] + rest);
        assert forall|i: int| 0 <= i < acts.len() implies !(#[trigger] acts[i] is CreateHook) by {
            if i > 0 {
                assert(acts[i] == rest[i - 1]);
            }
        }
    }
}

/// Drives the installation of the hooks; the application carries out each
/// action and reports what came of it.
pub struct Installer {
    offsets: Vec<usize>,
    stage: Stage,
}

impl View for Installer {
    type V = InstallState;

    closed spec fn view(&self) -> InstallState {
        InstallState { offsets: self.offsets@, stage: self.stage }
    }
}

impl Installer {
    /// An installer's state always has the shape of a reachable one.
    #[verifier::type_invariant]
    spec fn shaped(&self) -> bool {
        reachable_shape(self@)
    }

    /// Starts an installation; the first action searches for the opener's
    /// signature.
    pub fn new() -> (r: (Installer, InstallAction))
        ensures
            r.0@ == initial_state(),
            reachable_shape(r.0@),
            r.1 == InstallAction::Scan(HookTarget::OpenContainer),
    {
        let inst = Installer { offsets: Vec::new(), stage: Stage::Scanning };
        proof {
            assert(inst@.offsets =~= Seq::<usize>::empty());
        }
        (inst, InstallAction::Scan(HookTarget::OpenContainer))
    }

    /// The outcome, once installation is over.
    pub fn outcome(&self) -> (r: Option<Result<(), Error>>)
        ensures
            r == (match self@.stage {
                Stage::Finished(res) => Some(res),
                _ => None,
            }),
    {
        match self.stage {
            Stage::Finished(res) => Some(res),
            _ => None,
        }
    }

    /// Takes in what came of the last action and returns the next one.
    pub fn step(&mut self, event: InstallEvent) -> (action: InstallAction)
        ensures
            (final(self)@, action) == next(old(self)@, event),
            reachable_shape(final(self)@),
    {
        proof {
            use_type_invariant(&*self);
        }
        match self.stage {
            Stage::Finished(r) => InstallAction::Finish(r),
            Stage::Scanning => match event {
                InstallEvent::Scanned(Some(o)) => {
                    let mut found: Vec<usize> = Vec::new();
                    std::mem::swap(&mut found, &mut self.offsets);
                    found.push(o);
                    if found.len() >= TARGET_COUNT {
                        let first = found[0];
                        *self = Installer { offsets: found, stage: Stage::Hooking };
                        InstallAction::CreateHook { offset: first }
                    } else {
                        let next_target = target_for(found.len());
                        *self = Installer { offsets: found, stage: Stage::Scanning };
                        InstallAction::Scan(next_target)
                    }
                },
                InstallEvent::Scanned(None) => self.fail(Error::PatternNotFound),
                _ => self.fail(Error::UnhandledError),
            },
            Stage::Hooking => match event {
                InstallEvent::HookCreated(HookStatus::MH_OK) => {
                    self.stage = Stage::Storing(0);
                    InstallAction::Store { target: HookTarget::OpenContainer, offset: self.offsets[0] }
                },
                InstallEvent::HookCreated(s) => self.fail(Error::MinHookError(s)),
                _ => self.fail(Error::UnhandledError),
            },
            Stage::Storing(k) => match event {
                InstallEvent::Stored(true) => {
                    if k + 1 >= TARGET_COUNT {
                        self.stage = Stage::Enabling;
                        InstallAction::EnableHooks
                    } else {
                        self.stage = Stage::Storing(k + 1);
                        InstallAction::Store { target: target_for(k + 1), offset: self.offsets[k + 1] }
                    }
                },
                InstallEvent::Stored(false) => self.fail(Error::UnhandledError),
                _ => self.fail(Error::UnhandledError),
            },
            Stage::Enabling => match event {
                InstallEvent::Enabled(HookStatus::MH_OK) => {
                    self.stage = Stage::Finished(Ok(()));
                    InstallAction::Finish(Ok(()))
                },
                InstallEvent::Enabled(s) => self.fail(Error::MinHookError(s)),
                _ => self.fail(Error::UnhandledError),
            },
        }
    }

    fn fail(&mut self, e: Error) -> (action: InstallAction)
        ensures
            final(self)@ == (InstallState { offsets: old(self)@.offsets, stage: Stage::Finished(Err(e)) }),
            action == InstallAction::Finish(Err(e)),
    {
        proof {
            use_type_invariant(&*self);
        }
        self.stage = Stage::Finished(Err(e));
        InstallAction::Finish(Err(e))
    }
}

} // verus!
