//! The process-wide hook registry: the one-time installation of the present
//! and resize-buffers hooks, with a fallback signature for each, and the
//! one-time chaining of the window procedure on the first present.
use vstd::prelude::*;

verus! {

/// A native entry point that gets intercepted.
#[derive(Clone, Copy, Debug, PartialEq, Eq, Structural)]
pub enum Entry {
    Present,
    ResizeBuffers,
}

/// Which module and pattern a search uses: the overlay renderer first, the
/// graphics runtime second.
#[derive(Clone, Copy, Debug, PartialEq, Eq, Structural)]
pub enum Source {
    Primary,
    Fallback,
}

/// A module to search and an IDA-style byte pattern (`??` is a wildcard).
#[derive(Clone, Copy, Debug, PartialEq, Eq)]
pub struct Signature {
    pub module: &'static str,
    pub pattern: &'static str,
}

/// Fatal failures of the installation.
#[derive(Clone, Copy, Debug, PartialEq, Eq, Structural)]
pub enum InstallError {
    NotFound(Entry),
    HookFailed(Entry),
}

/// One installed hook: the located entry point and the callable that runs the
/// original behaviour. Both exist together or not at all.
#[derive(Clone, Copy, Debug, PartialEq, Eq, Structural)]
pub struct HookRecord {
    pub target: u64,
    pub original: u64,
}

/// Where the installation stands.
#[derive(Clone, Copy, Debug, PartialEq, Eq, Structural)]
pub enum InstallStage {
    FindPresent(Source),
    FindResize(Source, u64),
    HookPresent(u64, u64),
    HookResize(u64),
    Installed,
    Failed(InstallError),
}

/// What the caller does next during installation.
#[derive(Clone, Copy, Debug, PartialEq, Eq, Structural)]
pub enum InstallStep {
    Find(Entry, Source),
    Hook(Entry, u64),
    Installed,
    Failed(InstallError),
}

/// The outcome of the last installation call: the address found, or the
/// callable to the original that the hook installer gave; `None` on failure.
#[derive(Clone, Copy, Debug, PartialEq, Eq, Structural)]
pub enum InstallReply {
    Found(Option<u64>),
    Hooked(Option<u64>),
}

/// What the present hook does before delegating to the surface.
#[derive(Clone, Copy, Debug, PartialEq, Eq, Structural)]
pub enum PresentAction {
    /// Construct the surface and chain the window procedure, then draw.
    Construct,
    Draw,
}

/// What the replacement window procedure does with a message.
#[derive(Clone, Copy, Debug, PartialEq, Eq, Structural)]
pub enum WndAction {
    /// Call this original procedure with the message, unchanged.
    CallOriginal(isize),
    /// Return this result without forwarding.
    Handled(isize),
}

/// The steps of the hook lifecycle.
#[derive(Clone, Copy, Debug, PartialEq, Eq, Structural)]
pub enum Phase {
    Installing,
    Installed,
    SurfaceReady,
    Failed,
}

pub open spec fn spec_signature(entry: Entry, source: Source) -> Signature {
    match (entry, source) {
        (Entry::Present, Source::Primary) => Signature {
            module: "gameoverlayrenderer64.dll",
            pattern: "48 89 6C 24 18 48 89 74 24 20 41 56 48 83 EC 20 41",
        },
        (Entry::Present, Source::Fallback) => Signature {
            module: "dxgi.dll",
            pattern: "48 89 5C 24 10 48 89 74 24 20 55 57 41 56",
        },
        (Entry::ResizeBuffers, Source::Primary) => Signature {
            module: "gameoverlayrenderer64.dll",
            pattern: "48 89 5C 24 08 48 89 6C 24 10 48 89 74 24 18 57 41 56 41 57 48 83 EC 30 44",
        },
        (Entry::ResizeBuffers, Source::Fallback) => Signature {
            module: "dxgi.dll",
            pattern: "48 8B C4 55 41 54 41 55 41 56 41 57 48 8D 68 B1 48 81 EC C0",
        },
    }
}

/// The module and pattern that locate `entry` from `source`.
pub fn signature(entry: Entry, source: Source) -> (r: Signature)
    ensures
        r == spec_signature(entry, source),
{
    match (entry, source) {
        (Entry::Present, Source::Primary) => Signature {
            module: "gameoverlayrenderer64.dll",
            pattern: "48 89 6C 24 18 48 89 74 24 20 41 56 48 83 EC 20 41",
        },
        (Entry::Present, Source::Fallback) => Signature {
            module: "dxgi.dll",
            pattern: "48 89 5C 24 10 48 89 74 24 20 55 57 41 56",
        },
        (Entry::ResizeBuffers, Source::Primary) => Signature {
            module: "gameoverlayrenderer64.dll",
            pattern: "48 89 5C 24 08 48 89 6C 24 10 48 89 74 24 18 57 41 56 41 57 48 83 EC 30 44",
        },
        (Entry::ResizeBuffers, Source::Fallback) => Signature {
            module: "dxgi.dll",
            pattern: "48 8B C4 55 41 54 41 55 41 56 41 57 48 8D 68 B1 48 81 EC C0",
        },
    }
}

/// Whether `reply` answers the call an installation at `stage` waits on.
pub open spec fn install_accepts(stage: InstallStage, reply: InstallReply) -> bool {
    match stage {
        InstallStage::FindPresent(_) | InstallStage::FindResize(_, _) => reply is Found,
        InstallStage::HookPresent(_, _) | InstallStage::HookResize(_) => reply is Hooked,
        _ => false,
    }
}

/// The next stage of an installation after a search for `entry` from
/// `source` gave `found`: the fallback after a failed primary search, a
/// fatal error after a failed fallback.
pub open spec fn after_search(entry: Entry, source: Source, found: Option<u64>, present: u64) -> InstallStage {
    match found {
        Some(t) => match entry {
            Entry::Present => InstallStage::FindResize(Source::Primary, t),
            Entry::ResizeBuffers => InstallStage::HookPresent(present, t),
        },
        None => match source {
            Source::Primary => match entry {
                Entry::Present => InstallStage::FindPresent(Source::Fallback),
                Entry::ResizeBuffers => InstallStage::FindResize(Source::Fallback, present),
            },
            Source::Fallback => InstallStage::Failed(InstallError::NotFound(entry)),
        },
    }
}

/// What the caller is told to do at `stage`.
pub open spec fn step_of(stage: InstallStage) -> InstallStep {
    match stage {
        InstallStage::FindPresent(s) => InstallStep::Find(Entry::Present, s),
        InstallStage::FindResize(s, _) => InstallStep::Find(Entry::ResizeBuffers, s),
        InstallStage::HookPresent(p, _) => InstallStep::Hook(Entry::Present, p),
        InstallStage::HookResize(r) => InstallStep::Hook(Entry::ResizeBuffers, r),
        InstallStage::Installed => InstallStep::Installed,
        InstallStage::Failed(e) => InstallStep::Failed(e),
    }
}

/// The process-wide record of installed hooks and of the chained window
/// procedure.
pub struct Registry {
    stage: InstallStage,
    present: Option<HookRecord>,
    resize: Option<HookRecord>,
    wnd_proc: Option<isize>,
}

impl Registry {
    pub closed spec fn spec_stage(&self) -> InstallStage {
        self.stage
    }

    pub closed spec fn spec_present(&self) -> Option<HookRecord> {
        self.present
    }

    pub closed spec fn spec_resize(&self) -> Option<HookRecord> {
        self.resize
    }

    /// The original window procedure, once the chain is installed.
    pub closed spec fn spec_wnd_proc(&self) -> Option<isize> {
        self.wnd_proc
    }

    /// Hooks are recorded in order, present first, and only after both
    /// entry points were located; the window procedure is chained only once
    /// both hooks stand.
    pub closed spec fn wf(&self) -> bool {
        &&& match self.stage {
            InstallStage::HookResize(_) => self.present is Some && self.resize is None,
            InstallStage::Installed => self.present is Some && self.resize is Some,
            InstallStage::Failed(InstallError::HookFailed(Entry::ResizeBuffers)) => {
                self.present is Some && self.resize is None
            },
            _ => self.present is None && self.resize is None,
        }
        &&& (self.wnd_proc is Some ==> self.stage is Installed)
    }

    pub open spec fn spec_phase(&self) -> Phase {
        match self.spec_stage() {
            InstallStage::Installed => if self.spec_wnd_proc() is Some {
                Phase::SurfaceReady
            } else {
                Phase::Installed
            },
            InstallStage::Failed(_) => Phase::Failed,
            _ => Phase::Installing,
        }
    }

    pub proof fn lemma_wf(&self)
        requires
            self.wf(),
        ensures
            self.spec_stage() is Installed ==> self.spec_present() is Some && self.spec_resize() is Some,
            self.spec_stage() matches InstallStage::Failed(InstallError::NotFound(_)) ==> {
                self.spec_present() is None && self.spec_resize() is None
            },
            self.spec_wnd_proc() is Some ==> self.spec_stage() is Installed,
    {
    }

    /// A registry whose installation starts with the primary search for the
    /// present entry point.
    pub fn new() -> (r: (Registry, InstallStep))
        ensures
            r.0.wf(),
            r.0.spec_stage() == InstallStage::FindPresent(Source::Primary),
            r.0.spec_present() is None,
            r.0.spec_resize() is None,
            r.0.spec_wnd_proc() is None,
            r.1 == step_of(r.0.spec_stage()),
    {
        let reg = Registry {
            stage: InstallStage::FindPresent(Source::Primary),
            present: None,
            resize: None,
            wnd_proc: None,
        };
        (reg, InstallStep::Find(Entry::Present, Source::Primary))
    }

    /// Where the hook lifecycle stands.
    pub fn phase(&self) -> (r: Phase)
        ensures
            r == self.spec_phase(),
    {
        match self.stage {
            InstallStage::Installed => match self.wnd_proc {
                Some(_) => Phase::SurfaceReady,
                None => Phase::Installed,
            },
            InstallStage::Failed(_) => Phase::Failed,
            _ => Phase::Installing,
        }
    }

    pub fn present_hook(&self) -> (r: Option<HookRecord>)
        ensures
            r == self.spec_present(),
    {
        self.present
    }

    pub fn resize_hook(&self) -> (r: Option<HookRecord>)
        ensures
            r == self.spec_resize(),
    {
        self.resize
    }

    pub fn original_wnd_proc(&self) -> (r: Option<isize>)
        ensures
            r == self.spec_wnd_proc(),
    {
        self.wnd_proc
    }

    /// Whether `reply` answers the call the installation waits on.
    pub fn accepts(&self, reply: &InstallReply) -> (r: bool)
        ensures
            r == install_accepts(self.spec_stage(), *reply),
    {
        match self.stage {
            InstallStage::FindPresent(_) | InstallStage::FindResize(_, _) => matches!(reply, InstallReply::Found(_)),
            InstallStage::HookPresent(_, _) | InstallStage::HookResize(_) => matches!(reply, InstallReply::Hooked(_)),
            _ => false,
        }
    }

    /// Advances the installation by the outcome of the last call.
    pub fn install_step(&mut self, reply: InstallReply) -> (r: InstallStep)
        requires
            old(self).wf(),
            install_accepts(old(self).spec_stage(), reply),
        ensures
            final(self).wf(),
            r == step_of(final(self).spec_stage()),
            final(self).spec_wnd_proc() == old(self).spec_wnd_proc(),
            (match old(self).spec_stage() {
                InstallStage::FindPresent(s) => {
                    &&& final(self).spec_stage() == after_search(Entry::Present, s, reply->Found_0, 0)
                    &&& final(self).spec_present() is None
                },
                InstallStage::FindResize(s, p) => {
                    &&& final(self).spec_stage() == after_search(Entry::ResizeBuffers, s, reply->Found_0, p)
                    &&& final(self).spec_present() is None
                },
                InstallStage::HookPresent(p, t) => match reply->Hooked_0 {
                    Some(o) => {
                        &&& final(self).spec_stage() == InstallStage::HookResize(t)
                        &&& final(self).spec_present() == Some(HookRecord { target: p, original: o })
                    },
                    None => final(self).spec_stage() == InstallStage::Failed(InstallError::HookFailed(Entry::Present)),
                },
                InstallStage::HookResize(t) => match reply->Hooked_0 {
                    Some(o) => {
                        &&& final(self).spec_stage() == InstallStage::Installed
                        &&& final(self).spec_present() == old(self).spec_present()
                        &&& final(self).spec_resize() == Some(HookRecord { target: t, original: o })
                    },
                    None => {
                        &&& final(self).spec_stage() == InstallStage::Failed(InstallError::HookFailed(Entry::ResizeBuffers))
                        &&& final(self).spec_present() == old(self).spec_present()
                    },
                },
                _ => false,
            }),
    {
        match self.stage {
            InstallStage::FindPresent(s) => {
                let found = match reply {
                    InstallReply::Found(f) => f,
                    InstallReply::Hooked(_) => None,
                };
                self.stage = match found {
                    Some(t) => InstallStage::FindResize(Source::Primary, t),
                    None => match s {
                        Source::Primary => InstallStage::FindPresent(Source::Fallback),
                        Source::Fallback => InstallStage::Failed(InstallError::NotFound(Entry::Present)),
                    },
                };
            },
            InstallStage::FindResize(s, p) => {
                let found = match reply {
                    InstallReply::Found(f) => f,
                    InstallReply::Hooked(_) => None,
                };
                self.stage = match found {
                    Some(t) => InstallStage::HookPresent(p, t),
                    None => match s {
                        Source::Primary => InstallStage::FindResize(Source::Fallback, p),
                        Source::Fallback => InstallStage::Failed(InstallError::NotFound(Entry::ResizeBuffers)),
                    },
                };
            },
            InstallStage::HookPresent(p, t) => match reply {
                InstallReply::Hooked(Some(o)) => {
                    self.present = Some(HookRecord { target: p, original: o });
                    self.stage = InstallStage::HookResize(t);
                },
                _ => {
                    self.stage = InstallStage::Failed(InstallError::HookFailed(Entry::Present));
                },
            },
            InstallStage::HookResize(t) => match reply {
                InstallReply::Hooked(Some(o)) => {
                    self.resize = Some(HookRecord { target: t, original: o });
                    self.stage = InstallStage::Installed;
                },
                _ => {
                    self.stage = InstallStage::Failed(InstallError::HookFailed(Entry::ResizeBuffers));
                },
            },
            _ => {},
        }
        self.current_step()
    }

    /// What the caller is told to do now.
    pub fn current_step(&self) -> (r: InstallStep)
        ensures
            r == step_of(self.spec_stage()),
    {
        match self.stage {
            InstallStage::FindPresent(s) => InstallStep::Find(Entry::Present, s),
            InstallStage::FindResize(s, _) => InstallStep::Find(Entry::ResizeBuffers, s),
            InstallStage::HookPresent(p, _) => InstallStep::Hook(Entry::Present, p),
            InstallStage::HookResize(r) => InstallStep::Hook(Entry::ResizeBuffers, r),
            InstallStage::Installed => InstallStep::Installed,
            InstallStage::Failed(e) => InstallStep::Failed(e),
        }
    }

    /// The guard on the present hook: construct only while the window
    /// procedure is not yet chained.
    pub fn on_present(&self) -> (r: PresentAction)
        ensures
            r == present_action(self.spec_wnd_proc()),
    {
        match self.wnd_proc {
            None => PresentAction::Construct,
            Some(_) => PresentAction::Draw,
        }
    }

    /// Records the window's previous procedure, once. Returns whether this
    /// call installed the chain; a later call changes nothing.
    pub fn chain_window(&mut self, original: isize) -> (r: bool)
        requires
            old(self).wf(),
            old(self).spec_stage() is Installed,
        ensures
            final(self).wf(),
            r == (old(self).spec_wnd_proc() is None),
            final(self).spec_wnd_proc() == chained(old(self).spec_wnd_proc(), original),
            final(self).spec_stage() == old(self).spec_stage(),
            final(self).spec_present() == old(self).spec_present(),
            final(self).spec_resize() == old(self).spec_resize(),
    {
        match self.wnd_proc {
            None => {
                self.wnd_proc = Some(original);
                true
            },
            Some(_) => false,
        }
    }

    /// Where the replacement window procedure sends a message, given the
    /// surface's decision to forward it.
    pub fn dispatch(&self, forward: bool) -> (r: WndAction)
        requires
            self.spec_wnd_proc() is Some,
        ensures
            r == (if forward {
                WndAction::CallOriginal(self.spec_wnd_proc()->Some_0)
            } else {
                WndAction::Handled(0)
            }),
    {
        if forward {
            WndAction::CallOriginal(self.wnd_proc.unwrap())
        } else {
            WndAction::Handled(0)
        }
    }
}

pub open spec fn present_action(wnd_proc: Option<isize>) -> PresentAction {
    if wnd_proc is None {
        PresentAction::Construct
    } else {
        PresentAction::Draw
    }
}

pub open spec fn chained(wnd_proc: Option<isize>, original: isize) -> Option<isize> {
    if wnd_proc is None {
        Some(original)
    } else {
        wnd_proc
    }
}

/// Once the window procedure is chained, every later present only draws,
/// and chaining again changes nothing: construction and chaining happen on
/// the first present alone, however many follow.
pub proof fn lemma_install_once(wnd_proc: Option<isize>, first: isize, later: Seq<isize>)
    ensures
        ({
            let after = chained(wnd_proc, first);
            &&& present_action(after) == PresentAction::Draw
            &&& forall|i: int| 0 <= i < later.len() ==> chained(after, #[trigger] later[i]) == after
        }),
{
}

/// When the primary search for an entry point fails, the fallback search is
/// made next; when that fails too, the installation fails with "not found"
/// and no hook is recorded.
pub proof fn lemma_locator_fallback(reg: Registry, entry: Entry, present: u64)
    requires
        reg.wf(),
    ensures
        after_search(entry, Source::Primary, None, present) == (match entry {
            Entry::Present => InstallStage::FindPresent(Source::Fallback),
            Entry::ResizeBuffers => InstallStage::FindResize(Source::Fallback, present),
        }),
        step_of(after_search(entry, Source::Primary, None, present)) == InstallStep::Find(entry, Source::Fallback),
        after_search(entry, Source::Fallback, None, present) == InstallStage::Failed(InstallError::NotFound(entry)),
        reg.spec_stage() == InstallStage::Failed(InstallError::NotFound(entry)) ==> {
            reg.spec_present() is None && reg.spec_resize() is None
        },
{
}

} // verus!
