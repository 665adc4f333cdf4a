//! The render surface: the render-target view bound to the swapchain's back
//! buffer, its one-time construction and its release-and-recreate sequence
//! around a native buffer resize.
use vstd::prelude::*;

verus! {

/// Arguments of a buffer resize, exactly as the host passed them.
#[derive(Clone, Copy, Debug, PartialEq, Eq, Structural)]
pub struct ResizeArgs {
    pub buffer_count: u32,
    pub width: u32,
    pub height: u32,
    pub format: u32,
    pub flags: u32,
}

/// A render-target view: the generation the surface gave it, its native
/// handle, and the back buffer it writes into.
#[derive(Clone, Copy, Debug, PartialEq, Eq, Structural)]
pub struct RenderView {
    pub generation: u64,
    pub handle: u64,
    pub target: u64,
}

/// Fatal failures while building or rebuilding the render-target view.
#[derive(Clone, Copy, Debug, PartialEq, Eq, Structural)]
pub enum SetupError {
    Descriptor,
    InvalidWindow,
    BackBuffer,
    Device,
    RenderView,
}

/// The native call that the caller performs next, or, for `Return`, the
/// result code to hand back to the host.
#[derive(Clone, Copy, Debug, PartialEq, Eq, Structural)]
pub enum Request {
    GetDescriptor,
    GetBackBuffer,
    GetDevice,
    CreateView { device: u64, back_buffer: u64 },
    ReleaseView { handle: u64 },
    CallOriginal(ResizeArgs),
    Return { code: i32, error: Option<SetupError> },
}

/// The outcome of the last requested native call; `None` when it failed.
#[derive(Clone, Copy, Debug, PartialEq, Eq, Structural)]
pub enum Reply {
    /// The output window named by the swapchain's descriptor.
    Descriptor(Option<isize>),
    BackBuffer(Option<u64>),
    Device(Option<u64>),
    View(Option<u64>),
    Released,
    Resized(i32),
}

/// Where a surface stands in the resize sequence. Every stage but `Idle`
/// holds the view slot exclusively.
#[derive(Clone, Copy, Debug, PartialEq, Eq, Structural)]
pub enum Stage {
    Idle,
    Releasing(ResizeArgs),
    Resizing(ResizeArgs),
    AwaitBuffer(i32),
    AwaitDevice(i32, u64),
    AwaitView(i32, u64, u64),
    Broken(SetupError),
}

/// Whether a resize is under way (the slot is held and may be empty).
pub open spec fn in_resize(stage: Stage) -> bool {
    !(stage is Idle) && !(stage is Broken)
}

/// Whether `reply` answers the call that `stage` is waiting on.
pub open spec fn resize_accepts(stage: Stage, reply: Reply) -> bool {
    match stage {
        Stage::Releasing(_) => reply is Released,
        Stage::Resizing(_) => reply is Resized,
        Stage::AwaitBuffer(_) => reply is BackBuffer,
        Stage::AwaitDevice(_, _) => reply is Device,
        Stage::AwaitView(_, _, _) => reply is View,
        _ => false,
    }
}

/// One step of the resize sequence: the next stage, the content of the view
/// slot after the step, and what the caller does next.
pub open spec fn resize_next(stage: Stage, generation: u64, reply: Reply) -> (Stage, Option<RenderView>, Request) {
    match stage {
        Stage::Releasing(args) => (Stage::Resizing(args), None, Request::CallOriginal(args)),
        Stage::Resizing(_) => {
            let code = reply->Resized_0;
            (Stage::AwaitBuffer(code), None, Request::GetBackBuffer)
        },
        Stage::AwaitBuffer(code) => match reply->BackBuffer_0 {
            Some(b) => (Stage::AwaitDevice(code, b), None, Request::GetDevice),
            None => (
                Stage::Broken(SetupError::BackBuffer),
                None,
                Request::Return { code, error: Some(SetupError::BackBuffer) },
            ),
        },
        Stage::AwaitDevice(code, b) => match reply->Device_0 {
            Some(d) => (Stage::AwaitView(code, b, d), None, Request::CreateView { device: d, back_buffer: b }),
            None => (Stage::Broken(SetupError::Device), None, Request::Return { code, error: Some(SetupError::Device) }),
        },
        Stage::AwaitView(code, b, _) => match reply->View_0 {
            Some(h) => (
                Stage::Idle,
                Some(RenderView { generation: (generation + 1) as u64, handle: h, target: b }),
                Request::Return { code, error: None },
            ),
            None => (
                Stage::Broken(SetupError::RenderView),
                None,
                Request::Return { code, error: Some(SetupError::RenderView) },
            ),
        },
        _ => (stage, None, Request::Return { code: 0, error: None }),
    }
}

/// The calls and results that a resize sequence issues for `replies`,
/// starting from `stage`, up to the point where it leaves the resize.
pub open spec fn resize_run(stage: Stage, generation: u64, replies: Seq<Reply>) -> Seq<Request>
    decreases replies.len(),
{
    if replies.len() == 0 || !in_resize(stage) {
        seq![]
    } else {
        let (next, _, r) = resize_next(stage, generation, replies[0]);
        seq![r] + resize_run(next, generation, replies.drop_first())
    }
}

/// How many times `reqs` invokes the host's original resize function.
pub open spec fn original_calls(reqs: Seq<Request>) -> nat
    decreases reqs.len(),
{
    if reqs.len() == 0 {
        0
    } else {
        (if reqs[0] is CallOriginal { 1nat } else { 0nat }) + original_calls(reqs.drop_first())
    }
}

/// The replies of a resize in which the native resize returns `code` and the
/// back buffer, device and view calls give `b`, `d` and `v`.
pub open spec fn resize_replies(code: i32, b: Option<u64>, d: Option<u64>, v: Option<u64>) -> Seq<Reply> {
    seq![Reply::Released, Reply::Resized(code), Reply::BackBuffer(b), Reply::Device(d), Reply::View(v)]
}

/// The error a resize ends with, given what the three recreation calls gave.
pub open spec fn recreate_error(b: Option<u64>, d: Option<u64>, v: Option<u64>) -> Option<SetupError> {
    if b is None {
        Some(SetupError::BackBuffer)
    } else if d is None {
        Some(SetupError::Device)
    } else if v is None {
        Some(SetupError::RenderView)
    } else {
        None
    }
}

/// The stage and the view slot that a resize reaches after `replies`.
pub open spec fn resize_state(stage: Stage, generation: u64, replies: Seq<Reply>) -> (Stage, Option<RenderView>)
    decreases replies.len(),
{
    if replies.len() == 0 || !in_resize(stage) {
        (stage, None)
    } else {
        let (next, v, _) = resize_next(stage, generation, replies[0]);
        if replies.len() == 1 || !in_resize(next) {
            (next, v)
        } else {
            resize_state(next, generation, replies.drop_first())
        }
    }
}

/// A resize invokes the host's original resize function exactly once, with
/// the arguments the host gave, and hands back exactly that call's result
/// code, whether or not the view is recreated afterwards.
pub proof fn lemma_resize_passes_through(
    args: ResizeArgs,
    generation: u64,
    code: i32,
    b: Option<u64>,
    d: Option<u64>,
    v: Option<u64>,
)
    ensures
        ({
            let reqs = resize_run(Stage::Releasing(args), generation, resize_replies(code, b, d, v));
            &&& original_calls(reqs) == 1
            &&& reqs[0] == Request::CallOriginal(args)
            &&& reqs.last() == (Request::Return { code, error: recreate_error(b, d, v) })
        }),
{
    reveal_with_fuel(resize_run, 6);
    reveal_with_fuel(original_calls, 6);
    let replies = resize_replies(code, b, d, v);
    let reqs = resize_run(Stage::Releasing(args), generation, replies);
    assert(replies.drop_first() =~= seq![Reply::Resized(code), Reply::BackBuffer(b), Reply::Device(d), Reply::View(v)]);
    assert(replies.drop_first().drop_first() =~= seq![Reply::BackBuffer(b), Reply::Device(d), Reply::View(v)]);
    assert(replies.drop_first().drop_first().drop_first() =~= seq![Reply::Device(d), Reply::View(v)]);
    assert(replies.drop_first().drop_first().drop_first().drop_first() =~= seq![Reply::View(v)]);
    if b is None {
        assert(reqs =~= seq![Request::CallOriginal(args), Request::GetBackBuffer, Request::Return { code, error: Some(SetupError::BackBuffer) }]);
    } else if d is None {
        assert(reqs =~= seq![
            Request::CallOriginal(args),
            Request::GetBackBuffer,
            Request::GetDevice,
            Request::Return { code, error: Some(SetupError::Device) },
        ]);
    } else {
        assert(reqs =~= seq![
            Request::CallOriginal(args),
            Request::GetBackBuffer,
            Request::GetDevice,
            Request::CreateView { device: d->Some_0, back_buffer: b->Some_0 },
            Request::Return { code, error: recreate_error(b, d, v) },
        ]);
    }
}

/// A resize whose back buffer, device and view calls all succeed leaves the
/// surface ready again, with a view over the new back buffer that is distinct
/// from the view it replaced; one whose recreation fails leaves the slot empty
/// and the surface not ready.
pub proof fn lemma_resize_renews_view(
    before: RenderView,
    args: ResizeArgs,
    generation: u64,
    code: i32,
    b: Option<u64>,
    d: Option<u64>,
    v: Option<u64>,
)
    requires
        before.generation == generation,
        generation < u64::MAX,
    ensures
        ({
            let (stage, view) = resize_state(Stage::Releasing(args), generation, resize_replies(code, b, d, v));
            &&& (recreate_error(b, d, v) is None ==> {
                &&& stage is Idle
                &&& view == Some(RenderView { generation: (generation + 1) as u64, handle: v->Some_0, target: b->Some_0 })
                &&& view != Some(before)
            })
            &&& (recreate_error(b, d, v) matches Some(e) ==> stage == Stage::Broken(e) && view is None)
        }),
{
    reveal_with_fuel(resize_state, 6);
    let replies = resize_replies(code, b, d, v);
    assert(replies.drop_first() =~= seq![Reply::Resized(code), Reply::BackBuffer(b), Reply::Device(d), Reply::View(v)]);
    assert(replies.drop_first().drop_first() =~= seq![Reply::BackBuffer(b), Reply::Device(d), Reply::View(v)]);
    assert(replies.drop_first().drop_first().drop_first() =~= seq![Reply::Device(d), Reply::View(v)]);
    assert(replies.drop_first().drop_first().drop_first().drop_first() =~= seq![Reply::View(v)]);
}

/// The surface that owns the render-target view of one swapchain.
pub struct DirectX11App {
    device: u64,
    window: isize,
    view: Option<RenderView>,
    stage: Stage,
    generation: u64,
}

impl DirectX11App {
    pub closed spec fn spec_device(&self) -> u64 {
        self.device
    }

    pub closed spec fn spec_window(&self) -> isize {
        self.window
    }

    pub closed spec fn spec_view(&self) -> Option<RenderView> {
        self.view
    }

    pub closed spec fn spec_stage(&self) -> Stage {
        self.stage
    }

    /// The generation of the newest view this surface has made.
    pub closed spec fn spec_generation(&self) -> u64 {
        self.generation
    }

    /// Outside a resize the slot holds the newest view; during a resize, or
    /// after a fatal failure, it is empty.
    pub closed spec fn wf(&self) -> bool {
        &&& self.window != 0
        &&& (self.stage is Idle <==> self.view is Some)
        &&& (self.view matches Some(v) ==> v.generation == self.generation)
    }

    /// Ready: the slot holds a valid view and no resize holds it.
    pub open spec fn is_ready(&self) -> bool {
        &&& self.spec_stage() is Idle
        &&& self.spec_view() is Some
    }

    pub proof fn lemma_wf_ready(&self)
        requires
            self.wf(),
        ensures
            self.spec_stage() is Idle <==> self.is_ready(),
            in_resize(self.spec_stage()) ==> self.spec_view() is None,
            self.spec_window() != 0,
            self.spec_view() matches Some(v) ==> v.generation == self.spec_generation(),
    {
    }

    /// A ready surface over `back_buffer`, whose first view is `view`.
    pub fn new(device: u64, window: isize, back_buffer: u64, view: u64) -> (r: Self)
        requires
            window != 0,
        ensures
            r.wf(),
            r.is_ready(),
            r.spec_view() == Some(RenderView { generation: 1, handle: view, target: back_buffer }),
            r.spec_generation() == 1,
            r.spec_device() == device,
            r.spec_window() == window,
    {
        DirectX11App {
            device,
            window,
            view: Some(RenderView { generation: 1, handle: view, target: back_buffer }),
            stage: Stage::Idle,
            generation: 1,
        }
    }

    pub fn device(&self) -> (r: u64)
        ensures
            r == self.spec_device(),
    {
        self.device
    }

    pub fn window(&self) -> (r: isize)
        ensures
            r == self.spec_window(),
    {
        self.window
    }

    pub fn view(&self) -> (r: Option<RenderView>)
        ensures
            r == self.spec_view(),
    {
        self.view
    }

    pub fn stage(&self) -> (r: Stage)
        ensures
            r == self.spec_stage(),
    {
        self.stage
    }

    /// Whether a resize can start now.
    pub fn can_resize(&self) -> (r: bool)
        ensures
            r == (self.is_ready() && self.spec_generation() < u64::MAX),
    {
        matches!(self.stage, Stage::Idle) && self.view.is_some() && self.generation < u64::MAX
    }

    /// Per-frame entry point: reads the current view and changes nothing.
    pub fn present(&self, _sync_interval: u32, _flags: u32) -> (r: RenderView)
        requires
            self.is_ready(),
        ensures
            Some(r) == self.spec_view(),
    {
        self.view.unwrap()
    }

    /// Decides whether a window message goes on to the original procedure.
    pub fn wnd_proc(&self, _hwnd: isize, _msg: u32, _wparam: usize, _lparam: isize) -> (r: bool)
        ensures
            r,
    {
        true
    }

    /// Whether `reply` answers the call this surface is waiting on.
    pub fn accepts(&self, reply: &Reply) -> (r: bool)
        ensures
            r == resize_accepts(self.spec_stage(), *reply),
    {
        match self.stage {
            Stage::Releasing(_) => matches!(reply, Reply::Released),
            Stage::Resizing(_) => matches!(reply, Reply::Resized(_)),
            Stage::AwaitBuffer(_) => matches!(reply, Reply::BackBuffer(_)),
            Stage::AwaitDevice(_, _) => matches!(reply, Reply::Device(_)),
            Stage::AwaitView(_, _, _) => matches!(reply, Reply::View(_)),
            _ => false,
        }
    }

    /// Starts a resize: takes the slot and empties it. The caller releases the
    /// returned view before anything else, so that no reference to the back
    /// buffer survives into the native resize.
    pub fn resize_buffers(&mut self, args: ResizeArgs) -> (r: Request)
        requires
            old(self).wf(),
            old(self).is_ready(),
            old(self).spec_generation() < u64::MAX,
        ensures
            final(self).wf(),
            r == (Request::ReleaseView { handle: old(self).spec_view()->Some_0.handle }),
            final(self).spec_stage() == Stage::Releasing(args),
            final(self).spec_view() is None,
            final(self).spec_generation() == old(self).spec_generation(),
            final(self).spec_device() == old(self).spec_device(),
            final(self).spec_window() == old(self).spec_window(),
    {
        let old_view = self.view.unwrap();
        self.view = None;
        self.stage = Stage::Releasing(args);
        Request::ReleaseView { handle: old_view.handle }
    }

    /// Advances the resize by the outcome of the last requested call.
    pub fn resume_resize(&mut self, reply: Reply) -> (r: Request)
        requires
            old(self).wf(),
            old(self).spec_generation() < u64::MAX,
            resize_accepts(old(self).spec_stage(), reply),
        ensures
            final(self).wf(),
            ({
                let (s, v, q) = resize_next(old(self).spec_stage(), old(self).spec_generation(), reply);
                &&& final(self).spec_stage() == s
                &&& final(self).spec_view() == v
                &&& r == q
            }),
            final(self).spec_generation() == (if final(self).spec_view() is Some {
                old(self).spec_generation() + 1
            } else {
                old(self).spec_generation() as int
            }),
            final(self).spec_device() == old(self).spec_device(),
            final(self).spec_window() == old(self).spec_window(),
    {
        match self.stage {
            Stage::Releasing(args) => {
                self.stage = Stage::Resizing(args);
                Request::CallOriginal(args)
            },
            Stage::Resizing(_) => {
                let code = match reply {
                    Reply::Resized(c) => c,
                    _ => 0,
                };
                self.stage = Stage::AwaitBuffer(code);
                Request::GetBackBuffer
            },
            Stage::AwaitBuffer(code) => match reply {
                Reply::BackBuffer(Some(b)) => {
                    self.stage = Stage::AwaitDevice(code, b);
                    Request::GetDevice
                },
                _ => {
                    self.stage = Stage::Broken(SetupError::BackBuffer);
                    Request::Return { code, error: Some(SetupError::BackBuffer) }
                },
            },
            Stage::AwaitDevice(code, b) => match reply {
                Reply::Device(Some(d)) => {
                    self.stage = Stage::AwaitView(code, b, d);
                    Request::CreateView { device: d, back_buffer: b }
                },
                _ => {
                    self.stage = Stage::Broken(SetupError::Device);
                    Request::Return { code, error: Some(SetupError::Device) }
                },
            },
            Stage::AwaitView(code, b, _) => match reply {
                Reply::View(Some(h)) => {
                    self.generation = self.generation + 1;
                    self.view = Some(RenderView { generation: self.generation, handle: h, target: b });
                    self.stage = Stage::Idle;
                    Request::Return { code, error: None }
                },
                _ => {
                    self.stage = Stage::Broken(SetupError::RenderView);
                    Request::Return { code, error: Some(SetupError::RenderView) }
                },
            },
            _ => Request::Return { code: 0, error: None },
        }
    }
}

/// Where the one-time construction of a surface stands.
#[derive(Clone, Copy, Debug, PartialEq, Eq, Structural)]
pub enum SetupStage {
    AwaitDescriptor,
    AwaitBuffer(isize),
    AwaitView(isize, u64),
}

/// What a construction step yields.
pub enum SetupOutcome {
    Next(Request),
    Ready(DirectX11App),
    Failed(SetupError),
}

/// Whether `reply` answers the call that a construction at `stage` waits on.
pub open spec fn setup_accepts(stage: SetupStage, reply: Reply) -> bool {
    match stage {
        SetupStage::AwaitDescriptor => reply is Descriptor,
        SetupStage::AwaitBuffer(_) => reply is BackBuffer,
        SetupStage::AwaitView(_, _) => reply is View,
    }
}

/// The construction of a surface for the swapchain of `device`: read the
/// descriptor's output window, fetch the back buffer, create a view over it.
pub struct Setup {
    pub device: u64,
    pub stage: SetupStage,
}

impl Setup {
    /// A window taken from the descriptor is never the null handle.
    pub open spec fn wf(&self) -> bool {
        match self.stage {
            SetupStage::AwaitDescriptor => true,
            SetupStage::AwaitBuffer(w) => w != 0,
            SetupStage::AwaitView(w, _) => w != 0,
        }
    }

    /// A construction that first asks for the swapchain's descriptor.
    pub fn start(device: u64) -> (r: (Setup, Request))
        ensures
            r.0.wf(),
            r.0.device == device,
            r.0.stage == SetupStage::AwaitDescriptor,
            r.1 == Request::GetDescriptor,
    {
        (Setup { device, stage: SetupStage::AwaitDescriptor }, Request::GetDescriptor)
    }

    /// Whether `reply` answers the call this construction waits on.
    pub fn accepts(&self, reply: &Reply) -> (r: bool)
        ensures
            r == setup_accepts(self.stage, *reply),
    {
        match self.stage {
            SetupStage::AwaitDescriptor => matches!(reply, Reply::Descriptor(_)),
            SetupStage::AwaitBuffer(_) => matches!(reply, Reply::BackBuffer(_)),
            SetupStage::AwaitView(_, _) => matches!(reply, Reply::View(_)),
        }
    }

    /// Advances the construction by the outcome of the last requested call.
    /// Any failure is final; success yields a ready surface whose view is
    /// over the back buffer that was fetched.
    pub fn step(&mut self, reply: Reply) -> (r: SetupOutcome)
        requires
            old(self).wf(),
            setup_accepts(old(self).stage, reply),
        ensures
            final(self).wf(),
            final(self).device == old(self).device,
            (match old(self).stage {
                SetupStage::AwaitDescriptor => match reply->Descriptor_0 {
                    None => r == SetupOutcome::Failed(SetupError::Descriptor),
                    Some(w) => if w == 0 {
                        r == SetupOutcome::Failed(SetupError::InvalidWindow)
                    } else {
                        &&& final(self).stage == SetupStage::AwaitBuffer(w)
                        &&& r == SetupOutcome::Next(Request::GetBackBuffer)
                    },
                },
                SetupStage::AwaitBuffer(w) => match reply->BackBuffer_0 {
                    None => r == SetupOutcome::Failed(SetupError::BackBuffer),
                    Some(b) => {
                        &&& final(self).stage == SetupStage::AwaitView(w, b)
                        &&& r == SetupOutcome::Next(Request::CreateView { device: old(self).device, back_buffer: b })
                    },
                },
                SetupStage::AwaitView(w, b) => match reply->View_0 {
                    None => r == SetupOutcome::Failed(SetupError::RenderView),
                    Some(h) => r matches SetupOutcome::Ready(app) && {
                        &&& app.wf()
                        &&& app.is_ready()
                        &&& app.spec_view() == Some(RenderView { generation: 1, handle: h, target: b })
                        &&& app.spec_generation() == 1
                        &&& app.spec_device() == old(self).device
                        &&& app.spec_window() == w
                    },
                },
            }),
    {
        match self.stage {
            SetupStage::AwaitDescriptor => match reply {
                Reply::Descriptor(Some(w)) => {
                    if w == 0 {
                        SetupOutcome::Failed(SetupError::InvalidWindow)
                    } else {
                        self.stage = SetupStage::AwaitBuffer(w);
                        SetupOutcome::Next(Request::GetBackBuffer)
                    }
                },
                _ => SetupOutcome::Failed(SetupError::Descriptor),
            },
            SetupStage::AwaitBuffer(w) => match reply {
                Reply::BackBuffer(Some(b)) => {
                    self.stage = SetupStage::AwaitView(w, b);
                    SetupOutcome::Next(Request::CreateView { device: self.device, back_buffer: b })
                },
                _ => SetupOutcome::Failed(SetupError::BackBuffer),
            },
            SetupStage::AwaitView(w, b) => match reply {
                Reply::View(Some(h)) => SetupOutcome::Ready(DirectX11App::new(self.device, w, b, h)),
                _ => SetupOutcome::Failed(SetupError::RenderView),
            },
        }
    }
}

} // verus!
