use egui_d3d11::{DirectX11App, RenderView, Reply, Request, ResizeArgs, Setup, SetupError, SetupOutcome, Stage};

const WINDOW: isize = 0x1234;
const DEVICE: u64 = 0xD;
const BUFFER_A: u64 = 0xA;
const BUFFER_B: u64 = 0xB;

fn ready_surface(view: u64) -> DirectX11App {
    let (mut setup, first) = Setup::start(DEVICE);
    assert_eq!(first, Request::GetDescriptor);
    match setup.step(Reply::Descriptor(Some(WINDOW))) {
        SetupOutcome::Next(r) => assert_eq!(r, Request::GetBackBuffer),
        _ => panic!("descriptor step did not continue"),
    }
    match setup.step(Reply::BackBuffer(Some(BUFFER_A))) {
        SetupOutcome::Next(r) => assert_eq!(r, Request::CreateView { device: DEVICE, back_buffer: BUFFER_A }),
        _ => panic!("back buffer step did not continue"),
    }
    match setup.step(Reply::View(Some(view))) {
        SetupOutcome::Ready(app) => app,
        _ => panic!("view step did not finish"),
    }
}

fn setup_error(replies: &[Reply]) -> SetupError {
    let (mut setup, _) = Setup::start(DEVICE);
    for reply in replies {
        match setup.step(*reply) {
            SetupOutcome::Next(_) => {}
            SetupOutcome::Failed(e) => return e,
            SetupOutcome::Ready(_) => panic!("construction succeeded"),
        }
    }
    panic!("construction did not fail")
}

/// Runs a resize against a scripted swapchain; returns the requests issued and
/// how often the original resize function ran, with which arguments.
fn run_resize(
    app: &mut DirectX11App,
    args: ResizeArgs,
    code: i32,
    buffer: Option<u64>,
    device: Option<u64>,
    view: Option<u64>,
) -> (Vec<Request>, Vec<ResizeArgs>) {
    let mut requests = vec![];
    let mut original_calls = vec![];
    let mut req = app.resize_buffers(args);
    loop {
        requests.push(req);
        assert!(app.view().is_none() || matches!(req, Request::Return { .. }));
        let reply = match req {
            Request::ReleaseView { .. } => Reply::Released,
            Request::CallOriginal(a) => {
                original_calls.push(a);
                Reply::Resized(code)
            }
            Request::GetBackBuffer => Reply::BackBuffer(buffer),
            Request::GetDevice => Reply::Device(device),
            Request::CreateView { .. } => Reply::View(view),
            Request::Return { .. } => break,
            Request::GetDescriptor => panic!("resize asked for the descriptor"),
        };
        assert!(app.accepts(&reply));
        req = app.resume_resize(reply);
    }
    (requests, original_calls)
}

fn args() -> ResizeArgs {
    ResizeArgs { buffer_count: 2, width: 800, height: 600, format: 28, flags: 0 }
}

#[test]
fn construct_binds_view_to_back_buffer() {
    let app = ready_surface(0x100);
    assert_eq!(app.view(), Some(RenderView { generation: 1, handle: 0x100, target: BUFFER_A }));
    assert_eq!(app.window(), WINDOW);
    assert_eq!(app.device(), DEVICE);
    assert_eq!(app.stage(), Stage::Idle);
}

#[test]
fn construct_errors() {
    assert_eq!(setup_error(&[Reply::Descriptor(None)]), SetupError::Descriptor);
    assert_eq!(setup_error(&[Reply::Descriptor(Some(0))]), SetupError::InvalidWindow);
    assert_eq!(setup_error(&[Reply::Descriptor(Some(WINDOW)), Reply::BackBuffer(None)]), SetupError::BackBuffer);
    assert_eq!(
        setup_error(&[Reply::Descriptor(Some(WINDOW)), Reply::BackBuffer(Some(BUFFER_A)), Reply::View(None)]),
        SetupError::RenderView
    );
}

#[test]
fn setup_rejects_unexpected_reply() {
    let (setup, _) = Setup::start(DEVICE);
    assert!(setup.accepts(&Reply::Descriptor(None)));
    assert!(!setup.accepts(&Reply::BackBuffer(Some(1))));
}

#[test]
fn end_to_end_resize_scenario() {
    let mut app = ready_surface(0x100);
    assert_eq!(app.view().unwrap().target, BUFFER_A);
    let (requests, calls) = run_resize(&mut app, args(), 0x55, Some(BUFFER_B), Some(DEVICE), Some(0x200));
    assert_eq!(calls, vec![ResizeArgs { buffer_count: 2, width: 800, height: 600, format: 28, flags: 0 }]);
    assert_eq!(
        requests,
        vec![
            Request::ReleaseView { handle: 0x100 },
            Request::CallOriginal(args()),
            Request::GetBackBuffer,
            Request::GetDevice,
            Request::CreateView { device: DEVICE, back_buffer: BUFFER_B },
            Request::Return { code: 0x55, error: None },
        ]
    );
    assert_eq!(app.view(), Some(RenderView { generation: 2, handle: 0x200, target: BUFFER_B }));
    assert!(app.can_resize());
}

#[test]
fn repeated_resizes_give_distinct_views() {
    let mut app = ready_surface(0x100);
    let mut seen = vec![app.view().unwrap()];
    for i in 0..5u64 {
        run_resize(&mut app, args(), 0, Some(BUFFER_B + i), Some(DEVICE), Some(0x100));
        let v = app.view().unwrap();
        assert!(!seen.contains(&v));
        assert_eq!(v.target, BUFFER_B + i);
        seen.push(v);
    }
}

#[test]
fn resize_passes_code_through_on_failure() {
    let failures = [
        (None, Some(DEVICE), Some(1), SetupError::BackBuffer),
        (Some(BUFFER_B), None, Some(1), SetupError::Device),
        (Some(BUFFER_B), Some(DEVICE), None, SetupError::RenderView),
    ];
    for (b, d, v, e) in failures {
        let mut app = ready_surface(0x100);
        let (requests, calls) = run_resize(&mut app, args(), -7, b, d, v);
        assert_eq!(calls.len(), 1);
        assert_eq!(*requests.last().unwrap(), Request::Return { code: -7, error: Some(e) });
        assert_eq!(app.stage(), Stage::Broken(e));
        assert_eq!(app.view(), None);
        assert!(!app.can_resize());
    }
}

#[test]
fn slot_is_empty_while_resizing() {
    let mut app = ready_surface(0x100);
    app.resize_buffers(args());
    assert_eq!(app.view(), None);
    assert_eq!(app.stage(), Stage::Releasing(args()));
    assert!(!app.can_resize());
    assert!(app.accepts(&Reply::Released));
    assert!(!app.accepts(&Reply::Resized(0)));
}

#[test]
fn present_reads_current_view() {
    let app = ready_surface(0x100);
    let v = app.present(1, 0);
    assert_eq!(Some(v), app.view());
    assert_eq!(app.present(0, 0), v);
}

#[test]
fn wnd_proc_forwards_every_message() {
    let app = ready_surface(0x100);
    for (msg, w, l) in [(0u32, 0usize, 0isize), (0x0200, 1, -1), (u32::MAX, usize::MAX, isize::MIN)] {
        assert!(app.wnd_proc(WINDOW, msg, w, l));
    }
}
