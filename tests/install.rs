use egui_d3d11::{
    signature, Entry, HookRecord, InstallError, InstallReply, InstallStep, Phase, PresentAction, Registry, Source, WndAction,
};

fn install(found: &[Option<u64>], hooked: &[Option<u64>]) -> (Registry, InstallStep, Vec<InstallStep>) {
    let (mut reg, mut step) = Registry::new();
    let mut steps = vec![step];
    let (mut f, mut h) = (found.iter(), hooked.iter());
    loop {
        let reply = match step {
            InstallStep::Find(..) => InstallReply::Found(*f.next().expect("no more search results")),
            InstallStep::Hook(..) => InstallReply::Hooked(*h.next().expect("no more hook results")),
            _ => break,
        };
        assert!(reg.accepts(&reply));
        step = reg.install_step(reply);
        steps.push(step);
    }
    (reg, step, steps)
}

fn installed() -> Registry {
    let (reg, step, _) = install(&[Some(0x10), Some(0x20)], &[Some(0x11), Some(0x21)]);
    assert_eq!(step, InstallStep::Installed);
    reg
}

#[test]
fn install_on_primary_signatures() {
    let (reg, _, steps) = install(&[Some(0x10), Some(0x20)], &[Some(0x11), Some(0x21)]);
    assert_eq!(
        steps,
        vec![
            InstallStep::Find(Entry::Present, Source::Primary),
            InstallStep::Find(Entry::ResizeBuffers, Source::Primary),
            InstallStep::Hook(Entry::Present, 0x10),
            InstallStep::Hook(Entry::ResizeBuffers, 0x20),
            InstallStep::Installed,
        ]
    );
    assert_eq!(reg.present_hook(), Some(HookRecord { target: 0x10, original: 0x11 }));
    assert_eq!(reg.resize_hook(), Some(HookRecord { target: 0x20, original: 0x21 }));
}

#[test]
fn locator_falls_back() {
    let (reg, step, steps) = install(&[None, Some(0x10), None, Some(0x20)], &[Some(0x11), Some(0x21)]);
    assert_eq!(step, InstallStep::Installed);
    assert_eq!(steps[1], InstallStep::Find(Entry::Present, Source::Fallback));
    assert_eq!(steps[3], InstallStep::Find(Entry::ResizeBuffers, Source::Fallback));
    assert_eq!(reg.present_hook().unwrap().target, 0x10);
}

#[test]
fn locator_not_found_installs_nothing() {
    let (reg, step, _) = install(&[None, None], &[]);
    assert_eq!(step, InstallStep::Failed(InstallError::NotFound(Entry::Present)));
    assert_eq!(reg.present_hook(), None);
    assert_eq!(reg.resize_hook(), None);

    let (reg, step, _) = install(&[Some(0x10), None, None], &[]);
    assert_eq!(step, InstallStep::Failed(InstallError::NotFound(Entry::ResizeBuffers)));
    assert_eq!(reg.present_hook(), None);
    assert_eq!(reg.resize_hook(), None);
}

#[test]
fn hook_failures() {
    let (reg, step, _) = install(&[Some(0x10), Some(0x20)], &[None]);
    assert_eq!(step, InstallStep::Failed(InstallError::HookFailed(Entry::Present)));
    assert_eq!(reg.present_hook(), None);

    let (reg, step, _) = install(&[Some(0x10), Some(0x20)], &[Some(0x11), None]);
    assert_eq!(step, InstallStep::Failed(InstallError::HookFailed(Entry::ResizeBuffers)));
    assert_eq!(reg.present_hook(), Some(HookRecord { target: 0x10, original: 0x11 }));
    assert_eq!(reg.resize_hook(), None);
}

#[test]
fn present_constructs_only_once() {
    let mut reg = installed();
    assert_eq!(reg.on_present(), PresentAction::Construct);
    assert!(reg.chain_window(0x777));
    for _ in 0..3 {
        assert_eq!(reg.on_present(), PresentAction::Draw);
        assert!(!reg.chain_window(0x999));
    }
    assert_eq!(reg.original_wnd_proc(), Some(0x777));
}

#[test]
fn dispatch_forwards_or_handles() {
    let mut reg = installed();
    reg.chain_window(0x777);
    assert_eq!(reg.dispatch(true), WndAction::CallOriginal(0x777));
    assert_eq!(reg.dispatch(false), WndAction::Handled(0));
}

#[test]
fn signatures_table() {
    let s = signature(Entry::Present, Source::Primary);
    assert_eq!(s.module, "gameoverlayrenderer64.dll");
    assert_eq!(s.pattern, "48 89 6C 24 18 48 89 74 24 20 41 56 48 83 EC 20 41");
    assert_eq!(signature(Entry::Present, Source::Fallback).module, "dxgi.dll");
    assert_eq!(
        signature(Entry::ResizeBuffers, Source::Fallback).pattern,
        "48 8B C4 55 41 54 41 55 41 56 41 57 48 8D 68 B1 48 81 EC C0"
    );
}

#[test]
fn lifecycle_phases() {
    let (reg, _) = Registry::new();
    assert_eq!(reg.phase(), Phase::Installing);
    let (reg, _, _) = install(&[None, None], &[]);
    assert_eq!(reg.phase(), Phase::Failed);
    let mut reg = installed();
    assert_eq!(reg.phase(), Phase::Installed);
    reg.chain_window(0x777);
    assert_eq!(reg.phase(), Phase::SurfaceReady);
}
