//! Render-surface bookkeeping and hook-installation protocol for an overlay
//! injected into a Direct3D 11 host.
//!
//! Every native call (swapchain, device, pattern scan, hook installer, window
//! procedure) is performed by the caller; the library decides, step by step,
//! which call comes next and what state results from its outcome.

mod surface;
mod hooks;

pub use surface::{DirectX11App, RenderView, Reply, Request, ResizeArgs, Setup, SetupError, SetupOutcome, SetupStage, Stage};
pub use hooks::{
    signature, Entry, HookRecord, InstallError, InstallReply, InstallStage, InstallStep, Phase, PresentAction, Registry,
    Signature, Source, WndAction,
};
