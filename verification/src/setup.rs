//! The order in which a window and its graphics are set up.

use vstd::prelude::*;

use crate::config::WindowOptions;

verus! {

/// The platforms that differ in how a window is opened.
#[derive(Clone, Copy, Debug, PartialEq, Eq, Structural)]
pub enum Platform {
    Windows,
    MacOs,
    Other,
}

/// One step of opening a window. The first step that fails ends the setup.
#[derive(Clone, Copy, Debug, PartialEq, Eq, Structural)]
pub enum SetupStep {
    CreateWindow,
    /// Connect to the graphics platform.
    CreateGlDisplay {
        /// Hand over the window's raw handle.
        window_handle: bool,
    },
    /// Choose a framebuffer configuration.
    PickGlConfig { window_handle: bool },
    CreateGlContext { window_handle: bool },
    CreateDisplay {
        /// The window was opened as a tab of another one.
        tabbed: bool,
    },
}

/// The steps that open the first window.
pub open spec fn initial_steps(platform: Platform) -> Seq<SetupStep> {
    if platform == Platform::Windows {
        seq![
            SetupStep::CreateWindow,
            SetupStep::CreateGlDisplay { window_handle: true },
            SetupStep::PickGlConfig { window_handle: true },
            SetupStep::CreateGlContext { window_handle: true },
            SetupStep::CreateDisplay { tabbed: false },
        ]
    } else {
        seq![
            SetupStep::CreateGlDisplay { window_handle: false },
            SetupStep::PickGlConfig { window_handle: false },
            SetupStep::CreateWindow,
            SetupStep::CreateGlContext { window_handle: false },
            SetupStep::CreateDisplay { tabbed: false },
        ]
    }
}

/// The steps that open one more window, on the graphics platform of the others.
pub open spec fn additional_steps(platform: Platform, tabbing_id: Option<String>) -> Seq<
    SetupStep,
> {
    seq![
        SetupStep::CreateWindow,
        SetupStep::CreateGlContext { window_handle: true },
        SetupStep::CreateDisplay { tabbed: platform == Platform::MacOs && tabbing_id is Some },
    ]
}

/// Lists the steps that open the first window.
///
/// Windows sets up its graphics in another order than any other platform: it
/// requires the window first.
pub fn initial_setup(platform: Platform) -> (steps: Vec<SetupStep>)
    ensures
        steps@ == initial_steps(platform),
{
    let window_first = platform == Platform::Windows;
    let mut steps: Vec<SetupStep> = Vec::new();
    if window_first {
        steps.push(SetupStep::CreateWindow);
    }
    steps.push(SetupStep::CreateGlDisplay { window_handle: window_first });
    steps.push(SetupStep::PickGlConfig { window_handle: window_first });
    if !window_first {
        steps.push(SetupStep::CreateWindow);
    }
    steps.push(SetupStep::CreateGlContext { window_handle: window_first });
    steps.push(SetupStep::CreateDisplay { tabbed: false });
    assert(steps@ =~= initial_steps(platform));
    steps
}

/// Lists the steps that open one more window.
///
/// Whether it becomes a tab has to be known before the window is created, which
/// uses up the tabbing id.
pub fn additional_setup<D>(platform: Platform, options: &WindowOptions<D>) -> (steps: Vec<
    SetupStep,
>)
    ensures
        steps@ == additional_steps(platform, options.window_tabbing_id),
{
    let tabbed = platform == Platform::MacOs && options.window_tabbing_id.is_some();
    let mut steps: Vec<SetupStep> = Vec::new();
    steps.push(SetupStep::CreateWindow);
    steps.push(SetupStep::CreateGlContext { window_handle: true });
    steps.push(SetupStep::CreateDisplay { tabbed });
    assert(steps@ =~= additional_steps(platform, options.window_tabbing_id));
    steps
}

} // verus!
