//! The firmware's build recipe: the project settings, the part it runs on and
//! its sources.

use vstd::prelude::*;

use crate::mspm0::{self, device_steps, Device};
use crate::recipe::{State, StepView, Optimize, Workaround};
use crate::src::{self, source_steps};

verus! {

/// The part that the firmware is built for.
pub open spec fn target_device() -> Device {
    Device::MSPM0C1104
}

/// The project settings that precede the part and the sources.
pub open spec fn project_steps() -> Seq<StepView> {
    seq![
        StepView::SetProject("mspm0"@),
        StepView::SetOptLevel(Optimize::O2),
        StepView::SetDefaultWarnings,
        StepView::ApplyWorkaround(Workaround::Gcc122LinkerRwxWarning),
        StepView::ApplyWorkaround(Workaround::NewlibNosysStubWarnings),
        StepView::AddLinkerOpt("--specs=nano.specs"@),
        StepView::AddLinkerOpt("--specs=nosys.specs"@),
    ]
}

/// The whole recipe of the firmware, in order.
pub open spec fn firmware_steps() -> Seq<StepView> {
    project_steps() + device_steps(target_device()) + source_steps()
}

/// Configures `state` for the firmware: the project `mspm0` at `-O2` with the
/// default warnings, the linker workarounds and options, the MSPM0C1104 part,
/// then the firmware's sources.
pub fn configure(state: &mut State)
    ensures
        final(state)@ == old(state)@ + firmware_steps(),
{
    state.set_project("mspm0");

    state.set_opt_level(Optimize::O2);
    // C11 and C++17 are the build system's defaults
    state.set_default_warnings();
    state.apply_workaround(Workaround::Gcc122LinkerRwxWarning);
    state.apply_workaround(Workaround::NewlibNosysStubWarnings);

    state.add_linker_opt("--specs=nano.specs");
    state.add_linker_opt("--specs=nosys.specs");
    let ghost settled = state@;
    assert(settled =~= old(state)@ + project_steps());

    mspm0::add(state, Device::MSPM0C1104);

    src::add(state);
    assert(state@ =~= old(state)@ + firmware_steps());
}

/// A fresh build configured for the firmware.
pub fn build_recipe() -> (state: State)
    ensures
        state@ == firmware_steps(),
{
    let mut state = State::new();
    configure(&mut state);
    assert(state@ =~= firmware_steps());
    state
}

} // verus!
