//! The firmware's own sources: its include directory and `main.c`.

use vstd::prelude::*;

use crate::recipe::{source, State, StepView};

verus! {

/// The directory of this module, relative to the firmware root.
pub open spec fn module_dir() -> Seq<char> {
    "src"@
}

/// The steps that `add` appends, in order.
pub open spec fn source_steps() -> Seq<StepView> {
    seq![
        StepView::AddIncludeDir(source(module_dir(), "inc"@)),
        StepView::AddCFile(source(module_dir(), "main.c"@)),
    ]
}

/// Adds the firmware's include directory `inc` and its `main.c` to the build.
pub fn add(state: &mut State)
    ensures
        final(state)@ == old(state)@ + source_steps(),
{
    state.add_include_dir("src", "inc");
    state.add_c_file("src", "main.c");
    assert(state@ =~= old(state)@ + source_steps());
}

} // verus!
