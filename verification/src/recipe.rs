//! The build recipe: the ordered steps that configure a firmware build.
//!
//! A `State` records, in order, every configuration call made on it. Its view
//! is the sequence of those calls, with each string taken as its characters.
//! A build system replays the steps to build the firmware.

use vstd::prelude::*;

verus! {

/// The processor core that the firmware is compiled for.
#[derive(Clone, Copy, Debug, PartialEq, Eq)]
pub enum Cpu {
    CortexM0Plus,
}

/// The compiler's optimisation level.
#[derive(Clone, Copy, Debug, PartialEq, Eq)]
pub enum Optimize {
    /// `-O2`.
    O2,
}

/// Which parts of the CMSIS support package a build takes.
#[derive(Clone, Copy, Debug, PartialEq, Eq)]
pub enum CmsisFeatures {
    Default,
}

/// Known toolchain quirks that a build can work around.
#[derive(Clone, Copy, Debug, PartialEq, Eq)]
pub enum Workaround {
    /// The linker warning about LOAD segments with RWX permissions (GCC 12.2).
    Gcc122LinkerRwxWarning,
    /// The warnings about newlib's nosys stubs being linked in.
    NewlibNosysStubWarnings,
}

/// A file or directory named relative to the directory of the module that
/// adds it.
#[derive(Debug, PartialEq, Eq)]
pub struct SourcePath {
    /// The directory of the adding module, relative to the firmware root.
    pub dir: String,
    /// The path inside that directory.
    pub path: String,
}

/// The mathematical value of a `SourcePath`.
pub struct SourcePathView {
    pub dir: Seq<char>,
    pub path: Seq<char>,
}

impl View for SourcePath {
    type V = SourcePathView;

    open spec fn view(&self) -> SourcePathView {
        SourcePathView { dir: self.dir@, path: self.path@ }
    }
}

/// One configuration call on a build.
#[derive(Debug, PartialEq, Eq)]
pub enum Step {
    SetProject(String),
    SetOptLevel(Optimize),
    SetDefaultWarnings,
    ApplyWorkaround(Workaround),
    AddLinkerOpt(String),
    SetCpu(Cpu),
    AddCmsis(CmsisFeatures),
    AddIncludeDir(SourcePath),
    AddCFile(SourcePath),
    AddDefine(String),
    SetLinkerScript(SourcePath),
}

/// The mathematical value of a `Step`.
pub enum StepView {
    SetProject(Seq<char>),
    SetOptLevel(Optimize),
    SetDefaultWarnings,
    ApplyWorkaround(Workaround),
    AddLinkerOpt(Seq<char>),
    SetCpu(Cpu),
    AddCmsis(CmsisFeatures),
    AddIncludeDir(SourcePathView),
    AddCFile(SourcePathView),
    AddDefine(Seq<char>),
    SetLinkerScript(SourcePathView),
}

impl View for Step {
    type V = StepView;

    open spec fn view(&self) -> StepView {
        match self {
            Step::SetProject(s) => StepView::SetProject(s@),
            Step::SetOptLevel(o) => StepView::SetOptLevel(*o),
            Step::SetDefaultWarnings => StepView::SetDefaultWarnings,
            Step::ApplyWorkaround(w) => StepView::ApplyWorkaround(*w),
            Step::AddLinkerOpt(s) => StepView::AddLinkerOpt(s@),
            Step::SetCpu(c) => StepView::SetCpu(*c),
            Step::AddCmsis(f) => StepView::AddCmsis(*f),
            Step::AddIncludeDir(p) => StepView::AddIncludeDir(p@),
            Step::AddCFile(p) => StepView::AddCFile(p@),
            Step::AddDefine(s) => StepView::AddDefine(s@),
            Step::SetLinkerScript(p) => StepView::SetLinkerScript(p@),
        }
    }
}

/// The spec value of a path `path` inside the directory `dir`.
pub open spec fn source(dir: Seq<char>, path: Seq<char>) -> SourcePathView {
    SourcePathView { dir, path }
}

/// The state of a build being configured: the steps taken so far, in order.
pub struct State {
    steps: Vec<Step>,
}

impl View for State {
    type V = Seq<StepView>;

    closed spec fn view(&self) -> Seq<StepView> {
        self.steps@.map_values(|s: Step| s@)
    }
}

impl State {
    /// A build with no step taken yet.
    pub fn new() -> (state: State)
        ensures
            state@ == Seq::<StepView>::empty(),
    {
        let state = State { steps: Vec::new() };
        assert(state@ =~= Seq::<StepView>::empty());
        state
    }

    /// Appends one step.
    pub fn push_step(&mut self, step: Step)
        ensures
            final(self)@ == old(self)@.push(step@),
    {
        self.steps.push(step);
        assert(self@ =~= old(self)@.push(step@));
    }

    /// The steps taken so far, in order.
    pub fn steps(&self) -> (steps: &Vec<Step>)
        ensures
            steps@.map_values(|s: Step| s@) == self@,
    {
        &self.steps
    }

    /// The steps taken, in order, handed over.
    pub fn into_steps(self) -> (steps: Vec<Step>)
        ensures
            steps@.map_values(|s: Step| s@) == self@,
    {
        self.steps
    }

    /// Names the project that is built.
    pub fn set_project(&mut self, name: &str)
        ensures
            final(self)@ == old(self)@.push(StepView::SetProject(name@)),
    {
        self.push_step(Step::SetProject(name.to_owned()));
    }

    /// Sets the compiler's optimisation level.
    pub fn set_opt_level(&mut self, level: Optimize)
        ensures
            final(self)@ == old(self)@.push(StepView::SetOptLevel(level)),
    {
        self.push_step(Step::SetOptLevel(level));
    }

    /// Turns on the build system's default set of compiler warnings.
    pub fn set_default_warnings(&mut self)
        ensures
            final(self)@ == old(self)@.push(StepView::SetDefaultWarnings),
    {
        self.push_step(Step::SetDefaultWarnings);
    }

    /// Applies a workaround for a toolchain quirk.
    pub fn apply_workaround(&mut self, workaround: Workaround)
        ensures
            final(self)@ == old(self)@.push(StepView::ApplyWorkaround(workaround)),
    {
        self.push_step(Step::ApplyWorkaround(workaround));
    }

    /// Passes one option to the linker.
    pub fn add_linker_opt(&mut self, opt: &str)
        ensures
            final(self)@ == old(self)@.push(StepView::AddLinkerOpt(opt@)),
    {
        self.push_step(Step::AddLinkerOpt(opt.to_owned()));
    }

    /// Selects the processor core.
    pub fn set_cpu(&mut self, cpu: Cpu)
        ensures
            final(self)@ == old(self)@.push(StepView::SetCpu(cpu)),
    {
        self.push_step(Step::SetCpu(cpu));
    }

    /// Adds the CMSIS support package with the given features.
    pub fn add_cmsis(&mut self, features: CmsisFeatures)
        ensures
            final(self)@ == old(self)@.push(StepView::AddCmsis(features)),
    {
        self.push_step(Step::AddCmsis(features));
    }

    /// Adds the include directory `path`, relative to the module directory `dir`.
    pub fn add_include_dir(&mut self, dir: &str, path: &str)
        ensures
            final(self)@ == old(self)@.push(StepView::AddIncludeDir(source(dir@, path@))),
    {
        let p = SourcePath { dir: dir.to_owned(), path: path.to_owned() };
        self.push_step(Step::AddIncludeDir(p));
    }

    /// Adds the C file `path`, relative to the module directory `dir`.
    pub fn add_c_file(&mut self, dir: &str, path: &str)
        ensures
            final(self)@ == old(self)@.push(StepView::AddCFile(source(dir@, path@))),
    {
        let p = SourcePath { dir: dir.to_owned(), path: path.to_owned() };
        self.push_step(Step::AddCFile(p));
    }

    /// Adds a preprocessor define.
    pub fn add_define(&mut self, define: &str)
        ensures
            final(self)@ == old(self)@.push(StepView::AddDefine(define@)),
    {
        self.push_step(Step::AddDefine(define.to_owned()));
    }

    /// Sets the linker script `path`, relative to the module directory `dir`.
    pub fn linker_script(&mut self, dir: &str, path: &str)
        ensures
            final(self)@ == old(self)@.push(StepView::SetLinkerScript(source(dir@, path@))),
    {
        let p = SourcePath { dir: dir.to_owned(), path: path.to_owned() };
        self.push_step(Step::SetLinkerScript(p));
    }
}

} // verus!
