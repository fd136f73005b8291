use firmware::makefile::{build_recipe, configure};
use firmware::mspm0::{self, Device};
use firmware::recipe::{Optimize, SourcePath, State, Step, Workaround};
use firmware::src;

fn src_file(path: &str) -> SourcePath {
    SourcePath { dir: "src".to_string(), path: path.to_string() }
}

#[test]
fn new_state_has_no_steps() {
    let state = State::new();
    assert!(state.steps().is_empty());
}

#[test]
fn src_add_adds_include_dir_and_main() {
    let mut state = State::new();
    src::add(&mut state);
    let steps = state.into_steps();
    assert_eq!(steps, vec![Step::AddIncludeDir(src_file("inc")), Step::AddCFile(src_file("main.c"))]);
}

#[test]
fn src_add_keeps_earlier_steps() {
    let mut state = State::new();
    state.set_project("other");
    src::add(&mut state);
    src::add(&mut state);
    let steps = state.into_steps();
    assert_eq!(steps.len(), 5);
    assert_eq!(steps[0], Step::SetProject("other".to_string()));
    assert_eq!(steps[3], Step::AddIncludeDir(src_file("inc")));
    assert_eq!(steps[4], Step::AddCFile(src_file("main.c")));
}

#[test]
fn firmware_recipe_in_order() {
    let steps = build_recipe().into_steps();
    assert_eq!(steps.len(), 61);
    assert_eq!(steps[0], Step::SetProject("mspm0".to_string()));
    assert_eq!(steps[1], Step::SetOptLevel(Optimize::O2));
    assert_eq!(steps[2], Step::SetDefaultWarnings);
    assert_eq!(steps[3], Step::ApplyWorkaround(Workaround::Gcc122LinkerRwxWarning));
    assert_eq!(steps[4], Step::ApplyWorkaround(Workaround::NewlibNosysStubWarnings));
    assert_eq!(steps[5], Step::AddLinkerOpt("--specs=nano.specs".to_string()));
    assert_eq!(steps[6], Step::AddLinkerOpt("--specs=nosys.specs".to_string()));

    let mut part = State::new();
    mspm0::add(&mut part, Device::MSPM0C1104);
    let part = part.into_steps();
    assert_eq!(&steps[7..59], &part[..]);

    assert_eq!(steps[59], Step::AddIncludeDir(src_file("inc")));
    assert_eq!(steps[60], Step::AddCFile(src_file("main.c")));
}

#[test]
fn configure_appends_to_a_started_build() {
    let mut state = State::new();
    state.add_define("PRESET");
    configure(&mut state);
    let steps = state.into_steps();
    assert_eq!(steps.len(), 62);
    assert_eq!(steps[0], Step::AddDefine("PRESET".to_string()));
    assert_eq!(&steps[1..], &build_recipe().into_steps()[..]);
}
