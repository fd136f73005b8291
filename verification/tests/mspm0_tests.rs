use firmware::mspm0::{self, Device};
use firmware::recipe::{CmsisFeatures, Cpu, SourcePath, State, Step};

const ALL_DEVICES: [Device; 47] = [
    Device::MSPM0C1103,
    Device::MSPM0C1104,
    Device::MSPM0C1105,
    Device::MSPM0C1106,
    Device::MSPM0G1105,
    Device::MSPM0G1106,
    Device::MSPM0G1107,
    Device::MSPM0G1505,
    Device::MSPM0G1506,
    Device::MSPM0G1507,
    Device::MSPM0G1518,
    Device::MSPM0G1519,
    Device::MSPM0G3105,
    Device::MSPM0G3106,
    Device::MSPM0G3107,
    Device::MSPM0G3505,
    Device::MSPM0G3506,
    Device::MSPM0G3507,
    Device::MSPM0G3518,
    Device::MSPM0G3519,
    Device::MSPM0G3529,
    Device::MSPM0G5115,
    Device::MSPM0G5116,
    Device::MSPM0G5117,
    Device::MSPM0G5187,
    Device::MSPM0H3215,
    Device::MSPM0H3216,
    Device::MSPM0L1105,
    Device::MSPM0L1106,
    Device::MSPM0L1116,
    Device::MSPM0L1117,
    Device::MSPM0L1126,
    Device::MSPM0L1127,
    Device::MSPM0L1227,
    Device::MSPM0L1228,
    Device::MSPM0L1303,
    Device::MSPM0L1304,
    Device::MSPM0L1305,
    Device::MSPM0L1306,
    Device::MSPM0L1343,
    Device::MSPM0L1344,
    Device::MSPM0L1345,
    Device::MSPM0L1346,
    Device::MSPM0L2116,
    Device::MSPM0L2117,
    Device::MSPM0L2227,
    Device::MSPM0L2228
,
];

fn mspm0_file(path: &str) -> SourcePath {
    SourcePath { dir: "mspm0".to_string(), path: path.to_string() }
}

fn steps_for(device: Device) -> Vec<Step> {
    let mut state = State::new();
    mspm0::add(&mut state, device);
    state.into_steps()
}

#[test]
fn add_configures_mspm0c1104() {
    let steps = steps_for(Device::MSPM0C1104);
    assert_eq!(steps.len(), 52);
    assert_eq!(steps[0], Step::AddIncludeDir(mspm0_file(".")));
    assert_eq!(steps[1], Step::SetCpu(Cpu::CortexM0Plus));
    assert_eq!(steps[2], Step::AddCmsis(CmsisFeatures::Default));
    assert_eq!(steps[3], Step::AddDefine("DeviceFamily_MSPM0C110X".to_string()));
    assert_eq!(
        steps[4],
        Step::SetLinkerScript(mspm0_file("ti/devices/msp/m0p/linker_files/gcc/mspm0c1104.lds"))
    );
    assert_eq!(
        steps[5],
        Step::AddCFile(mspm0_file(
            "ti/devices/msp/m0p/startup_system_files/gcc/startup_mspm0c110x_gcc.c"
        ))
    );
    assert_eq!(
        steps[6],
        Step::AddCFile(mspm0_file("ti/driverlib/m0p/sysctl/dl_sysctl_mspm0c110x.c"))
    );
    assert_eq!(steps[7], Step::AddCFile(mspm0_file("ti/driverlib/m0p/dl_factoryregion.c")));
    assert_eq!(steps[8], Step::AddCFile(mspm0_file("ti/driverlib/m0p/dl_interrupt.c")));
    assert_eq!(steps[9], Step::AddCFile(mspm0_file("ti/driverlib/dl_adc12.c")));
    assert_eq!(steps[51], Step::AddCFile(mspm0_file("ti/driverlib/dl_timer.c")));
}

#[test]
fn add_configures_two_part_family() {
    let steps = steps_for(Device::MSPM0C1106);
    assert_eq!(steps[3], Step::AddDefine("DeviceFamily_MSPM0C1105_C1106".to_string()));
    assert_eq!(
        steps[4],
        Step::SetLinkerScript(mspm0_file("ti/devices/msp/m0p/linker_files/gcc/mspm0c1106.lds"))
    );
    assert_eq!(
        steps[5],
        Step::AddCFile(mspm0_file(
            "ti/devices/msp/m0p/startup_system_files/gcc/startup_mspm0c1105_c1106_gcc.c"
        ))
    );
    assert_eq!(
        steps[6],
        Step::AddCFile(mspm0_file("ti/driverlib/m0p/sysctl/dl_sysctl_mspm0c1105_c1106.c"))
    );
}

#[test]
fn add_configures_shared_sysctl_drivers() {
    let g = steps_for(Device::MSPM0G3507);
    assert_eq!(g[3], Step::AddDefine("DeviceFamily_MSPM0G350X".to_string()));
    assert_eq!(
        g[6],
        Step::AddCFile(mspm0_file("ti/driverlib/m0p/sysctl/dl_sysctl_mspm0g1x0x_g3x0x.c"))
    );
    let l = steps_for(Device::MSPM0L2117);
    assert_eq!(l[3], Step::AddDefine("DeviceFamily_MSPM0L211X".to_string()));
    assert_eq!(
        l[6],
        Step::AddCFile(mspm0_file("ti/driverlib/m0p/sysctl/dl_sysctl_mspm0l211x_l112x.c"))
    );
    let l = steps_for(Device::MSPM0L1127);
    assert_eq!(l[3], Step::AddDefine("DeviceFamily_MSPM0L112X".to_string()));
    assert_eq!(
        l[6],
        Step::AddCFile(mspm0_file("ti/driverlib/m0p/sysctl/dl_sysctl_mspm0l11xx_l13xx.c"))
    );
    let g = steps_for(Device::MSPM0G3519);
    assert_eq!(
        g[6],
        Step::AddCFile(mspm0_file("ti/driverlib/m0p/sysctl/dl_sysctl_mspm0gx51x.c"))
    );
}

#[test]
fn names_of_single_part_families() {
    assert_eq!(mspm0::family_define(Device::MSPM0G3529), "DeviceFamily_MSPM0G352X");
    assert_eq!(mspm0::startup_name(Device::MSPM0G3529), "mspm0g352x");
    assert_eq!(mspm0::sysctl_name(Device::MSPM0G3529), "mspm0g352x");
    assert_eq!(mspm0::family_define(Device::MSPM0G5187), "DeviceFamily_MSPM0G518X");
    assert_eq!(mspm0::linker_name(Device::MSPM0G5187), "mspm0g5187");
    assert_eq!(mspm0::sysctl_name(Device::MSPM0H3216), "mspm0h321x");
    assert_eq!(mspm0::linker_name(Device::MSPM0L2228), "mspm0l2228");
    assert_eq!(mspm0::sysctl_name(Device::MSPM0L2228), "mspm0l122x_l222x");
}

#[test]
fn add_appends_to_earlier_steps() {
    let mut state = State::new();
    state.set_cpu(Cpu::CortexM0Plus);
    state.add_define("EARLIER");
    mspm0::add(&mut state, Device::MSPM0L1306);
    let steps = state.steps();
    assert_eq!(steps.len(), 54);
    assert_eq!(steps[0], Step::SetCpu(Cpu::CortexM0Plus));
    assert_eq!(steps[1], Step::AddDefine("EARLIER".to_string()));
    assert_eq!(steps[5], Step::AddDefine("DeviceFamily_MSPM0L130X".to_string()));
    let fresh = steps_for(Device::MSPM0L1306);
    assert_eq!(&steps[2..], &fresh[..]);
}

#[test]
fn every_part_adds_the_same_driver_library() {
    let reference = steps_for(Device::MSPM0C1103);
    for device in ALL_DEVICES {
        let steps = steps_for(device);
        assert_eq!(steps.len(), 52);
        assert_eq!(&steps[..3], &reference[..3]);
        assert_eq!(&steps[7..], &reference[7..]);
    }
}

#[test]
fn startup_file_follows_define() {
    for device in ALL_DEVICES {
        let define = mspm0::family_define(device);
        assert!(define.starts_with("DeviceFamily_"));
        let family = &define["DeviceFamily_".len()..];
        assert_eq!(mspm0::startup_name(device), family.to_ascii_lowercase());
    }
}

#[test]
fn define_determines_startup_and_sysctl() {
    for a in ALL_DEVICES {
        for b in ALL_DEVICES {
            if mspm0::family_define(a) == mspm0::family_define(b) {
                assert_eq!(mspm0::startup_name(a), mspm0::startup_name(b));
                assert_eq!(mspm0::sysctl_name(a), mspm0::sysctl_name(b));
            }
        }
    }
    assert_eq!(mspm0::sysctl_name(Device::MSPM0G1105), mspm0::sysctl_name(Device::MSPM0G3506));
    assert_ne!(mspm0::family_define(Device::MSPM0G1105), mspm0::family_define(Device::MSPM0G3506));
}

#[test]
fn linker_scripts_are_unique() {
    for (i, a) in ALL_DEVICES.iter().enumerate() {
        for (j, b) in ALL_DEVICES.iter().enumerate() {
            assert_eq!(mspm0::linker_name(*a) == mspm0::linker_name(*b), i == j);
        }
    }
}

#[test]
fn family_covers_part() {
    for device in ALL_DEVICES {
        let family: Vec<char> = mspm0::startup_name(device).chars().collect();
        let part: Vec<char> = mspm0::linker_name(device).chars().collect();
        let matches = |pattern: &[char]| {
            pattern.len() == part.len()
                && pattern.iter().zip(part.iter()).all(|(p, c)| *p == 'x' || p == c)
        };
        let first = &family[..part.len().min(family.len())];
        let second: Vec<char> = family[..5]
            .iter()
            .chain(family.iter().skip(part.len() + 1))
            .cloned()
            .collect();
        assert!(matches(first) || matches(&second), "{:?}", device);
    }
}
