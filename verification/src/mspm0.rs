//! The MSPM0 part support: which family define, linker script, startup file and
//! system-control driver each part needs, and the build steps that add them.

use vstd::prelude::*;

use crate::recipe::{source, CmsisFeatures, Cpu, State, StepView};

verus! {

/// An MSPM0 part that the firmware can be built for.
#[derive(Clone, Copy, Debug, PartialEq, Eq)]
pub enum Device {
    MSPM0C1103,
    MSPM0C1104,
    MSPM0C1105,
    MSPM0C1106,
    MSPM0G1105,
    MSPM0G1106,
    MSPM0G1107,
    MSPM0G1505,
    MSPM0G1506,
    MSPM0G1507,
    MSPM0G1518,
    MSPM0G1519,
    MSPM0G3105,
    MSPM0G3106,
    MSPM0G3107,
    MSPM0G3505,
    MSPM0G3506,
    MSPM0G3507,
    MSPM0G3518,
    MSPM0G3519,
    MSPM0G3529,
    MSPM0G5115,
    MSPM0G5116,
    MSPM0G5117,
    MSPM0G5187,
    MSPM0H3215,
    MSPM0H3216,
    MSPM0L1105,
    MSPM0L1106,
    MSPM0L1116,
    MSPM0L1117,
    MSPM0L1126,
    MSPM0L1127,
    MSPM0L1227,
    MSPM0L1228,
    MSPM0L1303,
    MSPM0L1304,
    MSPM0L1305,
    MSPM0L1306,
    MSPM0L1343,
    MSPM0L1344,
    MSPM0L1345,
    MSPM0L1346,
    MSPM0L2116,
    MSPM0L2117,
    MSPM0L2227,
    MSPM0L2228,
}

/// The directory of this module, relative to the firmware root.
pub open spec fn module_dir() -> Seq<char> {
    "mspm0"@
}

/// The `DeviceFamily_*` define that the TI headers expect for `device`.
pub open spec fn define_name(device: Device) -> Seq<char> {
    match device {
        Device::MSPM0C1103 | Device::MSPM0C1104 => "DeviceFamily_MSPM0C110X"@,
        Device::MSPM0C1105 | Device::MSPM0C1106 => "DeviceFamily_MSPM0C1105_C1106"@,
        Device::MSPM0G1105 | Device::MSPM0G1106 | Device::MSPM0G1107 => "DeviceFamily_MSPM0G110X"@,
        Device::MSPM0G1505 | Device::MSPM0G1506 | Device::MSPM0G1507 => "DeviceFamily_MSPM0G150X"@,
        Device::MSPM0G1518 | Device::MSPM0G1519 => "DeviceFamily_MSPM0G151X"@,
        Device::MSPM0G3105 | Device::MSPM0G3106 | Device::MSPM0G3107 => "DeviceFamily_MSPM0G310X"@,
        Device::MSPM0G3505 | Device::MSPM0G3506 | Device::MSPM0G3507 => "DeviceFamily_MSPM0G350X"@,
        Device::MSPM0G3518 | Device::MSPM0G3519 => "DeviceFamily_MSPM0G351X"@,
        Device::MSPM0G3529 => "DeviceFamily_MSPM0G352X"@,
        Device::MSPM0G5115 | Device::MSPM0G5116 | Device::MSPM0G5117 => "DeviceFamily_MSPM0G511X"@,
        Device::MSPM0G5187 => "DeviceFamily_MSPM0G518X"@,
        Device::MSPM0H3215 | Device::MSPM0H3216 => "DeviceFamily_MSPM0H321X"@,
        Device::MSPM0L1105 | Device::MSPM0L1106 => "DeviceFamily_MSPM0L110X"@,
        Device::MSPM0L1116 | Device::MSPM0L1117 => "DeviceFamily_MSPM0L111X"@,
        Device::MSPM0L1126 | Device::MSPM0L1127 => "DeviceFamily_MSPM0L112X"@,
        Device::MSPM0L1227 | Device::MSPM0L1228 => "DeviceFamily_MSPM0L122X"@,
        Device::MSPM0L1303 | Device::MSPM0L1304 | Device::MSPM0L1305 | Device::MSPM0L1306 => "DeviceFamily_MSPM0L130X"@,
        Device::MSPM0L1343 | Device::MSPM0L1344 | Device::MSPM0L1345 | Device::MSPM0L1346 => "DeviceFamily_MSPM0L134X"@,
        Device::MSPM0L2116 | Device::MSPM0L2117 => "DeviceFamily_MSPM0L211X"@,
        Device::MSPM0L2227 | Device::MSPM0L2228 => "DeviceFamily_MSPM0L222X"@,
    }
}

/// The name (without extension) of the GCC linker script for `device`.
pub open spec fn linker_stem(device: Device) -> Seq<char> {
    match device {
        Device::MSPM0C1103 => "mspm0c1103"@,
        Device::MSPM0C1104 => "mspm0c1104"@,
        Device::MSPM0C1105 => "mspm0c1105"@,
        Device::MSPM0C1106 => "mspm0c1106"@,
        Device::MSPM0G1105 => "mspm0g1105"@,
        Device::MSPM0G1106 => "mspm0g1106"@,
        Device::MSPM0G1107 => "mspm0g1107"@,
        Device::MSPM0G1505 => "mspm0g1505"@,
        Device::MSPM0G1506 => "mspm0g1506"@,
        Device::MSPM0G1507 => "mspm0g1507"@,
        Device::MSPM0G1518 => "mspm0g1518"@,
        Device::MSPM0G1519 => "mspm0g1519"@,
        Device::MSPM0G3105 => "mspm0g3105"@,
        Device::MSPM0G3106 => "mspm0g3106"@,
        Device::MSPM0G3107 => "mspm0g3107"@,
        Device::MSPM0G3505 => "mspm0g3505"@,
        Device::MSPM0G3506 => "mspm0g3506"@,
        Device::MSPM0G3507 => "mspm0g3507"@,
        Device::MSPM0G3518 => "mspm0g3518"@,
        Device::MSPM0G3519 => "mspm0g3519"@,
        Device::MSPM0G3529 => "mspm0g3529"@,
        Device::MSPM0G5115 => "mspm0g5115"@,
        Device::MSPM0G5116 => "mspm0g5116"@,
        Device::MSPM0G5117 => "mspm0g5117"@,
        Device::MSPM0G5187 => "mspm0g5187"@,
        Device::MSPM0H3215 => "mspm0h3215"@,
        Device::MSPM0H3216 => "mspm0h3216"@,
        Device::MSPM0L1105 => "mspm0l1105"@,
        Device::MSPM0L1106 => "mspm0l1106"@,
        Device::MSPM0L1116 => "mspm0l1116"@,
        Device::MSPM0L1117 => "mspm0l1117"@,
        Device::MSPM0L1126 => "mspm0l1126"@,
        Device::MSPM0L1127 => "mspm0l1127"@,
        Device::MSPM0L1227 => "mspm0l1227"@,
        Device::MSPM0L1228 => "mspm0l1228"@,
        Device::MSPM0L1303 => "mspm0l1303"@,
        Device::MSPM0L1304 => "mspm0l1304"@,
        Device::MSPM0L1305 => "mspm0l1305"@,
        Device::MSPM0L1306 => "mspm0l1306"@,
        Device::MSPM0L1343 => "mspm0l1343"@,
        Device::MSPM0L1344 => "mspm0l1344"@,
        Device::MSPM0L1345 => "mspm0l1345"@,
        Device::MSPM0L1346 => "mspm0l1346"@,
        Device::MSPM0L2116 => "mspm0l2116"@,
        Device::MSPM0L2117 => "mspm0l2117"@,
        Device::MSPM0L2227 => "mspm0l2227"@,
        Device::MSPM0L2228 => "mspm0l2228"@,
    }
}

/// The family part of the name of the GCC startup file for `device`.
pub open spec fn startup_stem(device: Device) -> Seq<char> {
    match device {
        Device::MSPM0C1103 | Device::MSPM0C1104 => "mspm0c110x"@,
        Device::MSPM0C1105 | Device::MSPM0C1106 => "mspm0c1105_c1106"@,
        Device::MSPM0G1105 | Device::MSPM0G1106 | Device::MSPM0G1107 => "mspm0g110x"@,
        Device::MSPM0G1505 | Device::MSPM0G1506 | Device::MSPM0G1507 => "mspm0g150x"@,
        Device::MSPM0G1518 | Device::MSPM0G1519 => "mspm0g151x"@,
        Device::MSPM0G3105 | Device::MSPM0G3106 | Device::MSPM0G3107 => "mspm0g310x"@,
        Device::MSPM0G3505 | Device::MSPM0G3506 | Device::MSPM0G3507 => "mspm0g350x"@,
        Device::MSPM0G3518 | Device::MSPM0G3519 => "mspm0g351x"@,
        Device::MSPM0G3529 => "mspm0g352x"@,
        Device::MSPM0G5115 | Device::MSPM0G5116 | Device::MSPM0G5117 => "mspm0g511x"@,
        Device::MSPM0G5187 => "mspm0g518x"@,
        Device::MSPM0H3215 | Device::MSPM0H3216 => "mspm0h321x"@,
        Device::MSPM0L1105 | Device::MSPM0L1106 => "mspm0l110x"@,
        Device::MSPM0L1116 | Device::MSPM0L1117 => "mspm0l111x"@,
        Device::MSPM0L1126 | Device::MSPM0L1127 => "mspm0l112x"@,
        Device::MSPM0L1227 | Device::MSPM0L1228 => "mspm0l122x"@,
        Device::MSPM0L1303 | Device::MSPM0L1304 | Device::MSPM0L1305 | Device::MSPM0L1306 => "mspm0l130x"@,
        Device::MSPM0L1343 | Device::MSPM0L1344 | Device::MSPM0L1345 | Device::MSPM0L1346 => "mspm0l134x"@,
        Device::MSPM0L2116 | Device::MSPM0L2117 => "mspm0l211x"@,
        Device::MSPM0L2227 | Device::MSPM0L2228 => "mspm0l222x"@,
    }
}

/// The variant part of the name of the system-control driver for `device`.
pub open spec fn sysctl_stem(device: Device) -> Seq<char> {
    match device {
        Device::MSPM0C1103 | Device::MSPM0C1104 => "mspm0c110x"@,
        Device::MSPM0C1105 | Device::MSPM0C1106 => "mspm0c1105_c1106"@,
        Device::MSPM0G1105 | Device::MSPM0G1106 | Device::MSPM0G1107 | Device::MSPM0G1505 |
        Device::MSPM0G1506 | Device::MSPM0G1507 | Device::MSPM0G3105 | Device::MSPM0G3106 |
        Device::MSPM0G3107 | Device::MSPM0G3505 | Device::MSPM0G3506 | Device::MSPM0G3507 => "mspm0g1x0x_g3x0x"@,
        Device::MSPM0G1518 | Device::MSPM0G1519 | Device::MSPM0G3518 | Device::MSPM0G3519 => "mspm0gx51x"@,
        Device::MSPM0G3529 => "mspm0g352x"@,
        Device::MSPM0G5115 | Device::MSPM0G5116 | Device::MSPM0G5117 => "mspm0g511x"@,
        Device::MSPM0G5187 => "mspm0g518x"@,
        Device::MSPM0H3215 | Device::MSPM0H3216 => "mspm0h321x"@,
        Device::MSPM0L1105 | Device::MSPM0L1106 | Device::MSPM0L1126 | Device::MSPM0L1127 |
        Device::MSPM0L1303 | Device::MSPM0L1304 | Device::MSPM0L1305 | Device::MSPM0L1306 |
        Device::MSPM0L1343 | Device::MSPM0L1344 | Device::MSPM0L1345 | Device::MSPM0L1346 => "mspm0l11xx_l13xx"@,
        Device::MSPM0L1116 | Device::MSPM0L1117 => "mspm0l111x"@,
        Device::MSPM0L1227 | Device::MSPM0L1228 | Device::MSPM0L2227 | Device::MSPM0L2228 => "mspm0l122x_l222x"@,
        Device::MSPM0L2116 | Device::MSPM0L2117 => "mspm0l211x_l112x"@,
    }
}

/// The path of the linker script for `device`, inside this module's directory.
pub open spec fn linker_path(device: Device) -> Seq<char> {
    "ti/devices/msp/m0p/linker_files/gcc/"@ + linker_stem(device) + ".lds"@
}

/// The path of the startup file for `device`, inside this module's directory.
pub open spec fn startup_path(device: Device) -> Seq<char> {
    "ti/devices/msp/m0p/startup_system_files/gcc/startup_"@ + startup_stem(device) + "_gcc.c"@
}

/// The path of the system-control driver for `device`, inside this module's directory.
pub open spec fn sysctl_path(device: Device) -> Seq<char> {
    "ti/driverlib/m0p/sysctl/dl_sysctl_"@ + sysctl_stem(device) + ".c"@
}

/// The step that compiles the driver library file `path` of this module.
pub open spec fn driverlib_file(path: Seq<char>) -> StepView {
    StepView::AddCFile(source(module_dir(), path))
}

/// The driver library files that every part compiles, in the order they are added.
pub open spec fn driverlib_steps() -> Seq<StepView> {
    seq![
        driverlib_file("ti/driverlib/m0p/dl_factoryregion.c"@),
        driverlib_file("ti/driverlib/m0p/dl_interrupt.c"@),
        driverlib_file("ti/driverlib/dl_adc12.c"@),
        driverlib_file("ti/driverlib/dl_gpio.c"@),
        driverlib_file("ti/driverlib/dl_rtc_a.c"@),
        driverlib_file("ti/driverlib/dl_timerg.c"@),
        driverlib_file("ti/driverlib/dl_aesadv.c"@),
        driverlib_file("ti/driverlib/dl_i2c.c"@),
        driverlib_file("ti/driverlib/dl_rtc_b.c"@),
        driverlib_file("ti/driverlib/dl_trng.c"@),
        driverlib_file("ti/driverlib/dl_aes.c"@),
        driverlib_file("ti/driverlib/dl_i2s.c"@),
        driverlib_file("ti/driverlib/dl_rtc.c"@),
        driverlib_file("ti/driverlib/dl_uart.c"@),
        driverlib_file("ti/driverlib/dl_common.c"@),
        driverlib_file("ti/driverlib/dl_iwdt.c"@),
        driverlib_file("ti/driverlib/dl_rtc_common.c"@),
        driverlib_file("ti/driverlib/dl_unicomm.c"@),
        driverlib_file("ti/driverlib/dl_comp.c"@),
        driverlib_file("ti/driverlib/dl_keystorectl.c"@),
        driverlib_file("ti/driverlib/dl_scratchpad.c"@),
        driverlib_file("ti/driverlib/dl_unicommi2cc.c"@),
        driverlib_file("ti/driverlib/dl_crc.c"@),
        driverlib_file("ti/driverlib/dl_lcd.c"@),
        driverlib_file("ti/driverlib/dl_spgss.c"@),
        driverlib_file("ti/driverlib/dl_unicommi2ct.c"@),
        driverlib_file("ti/driverlib/dl_crcp.c"@),
        driverlib_file("ti/driverlib/dl_lfss.c"@),
        driverlib_file("ti/driverlib/dl_spi.c"@),
        driverlib_file("ti/driverlib/dl_unicommspi.c"@),
        driverlib_file("ti/driverlib/dl_dac12.c"@),
        driverlib_file("ti/driverlib/dl_mathacl.c"@),
        driverlib_file("ti/driverlib/dl_tamperio.c"@),
        driverlib_file("ti/driverlib/dl_unicommuart.c"@),
        driverlib_file("ti/driverlib/dl_dma.c"@),
        driverlib_file("ti/driverlib/dl_mcan.c"@),
        driverlib_file("ti/driverlib/dl_timera.c"@),
        driverlib_file("ti/driverlib/dl_vref.c"@),
        driverlib_file("ti/driverlib/dl_flashctl.c"@),
        driverlib_file("ti/driverlib/dl_npu.c"@),
        driverlib_file("ti/driverlib/dl_timerb.c"@),
        driverlib_file("ti/driverlib/dl_wwdt.c"@),
        driverlib_file("ti/driverlib/dl_gpamp.c"@),
        driverlib_file("ti/driverlib/dl_opa.c"@),
        driverlib_file("ti/driverlib/dl_timer.c"@),
    ]
}

/// The steps that `add` appends for `device`, in order.
pub open spec fn device_steps(device: Device) -> Seq<StepView> {
    seq![
        StepView::AddIncludeDir(source(module_dir(), "."@)),
        StepView::SetCpu(Cpu::CortexM0Plus),
        StepView::AddCmsis(CmsisFeatures::Default),
        StepView::AddDefine(define_name(device)),
        StepView::SetLinkerScript(source(module_dir(), linker_path(device))),
        StepView::AddCFile(source(module_dir(), startup_path(device))),
        StepView::AddCFile(source(module_dir(), sysctl_path(device))),
    ] + driverlib_steps()
}

/// The `DeviceFamily_*` define for `device`.
pub fn family_define(device: Device) -> (name: &'static str)
    ensures
        name@ == define_name(device),
{
    match device {
        Device::MSPM0C1103 | Device::MSPM0C1104 => "DeviceFamily_MSPM0C110X",
        Device::MSPM0C1105 | Device::MSPM0C1106 => "DeviceFamily_MSPM0C1105_C1106",
        Device::MSPM0G1105 | Device::MSPM0G1106 | Device::MSPM0G1107 => "DeviceFamily_MSPM0G110X",
        Device::MSPM0G1505 | Device::MSPM0G1506 | Device::MSPM0G1507 => "DeviceFamily_MSPM0G150X",
        Device::MSPM0G1518 | Device::MSPM0G1519 => "DeviceFamily_MSPM0G151X",
        Device::MSPM0G3105 | Device::MSPM0G3106 | Device::MSPM0G3107 => "DeviceFamily_MSPM0G310X",
        Device::MSPM0G3505 | Device::MSPM0G3506 | Device::MSPM0G3507 => "DeviceFamily_MSPM0G350X",
        Device::MSPM0G3518 | Device::MSPM0G3519 => "DeviceFamily_MSPM0G351X",
        Device::MSPM0G3529 => "DeviceFamily_MSPM0G352X",
        Device::MSPM0G5115 | Device::MSPM0G5116 | Device::MSPM0G5117 => "DeviceFamily_MSPM0G511X",
        Device::MSPM0G5187 => "DeviceFamily_MSPM0G518X",
        Device::MSPM0H3215 | Device::MSPM0H3216 => "DeviceFamily_MSPM0H321X",
        Device::MSPM0L1105 | Device::MSPM0L1106 => "DeviceFamily_MSPM0L110X",
        Device::MSPM0L1116 | Device::MSPM0L1117 => "DeviceFamily_MSPM0L111X",
        Device::MSPM0L1126 | Device::MSPM0L1127 => "DeviceFamily_MSPM0L112X",
        Device::MSPM0L1227 | Device::MSPM0L1228 => "DeviceFamily_MSPM0L122X",
        Device::MSPM0L1303 | Device::MSPM0L1304 | Device::MSPM0L1305 | Device::MSPM0L1306 => "DeviceFamily_MSPM0L130X",
        Device::MSPM0L1343 | Device::MSPM0L1344 | Device::MSPM0L1345 | Device::MSPM0L1346 => "DeviceFamily_MSPM0L134X",
        Device::MSPM0L2116 | Device::MSPM0L2117 => "DeviceFamily_MSPM0L211X",
        Device::MSPM0L2227 | Device::MSPM0L2228 => "DeviceFamily_MSPM0L222X",
    }
}

/// The name of the linker script for `device`, without directory or extension.
pub fn linker_name(device: Device) -> (name: &'static str)
    ensures
        name@ == linker_stem(device),
{
    match device {
        Device::MSPM0C1103 => "mspm0c1103",
        Device::MSPM0C1104 => "mspm0c1104",
        Device::MSPM0C1105 => "mspm0c1105",
        Device::MSPM0C1106 => "mspm0c1106",
        Device::MSPM0G1105 => "mspm0g1105",
        Device::MSPM0G1106 => "mspm0g1106",
        Device::MSPM0G1107 => "mspm0g1107",
        Device::MSPM0G1505 => "mspm0g1505",
        Device::MSPM0G1506 => "mspm0g1506",
        Device::MSPM0G1507 => "mspm0g1507",
        Device::MSPM0G1518 => "mspm0g1518",
        Device::MSPM0G1519 => "mspm0g1519",
        Device::MSPM0G3105 => "mspm0g3105",
        Device::MSPM0G3106 => "mspm0g3106",
        Device::MSPM0G3107 => "mspm0g3107",
        Device::MSPM0G3505 => "mspm0g3505",
        Device::MSPM0G3506 => "mspm0g3506",
        Device::MSPM0G3507 => "mspm0g3507",
        Device::MSPM0G3518 => "mspm0g3518",
        Device::MSPM0G3519 => "mspm0g3519",
        Device::MSPM0G3529 => "mspm0g3529",
        Device::MSPM0G5115 => "mspm0g5115",
        Device::MSPM0G5116 => "mspm0g5116",
        Device::MSPM0G5117 => "mspm0g5117",
        Device::MSPM0G5187 => "mspm0g5187",
        Device::MSPM0H3215 => "mspm0h3215",
        Device::MSPM0H3216 => "mspm0h3216",
        Device::MSPM0L1105 => "mspm0l1105",
        Device::MSPM0L1106 => "mspm0l1106",
        Device::MSPM0L1116 => "mspm0l1116",
        Device::MSPM0L1117 => "mspm0l1117",
        Device::MSPM0L1126 => "mspm0l1126",
        Device::MSPM0L1127 => "mspm0l1127",
        Device::MSPM0L1227 => "mspm0l1227",
        Device::MSPM0L1228 => "mspm0l1228",
        Device::MSPM0L1303 => "mspm0l1303",
        Device::MSPM0L1304 => "mspm0l1304",
        Device::MSPM0L1305 => "mspm0l1305",
        Device::MSPM0L1306 => "mspm0l1306",
        Device::MSPM0L1343 => "mspm0l1343",
        Device::MSPM0L1344 => "mspm0l1344",
        Device::MSPM0L1345 => "mspm0l1345",
        Device::MSPM0L1346 => "mspm0l1346",
        Device::MSPM0L2116 => "mspm0l2116",
        Device::MSPM0L2117 => "mspm0l2117",
        Device::MSPM0L2227 => "mspm0l2227",
        Device::MSPM0L2228 => "mspm0l2228",
    }
}

/// The family part of the startup file's name for `device`.
pub fn startup_name(device: Device) -> (name: &'static str)
    ensures
        name@ == startup_stem(device),
{
    match device {
        Device::MSPM0C1103 | Device::MSPM0C1104 => "mspm0c110x",
        Device::MSPM0C1105 | Device::MSPM0C1106 => "mspm0c1105_c1106",
        Device::MSPM0G1105 | Device::MSPM0G1106 | Device::MSPM0G1107 => "mspm0g110x",
        Device::MSPM0G1505 | Device::MSPM0G1506 | Device::MSPM0G1507 => "mspm0g150x",
        Device::MSPM0G1518 | Device::MSPM0G1519 => "mspm0g151x",
        Device::MSPM0G3105 | Device::MSPM0G3106 | Device::MSPM0G3107 => "mspm0g310x",
        Device::MSPM0G3505 | Device::MSPM0G3506 | Device::MSPM0G3507 => "mspm0g350x",
        Device::MSPM0G3518 | Device::MSPM0G3519 => "mspm0g351x",
        Device::MSPM0G3529 => "mspm0g352x",
        Device::MSPM0G5115 | Device::MSPM0G5116 | Device::MSPM0G5117 => "mspm0g511x",
        Device::MSPM0G5187 => "mspm0g518x",
        Device::MSPM0H3215 | Device::MSPM0H3216 => "mspm0h321x",
        Device::MSPM0L1105 | Device::MSPM0L1106 => "mspm0l110x",
        Device::MSPM0L1116 | Device::MSPM0L1117 => "mspm0l111x",
        Device::MSPM0L1126 | Device::MSPM0L1127 => "mspm0l112x",
        Device::MSPM0L1227 | Device::MSPM0L1228 => "mspm0l122x",
        Device::MSPM0L1303 | Device::MSPM0L1304 | Device::MSPM0L1305 | Device::MSPM0L1306 => "mspm0l130x",
        Device::MSPM0L1343 | Device::MSPM0L1344 | Device::MSPM0L1345 | Device::MSPM0L1346 => "mspm0l134x",
        Device::MSPM0L2116 | Device::MSPM0L2117 => "mspm0l211x",
        Device::MSPM0L2227 | Device::MSPM0L2228 => "mspm0l222x",
    }
}

/// The variant part of the system-control driver's name for `device`.
pub fn sysctl_name(device: Device) -> (name: &'static str)
    ensures
        name@ == sysctl_stem(device),
{
    match device {
        Device::MSPM0C1103 | Device::MSPM0C1104 => "mspm0c110x",
        Device::MSPM0C1105 | Device::MSPM0C1106 => "mspm0c1105_c1106",
        Device::MSPM0G1105 | Device::MSPM0G1106 | Device::MSPM0G1107 | Device::MSPM0G1505 |
        Device::MSPM0G1506 | Device::MSPM0G1507 | Device::MSPM0G3105 | Device::MSPM0G3106 |
        Device::MSPM0G3107 | Device::MSPM0G3505 | Device::MSPM0G3506 | Device::MSPM0G3507 => "mspm0g1x0x_g3x0x",
        Device::MSPM0G1518 | Device::MSPM0G1519 | Device::MSPM0G3518 | Device::MSPM0G3519 => "mspm0gx51x",
        Device::MSPM0G3529 => "mspm0g352x",
        Device::MSPM0G5115 | Device::MSPM0G5116 | Device::MSPM0G5117 => "mspm0g511x",
        Device::MSPM0G5187 => "mspm0g518x",
        Device::MSPM0H3215 | Device::MSPM0H3216 => "mspm0h321x",
        Device::MSPM0L1105 | Device::MSPM0L1106 | Device::MSPM0L1126 | Device::MSPM0L1127 |
        Device::MSPM0L1303 | Device::MSPM0L1304 | Device::MSPM0L1305 | Device::MSPM0L1306 |
        Device::MSPM0L1343 | Device::MSPM0L1344 | Device::MSPM0L1345 | Device::MSPM0L1346 => "mspm0l11xx_l13xx",
        Device::MSPM0L1116 | Device::MSPM0L1117 => "mspm0l111x",
        Device::MSPM0L1227 | Device::MSPM0L1228 | Device::MSPM0L2227 | Device::MSPM0L2228 => "mspm0l122x_l222x",
        Device::MSPM0L2116 | Device::MSPM0L2117 => "mspm0l211x_l112x",
    }
}

/// The text `prefix`, then `middle`, then `suffix`.
fn joined(prefix: &str, middle: &str, suffix: &str) -> (s: String)
    ensures
        s@ == prefix@ + middle@ + suffix@,
{
    let mut s = String::from_str(prefix);
    s.append(middle);
    s.append(suffix);
    s
}

/// Adds the driver library: the `driverlib/m0p` support files, then the peripheral drivers.
#[verifier::rlimit(40)]
fn add_driverlib(state: &mut State)
    ensures
        final(state)@ == old(state)@ + driverlib_steps(),
{
    state.add_c_file("mspm0", "ti/driverlib/m0p/dl_factoryregion.c");
    state.add_c_file("mspm0", "ti/driverlib/m0p/dl_interrupt.c");
    state.add_c_file("mspm0", "ti/driverlib/dl_adc12.c");
    state.add_c_file("mspm0", "ti/driverlib/dl_gpio.c");
    state.add_c_file("mspm0", "ti/driverlib/dl_rtc_a.c");
    state.add_c_file("mspm0", "ti/driverlib/dl_timerg.c");
    state.add_c_file("mspm0", "ti/driverlib/dl_aesadv.c");
    state.add_c_file("mspm0", "ti/driverlib/dl_i2c.c");
    state.add_c_file("mspm0", "ti/driverlib/dl_rtc_b.c");
    state.add_c_file("mspm0", "ti/driverlib/dl_trng.c");
    state.add_c_file("mspm0", "ti/driverlib/dl_aes.c");
    state.add_c_file("mspm0", "ti/driverlib/dl_i2s.c");
    state.add_c_file("mspm0", "ti/driverlib/dl_rtc.c");
    state.add_c_file("mspm0", "ti/driverlib/dl_uart.c");
    state.add_c_file("mspm0", "ti/driverlib/dl_common.c");
    state.add_c_file("mspm0", "ti/driverlib/dl_iwdt.c");
    state.add_c_file("mspm0", "ti/driverlib/dl_rtc_common.c");
    state.add_c_file("mspm0", "ti/driverlib/dl_unicomm.c");
    state.add_c_file("mspm0", "ti/driverlib/dl_comp.c");
    state.add_c_file("mspm0", "ti/driverlib/dl_keystorectl.c");
    state.add_c_file("mspm0", "ti/driverlib/dl_scratchpad.c");
    state.add_c_file("mspm0", "ti/driverlib/dl_unicommi2cc.c");
    state.add_c_file("mspm0", "ti/driverlib/dl_crc.c");
    state.add_c_file("mspm0", "ti/driverlib/dl_lcd.c");
    state.add_c_file("mspm0", "ti/driverlib/dl_spgss.c");
    state.add_c_file("mspm0", "ti/driverlib/dl_unicommi2ct.c");
    state.add_c_file("mspm0", "ti/driverlib/dl_crcp.c");
    state.add_c_file("mspm0", "ti/driverlib/dl_lfss.c");
    state.add_c_file("mspm0", "ti/driverlib/dl_spi.c");
    state.add_c_file("mspm0", "ti/driverlib/dl_unicommspi.c");
    state.add_c_file("mspm0", "ti/driverlib/dl_dac12.c");
    state.add_c_file("mspm0", "ti/driverlib/dl_mathacl.c");
    state.add_c_file("mspm0", "ti/driverlib/dl_tamperio.c");
    state.add_c_file("mspm0", "ti/driverlib/dl_unicommuart.c");
    state.add_c_file("mspm0", "ti/driverlib/dl_dma.c");
    state.add_c_file("mspm0", "ti/driverlib/dl_mcan.c");
    state.add_c_file("mspm0", "ti/driverlib/dl_timera.c");
    state.add_c_file("mspm0", "ti/driverlib/dl_vref.c");
    state.add_c_file("mspm0", "ti/driverlib/dl_flashctl.c");
    state.add_c_file("mspm0", "ti/driverlib/dl_npu.c");
    state.add_c_file("mspm0", "ti/driverlib/dl_timerb.c");
    state.add_c_file("mspm0", "ti/driverlib/dl_wwdt.c");
    state.add_c_file("mspm0", "ti/driverlib/dl_gpamp.c");
    state.add_c_file("mspm0", "ti/driverlib/dl_opa.c");
    state.add_c_file("mspm0", "ti/driverlib/dl_timer.c");
    assert(state@ =~= old(state)@ + driverlib_steps());
}

/// Adds support for `device` to the build: this module's include directory, the
/// Cortex-M0+ core, CMSIS, the family define, the part's linker script, its startup
/// file and system-control driver, and the driver library.
pub fn add(state: &mut State, device: Device)
    ensures
        final(state)@ == old(state)@ + device_steps(device),
{
    state.add_include_dir("mspm0", ".");
    state.set_cpu(Cpu::CortexM0Plus);
    state.add_cmsis(CmsisFeatures::Default);

    state.add_define(family_define(device));

    let script = joined("ti/devices/msp/m0p/linker_files/gcc/", linker_name(device), ".lds");
    state.linker_script("mspm0", script.as_str());
    let startup = joined(
        "ti/devices/msp/m0p/startup_system_files/gcc/startup_",
        startup_name(device),
        "_gcc.c",
    );
    state.add_c_file("mspm0", startup.as_str());

    // driverlib/m0p/sysctl
    let sysctl = joined("ti/driverlib/m0p/sysctl/dl_sysctl_", sysctl_name(device), ".c");
    state.add_c_file("mspm0", sysctl.as_str());

    add_driverlib(state);
    assert(state@ =~= old(state)@ + device_steps(device));
}

/// `c` in lower case where it is an ASCII capital letter, `c` otherwise.
pub open spec fn ascii_lower(c: char) -> char {
    if 65 <= (c as u32) <= 90 {
        ((c as u32) + 32) as char
    } else {
        c
    }
}

/// `s` with each ASCII capital letter in lower case.
pub open spec fn ascii_lowercase(s: Seq<char>) -> Seq<char> {
    s.map_values(|c: char| ascii_lower(c))
}

/// The text that every family define begins with.
pub open spec fn define_prefix() -> Seq<char> {
    "DeviceFamily_"@
}

/// Every part's define is `DeviceFamily_` followed by the name of its family, and
/// the part's startup file is named after that family, in lower case.
pub proof fn lemma_startup_follows_define(device: Device)
    ensures
        define_name(device).len() > define_prefix().len(),
        define_name(device).take(define_prefix().len() as int) == define_prefix(),
        startup_stem(device) == ascii_lowercase(
            define_name(device).skip(define_prefix().len() as int),
        ),
{
    reveal_strlit("DeviceFamily_");
    match device {
        Device::MSPM0C1103 | Device::MSPM0C1104 => {
            reveal_strlit("DeviceFamily_MSPM0C110X");
            reveal_strlit("mspm0c110x");
        },
        Device::MSPM0C1105 | Device::MSPM0C1106 => {
            reveal_strlit("DeviceFamily_MSPM0C1105_C1106");
            reveal_strlit("mspm0c1105_c1106");
        },
        Device::MSPM0G1105 | Device::MSPM0G1106 | Device::MSPM0G1107 => {
            reveal_strlit("DeviceFamily_MSPM0G110X");
            reveal_strlit("mspm0g110x");
        },
        Device::MSPM0G1505 | Device::MSPM0G1506 | Device::MSPM0G1507 => {
            reveal_strlit("DeviceFamily_MSPM0G150X");
            reveal_strlit("mspm0g150x");
        },
        Device::MSPM0G1518 | Device::MSPM0G1519 => {
            reveal_strlit("DeviceFamily_MSPM0G151X");
            reveal_strlit("mspm0g151x");
        },
        Device::MSPM0G3105 | Device::MSPM0G3106 | Device::MSPM0G3107 => {
            reveal_strlit("DeviceFamily_MSPM0G310X");
            reveal_strlit("mspm0g310x");
        },
        Device::MSPM0G3505 | Device::MSPM0G3506 | Device::MSPM0G3507 => {
            reveal_strlit("DeviceFamily_MSPM0G350X");
            reveal_strlit("mspm0g350x");
        },
        Device::MSPM0G3518 | Device::MSPM0G3519 => {
            reveal_strlit("DeviceFamily_MSPM0G351X");
            reveal_strlit("mspm0g351x");
        },
        Device::MSPM0G3529 => {
            reveal_strlit("DeviceFamily_MSPM0G352X");
            reveal_strlit("mspm0g352x");
        },
        Device::MSPM0G5115 | Device::MSPM0G5116 | Device::MSPM0G5117 => {
            reveal_strlit("DeviceFamily_MSPM0G511X");
            reveal_strlit("mspm0g511x");
        },
        Device::MSPM0G5187 => {
            reveal_strlit("DeviceFamily_MSPM0G518X");
            reveal_strlit("mspm0g518x");
        },
        Device::MSPM0H3215 | Device::MSPM0H3216 => {
            reveal_strlit("DeviceFamily_MSPM0H321X");
            reveal_strlit("mspm0h321x");
        },
        Device::MSPM0L1105 | Device::MSPM0L1106 => {
            reveal_strlit("DeviceFamily_MSPM0L110X");
            reveal_strlit("mspm0l110x");
        },
        Device::MSPM0L1116 | Device::MSPM0L1117 => {
            reveal_strlit("DeviceFamily_MSPM0L111X");
            reveal_strlit("mspm0l111x");
        },
        Device::MSPM0L1126 | Device::MSPM0L1127 => {
            reveal_strlit("DeviceFamily_MSPM0L112X");
            reveal_strlit("mspm0l112x");
        },
        Device::MSPM0L1227 | Device::MSPM0L1228 => {
            reveal_strlit("DeviceFamily_MSPM0L122X");
            reveal_strlit("mspm0l122x");
        },
        Device::MSPM0L1303 | Device::MSPM0L1304 | Device::MSPM0L1305 | Device::MSPM0L1306 => {
            reveal_strlit("DeviceFamily_MSPM0L130X");
            reveal_strlit("mspm0l130x");
        },
        Device::MSPM0L1343 | Device::MSPM0L1344 | Device::MSPM0L1345 | Device::MSPM0L1346 => {
            reveal_strlit("DeviceFamily_MSPM0L134X");
            reveal_strlit("mspm0l134x");
        },
        Device::MSPM0L2116 | Device::MSPM0L2117 => {
            reveal_strlit("DeviceFamily_MSPM0L211X");
            reveal_strlit("mspm0l211x");
        },
        Device::MSPM0L2227 | Device::MSPM0L2228 => {
            reveal_strlit("DeviceFamily_MSPM0L222X");
            reveal_strlit("mspm0l222x");
        },
    }
}

/// Parts that share a family define share the startup file.
pub proof fn lemma_define_determines_startup(d1: Device, d2: Device)
    requires
        define_name(d1) == define_name(d2),
    ensures
        startup_stem(d1) == startup_stem(d2),
        startup_path(d1) == startup_path(d2),
{
    lemma_startup_follows_define(d1);
    lemma_startup_follows_define(d2);
}

/// The length of a family define and the four characters after `DeviceFamily_MSPM0`,
/// which together tell the families apart.
spec fn family_key(define: Seq<char>) -> (int, char, char, char, char) {
    (define.len() as int, define[18], define[19], define[20], define[21])
}

/// The system-control driver variant of the family with the given key.
spec fn sysctl_of_family_key(key: (int, char, char, char, char)) -> Seq<char> {
    if key == (23int, 'C', '1', '1', '0') {
        "mspm0c110x"@
    } else if key == (29int, 'C', '1', '1', '0') {
        "mspm0c1105_c1106"@
    } else if key == (23int, 'G', '1', '1', '0') {
        "mspm0g1x0x_g3x0x"@
    } else if key == (23int, 'G', '1', '5', '0') {
        "mspm0g1x0x_g3x0x"@
    } else if key == (23int, 'G', '1', '5', '1') {
        "mspm0gx51x"@
    } else if key == (23int, 'G', '3', '1', '0') {
        "mspm0g1x0x_g3x0x"@
    } else if key == (23int, 'G', '3', '5', '0') {
        "mspm0g1x0x_g3x0x"@
    } else if key == (23int, 'G', '3', '5', '1') {
        "mspm0gx51x"@
    } else if key == (23int, 'G', '3', '5', '2') {
        "mspm0g352x"@
    } else if key == (23int, 'G', '5', '1', '1') {
        "mspm0g511x"@
    } else if key == (23int, 'G', '5', '1', '8') {
        "mspm0g518x"@
    } else if key == (23int, 'H', '3', '2', '1') {
        "mspm0h321x"@
    } else if key == (23int, 'L', '1', '1', '0') {
        "mspm0l11xx_l13xx"@
    } else if key == (23int, 'L', '1', '1', '1') {
        "mspm0l111x"@
    } else if key == (23int, 'L', '1', '1', '2') {
        "mspm0l11xx_l13xx"@
    } else if key == (23int, 'L', '1', '2', '2') {
        "mspm0l122x_l222x"@
    } else if key == (23int, 'L', '1', '3', '0') {
        "mspm0l11xx_l13xx"@
    } else if key == (23int, 'L', '1', '3', '4') {
        "mspm0l11xx_l13xx"@
    } else if key == (23int, 'L', '2', '1', '1') {
        "mspm0l211x_l112x"@
    } else if key == (23int, 'L', '2', '2', '2') {
        "mspm0l122x_l222x"@
    } else {
        Seq::empty()
    }
}

/// A part's system-control driver is a function of its family define.
proof fn lemma_sysctl_by_define(device: Device)
    ensures
        sysctl_stem(device) == sysctl_of_family_key(family_key(define_name(device))),
{
    match device {
        Device::MSPM0C1103 | Device::MSPM0C1104 => {
            reveal_strlit("DeviceFamily_MSPM0C110X");
        },
        Device::MSPM0C1105 | Device::MSPM0C1106 => {
            reveal_strlit("DeviceFamily_MSPM0C1105_C1106");
        },
        Device::MSPM0G1105 | Device::MSPM0G1106 | Device::MSPM0G1107 => {
            reveal_strlit("DeviceFamily_MSPM0G110X");
        },
        Device::MSPM0G1505 | Device::MSPM0G1506 | Device::MSPM0G1507 => {
            reveal_strlit("DeviceFamily_MSPM0G150X");
        },
        Device::MSPM0G1518 | Device::MSPM0G1519 => {
            reveal_strlit("DeviceFamily_MSPM0G151X");
        },
        Device::MSPM0G3105 | Device::MSPM0G3106 | Device::MSPM0G3107 => {
            reveal_strlit("DeviceFamily_MSPM0G310X");
        },
        Device::MSPM0G3505 | Device::MSPM0G3506 | Device::MSPM0G3507 => {
            reveal_strlit("DeviceFamily_MSPM0G350X");
        },
        Device::MSPM0G3518 | Device::MSPM0G3519 => {
            reveal_strlit("DeviceFamily_MSPM0G351X");
        },
        Device::MSPM0G3529 => {
            reveal_strlit("DeviceFamily_MSPM0G352X");
        },
        Device::MSPM0G5115 | Device::MSPM0G5116 | Device::MSPM0G5117 => {
            reveal_strlit("DeviceFamily_MSPM0G511X");
        },
        Device::MSPM0G5187 => {
            reveal_strlit("DeviceFamily_MSPM0G518X");
        },
        Device::MSPM0H3215 | Device::MSPM0H3216 => {
            reveal_strlit("DeviceFamily_MSPM0H321X");
        },
        Device::MSPM0L1105 | Device::MSPM0L1106 => {
            reveal_strlit("DeviceFamily_MSPM0L110X");
        },
        Device::MSPM0L1116 | Device::MSPM0L1117 => {
            reveal_strlit("DeviceFamily_MSPM0L111X");
        },
        Device::MSPM0L1126 | Device::MSPM0L1127 => {
            reveal_strlit("DeviceFamily_MSPM0L112X");
        },
        Device::MSPM0L1227 | Device::MSPM0L1228 => {
            reveal_strlit("DeviceFamily_MSPM0L122X");
        },
        Device::MSPM0L1303 | Device::MSPM0L1304 | Device::MSPM0L1305 | Device::MSPM0L1306 => {
            reveal_strlit("DeviceFamily_MSPM0L130X");
        },
        Device::MSPM0L1343 | Device::MSPM0L1344 | Device::MSPM0L1345 | Device::MSPM0L1346 => {
            reveal_strlit("DeviceFamily_MSPM0L134X");
        },
        Device::MSPM0L2116 | Device::MSPM0L2117 => {
            reveal_strlit("DeviceFamily_MSPM0L211X");
        },
        Device::MSPM0L2227 | Device::MSPM0L2228 => {
            reveal_strlit("DeviceFamily_MSPM0L222X");
        },
    }
}

/// Parts that share a family define share the system-control driver.
pub proof fn lemma_define_determines_sysctl(d1: Device, d2: Device)
    requires
        define_name(d1) == define_name(d2),
    ensures
        sysctl_stem(d1) == sysctl_stem(d2),
        sysctl_path(d1) == sysctl_path(d2),
{
    lemma_sysctl_by_define(d1);
    lemma_sysctl_by_define(d2);
}

/// The five characters after `mspm0` in a linker script's name.
spec fn linker_key(stem: Seq<char>) -> (char, char, char, char, char) {
    (stem[5], stem[6], stem[7], stem[8], stem[9])
}

/// The part whose linker script name has the given key.
spec fn device_of_linker_key(key: (char, char, char, char, char)) -> Option<Device> {
    if key == ('c', '1', '1', '0', '3') {
        Some(Device::MSPM0C1103)
    } else if key == ('c', '1', '1', '0', '4') {
        Some(Device::MSPM0C1104)
    } else if key == ('c', '1', '1', '0', '5') {
        Some(Device::MSPM0C1105)
    } else if key == ('c', '1', '1', '0', '6') {
        Some(Device::MSPM0C1106)
    } else if key == ('g', '1', '1', '0', '5') {
        Some(Device::MSPM0G1105)
    } else if key == ('g', '1', '1', '0', '6') {
        Some(Device::MSPM0G1106)
    } else if key == ('g', '1', '1', '0', '7') {
        Some(Device::MSPM0G1107)
    } else if key == ('g', '1', '5', '0', '5') {
        Some(Device::MSPM0G1505)
    } else if key == ('g', '1', '5', '0', '6') {
        Some(Device::MSPM0G1506)
    } else if key == ('g', '1', '5', '0', '7') {
        Some(Device::MSPM0G1507)
    } else if key == ('g', '1', '5', '1', '8') {
        Some(Device::MSPM0G1518)
    } else if key == ('g', '1', '5', '1', '9') {
        Some(Device::MSPM0G1519)
    } else if key == ('g', '3', '1', '0', '5') {
        Some(Device::MSPM0G3105)
    } else if key == ('g', '3', '1', '0', '6') {
        Some(Device::MSPM0G3106)
    } else if key == ('g', '3', '1', '0', '7') {
        Some(Device::MSPM0G3107)
    } else if key == ('g', '3', '5', '0', '5') {
        Some(Device::MSPM0G3505)
    } else if key == ('g', '3', '5', '0', '6') {
        Some(Device::MSPM0G3506)
    } else if key == ('g', '3', '5', '0', '7') {
        Some(Device::MSPM0G3507)
    } else if key == ('g', '3', '5', '1', '8') {
        Some(Device::MSPM0G3518)
    } else if key == ('g', '3', '5', '1', '9') {
        Some(Device::MSPM0G3519)
    } else if key == ('g', '3', '5', '2', '9') {
        Some(Device::MSPM0G3529)
    } else if key == ('g', '5', '1', '1', '5') {
        Some(Device::MSPM0G5115)
    } else if key == ('g', '5', '1', '1', '6') {
        Some(Device::MSPM0G5116)
    } else if key == ('g', '5', '1', '1', '7') {
        Some(Device::MSPM0G5117)
    } else if key == ('g', '5', '1', '8', '7') {
        Some(Device::MSPM0G5187)
    } else if key == ('h', '3', '2', '1', '5') {
        Some(Device::MSPM0H3215)
    } else if key == ('h', '3', '2', '1', '6') {
        Some(Device::MSPM0H3216)
    } else if key == ('l', '1', '1', '0', '5') {
        Some(Device::MSPM0L1105)
    } else if key == ('l', '1', '1', '0', '6') {
        Some(Device::MSPM0L1106)
    } else if key == ('l', '1', '1', '1', '6') {
        Some(Device::MSPM0L1116)
    } else if key == ('l', '1', '1', '1', '7') {
        Some(Device::MSPM0L1117)
    } else if key == ('l', '1', '1', '2', '6') {
        Some(Device::MSPM0L1126)
    } else if key == ('l', '1', '1', '2', '7') {
        Some(Device::MSPM0L1127)
    } else if key == ('l', '1', '2', '2', '7') {
        Some(Device::MSPM0L1227)
    } else if key == ('l', '1', '2', '2', '8') {
        Some(Device::MSPM0L1228)
    } else if key == ('l', '1', '3', '0', '3') {
        Some(Device::MSPM0L1303)
    } else if key == ('l', '1', '3', '0', '4') {
        Some(Device::MSPM0L1304)
    } else if key == ('l', '1', '3', '0', '5') {
        Some(Device::MSPM0L1305)
    } else if key == ('l', '1', '3', '0', '6') {
        Some(Device::MSPM0L1306)
    } else if key == ('l', '1', '3', '4', '3') {
        Some(Device::MSPM0L1343)
    } else if key == ('l', '1', '3', '4', '4') {
        Some(Device::MSPM0L1344)
    } else if key == ('l', '1', '3', '4', '5') {
        Some(Device::MSPM0L1345)
    } else if key == ('l', '1', '3', '4', '6') {
        Some(Device::MSPM0L1346)
    } else if key == ('l', '2', '1', '1', '6') {
        Some(Device::MSPM0L2116)
    } else if key == ('l', '2', '1', '1', '7') {
        Some(Device::MSPM0L2117)
    } else if key == ('l', '2', '2', '2', '7') {
        Some(Device::MSPM0L2227)
    } else if key == ('l', '2', '2', '2', '8') {
        Some(Device::MSPM0L2228)
    } else {
        None
    }
}

/// The part can be read back from its linker script's name.
proof fn lemma_linker_names_device(device: Device)
    ensures
        device_of_linker_key(linker_key(linker_stem(device))) == Some(device),
{
    match device {
        Device::MSPM0C1103 => reveal_strlit("mspm0c1103"),
        Device::MSPM0C1104 => reveal_strlit("mspm0c1104"),
        Device::MSPM0C1105 => reveal_strlit("mspm0c1105"),
        Device::MSPM0C1106 => reveal_strlit("mspm0c1106"),
        Device::MSPM0G1105 => reveal_strlit("mspm0g1105"),
        Device::MSPM0G1106 => reveal_strlit("mspm0g1106"),
        Device::MSPM0G1107 => reveal_strlit("mspm0g1107"),
        Device::MSPM0G1505 => reveal_strlit("mspm0g1505"),
        Device::MSPM0G1506 => reveal_strlit("mspm0g1506"),
        Device::MSPM0G1507 => reveal_strlit("mspm0g1507"),
        Device::MSPM0G1518 => reveal_strlit("mspm0g1518"),
        Device::MSPM0G1519 => reveal_strlit("mspm0g1519"),
        Device::MSPM0G3105 => reveal_strlit("mspm0g3105"),
        Device::MSPM0G3106 => reveal_strlit("mspm0g3106"),
        Device::MSPM0G3107 => reveal_strlit("mspm0g3107"),
        Device::MSPM0G3505 => reveal_strlit("mspm0g3505"),
        Device::MSPM0G3506 => reveal_strlit("mspm0g3506"),
        Device::MSPM0G3507 => reveal_strlit("mspm0g3507"),
        Device::MSPM0G3518 => reveal_strlit("mspm0g3518"),
        Device::MSPM0G3519 => reveal_strlit("mspm0g3519"),
        Device::MSPM0G3529 => reveal_strlit("mspm0g3529"),
        Device::MSPM0G5115 => reveal_strlit("mspm0g5115"),
        Device::MSPM0G5116 => reveal_strlit("mspm0g5116"),
        Device::MSPM0G5117 => reveal_strlit("mspm0g5117"),
        Device::MSPM0G5187 => reveal_strlit("mspm0g5187"),
        Device::MSPM0H3215 => reveal_strlit("mspm0h3215"),
        Device::MSPM0H3216 => reveal_strlit("mspm0h3216"),
        Device::MSPM0L1105 => reveal_strlit("mspm0l1105"),
        Device::MSPM0L1106 => reveal_strlit("mspm0l1106"),
        Device::MSPM0L1116 => reveal_strlit("mspm0l1116"),
        Device::MSPM0L1117 => reveal_strlit("mspm0l1117"),
        Device::MSPM0L1126 => reveal_strlit("mspm0l1126"),
        Device::MSPM0L1127 => reveal_strlit("mspm0l1127"),
        Device::MSPM0L1227 => reveal_strlit("mspm0l1227"),
        Device::MSPM0L1228 => reveal_strlit("mspm0l1228"),
        Device::MSPM0L1303 => reveal_strlit("mspm0l1303"),
        Device::MSPM0L1304 => reveal_strlit("mspm0l1304"),
        Device::MSPM0L1305 => reveal_strlit("mspm0l1305"),
        Device::MSPM0L1306 => reveal_strlit("mspm0l1306"),
        Device::MSPM0L1343 => reveal_strlit("mspm0l1343"),
        Device::MSPM0L1344 => reveal_strlit("mspm0l1344"),
        Device::MSPM0L1345 => reveal_strlit("mspm0l1345"),
        Device::MSPM0L1346 => reveal_strlit("mspm0l1346"),
        Device::MSPM0L2116 => reveal_strlit("mspm0l2116"),
        Device::MSPM0L2117 => reveal_strlit("mspm0l2117"),
        Device::MSPM0L2227 => reveal_strlit("mspm0l2227"),
        Device::MSPM0L2228 => reveal_strlit("mspm0l2228"),
    }
}

/// No two parts share a linker script.
pub proof fn lemma_linker_script_unique(d1: Device, d2: Device)
    requires
        linker_path(d1) == linker_path(d2),
    ensures
        d1 == d2,
{
    let prefix = "ti/devices/msp/m0p/linker_files/gcc/"@;
    let ext = ".lds"@;
    assert(linker_stem(d1) =~= linker_path(d1).subrange(
        prefix.len() as int,
        linker_path(d1).len() - ext.len(),
    ));
    assert(linker_stem(d2) =~= linker_path(d2).subrange(
        prefix.len() as int,
        linker_path(d2).len() - ext.len(),
    ));
    lemma_linker_names_device(d1);
    lemma_linker_names_device(d2);
}

/// `pattern` names `part`: they have the same length and agree wherever the
/// pattern does not hold the wildcard `x`.
pub open spec fn pattern_matches(pattern: Seq<char>, part: Seq<char>) -> bool {
    &&& pattern.len() == part.len()
    &&& forall|i: int| 0 <= i < part.len() ==> pattern[i] == 'x' || pattern[i] == part[i]
}

/// The family name `family` covers the part name `part`. A family name is one
/// pattern, or two joined by `_` where the second leaves out the `mspm0` prefix.
pub open spec fn family_covers(family: Seq<char>, part: Seq<char>) -> bool {
    ||| pattern_matches(family.take(part.len() as int), part)
    ||| pattern_matches(family.take(5) + family.skip(part.len() as int + 1), part)
}

/// Every part belongs to the family its startup file (and define) is named after:
/// the family name covers the part name that its linker script carries.
pub proof fn lemma_family_covers_part(device: Device)
    ensures
        family_covers(startup_stem(device), linker_stem(device)),
{
    match device {
        Device::MSPM0C1103 => {
            reveal_strlit("mspm0c110x");
            reveal_strlit("mspm0c1103");
        },
        Device::MSPM0C1104 => {
            reveal_strlit("mspm0c110x");
            reveal_strlit("mspm0c1104");
        },
        Device::MSPM0C1105 => {
            reveal_strlit("mspm0c1105_c1106");
            reveal_strlit("mspm0c1105");
        },
        Device::MSPM0C1106 => {
            reveal_strlit("mspm0c1105_c1106");
            reveal_strlit("mspm0c1106");
        },
        Device::MSPM0G1105 => {
            reveal_strlit("mspm0g110x");
            reveal_strlit("mspm0g1105");
        },
        Device::MSPM0G1106 => {
            reveal_strlit("mspm0g110x");
            reveal_strlit("mspm0g1106");
        },
        Device::MSPM0G1107 => {
            reveal_strlit("mspm0g110x");
            reveal_strlit("mspm0g1107");
        },
        Device::MSPM0G1505 => {
            reveal_strlit("mspm0g150x");
            reveal_strlit("mspm0g1505");
        },
        Device::MSPM0G1506 => {
            reveal_strlit("mspm0g150x");
            reveal_strlit("mspm0g1506");
        },
        Device::MSPM0G1507 => {
            reveal_strlit("mspm0g150x");
            reveal_strlit("mspm0g1507");
        },
        Device::MSPM0G1518 => {
            reveal_strlit("mspm0g151x");
            reveal_strlit("mspm0g1518");
        },
        Device::MSPM0G1519 => {
            reveal_strlit("mspm0g151x");
            reveal_strlit("mspm0g1519");
        },
        Device::MSPM0G3105 => {
            reveal_strlit("mspm0g310x");
            reveal_strlit("mspm0g3105");
        },
        Device::MSPM0G3106 => {
            reveal_strlit("mspm0g310x");
            reveal_strlit("mspm0g3106");
        },
        Device::MSPM0G3107 => {
            reveal_strlit("mspm0g310x");
            reveal_strlit("mspm0g3107");
        },
        Device::MSPM0G3505 => {
            reveal_strlit("mspm0g350x");
            reveal_strlit("mspm0g3505");
        },
        Device::MSPM0G3506 => {
            reveal_strlit("mspm0g350x");
            reveal_strlit("mspm0g3506");
        },
        Device::MSPM0G3507 => {
            reveal_strlit("mspm0g350x");
            reveal_strlit("mspm0g3507");
        },
        Device::MSPM0G3518 => {
            reveal_strlit("mspm0g351x");
            reveal_strlit("mspm0g3518");
        },
        Device::MSPM0G3519 => {
            reveal_strlit("mspm0g351x");
            reveal_strlit("mspm0g3519");
        },
        Device::MSPM0G3529 => {
            reveal_strlit("mspm0g352x");
            reveal_strlit("mspm0g3529");
        },
        Device::MSPM0G5115 => {
            reveal_strlit("mspm0g511x");
            reveal_strlit("mspm0g5115");
        },
        Device::MSPM0G5116 => {
            reveal_strlit("mspm0g511x");
            reveal_strlit("mspm0g5116");
        },
        Device::MSPM0G5117 => {
            reveal_strlit("mspm0g511x");
            reveal_strlit("mspm0g5117");
        },
        Device::MSPM0G5187 => {
            reveal_strlit("mspm0g518x");
            reveal_strlit("mspm0g5187");
        },
        Device::MSPM0H3215 => {
            reveal_strlit("mspm0h321x");
            reveal_strlit("mspm0h3215");
        },
        Device::MSPM0H3216 => {
            reveal_strlit("mspm0h321x");
            reveal_strlit("mspm0h3216");
        },
        Device::MSPM0L1105 => {
            reveal_strlit("mspm0l110x");
            reveal_strlit("mspm0l1105");
        },
        Device::MSPM0L1106 => {
            reveal_strlit("mspm0l110x");
            reveal_strlit("mspm0l1106");
        },
        Device::MSPM0L1116 => {
            reveal_strlit("mspm0l111x");
            reveal_strlit("mspm0l1116");
        },
        Device::MSPM0L1117 => {
            reveal_strlit("mspm0l111x");
            reveal_strlit("mspm0l1117");
        },
        Device::MSPM0L1126 => {
            reveal_strlit("mspm0l112x");
            reveal_strlit("mspm0l1126");
        },
        Device::MSPM0L1127 => {
            reveal_strlit("mspm0l112x");
            reveal_strlit("mspm0l1127");
        },
        Device::MSPM0L1227 => {
            reveal_strlit("mspm0l122x");
            reveal_strlit("mspm0l1227");
        },
        Device::MSPM0L1228 => {
            reveal_strlit("mspm0l122x");
            reveal_strlit("mspm0l1228");
        },
        Device::MSPM0L1303 => {
            reveal_strlit("mspm0l130x");
            reveal_strlit("mspm0l1303");
        },
        Device::MSPM0L1304 => {
            reveal_strlit("mspm0l130x");
            reveal_strlit("mspm0l1304");
        },
        Device::MSPM0L1305 => {
            reveal_strlit("mspm0l130x");
            reveal_strlit("mspm0l1305");
        },
        Device::MSPM0L1306 => {
            reveal_strlit("mspm0l130x");
            reveal_strlit("mspm0l1306");
        },
        Device::MSPM0L1343 => {
            reveal_strlit("mspm0l134x");
            reveal_strlit("mspm0l1343");
        },
        Device::MSPM0L1344 => {
            reveal_strlit("mspm0l134x");
            reveal_strlit("mspm0l1344");
        },
        Device::MSPM0L1345 => {
            reveal_strlit("mspm0l134x");
            reveal_strlit("mspm0l1345");
        },
        Device::MSPM0L1346 => {
            reveal_strlit("mspm0l134x");
            reveal_strlit("mspm0l1346");
        },
        Device::MSPM0L2116 => {
            reveal_strlit("mspm0l211x");
            reveal_strlit("mspm0l2116");
        },
        Device::MSPM0L2117 => {
            reveal_strlit("mspm0l211x");
            reveal_strlit("mspm0l2117");
        },
        Device::MSPM0L2227 => {
            reveal_strlit("mspm0l222x");
            reveal_strlit("mspm0l2227");
        },
        Device::MSPM0L2228 => {
            reveal_strlit("mspm0l222x");
            reveal_strlit("mspm0l2228");
        },
    }
}

/// The part number of `device`, as TI writes it.
pub open spec fn part_name(device: Device) -> Seq<char> {
    match device {
        Device::MSPM0C1103 => "MSPM0C1103"@,
        Device::MSPM0C1104 => "MSPM0C1104"@,
        Device::MSPM0C1105 => "MSPM0C1105"@,
        Device::MSPM0C1106 => "MSPM0C1106"@,
        Device::MSPM0G1105 => "MSPM0G1105"@,
        Device::MSPM0G1106 => "MSPM0G1106"@,
        Device::MSPM0G1107 => "MSPM0G1107"@,
        Device::MSPM0G1505 => "MSPM0G1505"@,
        Device::MSPM0G1506 => "MSPM0G1506"@,
        Device::MSPM0G1507 => "MSPM0G1507"@,
        Device::MSPM0G1518 => "MSPM0G1518"@,
        Device::MSPM0G1519 => "MSPM0G1519"@,
        Device::MSPM0G3105 => "MSPM0G3105"@,
        Device::MSPM0G3106 => "MSPM0G3106"@,
        Device::MSPM0G3107 => "MSPM0G3107"@,
        Device::MSPM0G3505 => "MSPM0G3505"@,
        Device::MSPM0G3506 => "MSPM0G3506"@,
        Device::MSPM0G3507 => "MSPM0G3507"@,
        Device::MSPM0G3518 => "MSPM0G3518"@,
        Device::MSPM0G3519 => "MSPM0G3519"@,
        Device::MSPM0G3529 => "MSPM0G3529"@,
        Device::MSPM0G5115 => "MSPM0G5115"@,
        Device::MSPM0G5116 => "MSPM0G5116"@,
        Device::MSPM0G5117 => "MSPM0G5117"@,
        Device::MSPM0G5187 => "MSPM0G5187"@,
        Device::MSPM0H3215 => "MSPM0H3215"@,
        Device::MSPM0H3216 => "MSPM0H3216"@,
        Device::MSPM0L1105 => "MSPM0L1105"@,
        Device::MSPM0L1106 => "MSPM0L1106"@,
        Device::MSPM0L1116 => "MSPM0L1116"@,
        Device::MSPM0L1117 => "MSPM0L1117"@,
        Device::MSPM0L1126 => "MSPM0L1126"@,
        Device::MSPM0L1127 => "MSPM0L1127"@,
        Device::MSPM0L1227 => "MSPM0L1227"@,
        Device::MSPM0L1228 => "MSPM0L1228"@,
        Device::MSPM0L1303 => "MSPM0L1303"@,
        Device::MSPM0L1304 => "MSPM0L1304"@,
        Device::MSPM0L1305 => "MSPM0L1305"@,
        Device::MSPM0L1306 => "MSPM0L1306"@,
        Device::MSPM0L1343 => "MSPM0L1343"@,
        Device::MSPM0L1344 => "MSPM0L1344"@,
        Device::MSPM0L1345 => "MSPM0L1345"@,
        Device::MSPM0L1346 => "MSPM0L1346"@,
        Device::MSPM0L2116 => "MSPM0L2116"@,
        Device::MSPM0L2117 => "MSPM0L2117"@,
        Device::MSPM0L2227 => "MSPM0L2227"@,
        Device::MSPM0L2228 => "MSPM0L2228"@,
    }
}

/// The TI family that the part number `part` belongs to: the part number with
/// its last digit replaced by `X`, except for the MSPM0C1105 and MSPM0C1106,
/// which form the family `MSPM0C1105_C1106` of their own.
pub open spec fn family_name(part: Seq<char>) -> Seq<char> {
    if part == "MSPM0C1105"@ || part == "MSPM0C1106"@ {
        "MSPM0C1105_C1106"@
    } else {
        part.take(9).push('X')
    }
}

/// Every part's define is `DeviceFamily_` followed by the family that its part
/// number belongs to.
pub proof fn lemma_define_names_family(device: Device)
    ensures
        define_name(device) == define_prefix() + family_name(part_name(device)),
{
    reveal_strlit("DeviceFamily_");
    reveal_strlit("MSPM0C1105");
    reveal_strlit("MSPM0C1106");
    reveal_strlit("MSPM0C1105_C1106");
    match device {
        Device::MSPM0C1103 => {
            reveal_strlit("MSPM0C1103");
            reveal_strlit("DeviceFamily_MSPM0C110X");
            assert(part_name(device)[9] != "MSPM0C1105"@[9]);
            assert(part_name(device)[9] != "MSPM0C1106"@[9]);
        },
        Device::MSPM0C1104 => {
            reveal_strlit("MSPM0C1104");
            reveal_strlit("DeviceFamily_MSPM0C110X");
            assert(part_name(device)[9] != "MSPM0C1105"@[9]);
            assert(part_name(device)[9] != "MSPM0C1106"@[9]);
        },
        Device::MSPM0C1105 => {
            reveal_strlit("MSPM0C1105");
            reveal_strlit("DeviceFamily_MSPM0C1105_C1106");
        },
        Device::MSPM0C1106 => {
            reveal_strlit("MSPM0C1106");
            reveal_strlit("DeviceFamily_MSPM0C1105_C1106");
        },
        Device::MSPM0G1105 => {
            reveal_strlit("MSPM0G1105");
            reveal_strlit("DeviceFamily_MSPM0G110X");
            assert(part_name(device)[5] != "MSPM0C1105"@[5]);
            assert(part_name(device)[5] != "MSPM0C1106"@[5]);
        },
        Device::MSPM0G1106 => {
            reveal_strlit("MSPM0G1106");
            reveal_strlit("DeviceFamily_MSPM0G110X");
            assert(part_name(device)[5] != "MSPM0C1105"@[5]);
            assert(part_name(device)[5] != "MSPM0C1106"@[5]);
        },
        Device::MSPM0G1107 => {
            reveal_strlit("MSPM0G1107");
            reveal_strlit("DeviceFamily_MSPM0G110X");
            assert(part_name(device)[5] != "MSPM0C1105"@[5]);
            assert(part_name(device)[5] != "MSPM0C1106"@[5]);
        },
        Device::MSPM0G1505 => {
            reveal_strlit("MSPM0G1505");
            reveal_strlit("DeviceFamily_MSPM0G150X");
            assert(part_name(device)[5] != "MSPM0C1105"@[5]);
            assert(part_name(device)[5] != "MSPM0C1106"@[5]);
        },
        Device::MSPM0G1506 => {
            reveal_strlit("MSPM0G1506");
            reveal_strlit("DeviceFamily_MSPM0G150X");
            assert(part_name(device)[5] != "MSPM0C1105"@[5]);
            assert(part_name(device)[5] != "MSPM0C1106"@[5]);
        },
        Device::MSPM0G1507 => {
            reveal_strlit("MSPM0G1507");
            reveal_strlit("DeviceFamily_MSPM0G150X");
            assert(part_name(device)[5] != "MSPM0C1105"@[5]);
            assert(part_name(device)[5] != "MSPM0C1106"@[5]);
        },
        Device::MSPM0G1518 => {
            reveal_strlit("MSPM0G1518");
            reveal_strlit("DeviceFamily_MSPM0G151X");
            assert(part_name(device)[5] != "MSPM0C1105"@[5]);
            assert(part_name(device)[5] != "MSPM0C1106"@[5]);
        },
        Device::MSPM0G1519 => {
            reveal_strlit("MSPM0G1519");
            reveal_strlit("DeviceFamily_MSPM0G151X");
            assert(part_name(device)[5] != "MSPM0C1105"@[5]);
            assert(part_name(device)[5] != "MSPM0C1106"@[5]);
        },
        Device::MSPM0G3105 => {
            reveal_strlit("MSPM0G3105");
            reveal_strlit("DeviceFamily_MSPM0G310X");
            assert(part_name(device)[5] != "MSPM0C1105"@[5]);
            assert(part_name(device)[5] != "MSPM0C1106"@[5]);
        },
        Device::MSPM0G3106 => {
            reveal_strlit("MSPM0G3106");
            reveal_strlit("DeviceFamily_MSPM0G310X");
            assert(part_name(device)[5] != "MSPM0C1105"@[5]);
            assert(part_name(device)[5] != "MSPM0C1106"@[5]);
        },
        Device::MSPM0G3107 => {
            reveal_strlit("MSPM0G3107");
            reveal_strlit("DeviceFamily_MSPM0G310X");
            assert(part_name(device)[5] != "MSPM0C1105"@[5]);
            assert(part_name(device)[5] != "MSPM0C1106"@[5]);
        },
        Device::MSPM0G3505 => {
            reveal_strlit("MSPM0G3505");
            reveal_strlit("DeviceFamily_MSPM0G350X");
            assert(part_name(device)[5] != "MSPM0C1105"@[5]);
            assert(part_name(device)[5] != "MSPM0C1106"@[5]);
        },
        Device::MSPM0G3506 => {
            reveal_strlit("MSPM0G3506");
            reveal_strlit("DeviceFamily_MSPM0G350X");
            assert(part_name(device)[5] != "MSPM0C1105"@[5]);
            assert(part_name(device)[5] != "MSPM0C1106"@[5]);
        },
        Device::MSPM0G3507 => {
            reveal_strlit("MSPM0G3507");
            reveal_strlit("DeviceFamily_MSPM0G350X");
            assert(part_name(device)[5] != "MSPM0C1105"@[5]);
            assert(part_name(device)[5] != "MSPM0C1106"@[5]);
        },
        Device::MSPM0G3518 => {
            reveal_strlit("MSPM0G3518");
            reveal_strlit("DeviceFamily_MSPM0G351X");
            assert(part_name(device)[5] != "MSPM0C1105"@[5]);
            assert(part_name(device)[5] != "MSPM0C1106"@[5]);
        },
        Device::MSPM0G3519 => {
            reveal_strlit("MSPM0G3519");
            reveal_strlit("DeviceFamily_MSPM0G351X");
            assert(part_name(device)[5] != "MSPM0C1105"@[5]);
            assert(part_name(device)[5] != "MSPM0C1106"@[5]);
        },
        Device::MSPM0G3529 => {
            reveal_strlit("MSPM0G3529");
            reveal_strlit("DeviceFamily_MSPM0G352X");
            assert(part_name(device)[5] != "MSPM0C1105"@[5]);
            assert(part_name(device)[5] != "MSPM0C1106"@[5]);
        },
        Device::MSPM0G5115 => {
            reveal_strlit("MSPM0G5115");
            reveal_strlit("DeviceFamily_MSPM0G511X");
            assert(part_name(device)[5] != "MSPM0C1105"@[5]);
            assert(part_name(device)[5] != "MSPM0C1106"@[5]);
        },
        Device::MSPM0G5116 => {
            reveal_strlit("MSPM0G5116");
            reveal_strlit("DeviceFamily_MSPM0G511X");
            assert(part_name(device)[5] != "MSPM0C1105"@[5]);
            assert(part_name(device)[5] != "MSPM0C1106"@[5]);
        },
        Device::MSPM0G5117 => {
            reveal_strlit("MSPM0G5117");
            reveal_strlit("DeviceFamily_MSPM0G511X");
            assert(part_name(device)[5] != "MSPM0C1105"@[5]);
            assert(part_name(device)[5] != "MSPM0C1106"@[5]);
        },
        Device::MSPM0G5187 => {
            reveal_strlit("MSPM0G5187");
            reveal_strlit("DeviceFamily_MSPM0G518X");
            assert(part_name(device)[5] != "MSPM0C1105"@[5]);
            assert(part_name(device)[5] != "MSPM0C1106"@[5]);
        },
        Device::MSPM0H3215 => {
            reveal_strlit("MSPM0H3215");
            reveal_strlit("DeviceFamily_MSPM0H321X");
            assert(part_name(device)[5] != "MSPM0C1105"@[5]);
            assert(part_name(device)[5] != "MSPM0C1106"@[5]);
        },
        Device::MSPM0H3216 => {
            reveal_strlit("MSPM0H3216");
            reveal_strlit("DeviceFamily_MSPM0H321X");
            assert(part_name(device)[5] != "MSPM0C1105"@[5]);
            assert(part_name(device)[5] != "MSPM0C1106"@[5]);
        },
        Device::MSPM0L1105 => {
            reveal_strlit("MSPM0L1105");
            reveal_strlit("DeviceFamily_MSPM0L110X");
            assert(part_name(device)[5] != "MSPM0C1105"@[5]);
            assert(part_name(device)[5] != "MSPM0C1106"@[5]);
        },
        Device::MSPM0L1106 => {
            reveal_strlit("MSPM0L1106");
            reveal_strlit("DeviceFamily_MSPM0L110X");
            assert(part_name(device)[5] != "MSPM0C1105"@[5]);
            assert(part_name(device)[5] != "MSPM0C1106"@[5]);
        },
        Device::MSPM0L1116 => {
            reveal_strlit("MSPM0L1116");
            reveal_strlit("DeviceFamily_MSPM0L111X");
            assert(part_name(device)[5] != "MSPM0C1105"@[5]);
            assert(part_name(device)[5] != "MSPM0C1106"@[5]);
        },
        Device::MSPM0L1117 => {
            reveal_strlit("MSPM0L1117");
            reveal_strlit("DeviceFamily_MSPM0L111X");
            assert(part_name(device)[5] != "MSPM0C1105"@[5]);
            assert(part_name(device)[5] != "MSPM0C1106"@[5]);
        },
        Device::MSPM0L1126 => {
            reveal_strlit("MSPM0L1126");
            reveal_strlit("DeviceFamily_MSPM0L112X");
            assert(part_name(device)[5] != "MSPM0C1105"@[5]);
            assert(part_name(device)[5] != "MSPM0C1106"@[5]);
        },
        Device::MSPM0L1127 => {
            reveal_strlit("MSPM0L1127");
            reveal_strlit("DeviceFamily_MSPM0L112X");
            assert(part_name(device)[5] != "MSPM0C1105"@[5]);
            assert(part_name(device)[5] != "MSPM0C1106"@[5]);
        },
        Device::MSPM0L1227 => {
            reveal_strlit("MSPM0L1227");
            reveal_strlit("DeviceFamily_MSPM0L122X");
            assert(part_name(device)[5] != "MSPM0C1105"@[5]);
            assert(part_name(device)[5] != "MSPM0C1106"@[5]);
        },
        Device::MSPM0L1228 => {
            reveal_strlit("MSPM0L1228");
            reveal_strlit("DeviceFamily_MSPM0L122X");
            assert(part_name(device)[5] != "MSPM0C1105"@[5]);
            assert(part_name(device)[5] != "MSPM0C1106"@[5]);
        },
        Device::MSPM0L1303 => {
            reveal_strlit("MSPM0L1303");
            reveal_strlit("DeviceFamily_MSPM0L130X");
            assert(part_name(device)[5] != "MSPM0C1105"@[5]);
            assert(part_name(device)[5] != "MSPM0C1106"@[5]);
        },
        Device::MSPM0L1304 => {
            reveal_strlit("MSPM0L1304");
            reveal_strlit("DeviceFamily_MSPM0L130X");
            assert(part_name(device)[5] != "MSPM0C1105"@[5]);
            assert(part_name(device)[5] != "MSPM0C1106"@[5]);
        },
        Device::MSPM0L1305 => {
            reveal_strlit("MSPM0L1305");
            reveal_strlit("DeviceFamily_MSPM0L130X");
            assert(part_name(device)[5] != "MSPM0C1105"@[5]);
            assert(part_name(device)[5] != "MSPM0C1106"@[5]);
        },
        Device::MSPM0L1306 => {
            reveal_strlit("MSPM0L1306");
            reveal_strlit("DeviceFamily_MSPM0L130X");
            assert(part_name(device)[5] != "MSPM0C1105"@[5]);
            assert(part_name(device)[5] != "MSPM0C1106"@[5]);
        },
        Device::MSPM0L1343 => {
            reveal_strlit("MSPM0L1343");
            reveal_strlit("DeviceFamily_MSPM0L134X");
            assert(part_name(device)[5] != "MSPM0C1105"@[5]);
            assert(part_name(device)[5] != "MSPM0C1106"@[5]);
        },
        Device::MSPM0L1344 => {
            reveal_strlit("MSPM0L1344");
            reveal_strlit("DeviceFamily_MSPM0L134X");
            assert(part_name(device)[5] != "MSPM0C1105"@[5]);
            assert(part_name(device)[5] != "MSPM0C1106"@[5]);
        },
        Device::MSPM0L1345 => {
            reveal_strlit("MSPM0L1345");
            reveal_strlit("DeviceFamily_MSPM0L134X");
            assert(part_name(device)[5] != "MSPM0C1105"@[5]);
            assert(part_name(device)[5] != "MSPM0C1106"@[5]);
        },
        Device::MSPM0L1346 => {
            reveal_strlit("MSPM0L1346");
            reveal_strlit("DeviceFamily_MSPM0L134X");
            assert(part_name(device)[5] != "MSPM0C1105"@[5]);
            assert(part_name(device)[5] != "MSPM0C1106"@[5]);
        },
        Device::MSPM0L2116 => {
            reveal_strlit("MSPM0L2116");
            reveal_strlit("DeviceFamily_MSPM0L211X");
            assert(part_name(device)[5] != "MSPM0C1105"@[5]);
            assert(part_name(device)[5] != "MSPM0C1106"@[5]);
        },
        Device::MSPM0L2117 => {
            reveal_strlit("MSPM0L2117");
            reveal_strlit("DeviceFamily_MSPM0L211X");
            assert(part_name(device)[5] != "MSPM0C1105"@[5]);
            assert(part_name(device)[5] != "MSPM0C1106"@[5]);
        },
        Device::MSPM0L2227 => {
            reveal_strlit("MSPM0L2227");
            reveal_strlit("DeviceFamily_MSPM0L222X");
            assert(part_name(device)[5] != "MSPM0C1105"@[5]);
            assert(part_name(device)[5] != "MSPM0C1106"@[5]);
        },
        Device::MSPM0L2228 => {
            reveal_strlit("MSPM0L2228");
            reveal_strlit("DeviceFamily_MSPM0L222X");
            assert(part_name(device)[5] != "MSPM0C1105"@[5]);
            assert(part_name(device)[5] != "MSPM0C1106"@[5]);
        },
    }
}

/// Parts of one TI family share the define, the startup file and the
/// system-control driver.
pub proof fn lemma_family_shares_files(d1: Device, d2: Device)
    requires
        family_name(part_name(d1)) == family_name(part_name(d2)),
    ensures
        define_name(d1) == define_name(d2),
        startup_stem(d1) == startup_stem(d2),
        sysctl_stem(d1) == sysctl_stem(d2),
{
    lemma_define_names_family(d1);
    lemma_define_names_family(d2);
    lemma_define_determines_startup(d1, d2);
    lemma_define_determines_sysctl(d1, d2);
}

/// Every part's linker script is named after the part number, in lower case.
pub proof fn lemma_linker_names_part(device: Device)
    ensures
        linker_stem(device) == ascii_lowercase(part_name(device)),
{
    match device {
        Device::MSPM0C1103 => {
            reveal_strlit("MSPM0C1103");
            reveal_strlit("mspm0c1103");
        },
        Device::MSPM0C1104 => {
            reveal_strlit("MSPM0C1104");
            reveal_strlit("mspm0c1104");
        },
        Device::MSPM0C1105 => {
            reveal_strlit("MSPM0C1105");
            reveal_strlit("mspm0c1105");
        },
        Device::MSPM0C1106 => {
            reveal_strlit("MSPM0C1106");
            reveal_strlit("mspm0c1106");
        },
        Device::MSPM0G1105 => {
            reveal_strlit("MSPM0G1105");
            reveal_strlit("mspm0g1105");
        },
        Device::MSPM0G1106 => {
            reveal_strlit("MSPM0G1106");
            reveal_strlit("mspm0g1106");
        },
        Device::MSPM0G1107 => {
            reveal_strlit("MSPM0G1107");
            reveal_strlit("mspm0g1107");
        },
        Device::MSPM0G1505 => {
            reveal_strlit("MSPM0G1505");
            reveal_strlit("mspm0g1505");
        },
        Device::MSPM0G1506 => {
            reveal_strlit("MSPM0G1506");
            reveal_strlit("mspm0g1506");
        },
        Device::MSPM0G1507 => {
            reveal_strlit("MSPM0G1507");
            reveal_strlit("mspm0g1507");
        },
        Device::MSPM0G1518 => {
            reveal_strlit("MSPM0G1518");
            reveal_strlit("mspm0g1518");
        },
        Device::MSPM0G1519 => {
            reveal_strlit("MSPM0G1519");
            reveal_strlit("mspm0g1519");
        },
        Device::MSPM0G3105 => {
            reveal_strlit("MSPM0G3105");
            reveal_strlit("mspm0g3105");
        },
        Device::MSPM0G3106 => {
            reveal_strlit("MSPM0G3106");
            reveal_strlit("mspm0g3106");
        },
        Device::MSPM0G3107 => {
            reveal_strlit("MSPM0G3107");
            reveal_strlit("mspm0g3107");
        },
        Device::MSPM0G3505 => {
            reveal_strlit("MSPM0G3505");
            reveal_strlit("mspm0g3505");
        },
        Device::MSPM0G3506 => {
            reveal_strlit("MSPM0G3506");
            reveal_strlit("mspm0g3506");
        },
        Device::MSPM0G3507 => {
            reveal_strlit("MSPM0G3507");
            reveal_strlit("mspm0g3507");
        },
        Device::MSPM0G3518 => {
            reveal_strlit("MSPM0G3518");
            reveal_strlit("mspm0g3518");
        },
        Device::MSPM0G3519 => {
            reveal_strlit("MSPM0G3519");
            reveal_strlit("mspm0g3519");
        },
        Device::MSPM0G3529 => {
            reveal_strlit("MSPM0G3529");
            reveal_strlit("mspm0g3529");
        },
        Device::MSPM0G5115 => {
            reveal_strlit("MSPM0G5115");
            reveal_strlit("mspm0g5115");
        },
        Device::MSPM0G5116 => {
            reveal_strlit("MSPM0G5116");
            reveal_strlit("mspm0g5116");
        },
        Device::MSPM0G5117 => {
            reveal_strlit("MSPM0G5117");
            reveal_strlit("mspm0g5117");
        },
        Device::MSPM0G5187 => {
            reveal_strlit("MSPM0G5187");
            reveal_strlit("mspm0g5187");
        },
        Device::MSPM0H3215 => {
            reveal_strlit("MSPM0H3215");
            reveal_strlit("mspm0h3215");
        },
        Device::MSPM0H3216 => {
            reveal_strlit("MSPM0H3216");
            reveal_strlit("mspm0h3216");
        },
        Device::MSPM0L1105 => {
            reveal_strlit("MSPM0L1105");
            reveal_strlit("mspm0l1105");
        },
        Device::MSPM0L1106 => {
            reveal_strlit("MSPM0L1106");
            reveal_strlit("mspm0l1106");
        },
        Device::MSPM0L1116 => {
            reveal_strlit("MSPM0L1116");
            reveal_strlit("mspm0l1116");
        },
        Device::MSPM0L1117 => {
            reveal_strlit("MSPM0L1117");
            reveal_strlit("mspm0l1117");
        },
        Device::MSPM0L1126 => {
            reveal_strlit("MSPM0L1126");
            reveal_strlit("mspm0l1126");
        },
        Device::MSPM0L1127 => {
            reveal_strlit("MSPM0L1127");
            reveal_strlit("mspm0l1127");
        },
        Device::MSPM0L1227 => {
            reveal_strlit("MSPM0L1227");
            reveal_strlit("mspm0l1227");
        },
        Device::MSPM0L1228 => {
            reveal_strlit("MSPM0L1228");
            reveal_strlit("mspm0l1228");
        },
        Device::MSPM0L1303 => {
            reveal_strlit("MSPM0L1303");
            reveal_strlit("mspm0l1303");
        },
        Device::MSPM0L1304 => {
            reveal_strlit("MSPM0L1304");
            reveal_strlit("mspm0l1304");
        },
        Device::MSPM0L1305 => {
            reveal_strlit("MSPM0L1305");
            reveal_strlit("mspm0l1305");
        },
        Device::MSPM0L1306 => {
            reveal_strlit("MSPM0L1306");
            reveal_strlit("mspm0l1306");
        },
        Device::MSPM0L1343 => {
            reveal_strlit("MSPM0L1343");
            reveal_strlit("mspm0l1343");
        },
        Device::MSPM0L1344 => {
            reveal_strlit("MSPM0L1344");
            reveal_strlit("mspm0l1344");
        },
        Device::MSPM0L1345 => {
            reveal_strlit("MSPM0L1345");
            reveal_strlit("mspm0l1345");
        },
        Device::MSPM0L1346 => {
            reveal_strlit("MSPM0L1346");
            reveal_strlit("mspm0l1346");
        },
        Device::MSPM0L2116 => {
            reveal_strlit("MSPM0L2116");
            reveal_strlit("mspm0l2116");
        },
        Device::MSPM0L2117 => {
            reveal_strlit("MSPM0L2117");
            reveal_strlit("mspm0l2117");
        },
        Device::MSPM0L2227 => {
            reveal_strlit("MSPM0L2227");
            reveal_strlit("mspm0l2227");
        },
        Device::MSPM0L2228 => {
            reveal_strlit("MSPM0L2228");
            reveal_strlit("mspm0l2228");
        },
    }
}

/// `c` in upper case where it is an ASCII small letter, `c` otherwise.
pub open spec fn ascii_upper(c: char) -> char {
    if 97 <= (c as u32) <= 122 {
        ((c as u32) - 32) as char
    } else {
        c
    }
}

/// `s` with each ASCII small letter in upper case.
pub open spec fn ascii_uppercase(s: Seq<char>) -> Seq<char> {
    s.map_values(|c: char| ascii_upper(c))
}

/// Every define is `DeviceFamily_` followed by the family name in upper case.
pub proof fn lemma_define_is_upper_case(device: Device)
    ensures
        define_name(device) == define_prefix() + ascii_uppercase(startup_stem(device)),
{
    reveal_strlit("DeviceFamily_");
    match device {
        Device::MSPM0C1103 => {
            reveal_strlit("DeviceFamily_MSPM0C110X");
            reveal_strlit("mspm0c110x");
        },
        Device::MSPM0C1104 => {
            reveal_strlit("DeviceFamily_MSPM0C110X");
            reveal_strlit("mspm0c110x");
        },
        Device::MSPM0C1105 => {
            reveal_strlit("DeviceFamily_MSPM0C1105_C1106");
            reveal_strlit("mspm0c1105_c1106");
        },
        Device::MSPM0C1106 => {
            reveal_strlit("DeviceFamily_MSPM0C1105_C1106");
            reveal_strlit("mspm0c1105_c1106");
        },
        Device::MSPM0G1105 => {
            reveal_strlit("DeviceFamily_MSPM0G110X");
            reveal_strlit("mspm0g110x");
        },
        Device::MSPM0G1106 => {
            reveal_strlit("DeviceFamily_MSPM0G110X");
            reveal_strlit("mspm0g110x");
        },
        Device::MSPM0G1107 => {
            reveal_strlit("DeviceFamily_MSPM0G110X");
            reveal_strlit("mspm0g110x");
        },
        Device::MSPM0G1505 => {
            reveal_strlit("DeviceFamily_MSPM0G150X");
            reveal_strlit("mspm0g150x");
        },
        Device::MSPM0G1506 => {
            reveal_strlit("DeviceFamily_MSPM0G150X");
            reveal_strlit("mspm0g150x");
        },
        Device::MSPM0G1507 => {
            reveal_strlit("DeviceFamily_MSPM0G150X");
            reveal_strlit("mspm0g150x");
        },
        Device::MSPM0G1518 => {
            reveal_strlit("DeviceFamily_MSPM0G151X");
            reveal_strlit("mspm0g151x");
        },
        Device::MSPM0G1519 => {
            reveal_strlit("DeviceFamily_MSPM0G151X");
            reveal_strlit("mspm0g151x");
        },
        Device::MSPM0G3105 => {
            reveal_strlit("DeviceFamily_MSPM0G310X");
            reveal_strlit("mspm0g310x");
        },
        Device::MSPM0G3106 => {
            reveal_strlit("DeviceFamily_MSPM0G310X");
            reveal_strlit("mspm0g310x");
        },
        Device::MSPM0G3107 => {
            reveal_strlit("DeviceFamily_MSPM0G310X");
            reveal_strlit("mspm0g310x");
        },
        Device::MSPM0G3505 => {
            reveal_strlit("DeviceFamily_MSPM0G350X");
            reveal_strlit("mspm0g350x");
        },
        Device::MSPM0G3506 => {
            reveal_strlit("DeviceFamily_MSPM0G350X");
            reveal_strlit("mspm0g350x");
        },
        Device::MSPM0G3507 => {
            reveal_strlit("DeviceFamily_MSPM0G350X");
            reveal_strlit("mspm0g350x");
        },
        Device::MSPM0G3518 => {
            reveal_strlit("DeviceFamily_MSPM0G351X");
            reveal_strlit("mspm0g351x");
        },
        Device::MSPM0G3519 => {
            reveal_strlit("DeviceFamily_MSPM0G351X");
            reveal_strlit("mspm0g351x");
        },
        Device::MSPM0G3529 => {
            reveal_strlit("DeviceFamily_MSPM0G352X");
            reveal_strlit("mspm0g352x");
        },
        Device::MSPM0G5115 => {
            reveal_strlit("DeviceFamily_MSPM0G511X");
            reveal_strlit("mspm0g511x");
        },
        Device::MSPM0G5116 => {
            reveal_strlit("DeviceFamily_MSPM0G511X");
            reveal_strlit("mspm0g511x");
        },
        Device::MSPM0G5117 => {
            reveal_strlit("DeviceFamily_MSPM0G511X");
            reveal_strlit("mspm0g511x");
        },
        Device::MSPM0G5187 => {
            reveal_strlit("DeviceFamily_MSPM0G518X");
            reveal_strlit("mspm0g518x");
        },
        Device::MSPM0H3215 => {
            reveal_strlit("DeviceFamily_MSPM0H321X");
            reveal_strlit("mspm0h321x");
        },
        Device::MSPM0H3216 => {
            reveal_strlit("DeviceFamily_MSPM0H321X");
            reveal_strlit("mspm0h321x");
        },
        Device::MSPM0L1105 => {
            reveal_strlit("DeviceFamily_MSPM0L110X");
            reveal_strlit("mspm0l110x");
        },
        Device::MSPM0L1106 => {
            reveal_strlit("DeviceFamily_MSPM0L110X");
            reveal_strlit("mspm0l110x");
        },
        Device::MSPM0L1116 => {
            reveal_strlit("DeviceFamily_MSPM0L111X");
            reveal_strlit("mspm0l111x");
        },
        Device::MSPM0L1117 => {
            reveal_strlit("DeviceFamily_MSPM0L111X");
            reveal_strlit("mspm0l111x");
        },
        Device::MSPM0L1126 => {
            reveal_strlit("DeviceFamily_MSPM0L112X");
            reveal_strlit("mspm0l112x");
        },
        Device::MSPM0L1127 => {
            reveal_strlit("DeviceFamily_MSPM0L112X");
            reveal_strlit("mspm0l112x");
        },
        Device::MSPM0L1227 => {
            reveal_strlit("DeviceFamily_MSPM0L122X");
            reveal_strlit("mspm0l122x");
        },
        Device::MSPM0L1228 => {
            reveal_strlit("DeviceFamily_MSPM0L122X");
            reveal_strlit("mspm0l122x");
        },
        Device::MSPM0L1303 => {
            reveal_strlit("DeviceFamily_MSPM0L130X");
            reveal_strlit("mspm0l130x");
        },
        Device::MSPM0L1304 => {
            reveal_strlit("DeviceFamily_MSPM0L130X");
            reveal_strlit("mspm0l130x");
        },
        Device::MSPM0L1305 => {
            reveal_strlit("DeviceFamily_MSPM0L130X");
            reveal_strlit("mspm0l130x");
        },
        Device::MSPM0L1306 => {
            reveal_strlit("DeviceFamily_MSPM0L130X");
            reveal_strlit("mspm0l130x");
        },
        Device::MSPM0L1343 => {
            reveal_strlit("DeviceFamily_MSPM0L134X");
            reveal_strlit("mspm0l134x");
        },
        Device::MSPM0L1344 => {
            reveal_strlit("DeviceFamily_MSPM0L134X");
            reveal_strlit("mspm0l134x");
        },
        Device::MSPM0L1345 => {
            reveal_strlit("DeviceFamily_MSPM0L134X");
            reveal_strlit("mspm0l134x");
        },
        Device::MSPM0L1346 => {
            reveal_strlit("DeviceFamily_MSPM0L134X");
            reveal_strlit("mspm0l134x");
        },
        Device::MSPM0L2116 => {
            reveal_strlit("DeviceFamily_MSPM0L211X");
            reveal_strlit("mspm0l211x");
        },
        Device::MSPM0L2117 => {
            reveal_strlit("DeviceFamily_MSPM0L211X");
            reveal_strlit("mspm0l211x");
        },
        Device::MSPM0L2227 => {
            reveal_strlit("DeviceFamily_MSPM0L222X");
            reveal_strlit("mspm0l222x");
        },
        Device::MSPM0L2228 => {
            reveal_strlit("DeviceFamily_MSPM0L222X");
            reveal_strlit("mspm0l222x");
        },
    }
}

/// Every part's system-control driver is named after a group of families that
/// covers the part.
pub proof fn lemma_sysctl_covers_part(device: Device)
    ensures
        family_covers(sysctl_stem(device), linker_stem(device)),
{
    match device {
        Device::MSPM0C1103 => {
            reveal_strlit("mspm0c110x");
            reveal_strlit("mspm0c1103");
        },
        Device::MSPM0C1104 => {
            reveal_strlit("mspm0c110x");
            reveal_strlit("mspm0c1104");
        },
        Device::MSPM0C1105 => {
            reveal_strlit("mspm0c1105_c1106");
            reveal_strlit("mspm0c1105");
        },
        Device::MSPM0C1106 => {
            reveal_strlit("mspm0c1105_c1106");
            reveal_strlit("mspm0c1106");
        },
        Device::MSPM0G1105 => {
            reveal_strlit("mspm0g1x0x_g3x0x");
            reveal_strlit("mspm0g1105");
        },
        Device::MSPM0G1106 => {
            reveal_strlit("mspm0g1x0x_g3x0x");
            reveal_strlit("mspm0g1106");
        },
        Device::MSPM0G1107 => {
            reveal_strlit("mspm0g1x0x_g3x0x");
            reveal_strlit("mspm0g1107");
        },
        Device::MSPM0G1505 => {
            reveal_strlit("mspm0g1x0x_g3x0x");
            reveal_strlit("mspm0g1505");
        },
        Device::MSPM0G1506 => {
            reveal_strlit("mspm0g1x0x_g3x0x");
            reveal_strlit("mspm0g1506");
        },
        Device::MSPM0G1507 => {
            reveal_strlit("mspm0g1x0x_g3x0x");
            reveal_strlit("mspm0g1507");
        },
        Device::MSPM0G1518 => {
            reveal_strlit("mspm0gx51x");
            reveal_strlit("mspm0g1518");
        },
        Device::MSPM0G1519 => {
            reveal_strlit("mspm0gx51x");
            reveal_strlit("mspm0g1519");
        },
        Device::MSPM0G3105 => {
            reveal_strlit("mspm0g1x0x_g3x0x");
            reveal_strlit("mspm0g3105");
        },
        Device::MSPM0G3106 => {
            reveal_strlit("mspm0g1x0x_g3x0x");
            reveal_strlit("mspm0g3106");
        },
        Device::MSPM0G3107 => {
            reveal_strlit("mspm0g1x0x_g3x0x");
            reveal_strlit("mspm0g3107");
        },
        Device::MSPM0G3505 => {
            reveal_strlit("mspm0g1x0x_g3x0x");
            reveal_strlit("mspm0g3505");
        },
        Device::MSPM0G3506 => {
            reveal_strlit("mspm0g1x0x_g3x0x");
            reveal_strlit("mspm0g3506");
        },
        Device::MSPM0G3507 => {
            reveal_strlit("mspm0g1x0x_g3x0x");
            reveal_strlit("mspm0g3507");
        },
        Device::MSPM0G3518 => {
            reveal_strlit("mspm0gx51x");
            reveal_strlit("mspm0g3518");
        },
        Device::MSPM0G3519 => {
            reveal_strlit("mspm0gx51x");
            reveal_strlit("mspm0g3519");
        },
        Device::MSPM0G3529 => {
            reveal_strlit("mspm0g352x");
            reveal_strlit("mspm0g3529");
        },
        Device::MSPM0G5115 => {
            reveal_strlit("mspm0g511x");
            reveal_strlit("mspm0g5115");
        },
        Device::MSPM0G5116 => {
            reveal_strlit("mspm0g511x");
            reveal_strlit("mspm0g5116");
        },
        Device::MSPM0G5117 => {
            reveal_strlit("mspm0g511x");
            reveal_strlit("mspm0g5117");
        },
        Device::MSPM0G5187 => {
            reveal_strlit("mspm0g518x");
            reveal_strlit("mspm0g5187");
        },
        Device::MSPM0H3215 => {
            reveal_strlit("mspm0h321x");
            reveal_strlit("mspm0h3215");
        },
        Device::MSPM0H3216 => {
            reveal_strlit("mspm0h321x");
            reveal_strlit("mspm0h3216");
        },
        Device::MSPM0L1105 => {
            reveal_strlit("mspm0l11xx_l13xx");
            reveal_strlit("mspm0l1105");
        },
        Device::MSPM0L1106 => {
            reveal_strlit("mspm0l11xx_l13xx");
            reveal_strlit("mspm0l1106");
        },
        Device::MSPM0L1116 => {
            reveal_strlit("mspm0l111x");
            reveal_strlit("mspm0l1116");
        },
        Device::MSPM0L1117 => {
            reveal_strlit("mspm0l111x");
            reveal_strlit("mspm0l1117");
        },
        Device::MSPM0L1126 => {
            reveal_strlit("mspm0l11xx_l13xx");
            reveal_strlit("mspm0l1126");
        },
        Device::MSPM0L1127 => {
            reveal_strlit("mspm0l11xx_l13xx");
            reveal_strlit("mspm0l1127");
        },
        Device::MSPM0L1227 => {
            reveal_strlit("mspm0l122x_l222x");
            reveal_strlit("mspm0l1227");
        },
        Device::MSPM0L1228 => {
            reveal_strlit("mspm0l122x_l222x");
            reveal_strlit("mspm0l1228");
        },
        Device::MSPM0L1303 => {
            reveal_strlit("mspm0l11xx_l13xx");
            reveal_strlit("mspm0l1303");
        },
        Device::MSPM0L1304 => {
            reveal_strlit("mspm0l11xx_l13xx");
            reveal_strlit("mspm0l1304");
        },
        Device::MSPM0L1305 => {
            reveal_strlit("mspm0l11xx_l13xx");
            reveal_strlit("mspm0l1305");
        },
        Device::MSPM0L1306 => {
            reveal_strlit("mspm0l11xx_l13xx");
            reveal_strlit("mspm0l1306");
        },
        Device::MSPM0L1343 => {
            reveal_strlit("mspm0l11xx_l13xx");
            reveal_strlit("mspm0l1343");
        },
        Device::MSPM0L1344 => {
            reveal_strlit("mspm0l11xx_l13xx");
            reveal_strlit("mspm0l1344");
        },
        Device::MSPM0L1345 => {
            reveal_strlit("mspm0l11xx_l13xx");
            reveal_strlit("mspm0l1345");
        },
        Device::MSPM0L1346 => {
            reveal_strlit("mspm0l11xx_l13xx");
            reveal_strlit("mspm0l1346");
        },
        Device::MSPM0L2116 => {
            reveal_strlit("mspm0l211x_l112x");
            reveal_strlit("mspm0l2116");
        },
        Device::MSPM0L2117 => {
            reveal_strlit("mspm0l211x_l112x");
            reveal_strlit("mspm0l2117");
        },
        Device::MSPM0L2227 => {
            reveal_strlit("mspm0l122x_l222x");
            reveal_strlit("mspm0l2227");
        },
        Device::MSPM0L2228 => {
            reveal_strlit("mspm0l122x_l222x");
            reveal_strlit("mspm0l2228");
        },
    }
}

/// What `add` appends for a part, named from the part number alone: the family
/// define, the part's own linker script, and the startup file of the part's family.
pub proof fn lemma_add_follows_part(device: Device)
    ensures
        device_steps(device).len() == 52,
        device_steps(device)[3] == StepView::AddDefine(
            define_prefix() + family_name(part_name(device)),
        ),
        device_steps(device)[4] == StepView::SetLinkerScript(
            source(
                "mspm0"@,
                "ti/devices/msp/m0p/linker_files/gcc/"@ + ascii_lowercase(part_name(device))
                    + ".lds"@,
            ),
        ),
        device_steps(device)[5] == StepView::AddCFile(
            source(
                "mspm0"@,
                "ti/devices/msp/m0p/startup_system_files/gcc/startup_"@ + ascii_lowercase(
                    family_name(part_name(device)),
                ) + "_gcc.c"@,
            ),
        ),
        device_steps(device)[6] matches StepView::AddCFile(p) && p.dir == "mspm0"@
            && p.path == "ti/driverlib/m0p/sysctl/dl_sysctl_"@ + sysctl_stem(device) + ".c"@
            && family_covers(sysctl_stem(device), ascii_lowercase(part_name(device))),
{
    lemma_define_names_family(device);
    lemma_startup_follows_define(device);
    lemma_linker_names_part(device);
    lemma_sysctl_covers_part(device);
    let d = define_name(device);
    assert(d.skip(define_prefix().len() as int) =~= family_name(part_name(device)));
}

} // verus!
