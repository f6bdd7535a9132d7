use cheetah::{
    base_library_path, find_machine_type, pv_library_path, pv_model_path, Arch, LocatorError,
    Machine, Os,
};

const PI4_CPUINFO: &str = "processor\t: 0\nBogoMIPS\t: 108.00\nCPU implementer\t: 0x41\nCPU part\t: 0xd08\nCPU revision\t: 3\n\nprocessor\t: 1\nCPU part\t: 0xd03\n";

#[test]
fn machine_from_first_cpu_part_line() {
    assert_eq!(find_machine_type(PI4_CPUINFO.as_bytes()), Ok(Machine::CortexA72));
    assert_eq!(find_machine_type(b"CPU part : 0xd03"), Ok(Machine::CortexA53));
    assert_eq!(find_machine_type(b"x\nCPU part\t: 0xd07\n"), Ok(Machine::CortexA57));
    assert_eq!(find_machine_type(b"CPU part\t: 0xd0b"), Ok(Machine::CortexA76));
}

#[test]
fn machine_part_ignores_letter_case() {
    assert_eq!(find_machine_type(b"CPU part\t: 0xD0B\n"), Ok(Machine::CortexA76));
    assert_eq!(find_machine_type(b"CPU part\t: 0XD08\n"), Ok(Machine::CortexA72));
}

#[test]
fn machine_without_cpu_part_is_unsupported_cpu() {
    assert_eq!(find_machine_type(b""), Err(LocatorError::UnsupportedCpu));
    assert_eq!(
        find_machine_type(b"processor\t: 0\ncpu part\t: 0xd03\n"),
        Err(LocatorError::UnsupportedCpu)
    );
}

#[test]
fn machine_with_unknown_part_is_unsupported_device() {
    assert_eq!(find_machine_type(b"CPU part\t: 0xc07\n"), Err(LocatorError::UnsupportedDevice));
    assert_eq!(find_machine_type(b"CPU part\t: 0xd03 \n"), Err(LocatorError::UnsupportedDevice));
    assert_eq!(find_machine_type(b"CPU part\t: 0xd030\n"), Err(LocatorError::UnsupportedDevice));
}

#[test]
fn library_for_desktop_platforms() {
    assert_eq!(base_library_path(Os::Mac, Arch::X86_64, b""), Ok(String::from("mac/x86_64/libpv_cheetah.dylib")));
    assert_eq!(base_library_path(Os::Mac, Arch::Aarch64, b""), Ok(String::from("mac/arm64/libpv_cheetah.dylib")));
    assert_eq!(base_library_path(Os::Windows, Arch::X86_64, b""), Ok(String::from("windows/amd64/libpv_cheetah.dll")));
    assert_eq!(base_library_path(Os::Linux, Arch::X86_64, b""), Ok(String::from("linux/x86_64/libpv_cheetah.so")));
}

#[test]
fn library_for_arm_boards() {
    assert_eq!(
        base_library_path(Os::Linux, Arch::Aarch64, b"CPU part\t: 0xd08\n"),
        Ok(String::from("raspberry-pi/cortex-a72-aarch64/libpv_cheetah.so"))
    );
    assert_eq!(
        base_library_path(Os::Linux, Arch::Arm, b"CPU part\t: 0xd03\n"),
        Ok(String::from("raspberry-pi/cortex-a53/libpv_cheetah.so"))
    );
    assert_eq!(
        base_library_path(Os::Linux, Arch::Arm, b"CPU part\t: 0xd07\n"),
        Ok(String::from("jetson/cortex-a57-aarch64/libpv_cheetah.so"))
    );
    assert_eq!(
        base_library_path(Os::Linux, Arch::Aarch64, b"CPU part\t: 0xd0b\n"),
        Ok(String::from("raspberry-pi/cortex-a76-aarch64/libpv_cheetah.so"))
    );
}

#[test]
fn library_for_unsupported_platforms() {
    assert_eq!(base_library_path(Os::Linux, Arch::Aarch64, b"CPU part\t: 0xfff\n"), Err(LocatorError::UnsupportedDevice));
    assert_eq!(base_library_path(Os::Linux, Arch::Arm, b"no parts here"), Err(LocatorError::UnsupportedCpu));
    assert_eq!(base_library_path(Os::Mac, Arch::Arm, b""), Err(LocatorError::UnsupportedDevice));
    assert_eq!(base_library_path(Os::Other, Arch::X86_64, b""), Err(LocatorError::UnsupportedDevice));
    assert_eq!(base_library_path(Os::Linux, Arch::Other, b""), Err(LocatorError::UnsupportedDevice));
}

#[test]
fn library_path_under_root() {
    assert_eq!(
        pv_library_path("/opt/pv", Os::Linux, Arch::X86_64, b""),
        Ok(String::from("/opt/pv/lib/linux/x86_64/libpv_cheetah.so"))
    );
    assert_eq!(
        pv_library_path("/opt/pv/", Os::Mac, Arch::Aarch64, b""),
        Ok(String::from("/opt/pv/lib/mac/arm64/libpv_cheetah.dylib"))
    );
    assert_eq!(
        pv_library_path("", Os::Windows, Arch::X86_64, b""),
        Ok(String::from("lib/windows/amd64/libpv_cheetah.dll"))
    );
    assert_eq!(pv_library_path("/opt/pv", Os::Other, Arch::Other, b""), Err(LocatorError::UnsupportedDevice));
}

#[test]
fn model_path_under_root() {
    assert_eq!(pv_model_path("/opt/pv"), "/opt/pv/lib/common/cheetah_params.pv");
    assert_eq!(pv_model_path("/opt/pv/"), "/opt/pv/lib/common/cheetah_params.pv");
    assert_eq!(pv_model_path(""), "lib/common/cheetah_params.pv");
}
