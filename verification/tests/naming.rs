//! Option flags, library file names, and the instrumentation mask count.

use ispc::instrument::active_count;
use ispc::opt::{Addressing, Architecture, MathLib, OptimizationOpt, TargetISA, TargetOS, CPU};
use ispc::{get_lib_filename, str_contains, PackagedModule};

#[test]
fn math_lib_flags() {
    assert_eq!(MathLib::ISPCDefault.to_string(), "--math-lib=default");
    assert_eq!(MathLib::Fast.to_string(), "--math-lib=fast");
    assert_eq!(MathLib::SVML.to_string(), "--math-lib=svml");
    assert_eq!(MathLib::System.to_string(), "--math-lib=system");
}

#[test]
fn architecture_and_addressing_flags() {
    assert_eq!(Architecture::Aarch64.to_string(), "--arch=aarch64");
    assert_eq!(Architecture::X64.to_string(), "--arch=x86_64");
    assert_eq!(Addressing::A32.to_string(), "--addressing=32");
    assert_eq!(Addressing::A64.to_string(), "--addressing=64");
}

#[test]
fn cpu_flags() {
    assert_eq!(CPU::Generic.to_string(), "--cpu=generic");
    assert_eq!(CPU::Haswell.to_string(), "--cpu=haswell");
    assert_eq!(CPU::CortexA57.to_string(), "--cpu=cortex-a57");
    assert_eq!(CPU::AppleA14.to_string(), "--cpu=apple-a14");
}

#[test]
fn optimization_flags() {
    assert_eq!(OptimizationOpt::FastMath.to_string(), "--opt=fast-math");
    assert_eq!(
        OptimizationOpt::ForceAlignedMemory.to_string(),
        "--opt=force-aligned-memory"
    );
    assert_eq!(OptimizationOpt::ResetFTZDaz.to_string(), "--opt=reset-ftz-daz");
}

#[test]
fn target_isa_names_and_suffixes() {
    assert_eq!(TargetISA::Host.to_string(), "host");
    assert_eq!(TargetISA::SSE2i32x4.to_string(), "sse2-i32x4");
    assert_eq!(TargetISA::SSE2i32x4.lib_suffix(), "sse2");
    assert_eq!(TargetISA::SSE41i16x8.to_string(), "sse4.1-i16x8");
    assert_eq!(TargetISA::SSE41i16x8.lib_suffix(), "sse4.1");
    assert_eq!(TargetISA::AVX2i32x8.to_string(), "avx2-i32x8");
    assert_eq!(TargetISA::AVX2i32x8.lib_suffix(), "avx2");
    assert_eq!(TargetISA::AVX512SKXx16.to_string(), "avx512skx-x16");
    assert_eq!(TargetISA::AVX512SKXx16.lib_suffix(), "avx512skx");
    assert_eq!(TargetISA::Neoni32x4.lib_suffix(), "neon");
    assert_eq!(TargetISA::XEHPCx32.to_string(), "xehpc-x32");
}

#[test]
fn target_os_names_and_suffixes() {
    assert_eq!(TargetOS::Windows.to_string(), "--target-os=windows");
    assert_eq!(TargetOS::Windows.lib_suffix(), "windows");
    assert_eq!(TargetOS::Macos.lib_suffix(), "macos");
    assert_eq!(TargetOS::Linux.to_string(), "--target-os=linux");
}

#[test]
fn lib_filenames_follow_the_target() {
    assert_eq!(
        get_lib_filename("examplex86_64-pc-windows-msvc"),
        "examplex86_64-pc-windows-msvc.lib"
    );
    assert_eq!(
        get_lib_filename("examplex86_64-unknown-linux-gnu"),
        "libexamplex86_64-unknown-linux-gnu.a"
    );
}

#[test]
fn substring_search() {
    assert!(str_contains("hello world", "lo w"));
    assert!(str_contains("hello", "hello"));
    assert!(str_contains("hello", ""));
    assert!(!str_contains("hello", "world"));
    assert!(!str_contains("abc", "abcd"));
}

#[test]
fn packaged_module_records_name_and_path() {
    let mut m = PackagedModule::new("example");
    assert_eq!(m.lib().as_str(), "example");
    assert!(m.search_path().is_none());
    m.lib_path("target/packaged");
    assert_eq!(m.search_path().as_deref(), Some("target/packaged"));
}

#[test]
fn active_count_counts_mask_bits() {
    assert_eq!(active_count(0), 0);
    assert_eq!(active_count(1), 1);
    assert_eq!(active_count(0b1011), 3);
    assert_eq!(active_count(u64::MAX), 64);
    assert_eq!(active_count(1u64 << 63), 1);
}
