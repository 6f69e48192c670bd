//! Option flags and configuration values that can be passed to the SPMD
//! compiler, located here for convenience and clutter reduction. Each
//! option knows the exact command-line form it takes.

use vstd::prelude::*;

verus! {

/// Different math libraries that ispc can use for computations.
#[derive(Clone, Copy, Debug, PartialEq, Eq, Structural)]
pub enum MathLib {
    /// Use ispc's built-in math functions (the default).
    ISPCDefault,
    /// Use high-performance but lower-accuracy math functions.
    Fast,
    /// Use the Intel(r) SVML math libraries.
    SVML,
    /// Use the system's math library (**may be quite slow**).
    System,
}

impl MathLib {
    /// The command-line flag that selects this math library.
    pub open spec fn flag(self) -> Seq<char> {
        match self {
            MathLib::ISPCDefault => "--math-lib=default"@,
            MathLib::Fast => "--math-lib=fast"@,
            MathLib::SVML => "--math-lib=svml"@,
            MathLib::System => "--math-lib=system"@,
        }
    }

    /// The form of this option as a compiler flag.
    pub fn to_string(&self) -> (r: String)
        ensures
            r@ == self.flag(),
    {
        match *self {
            MathLib::ISPCDefault => "--math-lib=default".to_owned(),
            MathLib::Fast => "--math-lib=fast".to_owned(),
            MathLib::SVML => "--math-lib=svml".to_owned(),
            MathLib::System => "--math-lib=system".to_owned(),
        }
    }
}

/// Select the target CPU architecture.
#[derive(Clone, Copy, Debug, PartialEq, Eq, Structural)]
pub enum Architecture {
    Arm,
    Aarch64,
    X86,
    X64,
    Xe64,
}

impl Architecture {
    /// The command-line flag that selects this architecture.
    pub open spec fn flag(self) -> Seq<char> {
        match self {
            Architecture::Arm => "--arch=arm"@,
            Architecture::Aarch64 => "--arch=aarch64"@,
            Architecture::X86 => "--arch=x86"@,
            Architecture::X64 => "--arch=x86_64"@,
            Architecture::Xe64 => "--arch=xe64"@,
        }
    }

    /// The form of this option as a compiler flag.
    pub fn to_string(&self) -> (r: String)
        ensures
            r@ == self.flag(),
    {
        match *self {
            Architecture::Arm => "--arch=arm".to_owned(),
            Architecture::Aarch64 => "--arch=aarch64".to_owned(),
            Architecture::X86 => "--arch=x86".to_owned(),
            Architecture::X64 => "--arch=x86_64".to_owned(),
            Architecture::Xe64 => "--arch=xe64".to_owned(),
        }
    }
}

/// Select 32 or 64 bit addressing to be used by ispc. Note: 32-bit
/// addressing calculations are done by default, even on 64 bit target
/// architectures.
#[derive(Clone, Copy, Debug, PartialEq, Eq, Structural)]
pub enum Addressing {
    /// Select 32 bit addressing calculations.
    A32,
    /// Select 64 bit addressing calculations.
    A64,
}

impl Addressing {
    /// The command-line flag that selects this addressing width.
    pub open spec fn flag(self) -> Seq<char> {
        match self {
            Addressing::A32 => "--addressing=32"@,
            Addressing::A64 => "--addressing=64"@,
        }
    }

    /// The form of this option as a compiler flag.
    pub fn to_string(&self) -> (r: String)
        ensures
            r@ == self.flag(),
    {
        match *self {
            Addressing::A32 => "--addressing=32".to_owned(),
            Addressing::A64 => "--addressing=64".to_owned(),
        }
    }
}

/// ispc target CPU ISA options. If none is set, ispc will target the
/// machine being compiled on.
#[derive(Clone, Copy, Debug, PartialEq, Eq, Structural)]
pub enum CPU {
    Generic,
    X8664,
    /// Synonym for Atom target
    Bonnell,
    Core2,
    Penryn,
    /// Synonym for corei7 target
    Nehalem,
    /// Synonym for btver2 target
    Ps4,
    /// Synonym for corei7-avx target
    SandyBridge,
    /// Synonym for core-avx-i target
    IvyBridge,
    /// Synonym for core-avx2 target
    Haswell,
    Broadwell,
    Skylake,
    Knl,
    Skx,
    /// icelake-client
    Icl,
    /// Synonym for slm target
    Silvermont,
    /// icelake-server
    Icx,
    /// tigerlake
    Tgl,
    /// alderlake
    Adl,
    /// meteorlake
    Mtl,
    /// sapphirerapids
    Spr,
    /// graniterapids
    Gnr,
    /// arrowlake
    Arl,
    /// lunarlake
    Lnl,
    Znver1,
    /// Synonym: znver2 (also ps5)
    Znver2,
    Znver3,
    CortexA9,
    CortexA15,
    CortexA35,
    CortexA53,
    CortexA57,
    AppleA7,
    AppleA10,
    AppleA11,
    AppleA12,
    AppleA13,
    AppleA14,
}

impl CPU {
    /// The command-line flag that selects this CPU target.
    pub open spec fn flag(self) -> Seq<char> {
        match self {
            CPU::Generic => "--cpu=generic"@,
            CPU::X8664 => "--cpu=x86-64"@,
            CPU::Bonnell => "--cpu=bonnell"@,
            CPU::Core2 => "--cpu=core2"@,
            CPU::Penryn => "--cpu=penryn"@,
            CPU::Nehalem => "--cpu=nehalem"@,
            CPU::Ps4 => "--cpu=ps4"@,
            CPU::SandyBridge => "--cpu=sandybridge"@,
            CPU::IvyBridge => "--cpu=ivybridge"@,
            CPU::Haswell => "--cpu=haswell"@,
            CPU::Broadwell => "--cpu=broadwell"@,
            CPU::Skylake => "--cpu=skylake"@,
            CPU::Knl => "--cpu=knl"@,
            CPU::Skx => "--cpu=skx"@,
            CPU::Icl => "--cpu=icl"@,
            CPU::Silvermont => "--cpu=silvermont"@,
            CPU::Icx => "--cpu=icx"@,
            CPU::Tgl => "--cpu=tgl"@,
            CPU::Adl => "--cpu=adl"@,
            CPU::Mtl => "--cpu=mtl"@,
            CPU::Spr => "--cpu=spr"@,
            CPU::Gnr => "--cpu=gnr"@,
            CPU::Arl => "--cpu=arl"@,
            CPU::Lnl => "--cpu=lnl"@,
            CPU::Znver1 => "--cpu=znver1"@,
            CPU::Znver2 => "--cpu=znver2"@,
            CPU::Znver3 => "--cpu=znver3"@,
            CPU::CortexA9 => "--cpu=cortex-a9"@,
            CPU::CortexA15 => "--cpu=cortex-a15"@,
            CPU::CortexA35 => "--cpu=cortex-a35"@,
            CPU::CortexA53 => "--cpu=cortex-a53"@,
            CPU::CortexA57 => "--cpu=cortex-a57"@,
            CPU::AppleA7 => "--cpu=apple-a7"@,
            CPU::AppleA10 => "--cpu=apple-a10"@,
            CPU::AppleA11 => "--cpu=apple-a11"@,
            CPU::AppleA12 => "--cpu=apple-a12"@,
            CPU::AppleA13 => "--cpu=apple-a13"@,
            CPU::AppleA14 => "--cpu=apple-a14"@,
        }
    }

    /// The form of this option as a compiler flag.
    pub fn to_string(&self) -> (r: String)
        ensures
            r@ == self.flag(),
    {
        match *self {
            CPU::Generic => "--cpu=generic".to_owned(),
            CPU::X8664 => "--cpu=x86-64".to_owned(),
            CPU::Bonnell => "--cpu=bonnell".to_owned(),
            CPU::Core2 => "--cpu=core2".to_owned(),
            CPU::Penryn => "--cpu=penryn".to_owned(),
            CPU::Nehalem => "--cpu=nehalem".to_owned(),
            CPU::Ps4 => "--cpu=ps4".to_owned(),
            CPU::SandyBridge => "--cpu=sandybridge".to_owned(),
            CPU::IvyBridge => "--cpu=ivybridge".to_owned(),
            CPU::Haswell => "--cpu=haswell".to_owned(),
            CPU::Broadwell => "--cpu=broadwell".to_owned(),
            CPU::Skylake => "--cpu=skylake".to_owned(),
            CPU::Knl => "--cpu=knl".to_owned(),
            CPU::Skx => "--cpu=skx".to_owned(),
            CPU::Icl => "--cpu=icl".to_owned(),
            CPU::Silvermont => "--cpu=silvermont".to_owned(),
            CPU::Icx => "--cpu=icx".to_owned(),
            CPU::Tgl => "--cpu=tgl".to_owned(),
            CPU::Adl => "--cpu=adl".to_owned(),
            CPU::Mtl => "--cpu=mtl".to_owned(),
            CPU::Spr => "--cpu=spr".to_owned(),
            CPU::Gnr => "--cpu=gnr".to_owned(),
            CPU::Arl => "--cpu=arl".to_owned(),
            CPU::Lnl => "--cpu=lnl".to_owned(),
            CPU::Znver1 => "--cpu=znver1".to_owned(),
            CPU::Znver2 => "--cpu=znver2".to_owned(),
            CPU::Znver3 => "--cpu=znver3".to_owned(),
            CPU::CortexA9 => "--cpu=cortex-a9".to_owned(),
            CPU::CortexA15 => "--cpu=cortex-a15".to_owned(),
            CPU::CortexA35 => "--cpu=cortex-a35".to_owned(),
            CPU::CortexA53 => "--cpu=cortex-a53".to_owned(),
            CPU::CortexA57 => "--cpu=cortex-a57".to_owned(),
            CPU::AppleA7 => "--cpu=apple-a7".to_owned(),
            CPU::AppleA10 => "--cpu=apple-a10".to_owned(),
            CPU::AppleA11 => "--cpu=apple-a11".to_owned(),
            CPU::AppleA12 => "--cpu=apple-a12".to_owned(),
            CPU::AppleA13 => "--cpu=apple-a13".to_owned(),
            CPU::AppleA14 => "--cpu=apple-a14".to_owned(),
        }
    }
}

/// ispc optimization options.
#[derive(Clone, Copy, Debug, PartialEq, Eq, Structural, PartialOrd, Ord)]
pub enum OptimizationOpt {
    /// Remove assertion statements from final code.
    DisableAssertions,
    /// Disable 'fused multiply-add' instructions (on targets that support them).
    DisableFMA,
    /// Disable generation of gather instructions on targets that support them.
    DisableGathers,
    /// Disable loop unrolling.
    DisableLoopUnroll,
    /// Disable generation of scatter instructions on targets that support them.
    DisableScatters,
    /// Disable using ZMM registers in favor of YMM on AVX512 targets.
    DisableZmm,
    /// Enable faster masked vector loads on SSE (may access beyond array end).
    FastMaskedVload,
    /// Perform non-IEEE-compliant optimizations of numeric expressions.
    FastMath,
    /// Always issue aligned vector load and store instructions.
    ForceAlignedMemory,
    /// Reset FTZ (Flush-to-Zero) and DAZ (Denormals-Are-Zero) flags on ISPC extern function entrance and restore them on return.
    ResetFTZDaz,
}

impl OptimizationOpt {
    /// The command-line flag that enables this optimization option.
    pub open spec fn flag(self) -> Seq<char> {
        match self {
            OptimizationOpt::DisableAssertions => "--opt=disable-assertions"@,
            OptimizationOpt::DisableFMA => "--opt=disable-fma"@,
            OptimizationOpt::DisableGathers => "--opt=disable-gathers"@,
            OptimizationOpt::DisableLoopUnroll => "--opt=disable-loop-unroll"@,
            OptimizationOpt::DisableScatters => "--opt=disable-scatters"@,
            OptimizationOpt::DisableZmm => "--opt=disable-zmm"@,
            OptimizationOpt::FastMaskedVload => "--opt=fast-masked-vload"@,
            OptimizationOpt::FastMath => "--opt=fast-math"@,
            OptimizationOpt::ForceAlignedMemory => "--opt=force-aligned-memory"@,
            OptimizationOpt::ResetFTZDaz => "--opt=reset-ftz-daz"@,
        }
    }

    /// The form of this option as a compiler flag.
    pub fn to_string(&self) -> (r: String)
        ensures
            r@ == self.flag(),
    {
        match *self {
            OptimizationOpt::DisableAssertions => "--opt=disable-assertions".to_owned(),
            OptimizationOpt::DisableFMA => "--opt=disable-fma".to_owned(),
            OptimizationOpt::DisableGathers => "--opt=disable-gathers".to_owned(),
            OptimizationOpt::DisableLoopUnroll => "--opt=disable-loop-unroll".to_owned(),
            OptimizationOpt::DisableScatters => "--opt=disable-scatters".to_owned(),
            OptimizationOpt::DisableZmm => "--opt=disable-zmm".to_owned(),
            OptimizationOpt::FastMaskedVload => "--opt=fast-masked-vload".to_owned(),
            OptimizationOpt::FastMath => "--opt=fast-math".to_owned(),
            OptimizationOpt::ForceAlignedMemory => "--opt=force-aligned-memory".to_owned(),
            OptimizationOpt::ResetFTZDaz => "--opt=reset-ftz-daz".to_owned(),
        }
    }
}

/// Target instruction sets and vector widths available to specialize
/// for. The default if none is set will be the host CPU's ISA and
/// vector width.
#[derive(Clone, Copy, Debug, PartialEq, Eq, Structural)]
pub enum TargetISA {
    /// host
    Host,
    /// sse2
    SSE2i32x4,
    /// sse2
    SSE2i32x8,
    /// sse4.1
    SSE41i8x16,
    /// sse4.1
    SSE41i16x8,
    /// sse4.1
    SSE41i32x4,
    /// sse4.1
    SSE41i32x8,
    /// sse4.2
    SSE42i8x16,
    /// sse4.2
    SSE42i16x8,
    /// sse4.2
    SSE42i32x4,
    /// sse4.2
    SSE42i32x8,
    /// avx1
    AVX1i32x4,
    /// avx1
    AVX1i32x8,
    /// avx1
    AVX1i32x16,
    /// avx1
    AVX1i64x4,
    /// avx2
    AVX2i32x8,
    /// avx2
    AVX2i32x16,
    /// avx2
    AVX2i64x4,
    /// avx2
    AVX2i8x32,
    /// avx2
    AVX2i16x16,
    /// avx2
    AVX2i32x4,
    /// avx2vnni
    AVX2VNNIi32x4,
    /// avx2vnni
    AVX2VNNIi32x8,
    /// avx2vnni
    AVX2VNNIi32x16,
    /// avx512knl
    AVX512KNLx16,
    /// avx512skx
    AVX512SKXx4,
    /// avx512skx
    AVX512SKXx8,
    /// avx512skx
    AVX512SKXx16,
    /// avx512skx
    AVX512SKXx32,
    /// avx512skx
    AVX512SKXx64,
    /// avx512icl
    AVX512ICLx4,
    /// avx512icl
    AVX512ICLx8,
    /// avx512icl
    AVX512ICLx16,
    /// avx512icl
    AVX512ICLx32,
    /// avx512icl
    AVX512ICLx64,
    /// avx512spr
    AVX512SPRx4,
    /// avx512spr
    AVX512SPRx8,
    /// avx512spr
    AVX512SPRx16,
    /// avx512spr
    AVX512SPRx32,
    /// avx512spr
    AVX512SPRx64,
    /// neon
    Neoni8x16,
    /// neon
    Neoni16x8,
    /// neon
    Neoni32x4,
    /// neon
    Neoni32x8,
    /// gen9
    GEN9x8,
    /// gen9
    GEN9x16,
    /// xelp
    XELPx8,
    /// xelp
    XELPx16,
    /// xehpg
    XEHPGx8,
    /// xehpg
    XEHPGx16,
    /// xehpc
    XEHPCx16,
    /// xehpc
    XEHPCx32,
}

impl TargetISA {
    /// The name under which ispc knows this target.
    pub open spec fn target_name(self) -> Seq<char> {
        match self {
            TargetISA::Host => "host"@,
            TargetISA::SSE2i32x4 => "sse2-i32x4"@,
            TargetISA::SSE2i32x8 => "sse2-i32x8"@,
            TargetISA::SSE41i8x16 => "sse4.1-i8x16"@,
            TargetISA::SSE41i16x8 => "sse4.1-i16x8"@,
            TargetISA::SSE41i32x4 => "sse4.1-i32x4"@,
            TargetISA::SSE41i32x8 => "sse4.1-i32x8"@,
            TargetISA::SSE42i8x16 => "sse4.2-i8x16"@,
            TargetISA::SSE42i16x8 => "sse4.2-i16x8"@,
            TargetISA::SSE42i32x4 => "sse4.2-i32x4"@,
            TargetISA::SSE42i32x8 => "sse4.2-i32x8"@,
            TargetISA::AVX1i32x4 => "avx1-i32x4"@,
            TargetISA::AVX1i32x8 => "avx1-i32x8"@,
            TargetISA::AVX1i32x16 => "avx1-i32x16"@,
            TargetISA::AVX1i64x4 => "avx1-i64x4"@,
            TargetISA::AVX2i32x8 => "avx2-i32x8"@,
            TargetISA::AVX2i32x16 => "avx2-i32x16"@,
            TargetISA::AVX2i64x4 => "avx2-i64x4"@,
            TargetISA::AVX2i8x32 => "avx2-i8x32"@,
            TargetISA::AVX2i16x16 => "avx2-i16x16"@,
            TargetISA::AVX2i32x4 => "avx2-i32x4"@,
            TargetISA::AVX2VNNIi32x4 => "avx2vnni-i32x4"@,
            TargetISA::AVX2VNNIi32x8 => "avx2vnni-i32x8"@,
            TargetISA::AVX2VNNIi32x16 => "avx2vnni-i32x16"@,
            TargetISA::AVX512KNLx16 => "avx512knl-x16"@,
            TargetISA::AVX512SKXx4 => "avx512skx-x4"@,
            TargetISA::AVX512SKXx8 => "avx512skx-x8"@,
            TargetISA::AVX512SKXx16 => "avx512skx-x16"@,
            TargetISA::AVX512SKXx32 => "avx512skx-x32"@,
            TargetISA::AVX512SKXx64 => "avx512skx-x64"@,
            TargetISA::AVX512ICLx4 => "avx512icl-x4"@,
            TargetISA::AVX512ICLx8 => "avx512icl-x8"@,
            TargetISA::AVX512ICLx16 => "avx512icl-x16"@,
            TargetISA::AVX512ICLx32 => "avx512icl-x32"@,
            TargetISA::AVX512ICLx64 => "avx512icl-x64"@,
            TargetISA::AVX512SPRx4 => "avx512spr-x4"@,
            TargetISA::AVX512SPRx8 => "avx512spr-x8"@,
            TargetISA::AVX512SPRx16 => "avx512spr-x16"@,
            TargetISA::AVX512SPRx32 => "avx512spr-x32"@,
            TargetISA::AVX512SPRx64 => "avx512spr-x64"@,
            TargetISA::Neoni8x16 => "neon-i8x16"@,
            TargetISA::Neoni16x8 => "neon-i16x8"@,
            TargetISA::Neoni32x4 => "neon-i32x4"@,
            TargetISA::Neoni32x8 => "neon-i32x8"@,
            TargetISA::GEN9x8 => "gen9-x8"@,
            TargetISA::GEN9x16 => "gen9-x16"@,
            TargetISA::XELPx8 => "xelp-x8"@,
            TargetISA::XELPx16 => "xelp-x16"@,
            TargetISA::XEHPGx8 => "xehpg-x8"@,
            TargetISA::XEHPGx16 => "xehpg-x16"@,
            TargetISA::XEHPCx16 => "xehpc-x16"@,
            TargetISA::XEHPCx32 => "xehpc-x32"@,
        }
    }

    /// The suffix of the per-ISA object and library files generated
    /// when compiling for several targets at once.
    pub open spec fn suffix(self) -> Seq<char> {
        match self {
            TargetISA::Host => "host"@,
            TargetISA::SSE2i32x4 => "sse2"@,
            TargetISA::SSE2i32x8 => "sse2"@,
            TargetISA::SSE41i8x16 => "sse4.1"@,
            TargetISA::SSE41i16x8 => "sse4.1"@,
            TargetISA::SSE41i32x4 => "sse4.1"@,
            TargetISA::SSE41i32x8 => "sse4.1"@,
            TargetISA::SSE42i8x16 => "sse4.2"@,
            TargetISA::SSE42i16x8 => "sse4.2"@,
            TargetISA::SSE42i32x4 => "sse4.2"@,
            TargetISA::SSE42i32x8 => "sse4.2"@,
            TargetISA::AVX1i32x4 => "avx1"@,
            TargetISA::AVX1i32x8 => "avx1"@,
            TargetISA::AVX1i32x16 => "avx1"@,
            TargetISA::AVX1i64x4 => "avx1"@,
            TargetISA::AVX2i32x8 => "avx2"@,
            TargetISA::AVX2i32x16 => "avx2"@,
            TargetISA::AVX2i64x4 => "avx2"@,
            TargetISA::AVX2i8x32 => "avx2"@,
            TargetISA::AVX2i16x16 => "avx2"@,
            TargetISA::AVX2i32x4 => "avx2"@,
            TargetISA::AVX2VNNIi32x4 => "avx2vnni"@,
            TargetISA::AVX2VNNIi32x8 => "avx2vnni"@,
            TargetISA::AVX2VNNIi32x16 => "avx2vnni"@,
            TargetISA::AVX512KNLx16 => "avx512knl"@,
            TargetISA::AVX512SKXx4 => "avx512skx"@,
            TargetISA::AVX512SKXx8 => "avx512skx"@,
            TargetISA::AVX512SKXx16 => "avx512skx"@,
            TargetISA::AVX512SKXx32 => "avx512skx"@,
            TargetISA::AVX512SKXx64 => "avx512skx"@,
            TargetISA::AVX512ICLx4 => "avx512icl"@,
            TargetISA::AVX512ICLx8 => "avx512icl"@,
            TargetISA::AVX512ICLx16 => "avx512icl"@,
            TargetISA::AVX512ICLx32 => "avx512icl"@,
            TargetISA::AVX512ICLx64 => "avx512icl"@,
            TargetISA::AVX512SPRx4 => "avx512spr"@,
            TargetISA::AVX512SPRx8 => "avx512spr"@,
            TargetISA::AVX512SPRx16 => "avx512spr"@,
            TargetISA::AVX512SPRx32 => "avx512spr"@,
            TargetISA::AVX512SPRx64 => "avx512spr"@,
            TargetISA::Neoni8x16 => "neon"@,
            TargetISA::Neoni16x8 => "neon"@,
            TargetISA::Neoni32x4 => "neon"@,
            TargetISA::Neoni32x8 => "neon"@,
            TargetISA::GEN9x8 => "gen9"@,
            TargetISA::GEN9x16 => "gen9"@,
            TargetISA::XELPx8 => "xelp"@,
            TargetISA::XELPx16 => "xelp"@,
            TargetISA::XEHPGx8 => "xehpg"@,
            TargetISA::XEHPGx16 => "xehpg"@,
            TargetISA::XEHPCx16 => "xehpc"@,
            TargetISA::XEHPCx32 => "xehpc"@,
        }
    }

    /// The name under which ispc knows this target.
    pub fn to_string(&self) -> (r: String)
        ensures
            r@ == self.target_name(),
    {
        match *self {
            TargetISA::Host => "host".to_owned(),
            TargetISA::SSE2i32x4 => "sse2-i32x4".to_owned(),
            TargetISA::SSE2i32x8 => "sse2-i32x8".to_owned(),
            TargetISA::SSE41i8x16 => "sse4.1-i8x16".to_owned(),
            TargetISA::SSE41i16x8 => "sse4.1-i16x8".to_owned(),
            TargetISA::SSE41i32x4 => "sse4.1-i32x4".to_owned(),
            TargetISA::SSE41i32x8 => "sse4.1-i32x8".to_owned(),
            TargetISA::SSE42i8x16 => "sse4.2-i8x16".to_owned(),
            TargetISA::SSE42i16x8 => "sse4.2-i16x8".to_owned(),
            TargetISA::SSE42i32x4 => "sse4.2-i32x4".to_owned(),
            TargetISA::SSE42i32x8 => "sse4.2-i32x8".to_owned(),
            TargetISA::AVX1i32x4 => "avx1-i32x4".to_owned(),
            TargetISA::AVX1i32x8 => "avx1-i32x8".to_owned(),
            TargetISA::AVX1i32x16 => "avx1-i32x16".to_owned(),
            TargetISA::AVX1i64x4 => "avx1-i64x4".to_owned(),
            TargetISA::AVX2i32x8 => "avx2-i32x8".to_owned(),
            TargetISA::AVX2i32x16 => "avx2-i32x16".to_owned(),
            TargetISA::AVX2i64x4 => "avx2-i64x4".to_owned(),
            TargetISA::AVX2i8x32 => "avx2-i8x32".to_owned(),
            TargetISA::AVX2i16x16 => "avx2-i16x16".to_owned(),
            TargetISA::AVX2i32x4 => "avx2-i32x4".to_owned(),
            TargetISA::AVX2VNNIi32x4 => "avx2vnni-i32x4".to_owned(),
            TargetISA::AVX2VNNIi32x8 => "avx2vnni-i32x8".to_owned(),
            TargetISA::AVX2VNNIi32x16 => "avx2vnni-i32x16".to_owned(),
            TargetISA::AVX512KNLx16 => "avx512knl-x16".to_owned(),
            TargetISA::AVX512SKXx4 => "avx512skx-x4".to_owned(),
            TargetISA::AVX512SKXx8 => "avx512skx-x8".to_owned(),
            TargetISA::AVX512SKXx16 => "avx512skx-x16".to_owned(),
            TargetISA::AVX512SKXx32 => "avx512skx-x32".to_owned(),
            TargetISA::AVX512SKXx64 => "avx512skx-x64".to_owned(),
            TargetISA::AVX512ICLx4 => "avx512icl-x4".to_owned(),
            TargetISA::AVX512ICLx8 => "avx512icl-x8".to_owned(),
            TargetISA::AVX512ICLx16 => "avx512icl-x16".to_owned(),
            TargetISA::AVX512ICLx32 => "avx512icl-x32".to_owned(),
            TargetISA::AVX512ICLx64 => "avx512icl-x64".to_owned(),
            TargetISA::AVX512SPRx4 => "avx512spr-x4".to_owned(),
            TargetISA::AVX512SPRx8 => "avx512spr-x8".to_owned(),
            TargetISA::AVX512SPRx16 => "avx512spr-x16".to_owned(),
            TargetISA::AVX512SPRx32 => "avx512spr-x32".to_owned(),
            TargetISA::AVX512SPRx64 => "avx512spr-x64".to_owned(),
            TargetISA::Neoni8x16 => "neon-i8x16".to_owned(),
            TargetISA::Neoni16x8 => "neon-i16x8".to_owned(),
            TargetISA::Neoni32x4 => "neon-i32x4".to_owned(),
            TargetISA::Neoni32x8 => "neon-i32x8".to_owned(),
            TargetISA::GEN9x8 => "gen9-x8".to_owned(),
            TargetISA::GEN9x16 => "gen9-x16".to_owned(),
            TargetISA::XELPx8 => "xelp-x8".to_owned(),
            TargetISA::XELPx16 => "xelp-x16".to_owned(),
            TargetISA::XEHPGx8 => "xehpg-x8".to_owned(),
            TargetISA::XEHPGx16 => "xehpg-x16".to_owned(),
            TargetISA::XEHPCx16 => "xehpc-x16".to_owned(),
            TargetISA::XEHPCx32 => "xehpc-x32".to_owned(),
        }
    }

    /// The suffix of the per-ISA object and library files generated
    /// when compiling for several targets at once.
    pub fn lib_suffix(&self) -> (r: String)
        ensures
            r@ == self.suffix(),
    {
        match *self {
            TargetISA::Host => "host".to_owned(),
            TargetISA::SSE2i32x4 => "sse2".to_owned(),
            TargetISA::SSE2i32x8 => "sse2".to_owned(),
            TargetISA::SSE41i8x16 => "sse4.1".to_owned(),
            TargetISA::SSE41i16x8 => "sse4.1".to_owned(),
            TargetISA::SSE41i32x4 => "sse4.1".to_owned(),
            TargetISA::SSE41i32x8 => "sse4.1".to_owned(),
            TargetISA::SSE42i8x16 => "sse4.2".to_owned(),
            TargetISA::SSE42i16x8 => "sse4.2".to_owned(),
            TargetISA::SSE42i32x4 => "sse4.2".to_owned(),
            TargetISA::SSE42i32x8 => "sse4.2".to_owned(),
            TargetISA::AVX1i32x4 => "avx1".to_owned(),
            TargetISA::AVX1i32x8 => "avx1".to_owned(),
            TargetISA::AVX1i32x16 => "avx1".to_owned(),
            TargetISA::AVX1i64x4 => "avx1".to_owned(),
            TargetISA::AVX2i32x8 => "avx2".to_owned(),
            TargetISA::AVX2i32x16 => "avx2".to_owned(),
            TargetISA::AVX2i64x4 => "avx2".to_owned(),
            TargetISA::AVX2i8x32 => "avx2".to_owned(),
            TargetISA::AVX2i16x16 => "avx2".to_owned(),
            TargetISA::AVX2i32x4 => "avx2".to_owned(),
            TargetISA::AVX2VNNIi32x4 => "avx2vnni".to_owned(),
            TargetISA::AVX2VNNIi32x8 => "avx2vnni".to_owned(),
            TargetISA::AVX2VNNIi32x16 => "avx2vnni".to_owned(),
            TargetISA::AVX512KNLx16 => "avx512knl".to_owned(),
            TargetISA::AVX512SKXx4 => "avx512skx".to_owned(),
            TargetISA::AVX512SKXx8 => "avx512skx".to_owned(),
            TargetISA::AVX512SKXx16 => "avx512skx".to_owned(),
            TargetISA::AVX512SKXx32 => "avx512skx".to_owned(),
            TargetISA::AVX512SKXx64 => "avx512skx".to_owned(),
            TargetISA::AVX512ICLx4 => "avx512icl".to_owned(),
            TargetISA::AVX512ICLx8 => "avx512icl".to_owned(),
            TargetISA::AVX512ICLx16 => "avx512icl".to_owned(),
            TargetISA::AVX512ICLx32 => "avx512icl".to_owned(),
            TargetISA::AVX512ICLx64 => "avx512icl".to_owned(),
            TargetISA::AVX512SPRx4 => "avx512spr".to_owned(),
            TargetISA::AVX512SPRx8 => "avx512spr".to_owned(),
            TargetISA::AVX512SPRx16 => "avx512spr".to_owned(),
            TargetISA::AVX512SPRx32 => "avx512spr".to_owned(),
            TargetISA::AVX512SPRx64 => "avx512spr".to_owned(),
            TargetISA::Neoni8x16 => "neon".to_owned(),
            TargetISA::Neoni16x8 => "neon".to_owned(),
            TargetISA::Neoni32x4 => "neon".to_owned(),
            TargetISA::Neoni32x8 => "neon".to_owned(),
            TargetISA::GEN9x8 => "gen9".to_owned(),
            TargetISA::GEN9x16 => "gen9".to_owned(),
            TargetISA::XELPx8 => "xelp".to_owned(),
            TargetISA::XELPx16 => "xelp".to_owned(),
            TargetISA::XEHPGx8 => "xehpg".to_owned(),
            TargetISA::XEHPGx16 => "xehpg".to_owned(),
            TargetISA::XEHPCx16 => "xehpc".to_owned(),
            TargetISA::XEHPCx32 => "xehpc".to_owned(),
        }
    }
}

/// Operating systems that ispc can target. The default if none is set
/// is the host OS.
#[derive(Clone, Copy, Debug, PartialEq, Eq, Structural)]
pub enum TargetOS {
    Windows,
    Ps4,
    Linux,
    Macos,
    Android,
    Ios,
}

impl TargetOS {
    /// The command-line flag that selects this target OS.
    pub open spec fn flag(self) -> Seq<char> {
        match self {
            TargetOS::Windows => "--target-os=windows"@,
            TargetOS::Ps4 => "--target-os=ps4"@,
            TargetOS::Linux => "--target-os=linux"@,
            TargetOS::Macos => "--target-os=macos"@,
            TargetOS::Android => "--target-os=android"@,
            TargetOS::Ios => "--target-os=ios"@,
        }
    }

    /// The suffix of the library files built for this OS.
    pub open spec fn suffix(self) -> Seq<char> {
        match self {
            TargetOS::Windows => "windows"@,
            TargetOS::Ps4 => "ps4"@,
            TargetOS::Linux => "linux"@,
            TargetOS::Macos => "macos"@,
            TargetOS::Android => "android"@,
            TargetOS::Ios => "ios"@,
        }
    }

    /// The form of this option as a compiler flag.
    pub fn to_string(&self) -> (r: String)
        ensures
            r@ == self.flag(),
    {
        match *self {
            TargetOS::Windows => "--target-os=windows".to_owned(),
            TargetOS::Ps4 => "--target-os=ps4".to_owned(),
            TargetOS::Linux => "--target-os=linux".to_owned(),
            TargetOS::Macos => "--target-os=macos".to_owned(),
            TargetOS::Android => "--target-os=android".to_owned(),
            TargetOS::Ios => "--target-os=ios".to_owned(),
        }
    }

    /// The suffix of the library files built for this OS.
    pub fn lib_suffix(&self) -> (r: String)
        ensures
            r@ == self.suffix(),
    {
        match *self {
            TargetOS::Windows => "windows".to_owned(),
            TargetOS::Ps4 => "ps4".to_owned(),
            TargetOS::Linux => "linux".to_owned(),
            TargetOS::Macos => "macos".to_owned(),
            TargetOS::Android => "android".to_owned(),
            TargetOS::Ios => "ios".to_owned(),
        }
    }
}

} // verus!
