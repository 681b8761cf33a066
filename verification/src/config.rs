//! Compiler configuration: the Wasm proposal flags and target state every
//! backend adapter exposes, and the Cranelift- and LLVM-style configurations
//! that derive codegen settings from them.

use vstd::prelude::*;
use vstd::string::StringExecFns;

verus! {

/// An x86 CPU feature a backend may rely on.
#[derive(Copy, Clone, Debug, PartialEq, Eq, Hash, Structural)]
pub enum CpuFeature {
    /// SSE2, the baseline for x86 code generation.
    SSE2,
    /// SSE3.
    SSE3,
    /// Supplemental SSE3.
    SSSE3,
    /// SSE4.1.
    SSE41,
    /// SSE4.2.
    SSE42,
    /// The population-count instruction.
    POPCNT,
    /// AVX.
    AVX,
    /// Bit-manipulation instructions, first set.
    BMI1,
    /// Bit-manipulation instructions, second set.
    BMI2,
    /// AVX2.
    AVX2,
    /// AVX-512 doubleword and quadword instructions.
    AVX512DQ,
    /// AVX-512 vector-length extensions.
    AVX512VL,
    /// The leading-zero-count instruction.
    LZCNT,
}

/// A set of CPU features, one flag per feature.
#[derive(Copy, Clone, Debug, PartialEq, Eq, Structural)]
pub struct CpuFeatureSet {
    /// SSE2 is available.
    pub sse2: bool,
    /// SSE3 is available.
    pub sse3: bool,
    /// SSSE3 is available.
    pub ssse3: bool,
    /// SSE4.1 is available.
    pub sse41: bool,
    /// SSE4.2 is available.
    pub sse42: bool,
    /// POPCNT is available.
    pub popcnt: bool,
    /// AVX is available.
    pub avx: bool,
    /// BMI1 is available.
    pub bmi1: bool,
    /// BMI2 is available.
    pub bmi2: bool,
    /// AVX2 is available.
    pub avx2: bool,
    /// AVX-512 DQ is available.
    pub avx512dq: bool,
    /// AVX-512 VL is available.
    pub avx512vl: bool,
    /// LZCNT is available.
    pub lzcnt: bool,
}

impl CpuFeatureSet {
    /// Whether the set holds the given feature.
    pub open spec fn spec_contains(self, f: CpuFeature) -> bool {
        match f {
            CpuFeature::SSE2 => self.sse2,
            CpuFeature::SSE3 => self.sse3,
            CpuFeature::SSSE3 => self.ssse3,
            CpuFeature::SSE41 => self.sse41,
            CpuFeature::SSE42 => self.sse42,
            CpuFeature::POPCNT => self.popcnt,
            CpuFeature::AVX => self.avx,
            CpuFeature::BMI1 => self.bmi1,
            CpuFeature::BMI2 => self.bmi2,
            CpuFeature::AVX2 => self.avx2,
            CpuFeature::AVX512DQ => self.avx512dq,
            CpuFeature::AVX512VL => self.avx512vl,
            CpuFeature::LZCNT => self.lzcnt,
        }
    }

    /// The empty feature set.
    pub fn none() -> (r: Self)
        ensures
            forall|f: CpuFeature| !r.spec_contains(f),
    {
        CpuFeatureSet {
            sse2: false,
            sse3: false,
            ssse3: false,
            sse41: false,
            sse42: false,
            popcnt: false,
            avx: false,
            bmi1: false,
            bmi2: false,
            avx2: false,
            avx512dq: false,
            avx512vl: false,
            lzcnt: false,
        }
    }

    /// Whether the set holds the given feature.
    pub fn contains(&self, f: CpuFeature) -> (r: bool)
        ensures
            r == self.spec_contains(f),
    {
        match f {
            CpuFeature::SSE2 => self.sse2,
            CpuFeature::SSE3 => self.sse3,
            CpuFeature::SSSE3 => self.ssse3,
            CpuFeature::SSE41 => self.sse41,
            CpuFeature::SSE42 => self.sse42,
            CpuFeature::POPCNT => self.popcnt,
            CpuFeature::AVX => self.avx,
            CpuFeature::BMI1 => self.bmi1,
            CpuFeature::BMI2 => self.bmi2,
            CpuFeature::AVX2 => self.avx2,
            CpuFeature::AVX512DQ => self.avx512dq,
            CpuFeature::AVX512VL => self.avx512vl,
            CpuFeature::LZCNT => self.lzcnt,
        }
    }

    /// The set with the given feature enabled.
    pub fn with(self, f: CpuFeature) -> (r: Self)
        ensures
            r.spec_contains(f),
            forall|g: CpuFeature| g != f ==> r.spec_contains(g) == self.spec_contains(g),
    {
        let mut r = self;
        match f {
            CpuFeature::SSE2 => {
                r.sse2 = true;
            },
            CpuFeature::SSE3 => {
                r.sse3 = true;
            },
            CpuFeature::SSSE3 => {
                r.ssse3 = true;
            },
            CpuFeature::SSE41 => {
                r.sse41 = true;
            },
            CpuFeature::SSE42 => {
                r.sse42 = true;
            },
            CpuFeature::POPCNT => {
                r.popcnt = true;
            },
            CpuFeature::AVX => {
                r.avx = true;
            },
            CpuFeature::BMI1 => {
                r.bmi1 = true;
            },
            CpuFeature::BMI2 => {
                r.bmi2 = true;
            },
            CpuFeature::AVX2 => {
                r.avx2 = true;
            },
            CpuFeature::AVX512DQ => {
                r.avx512dq = true;
            },
            CpuFeature::AVX512VL => {
                r.avx512vl = true;
            },
            CpuFeature::LZCNT => {
                r.lzcnt = true;
            },
        }
        r
    }
}

/// The WebAssembly proposal flags a compilation honors.
#[derive(Copy, Clone, Debug, PartialEq, Eq, Structural)]
pub struct Features {
    /// The threads proposal.
    pub threads: bool,
    /// The reference-types proposal.
    pub reference_types: bool,
    /// The SIMD proposal.
    pub simd: bool,
    /// The bulk-memory proposal.
    pub bulk_memory: bool,
    /// The multi-value proposal.
    pub multi_value: bool,
}

impl Default for Features {
    /// No proposal is enabled by default.
    fn default() -> (r: Self)
        ensures
            r == (Features {
                threads: false,
                reference_types: false,
                simd: false,
                bulk_memory: false,
                multi_value: false,
            }),
    {
        Features {
            threads: false,
            reference_types: false,
            simd: false,
            bulk_memory: false,
            multi_value: false,
        }
    }
}

/// The compilation target: the triple and the CPU features the emitted code
/// may use.
#[derive(Clone, Debug)]
pub struct Target {
    /// The target triple.
    pub triple: target_lexicon::Triple,
    /// The CPU features the emitted code may rely on.
    pub cpu_features: CpuFeatureSet,
}

impl Target {
    /// A target for the given triple and feature set.
    pub fn new(triple: target_lexicon::Triple, cpu_features: CpuFeatureSet) -> (r: Self)
        ensures
            r.cpu_features == cpu_features,
    {
        Target { triple, cpu_features }
    }
}

impl Default for Target {
    /// The host triple, with no CPU feature assumed; detecting the host's
    /// features is the embedder's business.
    fn default() -> (r: Self)
        ensures
            forall|f: CpuFeature| !r.cpu_features.spec_contains(f),
    {
        Target { triple: crate::tunables::host_triple(), cpu_features: CpuFeatureSet::none() }
    }
}

/// Possible optimization levels for the Cranelift codegen backend.
#[non_exhaustive]
#[derive(Clone, Copy, Debug, PartialEq, Eq, Structural)]
pub enum OptLevel {
    /// No optimizations performed, minimizes compilation time.
    NoOpt,
    /// Generates the fastest possible code, but may take longer.
    Speed,
    /// Like `Speed`, but also performs transformations aimed at reducing
    /// code size.
    SpeedAndSize,
}

#[verifier::external_type_specification]
#[verifier::external_body]
pub struct ExSettingsBuilder(cranelift_codegen::settings::Builder);

#[verifier::external_type_specification]
#[verifier::external_body]
pub struct ExSettingsFlags(cranelift_codegen::settings::Flags);

/// Relies on cranelift_codegen::settings::builder: a fresh settings builder
/// holding the default values of the shared settings.
#[verifier::external_body]
fn settings_builder() -> (r: cranelift_codegen::settings::Builder) {
    cranelift_codegen::settings::builder()
}

/// Relies on cranelift_codegen's settings Builder::set (via Configurable):
/// it records the named setting's value, and errs exactly on an unknown name
/// or a value of the wrong shape. The shared settings carry a boolean
/// `enable_verifier` with the values `true` and `false`, and an `opt_level`
/// enum with the values `none`, `speed` and `speed_and_size`, so writing
/// those always succeeds.
#[verifier::external_body]
fn settings_set(
    builder: &mut cranelift_codegen::settings::Builder,
    name: &str,
    value: &str,
) -> (ok: bool)
    ensures
        name@ == "enable_verifier"@ && (value@ == "true"@ || value@ == "false"@) ==> ok,
        name@ == "opt_level"@ && (value@ == "none"@ || value@ == "speed"@ || value@
            == "speed_and_size"@) ==> ok,
{
    cranelift_codegen::settings::Configurable::set(builder, name, value).is_ok()
}

/// Relies on cranelift_codegen::settings::Flags::new: it freezes the
/// builder's settings into an immutable flags value. It asserts that the
/// builder belongs to the shared settings group; every builder in this crate
/// comes from `settings_builder`, which builds exactly that group, so the
/// assertion cannot fire here.
#[verifier::external_body]
fn settings_flags(builder: cranelift_codegen::settings::Builder) -> (r:
    cranelift_codegen::settings::Flags) {
    cranelift_codegen::settings::Flags::new(builder)
}

/// Global configuration options used to create a Cranelift-backed engine.
#[derive(Clone, Debug)]
pub struct CraneliftConfig {
    /// Enable NaN canonicalization, useful for running WebAssembly
    /// deterministically across architectures.
    pub enable_nan_canonicalization: bool,
    /// Should the Cranelift verifier, which checks that the generated IR is
    /// valid, be enabled.
    pub enable_verifier: bool,
    /// The optimization level when optimizing the IR.
    pub opt_level: OptLevel,
    /// The Wasm proposal flags honored during translation.
    pub features: Features,
    /// The target compiled for.
    pub target: Target,
}

impl CraneliftConfig {
    /// The configured Wasm proposal flags.
    pub open spec fn spec_features(self) -> Features {
        self.features
    }

    /// The configured target's CPU features.
    pub open spec fn spec_cpu_features(self) -> CpuFeatureSet {
        self.target.cpu_features
    }

    /// Creates a new configuration object with the default settings: no NaN
    /// canonicalization, no verifier, optimizing for speed.
    pub fn new() -> (r: Self)
        ensures
            !r.enable_nan_canonicalization,
            !r.enable_verifier,
            r.opt_level == OptLevel::Speed,
            r.spec_features() == (Features {
                threads: false,
                reference_types: false,
                simd: false,
                bulk_memory: false,
                multi_value: false,
            }),
    {
        CraneliftConfig {
            enable_nan_canonicalization: false,
            enable_verifier: false,
            opt_level: OptLevel::Speed,
            features: Features::default(),
            target: Target::default(),
        }
    }

    /// Gets the WebAssembly features.
    pub fn features(&self) -> (r: &Features)
        ensures
            *r == self.spec_features(),
    {
        &self.features
    }

    /// Replaces the WebAssembly features.
    pub fn set_features(&mut self, features: Features)
        ensures
            final(self).spec_features() == features,
            final(self).enable_nan_canonicalization == old(self).enable_nan_canonicalization,
            final(self).enable_verifier == old(self).enable_verifier,
            final(self).opt_level == old(self).opt_level,
            final(self).spec_cpu_features() == old(self).spec_cpu_features(),
    {
        self.features = features;
    }

    /// Gets the target that will be used for compiling the WebAssembly module.
    pub fn target(&self) -> (r: &Target)
        ensures
            r.cpu_features == self.spec_cpu_features(),
    {
        &self.target
    }

    /// Replaces the target.
    pub fn set_target(&mut self, target: Target)
        ensures
            final(self).spec_cpu_features() == target.cpu_features,
            final(self).spec_features() == old(self).spec_features(),
            final(self).enable_nan_canonicalization == old(self).enable_nan_canonicalization,
            final(self).enable_verifier == old(self).enable_verifier,
            final(self).opt_level == old(self).opt_level,
    {
        self.target = target;
    }

    /// The value the Cranelift `enable_verifier` setting gets: Cranelift
    /// defaults the verifier on, so the configured choice is written out
    /// either way.
    pub open spec fn spec_verifier_setting(self) -> Seq<char> {
        if self.enable_verifier {
            "true"@
        } else {
            "false"@
        }
    }

    /// The value the Cranelift `enable_verifier` setting gets.
    pub fn verifier_setting(&self) -> (r: &'static str)
        ensures
            r@ == self.spec_verifier_setting(),
    {
        if self.enable_verifier {
            "true"
        } else {
            "false"
        }
    }

    /// The value the Cranelift `opt_level` setting gets: no optimization
    /// while the SIMD proposal is on, else the configured level.
    pub open spec fn spec_opt_level_setting(self) -> Seq<char> {
        if self.spec_features().simd {
            "none"@
        } else {
            match self.opt_level {
                OptLevel::NoOpt => "none"@,
                OptLevel::Speed => "speed"@,
                OptLevel::SpeedAndSize => "speed_and_size"@,
            }
        }
    }

    /// The value the Cranelift `opt_level` setting gets.
    pub fn opt_level_setting(&self) -> (r: &'static str)
        ensures
            r@ == self.spec_opt_level_setting(),
    {
        if self.features.simd {
            "none"
        } else {
            match self.opt_level {
                OptLevel::NoOpt => "none",
                OptLevel::Speed => "speed",
                OptLevel::SpeedAndSize => "speed_and_size",
            }
        }
    }

    /// Generates the shared Cranelift flags for this configuration: the
    /// verifier choice is written out either way, and the optimization level
    /// follows `opt_level_setting`. Both settings exist in this backend, so
    /// building the flags cannot fail. Two settings of earlier backend
    /// releases, the division-trap avoidance and the SIMD enable, no longer
    /// exist as shared settings: division traps are precise in this backend,
    /// and SIMD support is chosen by the translation features.
    pub fn flags(&self) -> (r: cranelift_codegen::settings::Flags) {
        let mut builder = settings_builder();
        if !settings_set(&mut builder, "enable_verifier", self.verifier_setting()) {
            unreached::<()>();
        }
        if !settings_set(&mut builder, "opt_level", self.opt_level_setting()) {
            unreached::<()>();
        }
        settings_flags(builder)
    }
}

impl Default for CraneliftConfig {
    /// The default configuration, as `CraneliftConfig::new` builds it.
    fn default() -> (r: Self)
        ensures
            !r.enable_nan_canonicalization,
            !r.enable_verifier,
            r.opt_level == OptLevel::Speed,
    {
        CraneliftConfig::new()
    }
}

/// Possible optimization levels for the LLVM codegen backend.
#[derive(Clone, Copy, Debug, PartialEq, Eq, Structural)]
pub enum LLVMOptLevel {
    /// No optimizations performed.
    NoOpt,
    /// Few optimizations.
    Less,
    /// The backend's standard optimization pipeline.
    Standard,
    /// The most aggressive optimization pipeline.
    Aggressive,
}

/// Global configuration options used to create an LLVM-backed engine. The
/// target-machine object itself is a handle of the backend's own library and
/// is built by the embedder; the decisions that shape it live here.
#[derive(Clone, Debug)]
pub struct LLVMConfig {
    /// Enable NaN canonicalization, useful for running WebAssembly
    /// deterministically across architectures.
    pub enable_nan_canonicalization: bool,
    /// Should the LLVM IR verifier, which checks that the generated IR is
    /// valid, be enabled.
    pub enable_verifier: bool,
    /// The optimization level when optimizing the IR.
    pub opt_level: LLVMOptLevel,
    /// The Wasm proposal flags honored during translation.
    pub features: Features,
    /// The target compiled for.
    pub target: Target,
}

/// The canonical order in which CPU features are written out.
pub open spec fn spec_cpu_feature_order() -> Seq<CpuFeature> {
    seq![
        CpuFeature::SSE2,
        CpuFeature::SSE3,
        CpuFeature::SSSE3,
        CpuFeature::SSE41,
        CpuFeature::SSE42,
        CpuFeature::POPCNT,
        CpuFeature::AVX,
        CpuFeature::BMI1,
        CpuFeature::BMI2,
        CpuFeature::AVX2,
        CpuFeature::AVX512DQ,
        CpuFeature::AVX512VL,
        CpuFeature::LZCNT,
    ]
}

/// The feature at one position of the canonical order.
fn cpu_feature_at(i: usize) -> (r: CpuFeature)
    requires
        i < 13,
    ensures
        r == spec_cpu_feature_order()[i as int],
{
    if i == 0 {
        CpuFeature::SSE2
    } else if i == 1 {
        CpuFeature::SSE3
    } else if i == 2 {
        CpuFeature::SSSE3
    } else if i == 3 {
        CpuFeature::SSE41
    } else if i == 4 {
        CpuFeature::SSE42
    } else if i == 5 {
        CpuFeature::POPCNT
    } else if i == 6 {
        CpuFeature::AVX
    } else if i == 7 {
        CpuFeature::BMI1
    } else if i == 8 {
        CpuFeature::BMI2
    } else if i == 9 {
        CpuFeature::AVX2
    } else if i == 10 {
        CpuFeature::AVX512DQ
    } else if i == 11 {
        CpuFeature::AVX512VL
    } else {
        CpuFeature::LZCNT
    }
}

/// The LLVM attribute that turns a CPU feature on.
pub open spec fn spec_llvm_feature_flag(f: CpuFeature) -> Seq<char> {
    match f {
        CpuFeature::SSE2 => "+sse2"@,
        CpuFeature::SSE3 => "+sse3"@,
        CpuFeature::SSSE3 => "+ssse3"@,
        CpuFeature::SSE41 => "+sse41"@,
        CpuFeature::SSE42 => "+sse42"@,
        CpuFeature::POPCNT => "+popcnt"@,
        CpuFeature::AVX => "+avx"@,
        CpuFeature::BMI1 => "+bmi"@,
        CpuFeature::BMI2 => "+bmi2"@,
        CpuFeature::AVX2 => "+avx2"@,
        CpuFeature::AVX512DQ => "+avx512dq"@,
        CpuFeature::AVX512VL => "+avx512vl"@,
        CpuFeature::LZCNT => "+lzcnt"@,
    }
}

/// The LLVM attribute that turns a CPU feature on.
pub fn llvm_feature_flag(f: CpuFeature) -> (r: &'static str)
    ensures
        r@ == spec_llvm_feature_flag(f),
{
    proof {
        reveal_strlit("+sse2");
        reveal_strlit("+sse3");
        reveal_strlit("+ssse3");
        reveal_strlit("+sse41");
        reveal_strlit("+sse42");
        reveal_strlit("+popcnt");
        reveal_strlit("+avx");
        reveal_strlit("+bmi");
        reveal_strlit("+bmi2");
        reveal_strlit("+avx2");
        reveal_strlit("+avx512dq");
        reveal_strlit("+avx512vl");
        reveal_strlit("+lzcnt");
    }
    match f {
        CpuFeature::SSE2 => "+sse2",
        CpuFeature::SSE3 => "+sse3",
        CpuFeature::SSSE3 => "+ssse3",
        CpuFeature::SSE41 => "+sse41",
        CpuFeature::SSE42 => "+sse42",
        CpuFeature::POPCNT => "+popcnt",
        CpuFeature::AVX => "+avx",
        CpuFeature::BMI1 => "+bmi",
        CpuFeature::BMI2 => "+bmi2",
        CpuFeature::AVX2 => "+avx2",
        CpuFeature::AVX512DQ => "+avx512dq",
        CpuFeature::AVX512VL => "+avx512vl",
        CpuFeature::LZCNT => "+lzcnt",
    }
}

/// No feature's LLVM attribute is the empty string.
proof fn lemma_llvm_flag_nonempty(f: CpuFeature)
    ensures
        spec_llvm_feature_flag(f).len() > 0,
{
    reveal_strlit("+sse2");
    reveal_strlit("+sse3");
    reveal_strlit("+ssse3");
    reveal_strlit("+sse41");
    reveal_strlit("+sse42");
    reveal_strlit("+popcnt");
    reveal_strlit("+avx");
    reveal_strlit("+bmi");
    reveal_strlit("+bmi2");
    reveal_strlit("+avx2");
    reveal_strlit("+avx512dq");
    reveal_strlit("+avx512vl");
    reveal_strlit("+lzcnt");
}

/// The comma-joined LLVM attributes of the features a set holds among the
/// first `k` of the canonical order.
pub open spec fn spec_llvm_feature_string(s: CpuFeatureSet, k: int) -> Seq<char>
    decreases k,
{
    if k <= 0 {
        Seq::empty()
    } else {
        let prev = spec_llvm_feature_string(s, k - 1);
        let f = spec_cpu_feature_order()[k - 1];
        if s.spec_contains(f) {
            if prev.len() == 0 {
                spec_llvm_feature_flag(f)
            } else {
                prev + ","@ + spec_llvm_feature_flag(f)
            }
        } else {
            prev
        }
    }
}

impl LLVMConfig {
    /// Creates a new configuration object with the default settings: NaN
    /// canonicalization on, no verifier, optimizing aggressively.
    pub fn new() -> (r: Self)
        ensures
            r.enable_nan_canonicalization,
            !r.enable_verifier,
            r.opt_level == LLVMOptLevel::Aggressive,
            r.features == (Features {
                threads: false,
                reference_types: false,
                simd: false,
                bulk_memory: false,
                multi_value: false,
            }),
    {
        LLVMConfig {
            enable_nan_canonicalization: true,
            enable_verifier: false,
            opt_level: LLVMOptLevel::Aggressive,
            features: Features::default(),
            target: Target::default(),
        }
    }

    /// The target's CPU features formatted as one LLVM attribute string:
    /// the flag of every feature the target holds, in canonical order,
    /// comma-separated.
    pub fn llvm_feature_string(&self) -> (r: String)
        ensures
            r@ == spec_llvm_feature_string(self.target.cpu_features, 13),
    {
        proof {
            reveal_strlit(",");
        }
        let set = self.target.cpu_features;
        let mut s = String::new();
        let mut first = true;
        let mut k: usize = 0;
        while k < 13
            invariant
                k <= 13,
                set == self.target.cpu_features,
                s@ == spec_llvm_feature_string(set, k as int),
                first <==> s@.len() == 0,
        decreases 13 - k,
        {
            let ghost s_before = s@;
            let f = cpu_feature_at(k);
            if set.contains(f) {
                if !first {
                    s.append(",");
                }
                s.append(llvm_feature_flag(f));
                first = false;
            }
            proof {
                lemma_llvm_flag_nonempty(f);
                if set.spec_contains(f) {
                    if s_before.len() == 0 {
                        assert(s@ =~= spec_llvm_feature_string(set, k + 1));
                    } else {
                        assert(s@ =~= spec_llvm_feature_string(set, k + 1));
                    }
                }
            }
            k = k + 1;
        }
        s
    }
}

impl Default for LLVMConfig {
    /// The default configuration, as `LLVMConfig::new` builds it.
    fn default() -> (r: Self)
        ensures
            r.enable_nan_canonicalization,
            !r.enable_verifier,
            r.opt_level == LLVMOptLevel::Aggressive,
    {
        LLVMConfig::new()
    }
}

/// The Cranelift boolean setting that enables a CPU feature for code
/// generation, or nothing for the SSE2 baseline every supported x86 target
/// must have anyway.
pub open spec fn spec_isa_flag_name(f: CpuFeature) -> Option<Seq<char>> {
    match f {
        CpuFeature::SSE2 => None,
        CpuFeature::SSE3 => Some("has_sse3"@),
        CpuFeature::SSSE3 => Some("has_ssse3"@),
        CpuFeature::SSE41 => Some("has_sse41"@),
        CpuFeature::SSE42 => Some("has_sse42"@),
        CpuFeature::POPCNT => Some("has_popcnt"@),
        CpuFeature::AVX => Some("has_avx"@),
        CpuFeature::BMI1 => Some("has_bmi1"@),
        CpuFeature::BMI2 => Some("has_bmi2"@),
        CpuFeature::AVX2 => Some("has_avx2"@),
        CpuFeature::AVX512DQ => Some("has_avx512dq"@),
        CpuFeature::AVX512VL => Some("has_avx512vl"@),
        CpuFeature::LZCNT => Some("has_lzcnt"@),
    }
}

/// The Cranelift boolean setting that enables a CPU feature.
pub fn isa_flag_name(f: CpuFeature) -> (r: Option<&'static str>)
    ensures
        match r {
            Some(s) => spec_isa_flag_name(f) == Some(s@),
            None => spec_isa_flag_name(f) is None,
        },
{
    match f {
        CpuFeature::SSE2 => None,
        CpuFeature::SSE3 => Some("has_sse3"),
        CpuFeature::SSSE3 => Some("has_ssse3"),
        CpuFeature::SSE41 => Some("has_sse41"),
        CpuFeature::SSE42 => Some("has_sse42"),
        CpuFeature::POPCNT => Some("has_popcnt"),
        CpuFeature::AVX => Some("has_avx"),
        CpuFeature::BMI1 => Some("has_bmi1"),
        CpuFeature::BMI2 => Some("has_bmi2"),
        CpuFeature::AVX2 => Some("has_avx2"),
        CpuFeature::AVX512DQ => Some("has_avx512dq"),
        CpuFeature::AVX512VL => Some("has_avx512vl"),
        CpuFeature::LZCNT => Some("has_lzcnt"),
    }
}

} // verus!
