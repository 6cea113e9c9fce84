//! The snapshot of host load that one frame carries, and the GPU sample that
//! goes into it.

use crate::helpers::{avg_vecu32, lemma_mean_bound, mean_of, nvd_r2u64, padded, pop_4u8, reading};
use crate::report::{convertible, entry_text, is_convertible, read_entry, text_view};
use crate::units::{
    exponent, exponent_of, lemma_percent_of_part, lemma_powers_of_base, lemma_scaled_zero, percent,
    percent_of, scaled, scaled_of, scaled_wide, BASE, MAX_EXPONENT,
};
use vstd::prelude::*;
use vstd::string::{is_ascii_spec_bytes, StringSliceAdditionalSpecFns};

verus! {

/// Marks a usage field that has no reading behind it.
pub const ABSENT: u8 = 255;

/// Bytes in one MiB, the unit in which the GPU tool reports memory.
pub const MIB: u64 = 0x10_0000;

/// One GPU sample as the query tool reports it.
#[derive(Debug, Clone, Copy, PartialEq, Eq)]
pub struct GpuInfo {
    /// Utilisation in percent, as reported.
    pub gpu_usage: u64,
    /// Total frame-buffer memory in MiB.
    pub vram_max: u64,
    /// Frame-buffer memory in use, in MiB.
    pub vram_used: u64,
}

/// The display-ready readings of one sampling cycle.
#[derive(Debug, Clone, Copy, PartialEq, Eq)]
pub struct SystemInfo {
    /// Mean load over all cores, in percent.
    pub cpu_usage: u8,
    /// Total memory in `ram_unit`, times ten.
    pub ram_max: u16,
    /// Memory in use, in percent.
    pub ram_usage: u8,
    /// The unit of `ram_max`, in ASCII, filled up with zero bytes.
    pub ram_unit: [u8; 4],
    /// GPU load in percent, or `ABSENT`.
    pub gpu_usage: u8,
    /// Total GPU memory in `vram_unit`, times ten; 0 without a GPU.
    pub vram_max: u16,
    /// GPU memory in use, in percent, or `ABSENT`.
    pub vram_usage: u8,
    /// The unit of `vram_max`, in ASCII, filled up with zero bytes.
    pub vram_unit: [u8; 4],
}

/// The name of the unit with exponent `exp`; `UB` stands for an exponent that
/// has no unit.
pub open spec fn unit_label(exp: nat) -> Seq<char> {
    if exp == 0 {
        seq!['B']
    } else if exp == 1 {
        seq!['K', 'B']
    } else if exp == 2 {
        seq!['M', 'B']
    } else if exp == 3 {
        seq!['G', 'B']
    } else if exp == 4 {
        seq!['T', 'B']
    } else {
        seq!['U', 'B']
    }
}

/// The unit field for exponent `exp`: the unit's name in ASCII, filled up to
/// four bytes with zero bytes.
pub open spec fn unit_field(exp: nat) -> [u8; 4] {
    if exp == 0 {
        [0x42u8, 0u8, 0u8, 0u8]
    } else if exp == 1 {
        [0x4bu8, 0x42u8, 0u8, 0u8]
    } else if exp == 2 {
        [0x4du8, 0x42u8, 0u8, 0u8]
    } else if exp == 3 {
        [0x47u8, 0x42u8, 0u8, 0u8]
    } else if exp == 4 {
        [0x54u8, 0x42u8, 0u8, 0u8]
    } else {
        [0x55u8, 0x42u8, 0u8, 0u8]
    }
}

/// The bytes of a text of ASCII characters.
pub open spec fn ascii_bytes(text: Seq<char>) -> Seq<u8> {
    Seq::new(text.len(), |i: int| text[i] as u8)
}

/// The unit field is the unit's name, cut or filled up to four bytes.
pub proof fn lemma_unit_field(exp: nat)
    ensures
        unit_field(exp)@ == padded(ascii_bytes(unit_label(exp))),
{
    assert(unit_field(exp)@ =~= padded(ascii_bytes(unit_label(exp))));
}

/// The total memory of a GPU in bytes; 0 where there is no GPU.
pub open spec fn vram_bytes(gpu: Option<GpuInfo>) -> nat {
    match gpu {
        Some(g) => g.vram_max as nat * MIB as nat,
        None => 0,
    }
}

/// The snapshot that a set of raw readings gives: total and used memory in
/// bytes, the load of each core in percent, and the GPU sample if there is one.
///
/// Each total is shown in the unit that its own exponent selects. A usage
/// that was read but does not fit eight bits keeps its low eight bits. Of an
/// empty total, memory or GPU memory, 0 percent is in use.
pub open spec fn snapshot(ram_total: u64, ram_used: u64, cores: Seq<u32>, gpu: Option<GpuInfo>)
    -> SystemInfo {
    let ram_exp = exponent(ram_total as nat, BASE as nat);
    let vram_exp = exponent(vram_bytes(gpu), BASE as nat);
    SystemInfo {
        cpu_usage: (mean_of(cores) % 256) as u8,
        ram_max: scaled(ram_total as nat, ram_exp) as u16,
        ram_usage: percent(ram_used as nat, ram_total as nat) as u8,
        ram_unit: unit_field(ram_exp),
        gpu_usage: match gpu {
            Some(g) => (g.gpu_usage % 256) as u8,
            None => ABSENT,
        },
        vram_max: scaled(vram_bytes(gpu), vram_exp) as u16,
        vram_usage: match gpu {
            Some(g) => percent(g.vram_used as nat, g.vram_max as nat) as u8,
            None => ABSENT,
        },
        vram_unit: unit_field(vram_exp),
    }
}

/// The sample that three entries of a report give, each as it was rendered or
/// absent: the number that each begins with. There is no sample unless all
/// three entries are there and begin with a number.
pub open spec fn sample_of(
    usage: Option<Seq<char>>,
    total: Option<Seq<char>>,
    used: Option<Seq<char>>,
) -> Option<GpuInfo> {
    match (usage, total, used) {
        (Some(a), Some(b), Some(c)) => match (reading(a), reading(b), reading(c)) {
            (Some(gpu_usage), Some(vram_max), Some(vram_used)) => Some(
                GpuInfo { gpu_usage, vram_max, vram_used },
            ),
            _ => None,
        },
        _ => None,
    }
}

/// One entry of the first GPU's section of a report.
pub open spec fn gpu_entry(report: Seq<char>, section: Seq<char>, field: Seq<char>) -> Option<
    Seq<char>,
> {
    entry_text(report, "nvidia_smi_log"@, "gpu"@, section, field)
}

/// The sample that a report of the query tool gives: utilisation from
/// `utilization.gpu_util`, memory from `fb_memory_usage.total` and
/// `fb_memory_usage.used`. A report that cannot be converted gives none.
pub open spec fn gpu_sample(report: Seq<char>) -> Option<GpuInfo> {
    if convertible(report) {
        sample_of(
            gpu_entry(report, "utilization"@, "gpu_util"@),
            gpu_entry(report, "fb_memory_usage"@, "total"@),
            gpu_entry(report, "fb_memory_usage"@, "used"@),
        )
    } else {
        None
    }
}

/// The sample behind a report that may be missing.
pub open spec fn reported_sample(gpu_report: Option<&str>) -> Option<GpuInfo> {
    match gpu_report {
        Some(report) => gpu_sample(report@),
        None => None,
    }
}

impl GpuInfo {
    /// Reads a sample out of three entries of a report, each as it was
    /// rendered, or absent.
    pub fn from_entries(
        usage: Option<String>,
        total: Option<String>,
        used: Option<String>,
    ) -> (sample: Option<GpuInfo>)
        ensures
            sample == sample_of(text_view(usage), text_view(total), text_view(used)),
    {
        match (usage, total, used) {
            (Some(a), Some(b), Some(c)) => match (nvd_r2u64(a), nvd_r2u64(b), nvd_r2u64(c)) {
                (Some(gpu_usage), Some(vram_max), Some(vram_used)) => Some(
                    GpuInfo { gpu_usage, vram_max, vram_used },
                ),
                _ => None,
            },
            _ => None,
        }
    }

    /// Reads the GPU sample out of the query tool's XML report. The report,
    /// a few dozen kilobytes, is converted once for each of the three
    /// entries.
    pub fn get_gpu_info(report: &str) -> (sample: Option<GpuInfo>)
        ensures
            sample == gpu_sample(report@),
    {
        if !is_convertible(report) {
            return None;
        }
        let usage = read_entry(report, "nvidia_smi_log", "gpu", "utilization", "gpu_util");
        let total = read_entry(report, "nvidia_smi_log", "gpu", "fb_memory_usage", "total");
        let used = read_entry(report, "nvidia_smi_log", "gpu", "fb_memory_usage", "used");
        GpuInfo::from_entries(usage, total, used)
    }
}

impl SystemInfo {
    /// The name of the unit with exponent `exp`.
    pub fn get_unit(exp: u32) -> (label: String)
        ensures
            label@ == unit_label(exp as nat),
    {
        proof {
            reveal_strlit("B");
            reveal_strlit("KB");
            reveal_strlit("MB");
            reveal_strlit("GB");
            reveal_strlit("TB");
            reveal_strlit("UB");
        }
        let label: &str = match exp {
            0 => "B",
            1 => "KB",
            2 => "MB",
            3 => "GB",
            4 => "TB",
            _ => "UB",
        };
        assert(label@ =~= unit_label(exp as nat));
        label.to_owned()
    }

    /// The exponent in which `num` is displayed with base `base`.
    pub fn get_exp(num: u64, base: u64) -> (exp: u32)
        ensures
            exp == exponent(num as nat, base as nat),
            exp <= MAX_EXPONENT,
    {
        exponent_of(num as u128, base)
    }

    /// The four bytes of the unit field for exponent `exp`.
    pub fn get_unit_field(exp: u32) -> (field: [u8; 4])
        ensures
            field == unit_field(exp as nat),
    {
        let label: String = Self::get_unit(exp);
        let text: &str = label.as_str();
        proof {
            assert(vstd::utf8::is_ascii_chars(text@));
            is_ascii_spec_bytes(text);
            assert(text.spec_bytes() =~= ascii_bytes(unit_label(exp as nat)));
            lemma_unit_field(exp as nat);
        }
        let field: [u8; 4] = pop_4u8(text.as_bytes());
        assert(field =~= unit_field(exp as nat));
        field
    }

    /// Builds the snapshot of one cycle from raw readings.
    pub fn from_readings(
        ram_total: u64,
        ram_used: u64,
        core_usage: Vec<u32>,
        gpu_info: Option<GpuInfo>,
    ) -> (info: SystemInfo)
        ensures
            info == snapshot(ram_total, ram_used, core_usage@, gpu_info),
            gpu_info is None ==> info.gpu_usage == ABSENT && info.vram_usage == ABSENT
                && info.vram_max == 0 && info.vram_unit == unit_field(0),
    {
        let ghost cores = core_usage@;
        let ram_exp: u32 = Self::get_exp(ram_total, BASE);
        let vram_total: u128 = match &gpu_info {
            Some(gi) => (gi.vram_max as u128) * (MIB as u128),
            None => 0,
        };
        let vram_exp: u32 = exponent_of(vram_total, BASE);
        let mean: u32 = avg_vecu32(core_usage);
        let info = SystemInfo {
            cpu_usage: (mean % 256) as u8,
            ram_max: scaled_of(ram_total, ram_exp),
            ram_usage: percent_of(ram_used, ram_total),
            ram_unit: Self::get_unit_field(ram_exp),
            gpu_usage: match &gpu_info {
                Some(gi) => (gi.gpu_usage % 256) as u8,
                None => ABSENT,
            },
            vram_max: scaled_wide(vram_total, vram_exp),
            vram_usage: match &gpu_info {
                Some(gi) => percent_of(gi.vram_used, gi.vram_max),
                None => ABSENT,
            },
            vram_unit: Self::get_unit_field(vram_exp),
        };
        proof {
            if gpu_info is None {
                lemma_snapshot_without_gpu(ram_total, ram_used, cores);
            }
        }
        info
    }

    /// Builds the snapshot of one cycle from the host's raw readings and the
    /// GPU query tool's report, where the tool gave one.
    pub fn get_system_info(
        ram_total: u64,
        ram_used: u64,
        core_usage: Vec<u32>,
        gpu_report: Option<&str>,
    ) -> (info: SystemInfo)
        ensures
            info == snapshot(ram_total, ram_used, core_usage@, reported_sample(gpu_report)),
            reported_sample(gpu_report) is None ==> info.gpu_usage == ABSENT && info.vram_usage
                == ABSENT && info.vram_max == 0 && info.vram_unit == unit_field(0),
    {
        let gpu_info: Option<GpuInfo> = match gpu_report {
            Some(report) => GpuInfo::get_gpu_info(report),
            None => None,
        };
        Self::from_readings(ram_total, ram_used, core_usage, gpu_info)
    }
}

/// Without a GPU sample both GPU usage fields carry the absence mark, the GPU
/// memory total is 0 and its unit is the plain byte.
pub proof fn lemma_snapshot_without_gpu(ram_total: u64, ram_used: u64, cores: Seq<u32>)
    ensures
        snapshot(ram_total, ram_used, cores, None).gpu_usage == ABSENT,
        snapshot(ram_total, ram_used, cores, None).vram_usage == ABSENT,
        snapshot(ram_total, ram_used, cores, None).vram_max == 0,
        snapshot(ram_total, ram_used, cores, None).vram_unit == unit_field(0),
        unit_field(0)@ == seq![0x42u8, 0u8, 0u8, 0u8],
{
    lemma_powers_of_base();
    assert(exponent(0, BASE as nat) == 0);
    lemma_scaled_zero(0);
    assert(unit_field(0)@ =~= seq![0x42u8, 0u8, 0u8, 0u8]);
}

/// The CPU field is the mean load of the cores, rounded down, wherever that
/// mean fits the field; for loads in percent it is itself at most 100.
pub proof fn lemma_cpu_usage_is_mean(
    ram_total: u64,
    ram_used: u64,
    cores: Seq<u32>,
    gpu: Option<GpuInfo>,
)
    requires
        mean_of(cores) <= u8::MAX,
    ensures
        snapshot(ram_total, ram_used, cores, gpu).cpu_usage == mean_of(cores),
        (forall|i: int| 0 <= i < cores.len() ==> #[trigger] cores[i] <= 100) ==> snapshot(
            ram_total,
            ram_used,
            cores,
            gpu,
        ).cpu_usage <= 100,
{
    if forall|i: int| 0 <= i < cores.len() ==> #[trigger] cores[i] <= 100 {
        lemma_mean_bound(cores, 100);
    }
}

/// Where no more is in use than there is, the usage fields are percentages:
/// at most 100, so that the absence mark cannot be taken for a reading.
pub proof fn lemma_usage_is_percentage(
    ram_total: u64,
    ram_used: u64,
    cores: Seq<u32>,
    gpu: Option<GpuInfo>,
)
    ensures
        ram_used <= ram_total ==> snapshot(ram_total, ram_used, cores, gpu).ram_usage <= 100,
        gpu matches Some(g) && g.vram_used <= g.vram_max ==> snapshot(
            ram_total,
            ram_used,
            cores,
            gpu,
        ).vram_usage <= 100,
{
    if ram_used <= ram_total {
        lemma_percent_of_part(ram_used as nat, ram_total as nat);
    }
    if let Some(g) = gpu {
        if g.vram_used <= g.vram_max {
            lemma_percent_of_part(g.vram_used as nat, g.vram_max as nat);
        }
    }
}

} // verus!
