//! GPU figures: the choice of the AMD backend and the figures reported for each vendor.
//! The GPU drivers are queried by the caller; what is reported from their answers is here.
use vstd::prelude::*;
use crate::sysfs::{
    gpu_of_entry, is_amd_card, is_first_amd_card, AmdGpuReading, DrmEntry, SysfsAmdGpu,
};
use crate::text::{ascii_lower_seq, chars_of, contains, contains_chars, to_ascii_lower};

verus! {

/// Whether a video controller's name, in ASCII lower case, contains `amd`, `radeon` or
/// `rx `.
pub open spec fn amd_name(name: Seq<char>) -> bool {
    let l = ascii_lower_seq(name);
    contains(l, seq!['a', 'm', 'd']) || contains(l, seq!['r', 'a', 'd', 'e', 'o', 'n']) || contains(
        l,
        seq!['r', 'x', ' '],
    )
}

/// Whether a video controller's name is that of an AMD GPU.
pub fn is_amd_name(name: &str) -> (b: bool)
    ensures
        b == amd_name(name@),
{
    let v = chars_of(name);
    let l = to_ascii_lower(v.as_slice());
    let amd = vec!['a', 'm', 'd'];
    let radeon = vec!['r', 'a', 'd', 'e', 'o', 'n'];
    let rx = vec!['r', 'x', ' '];
    assert(amd@ =~= seq!['a', 'm', 'd']);
    assert(radeon@ =~= seq!['r', 'a', 'd', 'e', 'o', 'n']);
    assert(rx@ =~= seq!['r', 'x', ' ']);
    contains_chars(l.as_slice(), amd.as_slice()) || contains_chars(l.as_slice(), radeon.as_slice())
        || contains_chars(l.as_slice(), rx.as_slice())
}

/// Whether one of the video controllers is an AMD GPU.
pub open spec fn any_amd_controller(names: Seq<String>) -> bool {
    exists|i: int| 0 <= i < names.len() && amd_name(#[trigger] names[i]@)
}

/// One AMD controller anywhere in the list is enough, whatever comes before or after it;
/// and the list names an AMD GPU only if one of its controllers does.
pub proof fn lemma_amd_controller_anywhere(names: Seq<String>, i: int)
    requires
        0 <= i < names.len(),
        amd_name(names[i]@),
    ensures
        any_amd_controller(names),
        forall|more: Seq<String>| any_amd_controller(#[trigger] (names + more)),
        forall|more: Seq<String>| any_amd_controller(#[trigger] (more + names)),
{
    assert forall|more: Seq<String>| any_amd_controller(#[trigger] (names + more)) by {
        assert((names + more)[i] == names[i]);
    }
    assert forall|more: Seq<String>| any_amd_controller(#[trigger] (more + names)) by {
        assert((more + names)[more.len() + i] == names[i]);
    }
}

/// A list without an AMD controller does not name an AMD GPU.
pub proof fn lemma_no_amd_controller(names: Seq<String>)
    requires
        forall|i: int| 0 <= i < names.len() ==> !amd_name(#[trigger] names[i]@),
    ensures
        !any_amd_controller(names),
{
}

/// Whether one of the video controllers that WMI lists is an AMD GPU.
pub fn wmi_has_amd_gpu(controller_names: &[String]) -> (b: bool)
    ensures
        b == any_amd_controller(controller_names@),
        forall|i: int|
            0 <= i < controller_names@.len() && amd_name(#[trigger] controller_names@[i]@) ==> b,
        b ==> exists|i: int|
            0 <= i < controller_names@.len() && amd_name(#[trigger] controller_names@[i]@),
{
    let mut i: usize = 0;
    while i < controller_names.len()
        invariant
            i <= controller_names.len(),
            forall|j: int| 0 <= j < i ==> !amd_name(#[trigger] controller_names@[j]@),
        decreases controller_names.len() - i,
    {
        if is_amd_name(controller_names[i].as_str()) {
            return true;
        }
        i = i + 1;
    }
    false
}

/// Whether no DRM entry is an AMD GPU.
pub open spec fn no_amd_card(entries: Seq<DrmEntry>) -> bool {
    forall|j: int| 0 <= j < entries.len() ==> !is_amd_card(#[trigger] entries[j])
}

/// What the caller found out about AMD GPUs: the entries of `/sys/class/drm` (Linux) and
/// the names of the video controllers that WMI lists (Windows). Where a source does not
/// apply or could not be read, its list is empty.
pub struct AmdProbe {
    pub drm_entries: Vec<DrmEntry>,
    pub video_controllers: Vec<String>,
}

/// How the figures of an AMD GPU are read.
pub enum AmdBackend {
    /// From the files of the GPU's sysfs device directory.
    Sysfs(SysfsAmdGpu),
    /// Through WMI and the Windows performance counters.
    Wmi,
    /// No AMD GPU was found.
    Unavailable,
}

/// Whether `b` is the backend that the probe calls for: the first AMD card of sysfs where
/// there is one, else WMI where it lists an AMD controller, else none.
pub open spec fn backend_for(entries: Seq<DrmEntry>, controllers: Seq<String>, b: AmdBackend) -> bool {
    match b {
        AmdBackend::Sysfs(g) => exists|k: int|
            is_first_amd_card(entries, k) && g@ == gpu_of_entry(#[trigger] entries[k]),
        AmdBackend::Wmi => no_amd_card(entries) && any_amd_controller(controllers),
        AmdBackend::Unavailable => no_amd_card(entries) && !any_amd_controller(controllers),
    }
}

impl AmdBackend {
    /// Picks the backend: sysfs first, then WMI.
    pub fn detect(probe: &AmdProbe) -> (b: AmdBackend)
        ensures
            backend_for(probe.drm_entries@, probe.video_controllers@, b),
    {
        match SysfsAmdGpu::detect(probe.drm_entries.as_slice()) {
            Some(g) => AmdBackend::Sysfs(g),
            None => {
                if wmi_has_amd_gpu(probe.video_controllers.as_slice()) {
                    AmdBackend::Wmi
                } else {
                    AmdBackend::Unavailable
                }
            },
        }
    }
}

/// An AMD GPU and the way its figures are read.
pub struct AmdGpu {
    pub inner: AmdBackend,
}

impl AmdGpu {
    /// The AMD GPU that the probe found, if any.
    pub fn init(probe: &AmdProbe) -> (r: Option<AmdGpu>)
        ensures
            r is None <==> no_amd_card(probe.drm_entries@) && !any_amd_controller(
                probe.video_controllers@,
            ),
            r matches Some(g) ==> backend_for(probe.drm_entries@, probe.video_controllers@, g.inner),
    {
        let inner = AmdBackend::detect(probe);
        match inner {
            AmdBackend::Unavailable => None,
            other => Some(AmdGpu { inner: other }),
        }
    }
}

/// A GPU temperature as the driver reports it.
pub enum Temperature {
    /// In degrees Celsius.
    Celsius(u64),
    /// In thousandths of a degree Celsius.
    MilliCelsius(u64),
}

/// The figures reported for the GPU.
pub struct GpuReading {
    pub vendor: String,
    pub name: String,
    pub temperature: Temperature,
    pub usage_percent: u64,
    pub memory_used_mb: u64,
    pub memory_total_mb: u64,
}

/// The figures reported for the GPU, with the strings by their characters.
pub struct GpuFigures {
    pub vendor: Seq<char>,
    pub name: Seq<char>,
    pub temperature: Temperature,
    pub usage_percent: u64,
    pub memory_used_mb: u64,
    pub memory_total_mb: u64,
}

impl View for GpuReading {
    type V = GpuFigures;

    open spec fn view(&self) -> GpuFigures {
        GpuFigures {
            vendor: self.vendor@,
            name: self.name@,
            temperature: self.temperature,
            usage_percent: self.usage_percent,
            memory_used_mb: self.memory_used_mb,
            memory_total_mb: self.memory_total_mb,
        }
    }
}

/// The figures of no GPU: vendor `none`, name `N/A`, and zeros.
pub open spec fn no_gpu_figures() -> GpuFigures {
    GpuFigures {
        vendor: "none"@,
        name: "N/A"@,
        temperature: Temperature::Celsius(0),
        usage_percent: 0,
        memory_used_mb: 0,
        memory_total_mb: 0,
    }
}

impl GpuReading {
    /// The figures reported where there is no GPU, or it cannot be read: vendor `none`,
    /// name `N/A`, and zeros.
    pub fn none() -> (r: GpuReading)
        ensures
            r@ == no_gpu_figures(),
    {
        GpuReading {
            vendor: "none".to_owned(),
            name: "N/A".to_owned(),
            temperature: Temperature::Celsius(0),
            usage_percent: 0,
            memory_used_mb: 0,
            memory_total_mb: 0,
        }
    }
}

/// The memory figures of an NVIDIA GPU, in bytes.
pub struct NvidiaMemory {
    pub used_bytes: u64,
    pub total_bytes: u64,
}

/// What the NVIDIA driver answered for the first GPU: each figure where its query
/// succeeded.
pub struct NvidiaDevice {
    pub name: Option<String>,
    pub temperature_celsius: Option<u32>,
    pub utilization_percent: Option<u32>,
    pub memory: Option<NvidiaMemory>,
}

/// The name of an NVIDIA GPU: the driver's, or `NVIDIA GPU` where the query failed.
pub open spec fn nvidia_name(name: Option<String>) -> Seq<char> {
    match name {
        Some(n) => n@,
        None => "NVIDIA GPU"@,
    }
}

/// Bytes in whole MiB.
pub open spec fn mib(bytes: u64) -> u64 {
    bytes / 1048576u64
}

/// The figures of an NVIDIA GPU: those of no GPU where the first device could not be
/// opened; otherwise vendor `nvidia`, and each figure the driver gave, or 0 (the name:
/// `NVIDIA GPU`), with memory in whole MiB.
pub open spec fn nvidia_figures(device: Option<NvidiaDevice>) -> GpuFigures {
    match device {
        None => no_gpu_figures(),
        Some(d) => GpuFigures {
            vendor: "nvidia"@,
            name: nvidia_name(d.name),
            temperature: Temperature::Celsius(
                match d.temperature_celsius {
                    Some(t) => t as u64,
                    None => 0,
                },
            ),
            usage_percent: match d.utilization_percent {
                Some(u) => u as u64,
                None => 0,
            },
            memory_used_mb: match d.memory {
                Some(m) => mib(m.used_bytes),
                None => 0,
            },
            memory_total_mb: match d.memory {
                Some(m) => mib(m.total_bytes),
                None => 0,
            },
        },
    }
}

/// The figures of an NVIDIA GPU from what its driver answered.
pub fn nvidia_metrics(device: Option<NvidiaDevice>) -> (r: GpuReading)
    ensures
        r@ == nvidia_figures(device),
{
    match device {
        None => GpuReading::none(),
        Some(d) => {
            let name = match d.name {
                Some(n) => n,
                None => "NVIDIA GPU".to_owned(),
            };
            let temperature = match d.temperature_celsius {
                Some(t) => t as u64,
                None => 0,
            };
            let usage_percent = match d.utilization_percent {
                Some(u) => u as u64,
                None => 0,
            };
            let (memory_used_mb, memory_total_mb) = match d.memory {
                Some(m) => (m.used_bytes / 1048576u64, m.total_bytes / 1048576u64),
                None => (0, 0),
            };
            GpuReading {
                vendor: "nvidia".to_owned(),
                name,
                temperature: Temperature::Celsius(temperature),
                usage_percent,
                memory_used_mb,
                memory_total_mb,
            }
        },
    }
}

/// The figures of an AMD GPU read through sysfs: those of no GPU where they could not be
/// read; otherwise vendor `amd` and the figures read.
pub open spec fn amd_figures(info: Option<AmdGpuReading>) -> GpuFigures {
    match info {
        None => no_gpu_figures(),
        Some(i) => GpuFigures {
            vendor: "amd"@,
            name: i.name@,
            temperature: Temperature::MilliCelsius(i.temperature_millicelsius),
            usage_percent: i.usage_percent,
            memory_used_mb: i.memory_used_mb,
            memory_total_mb: i.memory_total_mb,
        },
    }
}

/// The figures of an AMD GPU from what was read of it.
pub fn amd_metrics(info: Option<AmdGpuReading>) -> (r: GpuReading)
    ensures
        r@ == amd_figures(info),
{
    match info {
        None => GpuReading::none(),
        Some(i) => GpuReading {
            vendor: "amd".to_owned(),
            name: i.name,
            temperature: Temperature::MilliCelsius(i.temperature_millicelsius),
            usage_percent: i.usage_percent,
            memory_used_mb: i.memory_used_mb,
            memory_total_mb: i.memory_total_mb,
        },
    }
}

/// The name and the memory in MiB of an AMD GPU.
pub struct AmdSummary {
    pub name: String,
    pub memory_total_mb: u64,
}

/// What is known of the GPU when the agent introduces itself.
pub enum GpuIdentity {
    /// An NVIDIA GPU, with what its driver answered where the first device could be opened.
    Nvidia(Option<NvidiaDevice>),
    /// An AMD GPU, with its name and memory where they could be read.
    Amd(Option<AmdSummary>),
    /// No GPU.
    NoGpu,
}

/// The vendor, name and memory (in MiB) of the GPU that the handshake reports.
pub open spec fn handshake_figures(gpu: GpuIdentity) -> (Seq<char>, Seq<char>, u64) {
    match gpu {
        GpuIdentity::Nvidia(None) => ("nvidia"@, "NVIDIA GPU"@, 0u64),
        GpuIdentity::Nvidia(Some(d)) => (
            "nvidia"@,
            nvidia_name(d.name),
            match d.memory {
                Some(m) => mib(m.total_bytes),
                None => 0u64,
            },
        ),
        GpuIdentity::Amd(None) => ("amd"@, "AMD GPU"@, 0u64),
        GpuIdentity::Amd(Some(a)) => ("amd"@, a.name@, a.memory_total_mb),
        GpuIdentity::NoGpu => ("none"@, "N/A"@, 0u64),
    }
}

/// The vendor, name and memory (in MiB) of the GPU for the handshake; where the driver
/// could not say, the vendor's generic name and 0.
pub fn handshake_info(gpu: GpuIdentity) -> (r: (String, String, u64))
    ensures
        (r.0@, r.1@, r.2) == handshake_figures(gpu),
{
    match gpu {
        GpuIdentity::Nvidia(None) => ("nvidia".to_owned(), "NVIDIA GPU".to_owned(), 0),
        GpuIdentity::Nvidia(Some(d)) => {
            let name = match d.name {
                Some(n) => n,
                None => "NVIDIA GPU".to_owned(),
            };
            let total_mb = match d.memory {
                Some(m) => m.total_bytes / 1048576u64,
                None => 0,
            };
            ("nvidia".to_owned(), name, total_mb)
        },
        GpuIdentity::Amd(None) => ("amd".to_owned(), "AMD GPU".to_owned(), 0),
        GpuIdentity::Amd(Some(a)) => ("amd".to_owned(), a.name, a.memory_total_mb),
        GpuIdentity::NoGpu => ("none".to_owned(), "N/A".to_owned(), 0),
    }
}

/// Recognising an AMD controller ignores ASCII case: a name and its lower-case form are
/// recognised alike.
pub proof fn lemma_amd_name_ignores_case(name: Seq<char>)
    ensures
        amd_name(ascii_lower_seq(name)) == amd_name(name),
{
    crate::text::lemma_ascii_lower_idempotent(name);
}

/// The name and memory of an AMD GPU from what was read of it.
pub open spec fn summary_of(info: AmdGpuReading) -> AmdSummary {
    AmdSummary { name: info.name, memory_total_mb: info.memory_total_mb }
}

/// The name and memory of an AMD GPU, for the handshake, from what was read of it.
pub fn amd_summary(info: &AmdGpuReading) -> (r: AmdSummary)
    ensures
        r.name@ == info.name@,
        r.memory_total_mb == info.memory_total_mb,
{
    AmdSummary { name: info.name.clone(), memory_total_mb: info.memory_total_mb }
}

/// What the drivers answered about the GPU, from which both the metrics and the handshake
/// are made.
pub enum GpuAnswers {
    Nvidia(Option<NvidiaDevice>),
    Amd(Option<AmdGpuReading>),
    NoGpu,
}

/// The metrics figures made from the answers.
pub open spec fn metrics_of(a: GpuAnswers) -> GpuFigures {
    match a {
        GpuAnswers::Nvidia(d) => nvidia_figures(d),
        GpuAnswers::Amd(i) => amd_figures(i),
        GpuAnswers::NoGpu => no_gpu_figures(),
    }
}

/// What the handshake is made from, for the same answers.
pub open spec fn identity_of(a: GpuAnswers) -> GpuIdentity {
    match a {
        GpuAnswers::Nvidia(d) => GpuIdentity::Nvidia(d),
        GpuAnswers::Amd(Some(i)) => GpuIdentity::Amd(Some(summary_of(i))),
        GpuAnswers::Amd(None) => GpuIdentity::Amd(None),
        GpuAnswers::NoGpu => GpuIdentity::NoGpu,
    }
}

/// The handshake reports the GPU as the metrics do: given the same answers of the
/// drivers, where there is no GPU or the metrics name a vendor, the handshake's vendor,
/// name and memory are those of the metrics.
pub proof fn lemma_handshake_matches_metrics(a: GpuAnswers)
    requires
        a is NoGpu || metrics_of(a).vendor != "none"@,
    ensures
        handshake_figures(identity_of(a)) == (
            metrics_of(a).vendor,
            metrics_of(a).name,
            metrics_of(a).memory_total_mb,
        ),
{
}

/// Whether the first device of the NVIDIA driver is usable: the driver counts at least
/// one device (a failed count counts as none), and the first one could be opened and named.
pub fn nvidia_ready(device_count: Option<u32>, first_device_named: bool) -> (b: bool)
    ensures
        b == (first_device_named && match device_count {
            Some(n) => n > 0,
            None => false,
        }),
{
    let count = match device_count {
        Some(n) => n,
        None => 0,
    };
    count > 0 && first_device_named
}

/// The GPU whose figures the agent reports.
pub enum GpuChoice {
    Nvidia,
    Amd(AmdGpu),
    NoGpu,
}

/// Prefers a usable NVIDIA GPU, then an AMD GPU, then none.
pub fn choose_gpu(nvidia_is_ready: bool, amd: Option<AmdGpu>) -> (c: GpuChoice)
    ensures
        nvidia_is_ready ==> c is Nvidia,
        !nvidia_is_ready ==> match amd {
            Some(g) => c == GpuChoice::Amd(g),
            None => c is NoGpu,
        },
{
    if nvidia_is_ready {
        GpuChoice::Nvidia
    } else {
        match amd {
            Some(g) => GpuChoice::Amd(g),
            None => GpuChoice::NoGpu,
        }
    }
}

/// Whether `i` is the first of the WMI video controllers whose name is an AMD GPU's.
pub open spec fn is_first_amd_controller(controllers: Seq<(String, Option<u64>)>, i: int) -> bool {
    &&& 0 <= i < controllers.len()
    &&& amd_name(controllers[i].0@)
    &&& forall|j: int| 0 <= j < i ==> !amd_name(#[trigger] controllers[j].0@)
}

/// The name and memory (`AdapterRAM`, in whole MiB, 0 where WMI gives none) of the first
/// WMI video controller whose name is an AMD GPU's; `None` where there is no such
/// controller.
pub fn wmi_amd_summary(controllers: &[(String, Option<u64>)]) -> (r: Option<AmdSummary>)
    ensures
        r is None <==> forall|j: int| 0 <= j < controllers@.len() ==> !amd_name(#[trigger] controllers@[j].0@),
        r matches Some(s) ==> exists|i: int|
            #[trigger] is_first_amd_controller(controllers@, i) && s.name@ == controllers@[i].0@
                && s.memory_total_mb == mib(
                match controllers@[i].1 {
                    Some(ram) => ram,
                    None => 0,
                },
            ),
{
    let mut i: usize = 0;
    while i < controllers.len()
        invariant
            i <= controllers.len(),
            forall|j: int| 0 <= j < i ==> !amd_name(#[trigger] controllers@[j].0@),
        decreases controllers.len() - i,
    {
        let (name, ram) = &controllers[i];
        if is_amd_name(name.as_str()) {
            let ram_bytes: u64 = match ram {
                Some(r) => *r,
                None => 0,
            };
            let s = AmdSummary { name: name.clone(), memory_total_mb: ram_bytes / 1048576u64 };
            assert(is_first_amd_controller(controllers@, i as int));
            return Some(s);
        }
        i = i + 1;
    }
    None
}

/// A temperature query to AMD's ADL library, for the adapter with this index: the
/// OverdriveN query or the Overdrive5 one.
#[derive(Clone, Copy)]
pub enum AdlQuery {
    OverdriveN(i32),
    Overdrive5(i32),
}

/// What to do after a query: ask the next one, or stop with the temperature found (in
/// thousandths of a degree Celsius), if any.
pub enum AdlStep {
    Query(AdlQuery),
    Done(Option<i32>),
}

/// How many adapters are asked: the count that ADL gives, but at least one.
pub open spec fn adl_adapters(adapter_count: i32) -> int {
    if adapter_count < 1 {
        1
    } else {
        adapter_count as int
    }
}

/// The first query for adapter `i`: OverdriveN where the library offers it, else Overdrive5.
pub open spec fn adl_start(has_odn: bool, i: i32) -> AdlQuery {
    if has_odn {
        AdlQuery::OverdriveN(i)
    } else {
        AdlQuery::Overdrive5(i)
    }
}

/// The query after one that found nothing: Overdrive5 after OverdriveN on the same
/// adapter; after Overdrive5, the first query of the next adapter, or the end with no
/// temperature after the last adapter.
pub open spec fn adl_after(adapter_count: i32, has_odn: bool, q: AdlQuery) -> AdlStep {
    match q {
        AdlQuery::OverdriveN(i) => AdlStep::Query(AdlQuery::Overdrive5(i)),
        AdlQuery::Overdrive5(i) => if i + 1 < adl_adapters(adapter_count) {
            AdlStep::Query(adl_start(has_odn, (i + 1) as i32))
        } else {
            AdlStep::Done(None)
        },
    }
}

/// The first ADL query: OverdriveN of adapter 0 where the library offers it, else
/// Overdrive5 of adapter 0.
pub fn adl_first_query(has_odn: bool) -> (q: AdlQuery)
    ensures
        q == adl_start(has_odn, 0),
{
    if has_odn {
        AdlQuery::OverdriveN(0)
    } else {
        AdlQuery::Overdrive5(0)
    }
}

/// The step after query `q` answered with `status` and temperature `t`: a success (status 0)
/// with a temperature other than 0 ends the search with it; otherwise the next query.
pub fn adl_next(adapter_count: i32, has_odn: bool, q: AdlQuery, status: i32, t: i32) -> (s: AdlStep)
    ensures
        (status == 0 && t != 0) ==> s == AdlStep::Done(Some(t)),
        !(status == 0 && t != 0) ==> s == adl_after(adapter_count, has_odn, q),
{
    if status == 0 && t != 0 {
        return AdlStep::Done(Some(t));
    }
    match q {
        AdlQuery::OverdriveN(i) => AdlStep::Query(AdlQuery::Overdrive5(i)),
        AdlQuery::Overdrive5(i) => {
            let adapters: i64 = if adapter_count < 1 {
                1
            } else {
                adapter_count as i64
            };
            if (i as i64) + 1 < adapters {
                let next: i32 = i + 1;
                if has_odn {
                    AdlStep::Query(AdlQuery::OverdriveN(next))
                } else {
                    AdlStep::Query(AdlQuery::Overdrive5(next))
                }
            } else {
                AdlStep::Done(None)
            }
        },
    }
}

} // verus!
