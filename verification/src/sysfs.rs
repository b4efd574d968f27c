//! Finding an AMD GPU among the DRM cards that Linux lists under `/sys/class/drm`, and
//! reading its figures from the files of its device directory. The caller reads the
//! directory and the files; everything decided from their contents is here.
use vstd::prelude::*;
use crate::text::{
    ascii_lower_seq, chars_eq, chars_of, extend_chars, occurs_at_exec, parse_u64,
    parse_trimmed_u64, starts_with, string_from_chars, subvec, to_ascii_lower, trim, trim_chars,
};

verus! {

// ---------------------------------------------------------------------------------------
// The order of directory entries: byte-wise, as file names compare.

/// Whether the name `a` comes before `b` byte by byte (a proper prefix comes first).
pub open spec fn bytes_lt(a: Seq<u8>, b: Seq<u8>) -> bool
    decreases a.len(),
{
    if a.len() == 0 {
        b.len() > 0
    } else if b.len() == 0 {
        false
    } else if a[0] != b[0] {
        a[0] < b[0]
    } else {
        bytes_lt(a.drop_first(), b.drop_first())
    }
}

/// No name comes before itself.
pub proof fn lemma_bytes_lt_irreflexive(a: Seq<u8>)
    ensures
        !bytes_lt(a, a),
    decreases a.len(),
{
    if a.len() > 0 {
        lemma_bytes_lt_irreflexive(a.drop_first());
    }
}

/// The byte order is transitive.
pub proof fn lemma_bytes_lt_transitive(a: Seq<u8>, b: Seq<u8>, c: Seq<u8>)
    requires
        bytes_lt(a, b),
        bytes_lt(b, c),
    ensures
        bytes_lt(a, c),
    decreases a.len(),
{
    if a.len() > 0 && b.len() > 0 && c.len() > 0 && a[0] == b[0] && b[0] == c[0] {
        lemma_bytes_lt_transitive(a.drop_first(), b.drop_first(), c.drop_first());
    }
}

/// Of two different names, one comes before the other.
pub proof fn lemma_bytes_lt_total(a: Seq<u8>, b: Seq<u8>)
    requires
        a != b,
    ensures
        bytes_lt(a, b) || bytes_lt(b, a),
    decreases a.len(),
{
    if a.len() > 0 && b.len() > 0 && a[0] == b[0] {
        if a.drop_first() == b.drop_first() {
            assert(a =~= seq![a[0]] + a.drop_first());
            assert(b =~= seq![b[0]] + b.drop_first());
        }
        lemma_bytes_lt_total(a.drop_first(), b.drop_first());
    } else if a.len() == 0 && b.len() == 0 {
        assert(a =~= b);
    }
}

/// Whether the name `a` comes before `b`.
pub fn bytes_lt_exec(a: &[u8], b: &[u8]) -> (r: bool)
    ensures
        r == bytes_lt(a@, b@),
{
    let mut i: usize = 0;
    assert(a@.skip(0) =~= a@);
    assert(b@.skip(0) =~= b@);
    while i < a.len() && i < b.len() && a[i] == b[i]
        invariant
            i <= a.len(),
            i <= b.len(),
            bytes_lt(a@, b@) == bytes_lt(a@.skip(i as int), b@.skip(i as int)),
        decreases a.len() - i,
    {
        assert(a@.skip(i as int).drop_first() =~= a@.skip(i as int + 1));
        assert(b@.skip(i as int).drop_first() =~= b@.skip(i as int + 1));
        i = i + 1;
    }
    if i == a.len() {
        i < b.len()
    } else if i == b.len() {
        false
    } else {
        a[i] < b[i]
    }
}

// ---------------------------------------------------------------------------------------
// What a DRM entry has to be to count as an AMD GPU.

/// Whether a file name is `card` followed by nothing but ASCII digits (`card0`, `card12`;
/// not `card0-DP-1` nor `renderD128`).
pub open spec fn is_card_name(name: Seq<u8>) -> bool {
    &&& name.len() >= 4
    &&& name[0] == 99u8 && name[1] == 97u8 && name[2] == 114u8 && name[3] == 100u8
    &&& forall|i: int| 4 <= i < name.len() ==> 48u8 <= #[trigger] name[i] <= 57u8
}

/// Whether a file name is `card` followed by ASCII digits.
pub fn is_card_name_exec(name: &[u8]) -> (b: bool)
    ensures
        b == is_card_name(name@),
{
    if name.len() < 4 {
        return false;
    }
    if !(name[0] == 99u8 && name[1] == 97u8 && name[2] == 114u8 && name[3] == 100u8) {
        return false;
    }
    let mut i: usize = 4;
    while i < name.len()
        invariant
            4 <= i <= name.len(),
            forall|j: int| 4 <= j < i ==> 48u8 <= #[trigger] name@[j] <= 57u8,
        decreases name.len() - i,
    {
        if !(48u8 <= name[i] && name[i] <= 57u8) {
            return false;
        }
        i = i + 1;
    }
    true
}

/// The PCI vendor id of AMD as the `vendor` file spells it.
pub open spec fn amd_vendor_id() -> Seq<char> {
    seq!['0', 'x', '1', '0', '0', '2']
}

/// Whether the contents of a `vendor` file, trimmed and in ASCII lower case, are `0x1002`.
pub open spec fn is_amd_vendor(contents: Seq<char>) -> bool {
    ascii_lower_seq(trim(contents)) == amd_vendor_id()
}

/// Whether the contents of a `vendor` file name AMD.
pub fn is_amd_vendor_exec(contents: &str) -> (b: bool)
    ensures
        b == is_amd_vendor(contents@),
{
    let v = chars_of(contents);
    let t = trim_chars(v.as_slice());
    let l = to_ascii_lower(t.as_slice());
    let id = vec!['0', 'x', '1', '0', '0', '2'];
    assert(id@ =~= amd_vendor_id());
    chars_eq(l.as_slice(), id.as_slice())
}

// ---------------------------------------------------------------------------------------
// The product line of a `uevent` file.

/// Where the line that starts at `start` ends: the position of the next `\n`, or the end.
pub open spec fn line_end(s: Seq<char>, start: int) -> int
    decreases s.len() - start,
{
    if start >= s.len() {
        s.len() as int
    } else if s[start] == '\n' {
        start
    } else {
        line_end(s, start + 1)
    }
}

/// A line ends at a newline or at the end, never before it starts.
pub proof fn lemma_line_end_bounds(s: Seq<char>, start: int)
    requires
        0 <= start <= s.len(),
    ensures
        start <= line_end(s, start) <= s.len(),
        line_end(s, start) < s.len() ==> s[line_end(s, start)] == '\n',
    decreases s.len() - start,
{
    if start < s.len() && s[start] != '\n' {
        lemma_line_end_bounds(s, start + 1);
    }
}

/// The key that names the product in a `uevent` file.
pub open spec fn product_key() -> Seq<char> {
    seq!['P', 'R', 'O', 'D', 'U', 'C', 'T', '=']
}

/// What follows `PRODUCT=` on the first line, from the one that starts at `start` on, that
/// begins with it.
pub open spec fn product_from(s: Seq<char>, start: int) -> Option<Seq<char>>
    decreases s.len() - start,
{
    if start < 0 || start > s.len() {
        None
    } else {
        let e = line_end(s, start);
        let line = s.subrange(start, e);
        if starts_with(line, product_key()) {
            Some(line.subrange(product_key().len() as int, line.len() as int))
        } else if e < s.len() {
            proof {
                lemma_line_end_bounds(s, start);
            }
            product_from(s, e + 1)
        } else {
            None
        }
    }
}

/// What follows `PRODUCT=` on the first line of `uevent` that begins with it.
pub open spec fn product_of(uevent: Seq<char>) -> Option<Seq<char>> {
    product_from(uevent, 0)
}

/// What follows `PRODUCT=` on the first line of `uevent` (as `str::lines` splits it) that
/// begins with it.
pub fn product_value(uevent: &[char]) -> (r: Option<Vec<char>>)
    ensures
        match r {
            Some(v) => product_of(uevent@) == Some(v@),
            None => product_of(uevent@) is None,
        },
{
    let n = uevent.len();
    let key = vec!['P', 'R', 'O', 'D', 'U', 'C', 'T', '='];
    assert(key@ =~= product_key());
    let mut start: usize = 0;
    loop
        invariant
            start <= n == uevent@.len(),
            key@ == product_key(),
            product_of(uevent@) == product_from(uevent@, start as int),
        decreases n - start,
    {
        let mut e: usize = start;
        while e < n && uevent[e] != '\n'
            invariant
                start <= e <= n == uevent@.len(),
                line_end(uevent@, start as int) == line_end(uevent@, e as int),
            decreases n - e,
        {
            e = e + 1;
        }
        assert(line_end(uevent@, e as int) == e);
        let ghost line = uevent@.subrange(start as int, e as int);
        let is_product = e - start >= 8 && occurs_at_exec(uevent, key.as_slice(), start);
        assert(is_product == starts_with(line, product_key())) by {
            if e - start >= 8 {
                assert(line.subrange(0, 8) =~= uevent@.subrange(start as int, start + 8));
            }
        }
        if is_product {
            let v = subvec(uevent, start + 8, e);
            assert(v@ =~= line.subrange(8, line.len() as int));
            return Some(v);
        }
        if e == n {
            return None;
        }
        start = e + 1;
    }
}

// ---------------------------------------------------------------------------------------
// The name of the GPU.

/// `AMD GPU`, the name of an AMD GPU whose product is not known.
pub open spec fn plain_amd_name() -> Seq<char> {
    seq!['A', 'M', 'D', ' ', 'G', 'P', 'U']
}

/// `AMD GPU (<detail>)`.
pub open spec fn amd_name_with(detail: Seq<char>) -> Seq<char> {
    plain_amd_name() + seq![' ', '('] + detail + seq![')']
}

/// The name of an AMD GPU: from the `PRODUCT=` line of its `uevent` file where the file
/// has one, else from the `name` file of its hardware monitor where that is not blank,
/// else `AMD GPU`. The product or monitor name is trimmed.
pub open spec fn amd_gpu_name(uevent: Option<Seq<char>>, hwmon_name: Option<Seq<char>>) -> Seq<
    char,
> {
    let product = match uevent {
        Some(u) => product_of(u),
        None => None,
    };
    match product {
        Some(p) => amd_name_with(trim(p)),
        None => match hwmon_name {
            Some(n) => if trim(n).len() > 0 {
                amd_name_with(trim(n))
            } else {
                plain_amd_name()
            },
            None => plain_amd_name(),
        },
    }
}

/// The view of an optional string.
pub open spec fn opt_view(o: Option<String>) -> Option<Seq<char>> {
    match o {
        Some(s) => Some(s@),
        None => None,
    }
}

/// The view of an optional string slice.
pub open spec fn opt_str_view(o: Option<&str>) -> Option<Seq<char>> {
    match o {
        Some(s) => Some(s@),
        None => None,
    }
}

fn amd_name_with_exec(detail: &[char]) -> (v: Vec<char>)
    ensures
        v@ == amd_name_with(detail@),
{
    let mut v = vec!['A', 'M', 'D', ' ', 'G', 'P', 'U', ' ', '('];
    extend_chars(&mut v, detail);
    v.push(')');
    assert(v@ =~= amd_name_with(detail@));
    v
}

// ---------------------------------------------------------------------------------------
// The device directory of a DRM card.

/// The first entry of a device's `hwmon` directory.
pub struct HwmonDir {
    /// Its path, as bytes.
    pub path: Vec<u8>,
    /// The contents of its `name` file, where that could be read.
    pub name: Option<String>,
}

/// What the caller read of one entry of `/sys/class/drm`.
pub struct DrmEntry {
    /// The file name of the entry, as bytes.
    pub file_name: Vec<u8>,
    /// The path of its `device` directory, as bytes.
    pub device_path: Vec<u8>,
    /// Whether the `device` directory exists.
    pub device_exists: bool,
    /// The contents of `device/vendor`, where that could be read.
    pub vendor: Option<String>,
    /// Whether `device/gpu_busy_percent` exists.
    pub busy_percent_exists: bool,
    /// The contents of `device/uevent`, where that could be read.
    pub uevent: Option<String>,
    /// The first entry of `device/hwmon`, where there is one.
    pub hwmon: Option<HwmonDir>,
}

/// The contents of the entry's `vendor` file, empty where it could not be read.
pub open spec fn vendor_text(e: DrmEntry) -> Seq<char> {
    match e.vendor {
        Some(v) => v@,
        None => Seq::empty(),
    }
}

/// Whether a DRM entry is an AMD GPU that reports its load: a card (not a connector),
/// with a device directory, AMD's vendor id and a `gpu_busy_percent` file.
pub open spec fn is_amd_card(e: DrmEntry) -> bool {
    &&& is_card_name(e.file_name@)
    &&& e.device_exists
    &&& is_amd_vendor(vendor_text(e))
    &&& e.busy_percent_exists
}

/// Whether `k` is the first AMD card of `entries` once they are sorted by file name (a
/// stable sort, so of two equal names the earlier entry comes first).
pub open spec fn is_first_amd_card(entries: Seq<DrmEntry>, k: int) -> bool {
    &&& 0 <= k < entries.len()
    &&& is_amd_card(entries[k])
    &&& forall|j: int|
        0 <= j < entries.len() && #[trigger] is_amd_card(entries[j]) ==> (j < k ==> bytes_lt(
            entries[k].file_name@,
            entries[j].file_name@,
        )) && (j > k ==> !bytes_lt(entries[j].file_name@, entries[k].file_name@))
}

/// There is at most one first AMD card.
pub proof fn lemma_first_amd_card_unique(entries: Seq<DrmEntry>, k1: int, k2: int)
    requires
        is_first_amd_card(entries, k1),
        is_first_amd_card(entries, k2),
    ensures
        k1 == k2,
{
    if k1 < k2 {
        assert(is_amd_card(entries[k1]));
        assert(is_amd_card(entries[k2]));
    } else if k2 < k1 {
        assert(is_amd_card(entries[k1]));
        assert(is_amd_card(entries[k2]));
    }
}

/// What a GPU found in the entry `e` looks like.
pub struct SysfsGpuView {
    pub device_path: Seq<u8>,
    pub hwmon_path: Option<Seq<u8>>,
    pub name: Seq<char>,
}

/// The GPU that the entry `e` describes.
pub open spec fn gpu_of_entry(e: DrmEntry) -> SysfsGpuView {
    SysfsGpuView {
        device_path: e.device_path@,
        hwmon_path: match e.hwmon {
            Some(h) => Some(h.path@),
            None => None,
        },
        name: amd_gpu_name(
            opt_view(e.uevent),
            match e.hwmon {
                Some(h) => opt_view(h.name),
                None => None,
            },
        ),
    }
}

/// What is read of one sysfs file that holds a number: the number, where the file could
/// be read and, trimmed, spells a `u64`.
pub open spec fn file_u64(contents: Option<Seq<char>>) -> Option<u64> {
    match contents {
        Some(t) => parse_u64(trim(t)),
        None => None,
    }
}

/// A number read from a file, or 0 where there is none.
pub open spec fn or_zero(o: Option<u64>) -> u64 {
    match o {
        Some(v) => v,
        None => 0,
    }
}

/// An AMD GPU found through sysfs.
pub struct SysfsAmdGpu {
    /// Its `device` directory, as bytes.
    pub device_path: Vec<u8>,
    /// The first entry of its `device/hwmon` directory, as bytes, where there is one.
    pub hwmon_path: Option<Vec<u8>>,
    /// Its name.
    pub name: String,
}

impl View for SysfsAmdGpu {
    type V = SysfsGpuView;

    open spec fn view(&self) -> SysfsGpuView {
        SysfsGpuView {
            device_path: self.device_path@,
            hwmon_path: match self.hwmon_path {
                Some(p) => Some(p@),
                None => None,
            },
            name: self.name@,
        }
    }
}

/// The figures of an AMD GPU: its name, its temperature in thousandths of a degree
/// Celsius, its load in percent, and its video memory in use and in all, in MiB.
pub struct AmdGpuReading {
    pub name: String,
    pub temperature_millicelsius: u64,
    pub usage_percent: u64,
    pub memory_used_mb: u64,
    pub memory_total_mb: u64,
}

/// A copy of the bytes `v`.
fn copy_bytes(v: &[u8]) -> (r: Vec<u8>)
    ensures
        r@ == v@,
{
    let mut r: Vec<u8> = Vec::new();
    let mut i: usize = 0;
    while i < v.len()
        invariant
            i <= v.len(),
            r@ == v@.take(i as int),
        decreases v.len() - i,
    {
        r.push(v[i]);
        assert(v@.take(i as int + 1) =~= v@.take(i as int).push(v@[i as int]));
        i = i + 1;
    }
    assert(v@.take(v.len() as int) =~= v@);
    r
}

impl SysfsAmdGpu {
    /// The name of the GPU from the contents of its `uevent` file and of its hardware
    /// monitor's `name` file, each where it could be read.
    pub fn read_name(uevent: Option<&str>, hwmon_name: Option<&str>) -> (name: String)
        ensures
            name@ == amd_gpu_name(opt_str_view(uevent), opt_str_view(hwmon_name)),
    {
        let product = match uevent {
            Some(u) => {
                let chars = chars_of(u);
                product_value(chars.as_slice())
            },
            None => None,
        };
        match product {
            Some(p) => {
                let t = trim_chars(p.as_slice());
                let v = amd_name_with_exec(t.as_slice());
                string_from_chars(v.as_slice())
            },
            None => {
                let plain = vec!['A', 'M', 'D', ' ', 'G', 'P', 'U'];
                assert(plain@ =~= plain_amd_name());
                match hwmon_name {
                    Some(n) => {
                        let chars = chars_of(n);
                        let t = trim_chars(chars.as_slice());
                        if t.len() > 0 {
                            let v = amd_name_with_exec(t.as_slice());
                            string_from_chars(v.as_slice())
                        } else {
                            string_from_chars(plain.as_slice())
                        }
                    },
                    None => string_from_chars(plain.as_slice()),
                }
            },
        }
    }

    /// The number that a sysfs file holds, from its contents where they could be read:
    /// the contents, trimmed, read as a `u64`.
    pub fn read_u64(contents: Option<&str>) -> (r: Option<u64>)
        ensures
            r == file_u64(opt_str_view(contents)),
    {
        match contents {
            Some(t) => parse_trimmed_u64(t),
            None => None,
        }
    }

    /// Whether the entry is an AMD GPU that reports its load.
    pub fn is_amd_card(e: &DrmEntry) -> (b: bool)
        ensures
            b == is_amd_card(*e),
    {
        if !is_card_name_exec(e.file_name.as_slice()) || !e.device_exists
            || !e.busy_percent_exists {
            return false;
        }
        match &e.vendor {
            Some(v) => is_amd_vendor_exec(v.as_str()),
            None => {
                assert(ascii_lower_seq(trim(Seq::<char>::empty())) =~= Seq::<char>::empty());
                assert(Seq::<char>::empty() != amd_vendor_id()) by {
                    assert(amd_vendor_id().len() == 6);
                }
                false
            },
        }
    }

    /// The position of the first AMD card of `entries` in file-name order.
    pub fn first_amd_card(entries: &[DrmEntry]) -> (r: Option<usize>)
        ensures
            match r {
                Some(k) => is_first_amd_card(entries@, k as int),
                None => forall|j: int| 0 <= j < entries@.len() ==> !is_amd_card(#[trigger] entries@[j]),
            },
    {
        let mut best: Option<usize> = None;
        let mut i: usize = 0;
        while i < entries.len()
            invariant
                i <= entries.len(),
                match best {
                    Some(b) => {
                        &&& b < i
                        &&& is_amd_card(entries@[b as int])
                        &&& forall|j: int|
                            0 <= j < i && #[trigger] is_amd_card(entries@[j]) ==> (j < b ==> bytes_lt(
                                entries@[b as int].file_name@,
                                entries@[j].file_name@,
                            )) && (j > b ==> !bytes_lt(
                                entries@[j].file_name@,
                                entries@[b as int].file_name@,
                            ))
                    },
                    None => forall|j: int| 0 <= j < i ==> !is_amd_card(#[trigger] entries@[j]),
                },
            decreases entries.len() - i,
        {
            if Self::is_amd_card(&entries[i]) {
                match best {
                    None => {
                        best = Some(i);
                    },
                    Some(b) => {
                        if bytes_lt_exec(entries[i].file_name.as_slice(), entries[b].file_name.as_slice()) {
                            let ghost ni = entries@[i as int].file_name@;
                            let ghost nb = entries@[b as int].file_name@;
                            assert forall|j: int|
                                0 <= j < i + 1 && #[trigger] is_amd_card(entries@[j]) implies (j < i
                                ==> bytes_lt(ni, entries@[j].file_name@)) && (j > i ==> !bytes_lt(
                                entries@[j].file_name@,
                                ni,
                            )) by {
                                if j < i {
                                    let nj = entries@[j].file_name@;
                                    if j < b {
                                        lemma_bytes_lt_transitive(ni, nb, nj);
                                    } else if j > b {
                                        if nj != nb {
                                            lemma_bytes_lt_total(nj, nb);
                                            lemma_bytes_lt_transitive(ni, nb, nj);
                                        }
                                    }
                                }
                            }
                            best = Some(i);
                        }
                    },
                }
            }
            i = i + 1;
        }
        best
    }

    /// The first AMD GPU, in file-name order, among the entries of `/sys/class/drm`: an
    /// entry named `card` and digits, with a `device` directory whose `vendor` file holds
    /// AMD's id and which has a `gpu_busy_percent` file. `None` where there is no such entry.
    pub fn detect(entries: &[DrmEntry]) -> (r: Option<SysfsAmdGpu>)
        ensures
            r is None <==> forall|j: int| 0 <= j < entries@.len() ==> !is_amd_card(#[trigger] entries@[j]),
            r matches Some(g) ==> exists|k: int| is_first_amd_card(entries@, k) && g@ == gpu_of_entry(#[trigger] entries@[k]),
    {
        match Self::first_amd_card(entries) {
            None => None,
            Some(k) => {
                let e = &entries[k];
                let (hwmon_path, hwmon_name) = match &e.hwmon {
                    Some(h) => (Some(copy_bytes(h.path.as_slice())), match &h.name {
                        Some(n) => Some(n.as_str()),
                        None => None,
                    }),
                    None => (None, None),
                };
                let uevent = match &e.uevent {
                    Some(u) => Some(u.as_str()),
                    None => None,
                };
                let name = Self::read_name(uevent, hwmon_name);
                let g = SysfsAmdGpu { device_path: copy_bytes(e.device_path.as_slice()), hwmon_path, name };
                assert(g@ == gpu_of_entry(entries@[k as int]));
                Some(g)
            },
        }
    }

    /// The figures of the GPU from the contents of its `gpu_busy_percent`,
    /// `mem_info_vram_used` and `mem_info_vram_total` files and of its hardware monitor's
    /// `temp1_input` file, each where it could be read. A file that cannot be read or does
    /// not hold a number counts as 0; the temperature counts only where the GPU has a
    /// hardware monitor. Video memory is turned into whole MiB.
    pub fn read(
        &self,
        busy_percent: Option<&str>,
        vram_used: Option<&str>,
        vram_total: Option<&str>,
        temp_input: Option<&str>,
    ) -> (r: AmdGpuReading)
        ensures
            r.name@ == self.name@,
            r.usage_percent == or_zero(file_u64(opt_str_view(busy_percent))),
            r.memory_used_mb == or_zero(file_u64(opt_str_view(vram_used))) / 1048576u64,
            r.memory_total_mb == or_zero(file_u64(opt_str_view(vram_total))) / 1048576u64,
            r.temperature_millicelsius == (if self.hwmon_path is Some {
                or_zero(file_u64(opt_str_view(temp_input)))
            } else {
                0
            }),
    {
        let usage_percent = match Self::read_u64(busy_percent) {
            Some(v) => v,
            None => 0,
        };
        let used = match Self::read_u64(vram_used) {
            Some(v) => v,
            None => 0,
        };
        let total = match Self::read_u64(vram_total) {
            Some(v) => v,
            None => 0,
        };
        let temperature_millicelsius = if self.hwmon_path.is_some() {
            match Self::read_u64(temp_input) {
                Some(v) => v,
                None => 0,
            }
        } else {
            0
        };
        AmdGpuReading {
            name: self.name.clone(),
            temperature_millicelsius,
            usage_percent,
            memory_used_mb: used / 1048576u64,
            memory_total_mb: total / 1048576u64,
        }
    }
}

} // verus!
