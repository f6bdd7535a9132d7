use vstd::prelude::*;

verus! {

/// Operating systems the native engine is built for.
#[derive(PartialEq, Eq, Structural, Clone, Copy, Debug)]
pub enum Os {
    Linux,
    Mac,
    Windows,
    Other,
}

/// Processor architectures the native engine is built for.
#[derive(PartialEq, Eq, Structural, Clone, Copy, Debug)]
pub enum Arch {
    X86_64,
    Aarch64,
    Arm,
    Other,
}

/// ARM cores with a prebuilt native library.
#[derive(PartialEq, Eq, Structural, Clone, Copy, Debug)]
pub enum Machine {
    CortexA53,
    CortexA57,
    CortexA72,
    CortexA76,
}

/// Why no native library can be chosen for this device.
#[derive(PartialEq, Eq, Structural, Clone, Copy, Debug)]
pub enum LocatorError {
    /// The processor description names no CPU part.
    UnsupportedCpu,
    /// The platform, or the CPU part, has no prebuilt library.
    UnsupportedDevice,
}

pub open spec fn newline() -> u8 {
    10u8
}

pub open spec fn space() -> u8 {
    32u8
}

/// The label of the processor description's line that names the core.
pub open spec fn cpu_part_tag() -> Seq<u8> {
    seq![67u8, 80u8, 85u8, 32u8, 112u8, 97u8, 114u8, 116u8]
}

/// `pat` stands in `s` at position `i`.
pub open spec fn occurs_at(s: Seq<u8>, pat: Seq<u8>, i: int) -> bool {
    0 <= i && i + pat.len() <= s.len() && s.subrange(i, i + pat.len()) == pat
}

pub open spec fn contains_bytes(s: Seq<u8>, pat: Seq<u8>) -> bool {
    exists|i: int| occurs_at(s, pat, i)
}

/// The first line of `s` that holds `pat`, scanning from position `i` of a
/// line that began at `start`. Lines are separated by line feeds.
pub open spec fn first_line_from(s: Seq<u8>, pat: Seq<u8>, start: int, i: int) -> Option<Seq<u8>>
    decreases s.len() - i,
{
    if start < 0 || start > i || i > s.len() {
        None
    } else if i == s.len() || s[i] == newline() {
        let line = s.subrange(start, i);
        if contains_bytes(line, pat) {
            Some(line)
        } else if i == s.len() {
            None
        } else {
            first_line_from(s, pat, i + 1, i + 1)
        }
    } else {
        first_line_from(s, pat, start, i + 1)
    }
}

/// Where the last space-separated token of `line[..i]` begins.
pub open spec fn token_start(line: Seq<u8>, i: int) -> int
    decreases i,
{
    if i <= 0 {
        0
    } else if line[i - 1] == space() {
        i
    } else {
        token_start(line, i - 1)
    }
}

/// What follows the last space of a line (the whole line if it has none).
pub open spec fn last_token(line: Seq<u8>) -> Seq<u8> {
    line.subrange(token_start(line, line.len() as int), line.len() as int)
}

pub open spec fn ascii_lower(b: u8) -> u8 {
    if 65 <= b <= 90 {
        (b + 32) as u8
    } else {
        b
    }
}

/// `token` is `code` up to the case of ASCII letters (`code` is lower case).
pub open spec fn same_part(token: Seq<u8>, code: Seq<u8>) -> bool {
    token.len() == code.len() && forall|k: int| 0 <= k < token.len() ==> ascii_lower(token[k]) == code[k]
}

impl Machine {
    /// The CPU part number that identifies the core, in lower case.
    pub open spec fn part_code(self) -> Seq<u8> {
        match self {
            Machine::CortexA53 => seq![48u8, 120u8, 100u8, 48u8, 51u8],
            Machine::CortexA57 => seq![48u8, 120u8, 100u8, 48u8, 55u8],
            Machine::CortexA72 => seq![48u8, 120u8, 100u8, 48u8, 56u8],
            Machine::CortexA76 => seq![48u8, 120u8, 100u8, 48u8, 98u8],
        }
    }

    pub open spec fn spec_name(self) -> Seq<char> {
        match self {
            Machine::CortexA53 => "cortex-a53"@,
            Machine::CortexA57 => "cortex-a57"@,
            Machine::CortexA72 => "cortex-a72"@,
            Machine::CortexA76 => "cortex-a76"@,
        }
    }

    pub fn name(&self) -> (r: &'static str)
        ensures
            r@ == self.spec_name(),
    {
        match self {
            Machine::CortexA53 => "cortex-a53",
            Machine::CortexA57 => "cortex-a57",
            Machine::CortexA72 => "cortex-a72",
            Machine::CortexA76 => "cortex-a76",
        }
    }
}

/// The core that a CPU part token names, if it names a supported one.
pub open spec fn machine_of_part(token: Seq<u8>) -> Option<Machine> {
    if same_part(token, Machine::CortexA53.part_code()) {
        Some(Machine::CortexA53)
    } else if same_part(token, Machine::CortexA57.part_code()) {
        Some(Machine::CortexA57)
    } else if same_part(token, Machine::CortexA72.part_code()) {
        Some(Machine::CortexA72)
    } else if same_part(token, Machine::CortexA76.part_code()) {
        Some(Machine::CortexA76)
    } else {
        None
    }
}

/// The core that a processor description names on its first `CPU part` line.
pub open spec fn machine_from_cpu_info(cpu_info: Seq<u8>) -> Result<Machine, LocatorError> {
    match first_line_from(cpu_info, cpu_part_tag(), 0, 0) {
        None => Err(LocatorError::UnsupportedCpu),
        Some(line) => match machine_of_part(last_token(line)) {
            Some(m) => Ok(m),
            None => Err(LocatorError::UnsupportedDevice),
        },
    }
}

/// Whether `pat` stands in `s` at position `i`.
fn occurs_at_exec(s: &[u8], i: usize, pat: &[u8]) -> (r: bool)
    ensures
        r == occurs_at(s@, pat@, i as int),
{
    if i > s.len() || pat.len() > s.len() - i {
        return false;
    }
    let mut k: usize = 0;
    while k < pat.len()
        invariant
            0 <= k <= pat.len(),
            i + pat.len() <= s.len(),
            forall|j: int| 0 <= j < k ==> s@[i + j] == pat@[j],
        decreases pat.len() - k,
    {
        if s[i + k] != pat[k] {
            assert(s@.subrange(i as int, i + pat.len())[k as int] != pat@[k as int]);
            return false;
        }
        k = k + 1;
    }
    assert(s@.subrange(i as int, i + pat.len()) =~= pat@);
    true
}

/// Whether the range `s[start..end]` holds `pat`.
fn range_contains(s: &[u8], start: usize, end: usize, pat: &[u8]) -> (r: bool)
    requires
        start <= end <= s.len(),
    ensures
        r == contains_bytes(s@.subrange(start as int, end as int), pat@),
{
    let ghost line = s@.subrange(start as int, end as int);
    let m = pat.len();
    if m > end - start {
        assert forall|j: int| !occurs_at(line, pat@, j) by {}
        return false;
    }
    let last = end - m;
    let mut i: usize = start;
    loop
        invariant
            start <= i <= last,
            last == end - m,
            m == pat@.len(),
            end <= s.len(),
            line == s@.subrange(start as int, end as int),
            forall|j: int| 0 <= j < i - start ==> !occurs_at(line, pat@, j),
        ensures
            forall|j: int| 0 <= j <= last - start ==> !occurs_at(line, pat@, j),
        decreases last - i,
    {
        let found = occurs_at_exec(s, i, pat);
        let ghost j = i - start;
        assert(line.subrange(j, j + m) =~= s@.subrange(i as int, i + m));
        if found {
            assert(occurs_at(line, pat@, j));
            return true;
        }
        assert(!occurs_at(line, pat@, j));
        if i == last {
            break;
        }
        i = i + 1;
    }
    assert forall|j: int| !occurs_at(line, pat@, j) by {
        if 0 <= j <= last - start {
        }
    }
    false
}

/// The bounds of the first line of `s` that holds `pat`.
fn first_line_with(s: &[u8], pat: &[u8]) -> (r: Option<(usize, usize)>)
    ensures
        match r {
            Some((a, b)) => a <= b <= s@.len() && first_line_from(s@, pat@, 0, 0) == Some(
                s@.subrange(a as int, b as int),
            ),
            None => first_line_from(s@, pat@, 0, 0) is None,
        },
{
    let mut start: usize = 0;
    let mut i: usize = 0;
    loop
        invariant
            0 <= start <= i <= s@.len(),
            first_line_from(s@, pat@, 0, 0) == first_line_from(s@, pat@, start as int, i as int),
        decreases s@.len() - i,
    {
        if i == s.len() || s[i] == 10u8 {
            if range_contains(s, start, i, pat) {
                return Some((start, i));
            }
            if i == s.len() {
                return None;
            }
            start = i + 1;
        }
        i = i + 1;
    }
}

/// Where the last space-separated token of `s[a..b]` begins.
fn last_token_start(s: &[u8], a: usize, b: usize) -> (r: usize)
    requires
        a <= b <= s@.len(),
    ensures
        a <= r <= b,
        r - a == token_start(s@.subrange(a as int, b as int), b - a),
{
    let ghost line = s@.subrange(a as int, b as int);
    let mut j: usize = b;
    while j > a && s[j - 1] != 32u8
        invariant
            a <= j <= b,
            b <= s@.len(),
            line == s@.subrange(a as int, b as int),
            token_start(line, b - a) == token_start(line, j - a),
        decreases j,
    {
        assert(line[j - a - 1] == s@[j - 1]);
        j = j - 1;
    }
    if j > a {
        assert(line[j - a - 1] == s@[j - 1]);
    }
    j
}

fn lower(b: u8) -> (r: u8)
    ensures
        r == ascii_lower(b),
{
    if 65 <= b && b <= 90 {
        b + 32
    } else {
        b
    }
}

/// Whether `s[a..b]` is the part number `code`, whatever the case of its letters.
fn same_part_exec(s: &[u8], a: usize, b: usize, code: &[u8]) -> (r: bool)
    requires
        a <= b <= s@.len(),
    ensures
        r == same_part(s@.subrange(a as int, b as int), code@),
{
    let ghost token = s@.subrange(a as int, b as int);
    if b - a != code.len() {
        return false;
    }
    let mut k: usize = 0;
    while k < code.len()
        invariant
            0 <= k <= code@.len(),
            b - a == code@.len(),
            b <= s@.len(),
            token == s@.subrange(a as int, b as int),
            forall|j: int| 0 <= j < k ==> ascii_lower(token[j]) == code@[j],
        decreases code@.len() - k,
    {
        if lower(s[a + k]) != code[k] {
            return false;
        }
        k = k + 1;
    }
    true
}

impl Machine {
    fn part_code_bytes(&self) -> (r: [u8; 5])
        ensures
            r@ == self.part_code(),
    {
        match self {
            Machine::CortexA53 => [48u8, 120u8, 100u8, 48u8, 51u8],
            Machine::CortexA57 => [48u8, 120u8, 100u8, 48u8, 55u8],
            Machine::CortexA72 => [48u8, 120u8, 100u8, 48u8, 56u8],
            Machine::CortexA76 => [48u8, 120u8, 100u8, 48u8, 98u8],
        }
    }
}

/// Finds the ARM core from a processor description (the text of
/// `/proc/cpuinfo`): the last token of its first `CPU part` line.
pub fn find_machine_type(cpu_info: &[u8]) -> (r: Result<Machine, LocatorError>)
    ensures
        r == machine_from_cpu_info(cpu_info@),
{
    let tag: [u8; 8] = [67u8, 80u8, 85u8, 32u8, 112u8, 97u8, 114u8, 116u8];
    assert(tag@ == cpu_part_tag());
    match first_line_with(cpu_info, &tag) {
        None => Err(LocatorError::UnsupportedCpu),
        Some((a, b)) => {
            let t = last_token_start(cpu_info, a, b);
            let ghost line = cpu_info@.subrange(a as int, b as int);
            assert(cpu_info@.subrange(t as int, b as int) =~= last_token(line));
            if same_part_exec(cpu_info, t, b, &Machine::CortexA53.part_code_bytes()) {
                Ok(Machine::CortexA53)
            } else if same_part_exec(cpu_info, t, b, &Machine::CortexA57.part_code_bytes()) {
                Ok(Machine::CortexA57)
            } else if same_part_exec(cpu_info, t, b, &Machine::CortexA72.part_code_bytes()) {
                Ok(Machine::CortexA72)
            } else if same_part_exec(cpu_info, t, b, &Machine::CortexA76.part_code_bytes()) {
                Ok(Machine::CortexA76)
            } else {
                Err(LocatorError::UnsupportedDevice)
            }
        },
    }
}

/// The prebuilt library for an ARM board with the given core.
pub open spec fn board_library_path(machine: Machine, arch: Arch) -> Seq<char> {
    if machine == Machine::CortexA57 {
        "jetson/cortex-a57-aarch64/libpv_cheetah.so"@
    } else if arch == Arch::Aarch64 {
        "raspberry-pi/"@ + machine.spec_name() + "-aarch64/libpv_cheetah.so"@
    } else {
        "raspberry-pi/"@ + machine.spec_name() + "/libpv_cheetah.so"@
    }
}

/// The native library's path relative to the library directory, for a
/// platform and, on ARM Linux, the processor description.
pub open spec fn spec_base_library_path(os: Os, arch: Arch, cpu_info: Seq<u8>) -> Result<
    Seq<char>,
    LocatorError,
> {
    match os {
        Os::Mac => match arch {
            Arch::X86_64 => Ok("mac/x86_64/libpv_cheetah.dylib"@),
            Arch::Aarch64 => Ok("mac/arm64/libpv_cheetah.dylib"@),
            _ => Err(LocatorError::UnsupportedDevice),
        },
        Os::Windows => Ok("windows/amd64/libpv_cheetah.dll"@),
        Os::Linux => match arch {
            Arch::X86_64 => Ok("linux/x86_64/libpv_cheetah.so"@),
            Arch::Aarch64 | Arch::Arm => match machine_from_cpu_info(cpu_info) {
                Ok(m) => Ok(board_library_path(m, arch)),
                Err(e) => Err(e),
            },
            Arch::Other => Err(LocatorError::UnsupportedDevice),
        },
        Os::Other => Err(LocatorError::UnsupportedDevice),
    }
}

/// `rel` appended to the directory `dir`, with one separator between them.
pub open spec fn join_path(dir: Seq<char>, rel: Seq<char>) -> Seq<char> {
    if dir.len() == 0 || dir.last() == '/' {
        dir + rel
    } else {
        dir + "/"@ + rel
    }
}

/// Where the native libraries lie, under the package's resource directory.
pub open spec fn library_dir() -> Seq<char> {
    "lib/"@
}

/// Where the model file lies, under the package's resource directory.
pub open spec fn model_file() -> Seq<char> {
    "lib/common/cheetah_params.pv"@
}

pub fn base_library_path(os: Os, arch: Arch, cpu_info: &[u8]) -> (r: Result<String, LocatorError>)
    ensures
        located(r) == spec_base_library_path(os, arch, cpu_info@),
{
    match os {
        Os::Mac => match arch {
            Arch::X86_64 => Ok(String::from_str("mac/x86_64/libpv_cheetah.dylib")),
            Arch::Aarch64 => Ok(String::from_str("mac/arm64/libpv_cheetah.dylib")),
            _ => Err(LocatorError::UnsupportedDevice),
        },
        Os::Windows => Ok(String::from_str("windows/amd64/libpv_cheetah.dll")),
        Os::Linux => match arch {
            Arch::X86_64 => Ok(String::from_str("linux/x86_64/libpv_cheetah.so")),
            Arch::Aarch64 | Arch::Arm => match find_machine_type(cpu_info) {
                Ok(m) => {
                    if m == Machine::CortexA57 {
                        Ok(String::from_str("jetson/cortex-a57-aarch64/libpv_cheetah.so"))
                    } else {
                        let mut p = String::from_str("raspberry-pi/");
                        p.append(m.name());
                        if arch == Arch::Aarch64 {
                            p.append("-aarch64/libpv_cheetah.so");
                        } else {
                            p.append("/libpv_cheetah.so");
                        }
                        Ok(p)
                    }
                },
                Err(e) => Err(e),
            },
            Arch::Other => Err(LocatorError::UnsupportedDevice),
        },
        Os::Other => Err(LocatorError::UnsupportedDevice),
    }
}

/// Appends `rel` to the directory `dir`.
pub fn join(dir: &str, rel: &str) -> (r: String)
    ensures
        r@ == join_path(dir@, rel@),
{
    let n = dir.unicode_len();
    let mut p = String::from_str(dir);
    if n > 0 && dir.get_char(n - 1) != '/' {
        p.append("/");
    }
    p.append(rel);
    p
}

/// The native library's full path under the resource directory `root`.
pub open spec fn spec_library_path(root: Seq<char>, os: Os, arch: Arch, cpu_info: Seq<u8>) -> Result<
    Seq<char>,
    LocatorError,
> {
    match spec_base_library_path(os, arch, cpu_info) {
        Ok(base) => Ok(join_path(join_path(root, library_dir()), base)),
        Err(e) => Err(e),
    }
}

/// A located path, or why none could be chosen, as plain text.
pub open spec fn located(r: Result<String, LocatorError>) -> Result<Seq<char>, LocatorError> {
    match r {
        Ok(p) => Ok(p@),
        Err(e) => Err(e),
    }
}

/// The native library for this platform, under the resource directory `root`.
pub fn pv_library_path(root: &str, os: Os, arch: Arch, cpu_info: &[u8]) -> (r: Result<
    String,
    LocatorError,
>)
    ensures
        located(r) == spec_library_path(root@, os, arch, cpu_info@),
{
    match base_library_path(os, arch, cpu_info) {
        Ok(base) => {
            let dir = join(root, "lib/");
            Ok(join(dir.as_str(), base.as_str()))
        },
        Err(e) => Err(e),
    }
}

/// The model file, under the resource directory `root`.
pub fn pv_model_path(root: &str) -> (r: String)
    ensures
        r@ == join_path(root@, model_file()),
{
    join(root, "lib/common/cheetah_params.pv")
}

} // verus!
