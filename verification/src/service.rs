//! System service management: the service's identity, reading the service
//! managers' answers, and deciding how a service action is carried out.
//!
//! The application runs the service managers (`sc.exe`, `systemctl`,
//! `rc-service`, `launchctl`) and hands their output here.
use vstd::prelude::*;

use service_manager::ServiceLabel;

use crate::text::{
    ascii_lower_chars, ascii_lower_seq, ascii_upper_chars, ascii_upper_seq, chars_of,
    contains_lit, contains_seq, eq_chars, eq_lit, find_exec, find_from, first_word,
    first_word_chars, has_prefix, index_of_char, index_of_char_from, lemma_index_of_char_exact, lines_of, push_all,
    push_str, split_lines, starts_with_lit, string_from_chars, sub_vec, trim, trim_chars,
};

verus! {

broadcast use vstd::string::group_string_axioms;

// ── Platforms ───────────────────────────────────────────────────────────────

/// The operating system the program runs on.
#[derive(Debug, Clone, Copy, PartialEq, Eq, Structural)]
pub enum Platform {
    Windows,
    Linux,
    MacOs,
    Other,
}

// ── Service identity ────────────────────────────────────────────────────────

/// The service label on each platform.
pub open spec fn service_label_spec(platform: Platform) -> Seq<char> {
    if platform == Platform::Windows {
        "MARCOntroller"@
    } else {
        "marcontroller"@
    }
}

/// The service label.
pub fn service_label_str(platform: Platform) -> (r: &'static str)
    ensures
        r@ == service_label_spec(platform),
{
    match platform {
        Platform::Windows => "MARCOntroller",
        _ => "marcontroller",
    }
}

/// The name to query the service manager with: the label on Windows,
/// `<label>.service` for systemd, `system/<label>` for launchd.
pub open spec fn service_query_name_spec(platform: Platform) -> Seq<char> {
    match platform {
        Platform::Linux => service_label_spec(platform) + ".service"@,
        Platform::MacOs => "system/"@ + service_label_spec(platform),
        _ => service_label_spec(platform),
    }
}

/// The name to query the service manager with.
pub fn service_query_name(platform: Platform) -> (r: String)
    ensures
        r@ == service_query_name_spec(platform),
{
    let mut out: Vec<char> = Vec::new();
    match platform {
        Platform::Linux => {
            push_str(&mut out, service_label_str(platform));
            push_str(&mut out, ".service");
        },
        Platform::MacOs => {
            push_str(&mut out, "system/");
            push_str(&mut out, service_label_str(platform));
        },
        _ => {
            push_str(&mut out, service_label_str(platform));
        },
    }
    string_from_chars(&out)
}

/// The error type of the service manager's label parser.
#[verifier::external_type_specification]
#[verifier::external_body]
pub struct ExIoError(std::io::Error);

/// A service label as its parts: `{qualifier}.{organization}.{application}`.
#[derive(Debug, Clone, PartialEq, Eq)]
pub struct ServiceLabelParts {
    pub qualifier: Option<String>,
    pub organization: Option<String>,
    pub application: String,
}

/// An optional text as an optional character sequence.
pub open spec fn opt_text(o: Option<String>) -> Option<Seq<char>> {
    match o {
        Some(t) => Some(t@),
        None => None,
    }
}

impl ServiceLabelParts {
    /// The parts as character sequences.
    pub open spec fn parts(self) -> (Option<Seq<char>>, Option<Seq<char>>, Seq<char>) {
        (opt_text(self.qualifier), opt_text(self.organization), self.application@)
    }
}

/// The parts a fully-qualified label splits into at its dots: one part is
/// the application alone; two are organization and application; with more,
/// the first is the qualifier, the second the organization, and all after
/// the second dot the application.
pub open spec fn label_parts_spec(s: Seq<char>) -> (Option<Seq<char>>, Option<Seq<char>>, Seq<char>) {
    match index_of_char(s, '.') {
        None => (None, None, s),
        Some(i) => {
            let rest = s.skip(i + 1);
            match index_of_char(rest, '.') {
                None => (None, Some(s.take(i)), rest),
                Some(j) => (Some(s.take(i)), Some(rest.take(j)), rest.skip(j + 1)),
            }
        },
    }
}

/// Parses a label with `<ServiceLabel as FromStr>::from_str`, which splits
/// the text at dots as `label_parts_spec` states and never fails, and hands
/// back its three public fields.
#[verifier::external_body]
fn parse_service_label(s: &str) -> (r: Result<ServiceLabelParts, std::io::Error>)
    ensures
        r is Ok,
        r->Ok_0.parts() == label_parts_spec(s@),
{
    match s.parse::<ServiceLabel>() {
        Ok(l) => Ok(
            ServiceLabelParts {
                qualifier: l.qualifier,
                organization: l.organization,
                application: l.application,
            },
        ),
        Err(e) => Err(e),
    }
}

/// The service label, parsed for the service manager: the label has no
/// dot, so it is the application alone.
pub fn service_label(platform: Platform) -> (r: Result<ServiceLabelParts, std::io::Error>)
    ensures
        r is Ok,
        r->Ok_0.parts() == (None::<Seq<char>>, None::<Seq<char>>, service_label_spec(platform)),
{
    let text = service_label_str(platform);
    proof {
        reveal_strlit("MARCOntroller");
        reveal_strlit("marcontroller");
        lemma_index_of_char_exact(text@, '.', text@.len() as int);
    }
    parse_service_label(text)
}

/// The arguments the installed service is started with.
pub fn service_install_args_for_config(cfg_path: &str) -> (r: Vec<String>)
    ensures
        r@.len() == 3,
        r@[0]@ == "--config"@,
        r@[1]@ == cfg_path@,
        r@[2]@ == "service"@,
{
    let mut v: Vec<String> = Vec::new();
    v.push("--config".to_owned());
    v.push(cfg_path.to_owned());
    v.push("service".to_owned());
    v
}

// ── Status ──────────────────────────────────────────────────────────────────

/// State of the installed system service.
#[derive(Debug, Clone, Copy, PartialEq, Eq, Structural)]
pub enum SystemServiceStatus {
    Unknown,
    NotInstalled,
    Stopped,
    StartPending,
    Running,
    Error,
}

/// Which service manager runs the service.
#[derive(Debug, Clone, Copy, PartialEq, Eq, Structural)]
pub enum ServiceBackend {
    WindowsService,
    Systemd,
    OpenRc,
    Launchd,
    Unknown,
}

/// How a service action gets administrator rights.
#[derive(Debug, Clone, Copy, PartialEq, Eq, Structural)]
pub enum ServicePrivilegeMode {
    Uac,
    Pkexec,
    AppleScriptAdmin,
    Unsupported,
}

/// Whether the running executable is the one the service runs.
#[derive(Debug, Clone, Copy, PartialEq, Eq, Structural)]
pub enum ServiceExecutableMatch {
    Unknown,
    Same,
    Different,
}

/// `stdout`, a newline, and `stderr`: the two outputs as one text.
pub open spec fn combined(stdout: Seq<char>, stderr: Seq<char>) -> Seq<char> {
    stdout + "\n"@ + stderr
}

/// Joins two texts with a newline between them.
fn join_outputs(a: &[char], b: &[char]) -> (r: Vec<char>)
    ensures
        r@ == combined(a@, b@),
{
    let mut out: Vec<char> = Vec::new();
    push_all(&mut out, a);
    push_str(&mut out, "\n");
    push_all(&mut out, b);
    out
}

/// The status that `sc.exe query` reports, read from its upper-cased output.
pub open spec fn windows_status_spec(out: Seq<char>) -> SystemServiceStatus {
    if contains_seq(out, "FAILED 1060"@) || contains_seq(out, "DOES NOT EXIST"@) || contains_seq(
        out,
        "NO EXISTE"@,
    ) {
        SystemServiceStatus::NotInstalled
    } else if contains_seq(out, "START_PENDING"@) {
        SystemServiceStatus::StartPending
    } else if contains_seq(out, "RUNNING"@) {
        SystemServiceStatus::Running
    } else if contains_seq(out, "STOPPED"@) {
        SystemServiceStatus::Stopped
    } else {
        SystemServiceStatus::Error
    }
}

/// Reads the status from the output of `sc.exe query <name>`.
pub fn windows_service_status(stdout: &str, stderr: &str) -> (r: SystemServiceStatus)
    ensures
        r == windows_status_spec(
            combined(ascii_upper_seq(stdout@), ascii_upper_seq(stderr@)),
        ),
{
    let o = ascii_upper_chars(&chars_of(stdout));
    let e = ascii_upper_chars(&chars_of(stderr));
    let c = join_outputs(&o, &e);
    if contains_lit(&c, "FAILED 1060") || contains_lit(&c, "DOES NOT EXIST") || contains_lit(
        &c,
        "NO EXISTE",
    ) {
        SystemServiceStatus::NotInstalled
    } else if contains_lit(&c, "START_PENDING") {
        SystemServiceStatus::StartPending
    } else if contains_lit(&c, "RUNNING") {
        SystemServiceStatus::Running
    } else if contains_lit(&c, "STOPPED") {
        SystemServiceStatus::Stopped
    } else {
        SystemServiceStatus::Error
    }
}

/// The status that `systemctl show` reports, read from its lower-cased
/// output; `None` when it does not say.
pub open spec fn systemd_status_spec(out: Seq<char>) -> Option<SystemServiceStatus> {
    if contains_seq(out, "loadstate=not-found"@) {
        Some(SystemServiceStatus::NotInstalled)
    } else if contains_seq(out, "activestate=activating"@) {
        Some(SystemServiceStatus::StartPending)
    } else if contains_seq(out, "activestate=active"@) {
        Some(SystemServiceStatus::Running)
    } else if contains_seq(out, "activestate=inactive"@) || contains_seq(
        out,
        "activestate=failed"@,
    ) || contains_seq(out, "activestate=deactivating"@) {
        Some(SystemServiceStatus::Stopped)
    } else {
        None
    }
}

/// Reads the status from the output of
/// `systemctl show -p LoadState -p ActiveState <name>`.
pub fn systemd_service_status(stdout: &str, stderr: &str) -> (r: Option<SystemServiceStatus>)
    ensures
        r == systemd_status_spec(combined(ascii_lower_seq(stdout@), ascii_lower_seq(stderr@))),
{
    let o = ascii_lower_chars(&chars_of(stdout));
    let e = ascii_lower_chars(&chars_of(stderr));
    let c = join_outputs(&o, &e);
    if contains_lit(&c, "loadstate=not-found") {
        Some(SystemServiceStatus::NotInstalled)
    } else if contains_lit(&c, "activestate=activating") {
        Some(SystemServiceStatus::StartPending)
    } else if contains_lit(&c, "activestate=active") {
        Some(SystemServiceStatus::Running)
    } else if contains_lit(&c, "activestate=inactive") || contains_lit(&c, "activestate=failed")
        || contains_lit(&c, "activestate=deactivating") {
        Some(SystemServiceStatus::Stopped)
    } else {
        None
    }
}

/// The OpenRC status: `rc-service <label> status` succeeded means running;
/// otherwise an init script means stopped, and none means not installed.
pub fn openrc_service_status(status_succeeded: bool, init_script_exists: bool) -> (r: SystemServiceStatus)
    ensures
        r == (if status_succeeded {
            SystemServiceStatus::Running
        } else if init_script_exists {
            SystemServiceStatus::Stopped
        } else {
            SystemServiceStatus::NotInstalled
        }),
{
    if status_succeeded {
        SystemServiceStatus::Running
    } else if init_script_exists {
        SystemServiceStatus::Stopped
    } else {
        SystemServiceStatus::NotInstalled
    }
}

/// The status that `launchctl print` reports, read from its lower-cased
/// output.
pub open spec fn launchd_status_spec(out: Seq<char>) -> SystemServiceStatus {
    if contains_seq(out, "could not find service"@) || contains_seq(out, "not found"@)
        || contains_seq(out, "unknown service"@) {
        SystemServiceStatus::NotInstalled
    } else if contains_seq(out, "state = running"@) {
        SystemServiceStatus::Running
    } else if contains_seq(out, "state = waiting"@) || contains_seq(out, "state = spawned"@)
        || contains_seq(out, "last exit code = 0"@) || contains_seq(out, "pid ="@) {
        SystemServiceStatus::Stopped
    } else {
        SystemServiceStatus::Error
    }
}

/// Reads the status from the output of `launchctl print <name>`.
pub fn launchd_service_status(stdout: &str, stderr: &str) -> (r: SystemServiceStatus)
    ensures
        r == launchd_status_spec(combined(ascii_lower_seq(stdout@), ascii_lower_seq(stderr@))),
{
    let o = ascii_lower_chars(&chars_of(stdout));
    let e = ascii_lower_chars(&chars_of(stderr));
    let c = join_outputs(&o, &e);
    if contains_lit(&c, "could not find service") || contains_lit(&c, "not found")
        || contains_lit(&c, "unknown service") {
        SystemServiceStatus::NotInstalled
    } else if contains_lit(&c, "state = running") {
        SystemServiceStatus::Running
    } else if contains_lit(&c, "state = waiting") || contains_lit(&c, "state = spawned")
        || contains_lit(&c, "last exit code = 0") || contains_lit(&c, "pid =") {
        SystemServiceStatus::Stopped
    } else {
        SystemServiceStatus::Error
    }
}

// ── Registered executable ───────────────────────────────────────────────────

/// The text between a leading `"` and the next `"`; `None` when unclosed.
pub open spec fn quoted_prefix(s: Seq<char>) -> Option<Seq<char>> {
    match index_of_char(s.skip(1), '"') {
        Some(e) => Some(s.skip(1).take(e)),
        None => None,
    }
}

/// The executable of a Windows service command line: the quoted text when
/// it starts with a quote, else everything up to and including the first
/// `.exe` (in any case), trimmed.
pub open spec fn windows_exe_spec(cl: Seq<char>) -> Option<Seq<char>> {
    if cl.len() > 0 && cl[0] == '"' {
        quoted_prefix(cl)
    } else {
        match find_from(ascii_lower_seq(cl), ".exe"@, 0) {
            Some(e) => Some(trim(cl.take(e + 4))),
            None => None,
        }
    }
}

/// The text between a leading `"` and the next `"` of `s`.
fn quoted_prefix_chars(s: &[char]) -> (r: Option<Vec<char>>)
    requires
        s@.len() > 0,
    ensures
        match quoted_prefix(s@) {
            Some(q) => r matches Some(v) && v@ == q,
            None => r is None,
        },
{
    match index_of_char_from(s, 1, '"') {
        Some(e) => {
            let v = sub_vec(s, 1, e);
            assert(v@ =~= s@.skip(1).take(e - 1));
            assert(index_of_char(s@.skip(1), '"') == Some(e - 1));
            assert(quoted_prefix(s@) == Some(v@));
            Some(v)
        },
        None => None,
    }
}

/// The executable of a Windows service command line (see `windows_exe_spec`).
pub fn extract_registered_windows_exe_path(command_line: &str) -> (r: Option<String>)
    ensures
        match windows_exe_spec(command_line@) {
            Some(p) => r matches Some(s) && s@ == p,
            None => r is None,
        },
{
    let cl = chars_of(command_line);
    windows_exe_chars(&cl)
}

fn windows_exe_chars(cl: &[char]) -> (r: Option<String>)
    ensures
        match windows_exe_spec(cl@) {
            Some(p) => r matches Some(s) && s@ == p,
            None => r is None,
        },
{
    if cl.len() > 0 && cl[0] == '"' {
        return match quoted_prefix_chars(cl) {
            Some(v) => Some(string_from_chars(&v)),
            None => None,
        };
    }
    let lower = ascii_lower_chars(cl);
    let dot_exe = chars_of(".exe");
    proof {
        reveal_strlit(".exe");
    }
    match find_exec(&lower, &dot_exe) {
        Some(e) => {
            proof {
                lemma_find_from_bounds(lower@, ".exe"@, 0);
            }
            let head = sub_vec(cl, 0, e + 4);
            assert(head@ =~= cl@.take(e + 4));
            let t = trim_chars(&head);
            Some(string_from_chars(&t))
        },
        None => None,
    }
}

proof fn lemma_find_from_bounds(s: Seq<char>, p: Seq<char>, i: int)
    ensures
        find_from(s, p, i) matches Some(k) ==> i <= k && k + p.len() <= s.len(),
    decreases s.len() + 1 - i,
{
    if !(i < 0 || i + p.len() > s.len()) && !crate::text::occurs_at(s, p, i) {
        lemma_find_from_bounds(s, p, i + 1);
    }
}

/// The executable that `sc.exe qc` reports: on the first (trimmed) line
/// starting with `BINARY_PATH_NAME` or `NOMBRE_RUTA_BINARIO`, the command
/// line after the first `:`; `None` if that line has no `:`.
pub open spec fn sc_qc_exe_spec(lines: Seq<Seq<char>>) -> Option<Seq<char>>
    decreases lines.len(),
{
    if lines.len() == 0 {
        None
    } else {
        let t = trim(lines[0]);
        if has_prefix(t, "BINARY_PATH_NAME"@) || has_prefix(t, "NOMBRE_RUTA_BINARIO"@) {
            match index_of_char(t, ':') {
                Some(i) => windows_exe_spec(trim(t.skip(i + 1))),
                None => None,
            }
        } else {
            sc_qc_exe_spec(lines.drop_first())
        }
    }
}

/// Reads the registered executable from the output of `sc.exe qc <name>`.
pub fn windows_registered_exe(stdout: &str, stderr: &str) -> (r: Option<String>)
    ensures
        match sc_qc_exe_spec(lines_of(combined(stdout@, stderr@))) {
            Some(p) => r matches Some(s) && s@ == p,
            None => r is None,
        },
{
    let c = join_outputs(&chars_of(stdout), &chars_of(stderr));
    let lines = split_lines(&c);
    let ghost all = lines_of(combined(stdout@, stderr@));
    let mut k: usize = 0;
    assert(all.skip(0) =~= all);
    while k < lines.len()
        invariant
            k <= lines@.len(),
            lines@.len() == all.len(),
            all == lines_of(combined(stdout@, stderr@)),
            forall|j: int| 0 <= j < lines@.len() ==> (#[trigger] lines@[j])@ == all[j],
            sc_qc_exe_spec(all) == sc_qc_exe_spec(all.skip(k as int)),
        decreases lines@.len() - k,
    {
        let t = trim_chars(&lines[k]);
        assert(all.skip(k as int)[0] == all[k as int]);
        if starts_with_lit(&t, "BINARY_PATH_NAME") || starts_with_lit(&t, "NOMBRE_RUTA_BINARIO") {
            match index_of_char_from(&t, 0, ':') {
                Some(i) => {
                    assert(t@.skip(0) =~= t@);
                    let tl = t.len();
                    let rest = sub_vec(&t, i + 1, tl);
                    assert(rest@ =~= t@.skip(i + 1));
                    let raw = trim_chars(&rest);
                    return windows_exe_chars(&raw);
                },
                None => {
                    assert(t@.skip(0) =~= t@);
                    return None;
                },
            }
        }
        assert(all.skip(k as int).drop_first() =~= all.skip(k + 1));
        k += 1;
    }
    None
}

/// The unit file path that `systemctl show -p FragmentPath` reports: the
/// text after `FragmentPath=` on the first line that starts with it.
pub open spec fn fragment_path_spec(lines: Seq<Seq<char>>) -> Option<Seq<char>>
    decreases lines.len(),
{
    if lines.len() == 0 {
        None
    } else if has_prefix(lines[0], "FragmentPath="@) {
        Some(lines[0].skip(13))
    } else {
        fragment_path_spec(lines.drop_first())
    }
}

/// Reads the unit file path from `systemctl show -p FragmentPath <name>`:
/// trimmed, and `None` when missing or empty.
pub fn systemd_fragment_path(stdout: &str) -> (r: Option<String>)
    ensures
        match fragment_path_spec(lines_of(stdout@)) {
            Some(p) => if trim(p).len() == 0 {
                r is None
            } else {
                r matches Some(s) && s@ == trim(p)
            },
            None => r is None,
        },
{
    proof {
        reveal_strlit("FragmentPath=");
    }
    let lines = split_lines(&chars_of(stdout));
    let ghost all = lines_of(stdout@);
    let mut k: usize = 0;
    assert(all.skip(0) =~= all);
    while k < lines.len()
        invariant
            k <= lines@.len(),
            lines@.len() == all.len(),
            all == lines_of(stdout@),
            forall|j: int| 0 <= j < lines@.len() ==> (#[trigger] lines@[j])@ == all[j],
            fragment_path_spec(all) == fragment_path_spec(all.skip(k as int)),
            "FragmentPath="@.len() == 13,
        decreases lines@.len() - k,
    {
        let line = &lines[k];
        assert(all.skip(k as int)[0] == all[k as int]);
        if starts_with_lit(line, "FragmentPath=") {
            assert(fragment_path_spec(all.skip(k as int)) == Some(line@.skip(13)));
            let rest = sub_vec(line, 13, line.len());
            assert(rest@ =~= line@.skip(13));
            let t = trim_chars(&rest);
            if t.len() == 0 {
                return None;
            }
            return Some(string_from_chars(&t));
        }
        assert(all.skip(k as int).drop_first() =~= all.skip(k + 1));
        k += 1;
    }
    None
}

/// The executable of a systemd unit: on the first (trimmed) line starting
/// with `ExecStart=`, the quoted text when the (trimmed) value starts with a
/// quote, else its first word.
pub open spec fn execstart_spec(lines: Seq<Seq<char>>) -> Option<Seq<char>>
    decreases lines.len(),
{
    if lines.len() == 0 {
        None
    } else {
        let t = trim(lines[0]);
        if has_prefix(t, "ExecStart="@) {
            let raw = trim(t.skip(10));
            if raw.len() > 0 && raw[0] == '"' {
                quoted_prefix(raw)
            } else if raw.len() == 0 {
                None
            } else {
                Some(first_word(raw))
            }
        } else {
            execstart_spec(lines.drop_first())
        }
    }
}

/// Reads the executable from a systemd unit file (see `execstart_spec`).
pub fn extract_execstart_path_from_unit_file(unit_contents: &str) -> (r: Option<String>)
    ensures
        match execstart_spec(lines_of(unit_contents@)) {
            Some(p) => r matches Some(s) && s@ == p,
            None => r is None,
        },
{
    proof {
        reveal_strlit("ExecStart=");
    }
    let lines = split_lines(&chars_of(unit_contents));
    let ghost all = lines_of(unit_contents@);
    let mut k: usize = 0;
    assert(all.skip(0) =~= all);
    while k < lines.len()
        invariant
            k <= lines@.len(),
            lines@.len() == all.len(),
            all == lines_of(unit_contents@),
            forall|j: int| 0 <= j < lines@.len() ==> (#[trigger] lines@[j])@ == all[j],
            execstart_spec(all) == execstart_spec(all.skip(k as int)),
            "ExecStart="@.len() == 10,
        decreases lines@.len() - k,
    {
        let t = trim_chars(&lines[k]);
        assert(all.skip(k as int)[0] == all[k as int]);
        if starts_with_lit(&t, "ExecStart=") {
            let rest = sub_vec(&t, 10, t.len());
            assert(rest@ =~= t@.skip(10));
            let raw = trim_chars(&rest);
            if raw.len() > 0 && raw[0] == '"' {
                return match quoted_prefix_chars(&raw) {
                    Some(v) => Some(string_from_chars(&v)),
                    None => None,
                };
            }
            if raw.len() == 0 {
                return None;
            }
            let w = first_word_chars(&raw);
            return Some(string_from_chars(&w));
        }
        assert(all.skip(k as int).drop_first() =~= all.skip(k + 1));
        k += 1;
    }
    None
}

/// The program that `launchctl print` reports: the trimmed text after
/// `program = ` on the first (trimmed) line that starts with it.
pub open spec fn launchd_program_spec(lines: Seq<Seq<char>>) -> Option<Seq<char>>
    decreases lines.len(),
{
    if lines.len() == 0 {
        None
    } else if has_prefix(trim(lines[0]), "program = "@) {
        Some(trim(trim(lines[0]).skip(10)))
    } else {
        launchd_program_spec(lines.drop_first())
    }
}

/// Reads the program from the output of `launchctl print <name>`.
pub fn launchd_registered_exe(stdout: &str) -> (r: Option<String>)
    ensures
        match launchd_program_spec(lines_of(stdout@)) {
            Some(p) => r matches Some(s) && s@ == p,
            None => r is None,
        },
{
    proof {
        reveal_strlit("program = ");
    }
    let lines = split_lines(&chars_of(stdout));
    let ghost all = lines_of(stdout@);
    let mut k: usize = 0;
    assert(all.skip(0) =~= all);
    while k < lines.len()
        invariant
            k <= lines@.len(),
            lines@.len() == all.len(),
            all == lines_of(stdout@),
            forall|j: int| 0 <= j < lines@.len() ==> (#[trigger] lines@[j])@ == all[j],
            launchd_program_spec(all) == launchd_program_spec(all.skip(k as int)),
            "program = "@.len() == 10,
        decreases lines@.len() - k,
    {
        let t = trim_chars(&lines[k]);
        assert(all.skip(k as int)[0] == all[k as int]);
        if starts_with_lit(&t, "program = ") {
            let rest = sub_vec(&t, 10, t.len());
            assert(rest@ =~= t@.skip(10));
            let v = trim_chars(&rest);
            return Some(string_from_chars(&v));
        }
        assert(all.skip(k as int).drop_first() =~= all.skip(k + 1));
        k += 1;
    }
    None
}

// ── Comparing executables ───────────────────────────────────────────────────

/// `\` in place of `/`.
pub open spec fn backslash(c: char) -> char {
    if c == '/' {
        '\\'
    } else {
        c
    }
}

/// A path as compared: its resolved form when there is one, else as given;
/// on Windows with `/` turned into `\` and ASCII lower-cased.
pub open spec fn normalized_path(platform: Platform, path: Seq<char>, resolved: Option<Seq<char>>) -> Seq<char> {
    let base = match resolved {
        Some(r) => r,
        None => path,
    };
    if platform == Platform::Windows {
        ascii_lower_seq(base.map_values(|c: char| backslash(c)))
    } else {
        base
    }
}

/// A path as compared (see `normalized_path`).
pub fn normalize_resolved_path(platform: Platform, path: &str, resolved: Option<&str>) -> (r: Vec<char>)
    ensures
        r@ == normalized_path(
            platform,
            path@,
            match resolved {
                Some(s) => Some(s@),
                None => None,
            },
        ),
{
    let base = match resolved {
        Some(s) => chars_of(s),
        None => chars_of(path),
    };
    if platform != Platform::Windows {
        return base;
    }
    let mut swapped: Vec<char> = Vec::new();
    let mut i: usize = 0;
    while i < base.len()
        invariant
            i <= base@.len(),
            swapped@ == base@.take(i as int).map_values(|c: char| backslash(c)),
        decreases base@.len() - i,
    {
        let c = base[i];
        swapped.push(if c == '/' { '\\' } else { c });
        i += 1;
        assert(swapped@ =~= base@.take(i as int).map_values(|c: char| backslash(c)));
    }
    assert(base@.take(base@.len() as int) =~= base@);
    ascii_lower_chars(&swapped)
}

/// The comparison of two normalized paths.
pub open spec fn executable_match_spec(a: Option<Seq<char>>, b: Option<Seq<char>>) -> ServiceExecutableMatch {
    match (a, b) {
        (Some(x), Some(y)) => if x == y {
            ServiceExecutableMatch::Same
        } else {
            ServiceExecutableMatch::Different
        },
        _ => ServiceExecutableMatch::Unknown,
    }
}

/// Compares two already normalized paths; unknown when either is missing.
pub fn compare_normalized_paths(a: Option<&[char]>, b: Option<&[char]>) -> (r: ServiceExecutableMatch)
    ensures
        r == executable_match_spec(
            match a {
                Some(x) => Some(x@),
                None => None,
            },
            match b {
                Some(y) => Some(y@),
                None => None,
            },
        ),
{
    match (a, b) {
        (Some(x), Some(y)) => if eq_chars(x, y) {
            ServiceExecutableMatch::Same
        } else {
            ServiceExecutableMatch::Different
        },
        _ => ServiceExecutableMatch::Unknown,
    }
}

/// An optional text as an optional character sequence.
pub open spec fn opt_chars(o: Option<&str>) -> Option<Seq<char>> {
    match o {
        Some(t) => Some(t@),
        None => None,
    }
}

/// Whether the running executable is the one the service is registered
/// with. Each path is compared in its form resolved on disk when the caller
/// could resolve it (`current_resolved`, `registered_resolved`), else as
/// given, and normalized (see `normalized_path`); unknown when either path
/// is missing.
pub fn compare_service_executable_paths(
    platform: Platform,
    current_exe: Option<&str>,
    registered_exe: Option<&str>,
    current_resolved: Option<&str>,
    registered_resolved: Option<&str>,
) -> (r: ServiceExecutableMatch)
    ensures
        r == match (current_exe, registered_exe) {
            (Some(c), Some(g)) => executable_match_spec(
                Some(normalized_path(platform, c@, opt_chars(current_resolved))),
                Some(normalized_path(platform, g@, opt_chars(registered_resolved))),
            ),
            _ => ServiceExecutableMatch::Unknown,
        },
{
    let cur = match current_exe {
        Some(p) => p,
        None => return ServiceExecutableMatch::Unknown,
    };
    let reg = match registered_exe {
        Some(p) => p,
        None => return ServiceExecutableMatch::Unknown,
    };
    let a = normalize_resolved_path(platform, cur, current_resolved);
    let b = normalize_resolved_path(platform, reg, registered_resolved);
    compare_normalized_paths(Some(a.as_slice()), Some(b.as_slice()))
}

// ── Backends and privileges ─────────────────────────────────────────────────

/// The service manager: fixed on Windows and macOS; on Linux systemd when
/// `systemctl --version` runs, else OpenRC when `rc-service --version` runs
/// or its directories exist, else unknown.
pub fn service_backend(platform: Platform, systemctl_ok: bool, rc_service_ok: bool, openrc_dirs_exist: bool) -> (r: ServiceBackend)
    ensures
        r == match platform {
            Platform::Windows => ServiceBackend::WindowsService,
            Platform::MacOs => ServiceBackend::Launchd,
            Platform::Other => ServiceBackend::Unknown,
            Platform::Linux => if systemctl_ok {
                ServiceBackend::Systemd
            } else if rc_service_ok || openrc_dirs_exist {
                ServiceBackend::OpenRc
            } else {
                ServiceBackend::Unknown
            },
        },
{
    match platform {
        Platform::Windows => ServiceBackend::WindowsService,
        Platform::MacOs => ServiceBackend::Launchd,
        Platform::Other => ServiceBackend::Unknown,
        Platform::Linux => if systemctl_ok {
            ServiceBackend::Systemd
        } else if rc_service_ok {
            ServiceBackend::OpenRc
        } else if openrc_dirs_exist {
            ServiceBackend::OpenRc
        } else {
            ServiceBackend::Unknown
        },
    }
}

/// How service actions get administrator rights: UAC on Windows; `pkexec`
/// on Linux and `osascript` on macOS when found on `PATH`; otherwise
/// unsupported.
pub fn service_privilege_mode(platform: Platform, elevation_tool_on_path: bool) -> (r: ServicePrivilegeMode)
    ensures
        r == match platform {
            Platform::Windows => ServicePrivilegeMode::Uac,
            Platform::Linux => if elevation_tool_on_path {
                ServicePrivilegeMode::Pkexec
            } else {
                ServicePrivilegeMode::Unsupported
            },
            Platform::MacOs => if elevation_tool_on_path {
                ServicePrivilegeMode::AppleScriptAdmin
            } else {
                ServicePrivilegeMode::Unsupported
            },
            Platform::Other => ServicePrivilegeMode::Unsupported,
        },
{
    match platform {
        Platform::Windows => ServicePrivilegeMode::Uac,
        Platform::Linux => if elevation_tool_on_path {
            ServicePrivilegeMode::Pkexec
        } else {
            ServicePrivilegeMode::Unsupported
        },
        Platform::MacOs => if elevation_tool_on_path {
            ServicePrivilegeMode::AppleScriptAdmin
        } else {
            ServicePrivilegeMode::Unsupported
        },
        Platform::Other => ServicePrivilegeMode::Unsupported,
    }
}

/// The name of the elevation tool looked up on `PATH` for a platform.
pub fn elevation_tool_name(platform: Platform) -> (r: Option<&'static str>)
    ensures
        platform == Platform::Linux ==> (r matches Some(s) && s@ == "pkexec"@),
        platform == Platform::MacOs ==> (r matches Some(s) && s@ == "osascript"@),
        platform == Platform::Windows || platform == Platform::Other ==> r is None,
{
    match platform {
        Platform::Linux => Some("pkexec"),
        Platform::MacOs => Some("osascript"),
        _ => None,
    }
}

// ── Service actions ─────────────────────────────────────────────────────────

/// A service action.
#[derive(Debug, Clone, Copy, PartialEq, Eq, Structural)]
pub enum ServiceAction {
    Install,
    Start,
    Stop,
    Uninstall,
}

/// Why a service action cannot be carried out.
#[derive(Debug, Clone, PartialEq, Eq)]
pub enum ServiceError {
    /// The UI asked for a subcommand that is not a service action.
    UnknownUiCommand { command: String },
    /// No way to get administrator rights on this platform.
    NoElevation { platform: Platform },
    /// The privilege mode does not belong to this platform.
    UnexpectedPrivilegeMode { platform: Platform },
    /// Elevated relaunch exists only on Windows.
    ElevationWindowsOnly,
    /// The Windows service entry point exists only on Windows.
    WindowsServiceOnly,
}

/// The name of a platform in messages.
pub open spec fn platform_name(p: Platform) -> Seq<char> {
    match p {
        Platform::Windows => "Windows"@,
        Platform::Linux => "Linux"@,
        Platform::MacOs => "macOS"@,
        Platform::Other => "this platform"@,
    }
}

/// The text of each service error.
pub open spec fn service_error_message(e: ServiceError) -> Seq<char> {
    match e {
        ServiceError::UnknownUiCommand { command } => "unknown service UI command: "@ + command@,
        ServiceError::NoElevation { platform } => "no supported elevation mechanism available on "@
            + platform_name(platform),
        ServiceError::UnexpectedPrivilegeMode { platform } => "unexpected privilege mode for "@
            + platform_name(platform),
        ServiceError::ElevationWindowsOnly => "Elevated service commands are only available on Windows"@,
        ServiceError::WindowsServiceOnly => "Windows Service mode is only available on Windows"@,
    }
}

fn platform_name_str(p: Platform) -> (r: &'static str)
    ensures
        r@ == platform_name(p),
{
    match p {
        Platform::Windows => "Windows",
        Platform::Linux => "Linux",
        Platform::MacOs => "macOS",
        Platform::Other => "this platform",
    }
}

impl ServiceError {
    /// The error's text.
    pub fn message(&self) -> (r: String)
        ensures
            r@ == service_error_message(*self),
    {
        let mut out: Vec<char> = Vec::new();
        match self {
            ServiceError::UnknownUiCommand { command } => {
                push_str(&mut out, "unknown service UI command: ");
                push_str(&mut out, command.as_str());
            },
            ServiceError::NoElevation { platform } => {
                push_str(&mut out, "no supported elevation mechanism available on ");
                push_str(&mut out, platform_name_str(*platform));
            },
            ServiceError::UnexpectedPrivilegeMode { platform } => {
                push_str(&mut out, "unexpected privilege mode for ");
                push_str(&mut out, platform_name_str(*platform));
            },
            ServiceError::ElevationWindowsOnly => {
                push_str(&mut out, "Elevated service commands are only available on Windows");
            },
            ServiceError::WindowsServiceOnly => {
                push_str(&mut out, "Windows Service mode is only available on Windows");
            },
        }
        string_from_chars(&out)
    }
}

/// The action a UI subcommand names.
pub open spec fn ui_action_spec(sub: Seq<char>) -> Option<ServiceAction> {
    if sub == "service-install"@ {
        Some(ServiceAction::Install)
    } else if sub == "service-start"@ {
        Some(ServiceAction::Start)
    } else if sub == "service-stop"@ {
        Some(ServiceAction::Stop)
    } else if sub == "service-uninstall"@ {
        Some(ServiceAction::Uninstall)
    } else {
        None
    }
}

/// The action a UI subcommand names; any other subcommand is refused.
pub fn validate_service_ui_subcommand(subcommand: &str) -> (r: Result<ServiceAction, ServiceError>)
    ensures
        match ui_action_spec(subcommand@) {
            Some(a) => r == Ok::<ServiceAction, ServiceError>(a),
            None => r matches Err(ServiceError::UnknownUiCommand { command }) && command@
                == subcommand@,
        },
{
    let s = chars_of(subcommand);
    if eq_lit(&s, "service-install") {
        Ok(ServiceAction::Install)
    } else if eq_lit(&s, "service-start") {
        Ok(ServiceAction::Start)
    } else if eq_lit(&s, "service-stop") {
        Ok(ServiceAction::Stop)
    } else if eq_lit(&s, "service-uninstall") {
        Ok(ServiceAction::Uninstall)
    } else {
        Err(ServiceError::UnknownUiCommand { command: subcommand.to_owned() })
    }
}

/// `s` with every `'` doubled (quoting inside a PowerShell single-quoted
/// string).
pub open spec fn ps_escape(s: Seq<char>) -> Seq<char>
    decreases s.len(),
{
    if s.len() == 0 {
        Seq::empty()
    } else if s.last() == '\'' {
        ps_escape(s.drop_last()) + "''"@
    } else {
        ps_escape(s.drop_last()).push(s.last())
    }
}

/// `s` with `\` and `"` escaped by a backslash (inside an AppleScript
/// string).
pub open spec fn applescript_escape(s: Seq<char>) -> Seq<char>
    decreases s.len(),
{
    if s.len() == 0 {
        Seq::empty()
    } else if s.last() == '\\' {
        applescript_escape(s.drop_last()) + "\\\\"@
    } else if s.last() == '"' {
        applescript_escape(s.drop_last()) + "\\\""@
    } else {
        applescript_escape(s.drop_last()).push(s.last())
    }
}

/// `s` with every `'` doubled.
pub fn ps_escape_string(s: &str) -> (r: Vec<char>)
    ensures
        r@ == ps_escape(s@),
{
    let v = chars_of(s);
    let mut out: Vec<char> = Vec::new();
    let mut i: usize = 0;
    while i < v.len()
        invariant
            i <= v@.len(),
            out@ == ps_escape(v@.take(i as int)),
        decreases v@.len() - i,
    {
        assert(v@.take(i + 1).drop_last() =~= v@.take(i as int));
        if v[i] == '\'' {
            push_str(&mut out, "''");
        } else {
            out.push(v[i]);
        }
        i += 1;
    }
    assert(v@.take(v@.len() as int) =~= v@);
    out
}

/// `s` with `\` and `"` escaped (`escape_applescript_string`).
pub fn escape_applescript_string(s: &str) -> (r: String)
    ensures
        r@ == applescript_escape(s@),
{
    let v = chars_of(s);
    let mut out: Vec<char> = Vec::new();
    let mut i: usize = 0;
    while i < v.len()
        invariant
            i <= v@.len(),
            out@ == applescript_escape(v@.take(i as int)),
        decreases v@.len() - i,
    {
        assert(v@.take(i + 1).drop_last() =~= v@.take(i as int));
        if v[i] == '\\' {
            push_str(&mut out, "\\\\");
        } else if v[i] == '"' {
            push_str(&mut out, "\\\"");
        } else {
            out.push(v[i]);
        }
        i += 1;
    }
    assert(v@.take(v@.len() as int) =~= v@);
    string_from_chars(&out)
}

/// The PowerShell command that relaunches `exe` elevated (UAC prompt) with
/// `subcommand` and waits for it.
pub open spec fn powershell_command_spec(exe: Seq<char>, subcommand: Seq<char>) -> Seq<char> {
    "Start-Process -Verb RunAs -FilePath '"@ + ps_escape(exe) + "' -ArgumentList '"@ + ps_escape(
        subcommand,
    ) + "' -Wait"@
}

/// The PowerShell command that relaunches `exe` elevated with `subcommand`.
pub fn powershell_elevation_command(exe: &str, subcommand: &str) -> (r: String)
    ensures
        r@ == powershell_command_spec(exe@, subcommand@),
{
    let mut out: Vec<char> = Vec::new();
    push_str(&mut out, "Start-Process -Verb RunAs -FilePath '");
    let e = ps_escape_string(exe);
    push_all(&mut out, &e);
    push_str(&mut out, "' -ArgumentList '");
    let s = ps_escape_string(subcommand);
    push_all(&mut out, &s);
    push_str(&mut out, "' -Wait");
    string_from_chars(&out)
}

/// The AppleScript that runs `exe --config <cfg> <subcommand>` with
/// administrator privileges.
pub open spec fn applescript_spec(exe: Seq<char>, cfg: Seq<char>, sub: Seq<char>) -> Seq<char> {
    "do shell script quoted form of \""@ + applescript_escape(exe)
        + "\" & \" \" & quoted form of \"--config\" & \" \" & quoted form of \""@
        + applescript_escape(cfg) + "\" & \" \" & quoted form of \""@ + applescript_escape(sub)
        + "\" with administrator privileges"@
}

/// The AppleScript that runs `exe --config <cfg> <subcommand>` as admin.
pub fn applescript_elevation_script(exe: &str, cfg_path: &str, subcommand: &str) -> (r: String)
    ensures
        r@ == applescript_spec(exe@, cfg_path@, subcommand@),
{
    let mut out: Vec<char> = Vec::new();
    push_str(&mut out, "do shell script quoted form of \"");
    push_str(&mut out, escape_applescript_string(exe).as_str());
    push_str(&mut out, "\" & \" \" & quoted form of \"--config\" & \" \" & quoted form of \"");
    push_str(&mut out, escape_applescript_string(cfg_path).as_str());
    push_str(&mut out, "\" & \" \" & quoted form of \"");
    push_str(&mut out, escape_applescript_string(subcommand).as_str());
    push_str(&mut out, "\" with administrator privileges");
    string_from_chars(&out)
}

/// How a service action requested from the UI is carried out.
pub enum ServiceUiPlan {
    /// Run the action in this process.
    Direct(ServiceAction),
    /// Run `powershell -NoProfile -Command <command>` (UAC relaunch).
    PowerShell { command: String },
    /// Run `pkexec` with `args`: `<exe> --config <cfg> <subcommand>`.
    Pkexec { args: Vec<String> },
    /// Run `osascript -e <script>`.
    AppleScript { script: String },
}

/// Decides how the UI carries out a service action: the subcommand must
/// name an action; as root (Linux, macOS) it runs directly; otherwise it is
/// relaunched with the platform's elevation mechanism, and refused when
/// there is none. On other platforms it runs directly.
pub fn plan_service_command_from_ui(
    platform: Platform,
    subcommand: &str,
    is_root: bool,
    mode: ServicePrivilegeMode,
    exe: &str,
    cfg_path: &str,
) -> (r: Result<ServiceUiPlan, ServiceError>)
    ensures
        ui_action_spec(subcommand@) is None ==> (r matches Err(ServiceError::UnknownUiCommand { command })
            && command@ == subcommand@),
        ui_action_spec(subcommand@) matches Some(a) ==> match platform {
            Platform::Windows => match mode {
                ServicePrivilegeMode::Uac => r matches Ok(ServiceUiPlan::PowerShell { command })
                    && command@ == powershell_command_spec(exe@, subcommand@),
                ServicePrivilegeMode::Unsupported => r matches Err(e) && e == (ServiceError::NoElevation { platform }),
                _ => r matches Err(e) && e == (ServiceError::UnexpectedPrivilegeMode { platform }),
            },
            Platform::Linux => if is_root {
                r matches Ok(ServiceUiPlan::Direct(x)) && x == a
            } else {
                match mode {
                    ServicePrivilegeMode::Pkexec => r matches Ok(ServiceUiPlan::Pkexec { args }) && args@.len()
                        == 4 && args@[0]@ == exe@ && args@[1]@ == "--config"@ && args@[2]@ == cfg_path@
                        && args@[3]@ == subcommand@,
                    ServicePrivilegeMode::Unsupported => r matches Err(e) && e == (ServiceError::NoElevation { platform }),
                    _ => r matches Err(e) && e == (ServiceError::UnexpectedPrivilegeMode { platform }),
                }
            },
            Platform::MacOs => if is_root {
                r matches Ok(ServiceUiPlan::Direct(x)) && x == a
            } else {
                match mode {
                    ServicePrivilegeMode::AppleScriptAdmin => r matches Ok(
                        ServiceUiPlan::AppleScript { script },
                    ) && script@ == applescript_spec(exe@, cfg_path@, subcommand@),
                    ServicePrivilegeMode::Unsupported => r matches Err(e) && e == (ServiceError::NoElevation { platform }),
                    _ => r matches Err(e) && e == (ServiceError::UnexpectedPrivilegeMode { platform }),
                }
            },
            Platform::Other => r matches Ok(ServiceUiPlan::Direct(x)) && x == a,
        },
{
    let action = validate_service_ui_subcommand(subcommand)?;
    match platform {
        Platform::Windows => match mode {
            ServicePrivilegeMode::Uac => Ok(
                ServiceUiPlan::PowerShell { command: powershell_elevation_command(exe, subcommand) },
            ),
            ServicePrivilegeMode::Unsupported => Err(ServiceError::NoElevation { platform }),
            _ => Err(ServiceError::UnexpectedPrivilegeMode { platform }),
        },
        Platform::Linux => {
            if is_root {
                return Ok(ServiceUiPlan::Direct(action));
            }
            match mode {
                ServicePrivilegeMode::Pkexec => {
                    let mut args: Vec<String> = Vec::new();
                    args.push(exe.to_owned());
                    args.push("--config".to_owned());
                    args.push(cfg_path.to_owned());
                    args.push(subcommand.to_owned());
                    Ok(ServiceUiPlan::Pkexec { args })
                },
                ServicePrivilegeMode::Unsupported => Err(ServiceError::NoElevation { platform }),
                _ => Err(ServiceError::UnexpectedPrivilegeMode { platform }),
            }
        },
        Platform::MacOs => {
            if is_root {
                return Ok(ServiceUiPlan::Direct(action));
            }
            match mode {
                ServicePrivilegeMode::AppleScriptAdmin => Ok(
                    ServiceUiPlan::AppleScript {
                        script: applescript_elevation_script(exe, cfg_path, subcommand),
                    },
                ),
                ServicePrivilegeMode::Unsupported => Err(ServiceError::NoElevation { platform }),
                _ => Err(ServiceError::UnexpectedPrivilegeMode { platform }),
            }
        },
        Platform::Other => Ok(ServiceUiPlan::Direct(action)),
    }
}

/// Elevated service commands outside Windows: always refused.
pub fn run_service_command_with_privileges(_subcommand: &str) -> (r: Result<(), ServiceError>)
    ensures
        r == Err::<(), ServiceError>(ServiceError::ElevationWindowsOnly),
{
    Err(ServiceError::ElevationWindowsOnly)
}

/// The Windows service entry point outside Windows: always refused.
pub fn run_service_dispatcher() -> (r: Result<(), ServiceError>)
    ensures
        r == Err::<(), ServiceError>(ServiceError::WindowsServiceOnly),
{
    Err(ServiceError::WindowsServiceOnly)
}

// ── Laws ────────────────────────────────────────────────────────────────────

/// Comparing executables does not depend on the order of the two paths, and
/// a path always matches itself.
pub proof fn law_executable_match_symmetric(a: Option<Seq<char>>, b: Option<Seq<char>>)
    ensures
        executable_match_spec(a, b) == executable_match_spec(b, a),
        a is Some ==> executable_match_spec(a, a) == ServiceExecutableMatch::Same,
{
}

} // verus!
