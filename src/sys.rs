//! The resolvers of each host fact and the record that gathers them.
use vstd::prelude::*;
use crate::platform::Platform;
use crate::text::{
    after_last, chars_of, contains, contains_seq, first_line, first_line_of, has_any, replace,
    replace_all, split_after_last, string_from_chars, strip_cr, tail_from, without_cr,
};

verus! {

/// The value put in place of a fact that cannot be determined.
pub open spec fn unknown() -> Seq<char> {
    "Unknown"@
}

/// The name given to a Linux system whose distribution cannot be read.
pub open spec fn generic_linux() -> Seq<char> {
    "GNU/Linux"@
}

/// The characters of an optional text.
pub open spec fn opt_view(o: Option<&str>) -> Option<Seq<char>> {
    match o {
        Some(s) => Some(s@),
        None => None,
    }
}

/// Whether a release-info line carries the distribution's display name.
pub open spec fn is_pretty_line(line: Seq<char>) -> bool {
    line.len() > 0 && line[0] == 'P' && contains_seq(line, "PRETTY_NAME=\""@)
}

/// The display name on such a line: the key and every quote taken out.
pub open spec fn pretty_value(line: Seq<char>) -> Seq<char> {
    replace_all(replace_all(line, "PRETTY_NAME="@, Seq::empty()), "\""@, Seq::empty())
}

/// The display name on the first line of `s` that carries one.
pub open spec fn distro_in(s: Seq<char>) -> Option<Seq<char>>
    decreases s.len(),
{
    let line = first_line(s);
    if is_pretty_line(without_cr(line)) {
        Some(pretty_value(without_cr(line)))
    } else if line.len() < s.len() {
        distro_in(s.skip(line.len() as int + 1))
    } else {
        None
    }
}

/// The distribution name read from the release-info file's contents
/// (`None` when the file is absent or unreadable).
pub open spec fn distro_name(contents: Option<Seq<char>>) -> Seq<char> {
    match contents {
        Some(c) => match distro_in(c) {
            Some(v) => v,
            None => generic_linux(),
        },
        None => generic_linux(),
    }
}

/// Proves that the first line of `s` is no longer than `s`.
proof fn lemma_first_line_len(s: Seq<char>)
    ensures
        first_line(s).len() <= s.len(),
    decreases s.len(),
{
    if s.len() > 0 && s[0] != '\n' {
        lemma_first_line_len(s.skip(1));
    }
}

/// A string holding `s`.
fn text(s: &str) -> (r: String)
    ensures
        r@ == s@,
{
    string_from_chars(&chars_of(s))
}

/// Reads the distribution's display name from the contents of an
/// `os-release` file: the value of the first line that starts with `P` and
/// holds `PRETTY_NAME="`, with the key and its quotes removed. `None`, or a
/// file without such a line, gives `GNU/Linux`.
pub fn get_linux_distro(contents: Option<&str>) -> (r: String)
    ensures
        r@ == distro_name(opt_view(contents)),
{
    match contents {
        None => text("GNU/Linux"),
        Some(c) => {
            let key = chars_of("PRETTY_NAME=\"");
            let bare_key = chars_of("PRETTY_NAME=");
            let quote = chars_of("\"");
            proof {
                reveal_strlit("PRETTY_NAME=");
                reveal_strlit("\"");
            }
            let empty: Vec<char> = Vec::new();
            let mut rest = chars_of(c);
            while rest.len() > 0
                invariant
                    key@ == "PRETTY_NAME=\""@,
                    bare_key@ == "PRETTY_NAME="@,
                    quote@ == "\""@,
                    bare_key@.len() > 0,
                    quote@.len() > 0,
                    empty@ == Seq::<char>::empty(),
                    opt_view(contents) == Some(c@),
                    distro_in(c@) == distro_in(rest@),
                decreases rest.len(),
            {
                let mut line = first_line_of(&rest);
                proof {
                    lemma_first_line_len(rest@);
                }
                let n = line.len();
                strip_cr(&mut line);
                if line.len() > 0 && line[0] == 'P' && contains(&line, &key) {
                    let v = replace(&replace(&line, &bare_key, &empty), &quote, &empty);
                    return string_from_chars(&v);
                }
                if n < rest.len() {
                    rest = tail_from(&rest, n + 1);
                } else {
                    return text("GNU/Linux");
                }
            }
            text("GNU/Linux")
        },
    }
}

/// The display name of the operating system on `platform`; on Linux, the
/// distribution named in the release-info contents.
pub open spec fn os_name_of(platform: Platform, os_release: Option<Seq<char>>) -> Seq<char> {
    match platform {
        Platform::Windows => "Windows"@,
        Platform::MacOs => "macOS"@,
        Platform::Ios => "iOS"@,
        Platform::Linux => distro_name(os_release),
        Platform::Android => "Android"@,
        Platform::FreeBsd => "FreeBSD"@,
        Platform::DragonFly => "DragonflyBSD"@,
        Platform::OpenBsd => "OpenBSD"@,
        Platform::NetBsd => "NetBSD"@,
        Platform::Other => unknown(),
    }
}

/// The kernel version in the output of the kernel-release query (`None`
/// when the query could not be run or its output was not text): the part of
/// its first line after the last hyphen. Output without a hyphen, or with
/// nothing after the last one, gives the unknown value.
pub open spec fn kernel_version_of(output: Option<Seq<char>>) -> Seq<char> {
    match output {
        Some(o) => {
            let line = without_cr(first_line(o));
            let tail = after_last(line, seq!['-']);
            if has_any(line, seq!['-']) && tail.len() > 0 {
                tail
            } else {
                unknown()
            }
        },
        None => unknown(),
    }
}

/// The kernel's display name on `platform`; on Linux and Android, the
/// version read from the kernel-release query's output.
pub open spec fn kernel_of(platform: Platform, output: Option<Seq<char>>) -> Seq<char> {
    match platform {
        Platform::Windows => "NT"@,
        Platform::MacOs | Platform::Ios => "XNU"@,
        Platform::Linux | Platform::Android => kernel_version_of(output),
        Platform::FreeBsd | Platform::DragonFly | Platform::OpenBsd | Platform::NetBsd => "BSD"@,
        Platform::Other => unknown(),
    }
}

/// The base name of the shell in the value of `SHELL` (`None` when the
/// variable is unset): what follows its last `/` or space.
pub open spec fn shell_name_of(value: Option<Seq<char>>) -> Seq<char> {
    match value {
        Some(v) => after_last(v, seq!['/', ' ']),
        None => unknown(),
    }
}

/// `s` with its English unit words put in Turkish, longer forms first.
pub open spec fn translate_units(s: Seq<char>) -> Seq<char> {
    let s1 = replace_all(s, "hours"@, "saat"@);
    let s2 = replace_all(s1, "hour"@, "saat"@);
    let s3 = replace_all(s2, "minutes"@, "dakkikadir"@);
    let s4 = replace_all(s3, "minute"@, "dakkikadir"@);
    let s5 = replace_all(s4, "days"@, "gün"@);
    replace_all(s5, "day"@, "gün"@)
}

/// The uptime phrase made from the output of the uptime query (`None` when
/// the query could not be run or its output was not text): unit words
/// translated, then every `up ` and every line feed removed.
pub open spec fn uptime_of(output: Option<Seq<char>>) -> Seq<char> {
    match output {
        Some(o) => replace_all(
            replace_all(translate_units(o), "up "@, Seq::empty()),
            "\n"@,
            Seq::empty(),
        ),
        None => unknown(),
    }
}

/// An identity read from an environment variable, or the unknown value when
/// the variable is unset.
pub open spec fn identity_of(value: Option<Seq<char>>) -> Seq<char> {
    match value {
        Some(v) => v,
        None => unknown(),
    }
}

/// The display name of the operating system on `platform`. On Linux it is
/// read from `os_release`, the contents of the release-info file (`None`
/// when the file is absent); a platform outside the table gives `Unknown`.
pub fn get_os(platform: Platform, os_release: Option<&str>) -> (r: String)
    ensures
        r@ == os_name_of(platform, opt_view(os_release)),
{
    match platform {
        Platform::Windows => text("Windows"),
        Platform::MacOs => text("macOS"),
        Platform::Ios => text("iOS"),
        Platform::Linux => get_linux_distro(os_release),
        Platform::Android => text("Android"),
        Platform::FreeBsd => text("FreeBSD"),
        Platform::DragonFly => text("DragonflyBSD"),
        Platform::OpenBsd => text("OpenBSD"),
        Platform::NetBsd => text("NetBSD"),
        Platform::Other => text("Unknown"),
    }
}

/// The kernel version in the output of `uname -r`: the segment after the
/// last hyphen of its first line, or `Unknown` when the query failed or its
/// output has no such segment.
pub fn get_kernel_version(output: Option<&str>) -> (r: String)
    ensures
        r@ == kernel_version_of(opt_view(output)),
{
    match output {
        None => text("Unknown"),
        Some(o) => {
            let mut line = first_line_of(&chars_of(o));
            strip_cr(&mut line);
            let hyphen = chars_of("-");
            proof {
                reveal_strlit("-");
                assert(hyphen@ =~= seq!['-']);
            }
            let (tail, found) = split_after_last(&line, &hyphen);
            if found && tail.len() > 0 {
                string_from_chars(&tail)
            } else {
                text("Unknown")
            }
        },
    }
}

/// The kernel's display name on `platform`; on Linux and Android, the
/// version in `uname_output`, the output of `uname -r`.
pub fn get_kernel(platform: Platform, uname_output: Option<&str>) -> (r: String)
    ensures
        r@ == kernel_of(platform, opt_view(uname_output)),
{
    match platform {
        Platform::Windows => text("NT"),
        Platform::MacOs | Platform::Ios => text("XNU"),
        Platform::Linux | Platform::Android => get_kernel_version(uname_output),
        Platform::FreeBsd | Platform::DragonFly | Platform::OpenBsd | Platform::NetBsd => text(
            "BSD",
        ),
        Platform::Other => text("Unknown"),
    }
}

/// The environment variable that names the user on `platform`.
pub fn username_var(platform: Platform) -> (r: &'static str)
    ensures
        platform == Platform::Linux ==> r@ == "USER"@,
        platform != Platform::Linux ==> r@ == "USERNAME"@,
{
    match platform {
        Platform::Linux => "USER",
        _ => "USERNAME",
    }
}

/// The environment variable that names the machine on `platform`.
pub fn hostname_var(platform: Platform) -> (r: &'static str)
    ensures
        platform == Platform::Linux ==> r@ == "HOSTNAME"@,
        platform != Platform::Linux ==> r@ == "COMPUTERNAME"@,
{
    match platform {
        Platform::Linux => "HOSTNAME",
        _ => "COMPUTERNAME",
    }
}

/// The user's name, from the value of the variable that `username_var`
/// names; `Unknown` when it is unset.
pub fn get_username(value: Option<&str>) -> (r: String)
    ensures
        r@ == identity_of(opt_view(value)),
{
    match value {
        Some(v) => text(v),
        None => text("Unknown"),
    }
}

/// The machine's name, from the value of the variable that `hostname_var`
/// names; `Unknown` when it is unset.
pub fn get_hostname(value: Option<&str>) -> (r: String)
    ensures
        r@ == identity_of(opt_view(value)),
{
    match value {
        Some(v) => text(v),
        None => text("Unknown"),
    }
}

/// The base name of the shell named by the value of `SHELL`; `Unknown` when
/// the variable is unset.
pub fn get_shell(value: Option<&str>) -> (r: String)
    ensures
        r@ == shell_name_of(opt_view(value)),
{
    match value {
        None => text("Unknown"),
        Some(v) => {
            let seps: Vec<char> = vec!['/', ' '];
            assert(seps@ =~= seq!['/', ' ']);
            let (tail, _found) = split_after_last(&chars_of(v), &seps);
            string_from_chars(&tail)
        },
    }
}

/// Puts every occurrence of the non-empty literal `pat` in `s` as `rep`.
fn replace_text(s: &Vec<char>, pat: &str, rep: &str) -> (r: Vec<char>)
    requires
        pat@.len() > 0,
    ensures
        r@ == replace_all(s@, pat@, rep@),
{
    replace(s, &chars_of(pat), &chars_of(rep))
}

/// The uptime phrase made from the output of `uptime -p`: hours, minutes
/// and days named in Turkish, the leading `up ` and line feeds removed;
/// `Unknown` when the query failed.
pub fn get_syszaman(output: Option<&str>) -> (r: String)
    ensures
        r@ == uptime_of(opt_view(output)),
{
    match output {
        None => text("Unknown"),
        Some(o) => {
            proof {
                reveal_strlit("hours");
                reveal_strlit("hour");
                reveal_strlit("minutes");
                reveal_strlit("minute");
                reveal_strlit("days");
                reveal_strlit("day");
                reveal_strlit("up ");
                reveal_strlit("\n");
            }
            let s = chars_of(o);
            let s = replace_text(&s, "hours", "saat");
            let s = replace_text(&s, "hour", "saat");
            let s = replace_text(&s, "minutes", "dakkikadir");
            let s = replace_text(&s, "minute", "dakkikadir");
            let s = replace_text(&s, "days", "gün");
            let s = replace_text(&s, "day", "gün");
            let s = replace_text(&s, "up ", "");
            let s = replace_text(&s, "\n", "");
            proof {
                reveal_strlit("");
                assert(""@ =~= Seq::<char>::empty());
            }
            string_from_chars(&s)
        },
    }
}

/// The six host facts, each as display text.
pub struct SystemInfos {
    pub os_name: String,
    pub kernel: String,
    pub username: String,
    pub hostname: String,
    pub shell: String,
    pub uptime: String,
}

/// What the caller observed on the machine, each reading `None` where it
/// could not be had.
pub struct Readings {
    /// The platform the facts are resolved for.
    pub platform: Platform,
    /// The contents of `/etc/os-release`.
    pub os_release: Option<String>,
    /// The output of `uname -r`.
    pub kernel_release: Option<String>,
    /// The output of `uptime -p`.
    pub uptime: Option<String>,
    /// The value of the variable that `username_var` names.
    pub username: Option<String>,
    /// The value of the variable that `hostname_var` names.
    pub hostname: Option<String>,
    /// The value of `SHELL`.
    pub shell: Option<String>,
}

/// The characters of an optional string.
pub open spec fn opt_string_view(o: Option<String>) -> Option<Seq<char>> {
    match o {
        Some(s) => Some(s@),
        None => None,
    }
}

/// `s`, or the unknown value when `s` is empty.
pub open spec fn filled(s: Seq<char>) -> Seq<char> {
    if s.len() == 0 {
        unknown()
    } else {
        s
    }
}

/// Whether `info` is the record that `readings` resolve to.
pub open spec fn resolves_to(readings: Readings, info: SystemInfos) -> bool {
    &&& info.os_name@ == filled(os_name_of(readings.platform, opt_string_view(readings.os_release)))
    &&& info.kernel@ == filled(
        kernel_of(readings.platform, opt_string_view(readings.kernel_release)),
    )
    &&& info.username@ == filled(identity_of(opt_string_view(readings.username)))
    &&& info.hostname@ == filled(identity_of(opt_string_view(readings.hostname)))
    &&& info.shell@ == filled(shell_name_of(opt_string_view(readings.shell)))
    &&& info.uptime@ == filled(uptime_of(opt_string_view(readings.uptime)))
}

/// Whether every field of `info` holds some text.
pub open spec fn all_filled(info: SystemInfos) -> bool {
    &&& info.os_name@.len() > 0
    &&& info.kernel@.len() > 0
    &&& info.username@.len() > 0
    &&& info.hostname@.len() > 0
    &&& info.shell@.len() > 0
    &&& info.uptime@.len() > 0
}

/// The string slice of an optional string.
fn as_opt_str(o: &Option<String>) -> (r: Option<&str>)
    ensures
        opt_view(r) == opt_string_view(*o),
{
    match o {
        Some(s) => Some(s.as_str()),
        None => None,
    }
}

/// `s`, or `Unknown` in place of an empty `s`.
fn or_unknown(s: String) -> (r: String)
    ensures
        r@ == filled(s@),
        r@.len() > 0,
{
    proof {
        reveal_strlit("Unknown");
    }
    if s.as_str().is_empty() {
        text("Unknown")
    } else {
        assert(s@.len() > 0);
        s
    }
}

/// Resolves every host fact from `readings`. No field of the record is
/// left empty: a fact that cannot be determined reads `Unknown`.
pub fn init(readings: &Readings) -> (r: SystemInfos)
    ensures
        resolves_to(*readings, r),
        all_filled(r),
{
    SystemInfos {
        os_name: or_unknown(get_os(readings.platform, as_opt_str(&readings.os_release))),
        kernel: or_unknown(get_kernel(readings.platform, as_opt_str(&readings.kernel_release))),
        username: or_unknown(get_username(as_opt_str(&readings.username))),
        hostname: or_unknown(get_hostname(as_opt_str(&readings.hostname))),
        shell: or_unknown(get_shell(as_opt_str(&readings.shell))),
        uptime: or_unknown(get_syszaman(as_opt_str(&readings.uptime))),
    }
}

} // verus!
