//! Shell dialects and the decoding of their history files into plain
//! commands.

use vstd::prelude::*;
use vstd::string::*;

verus! {

/// The whitespace characters stripped from a decoded fish command.
pub open spec fn is_wsp(c: char) -> bool {
    c == ' ' || c == '\t' || c == '\n' || c == '\r'
}

/// `s` with its leading whitespace removed.
pub open spec fn trim_start_spec(s: Seq<char>) -> Seq<char>
    decreases s.len(),
{
    if s.len() > 0 && is_wsp(s[0]) {
        trim_start_spec(s.subrange(1, s.len() as int))
    } else {
        s
    }
}

/// `s` with its trailing whitespace removed.
pub open spec fn trim_end_spec(s: Seq<char>) -> Seq<char>
    decreases s.len(),
{
    if s.len() > 0 && is_wsp(s[s.len() - 1]) {
        trim_end_spec(s.subrange(0, s.len() - 1))
    } else {
        s
    }
}

/// `s` with whitespace removed from both ends.
pub open spec fn trim_spec(s: Seq<char>) -> Seq<char> {
    trim_end_spec(trim_start_spec(s))
}

proof fn lemma_trim_start_at(s: Seq<char>, a: int)
    requires
        0 <= a <= s.len(),
        forall|j: int| 0 <= j < a ==> is_wsp(s[j]),
        a == s.len() || !is_wsp(s[a]),
    ensures
        trim_start_spec(s) == s.subrange(a, s.len() as int),
    decreases a,
{
    if a == 0 {
        assert(s.subrange(0, s.len() as int) =~= s);
    } else {
        let t = s.subrange(1, s.len() as int);
        lemma_trim_start_at(t, a - 1);
        assert(t.subrange(a - 1, t.len() as int) =~= s.subrange(a, s.len() as int));
    }
}

proof fn lemma_trim_end_at(s: Seq<char>, b: int)
    requires
        0 <= b <= s.len(),
        forall|j: int| b <= j < s.len() ==> is_wsp(s[j]),
        b == 0 || !is_wsp(s[b - 1]),
    ensures
        trim_end_spec(s) == s.subrange(0, b),
    decreases s.len() - b,
{
    if b == s.len() {
        assert(s.subrange(0, b) =~= s);
    } else {
        let t = s.subrange(0, s.len() - 1);
        lemma_trim_end_at(t, b);
        assert(t.subrange(0, b) =~= s.subrange(0, b));
    }
}

/// Whether `c` counts as whitespace for trimming.
fn wsp(c: char) -> (r: bool)
    ensures
        r == is_wsp(c),
{
    c == ' ' || c == '\t' || c == '\n' || c == '\r'
}

/// The characters of `s` with whitespace removed from both ends.
fn trim_chars(s: &str) -> (r: String)
    ensures
        r@ == trim_spec(s@),
{
    let len = s.unicode_len();
    let mut a: usize = 0;
    while a < len && wsp(s.get_char(a))
        invariant
            len == s@.len(),
            0 <= a <= len,
            forall|j: int| 0 <= j < a ==> is_wsp(s@[j]),
        decreases len - a,
    {
        a = a + 1;
    }
    let mut b: usize = len;
    while b > a && wsp(s.get_char(b - 1))
        invariant
            len == s@.len(),
            a <= b <= len,
            forall|j: int| b <= j < len ==> is_wsp(s@[j]),
        decreases b,
    {
        b = b - 1;
    }
    proof {
        lemma_trim_start_at(s@, a as int);
        let u = s@.subrange(a as int, s@.len() as int);
        lemma_trim_end_at(u, b - a);
        assert(u.subrange(0, b - a) =~= s@.subrange(a as int, b as int));
    }
    String::from_str(s.substring_char(a, b))
}

/// The marker a fish history file puts before each recorded command.
pub open spec fn fish_marker() -> Seq<char> {
    "- cmd:"@
}

/// Whether a fish history line records a command.
pub open spec fn is_fish_cmd_line(s: Seq<char>) -> bool {
    s.len() >= fish_marker().len() && s.subrange(0, fish_marker().len() as int) == fish_marker()
}

/// `s` with every leading repetition of the fish command marker removed.
pub open spec fn strip_fish_marker(s: Seq<char>) -> Seq<char>
    decreases s.len(),
{
    if is_fish_cmd_line(s) && fish_marker().len() > 0 {
        strip_fish_marker(s.subrange(fish_marker().len() as int, s.len() as int))
    } else {
        s
    }
}

/// The command a fish history line records: the text after the marker, with
/// surrounding whitespace removed.
pub open spec fn fish_extract(s: Seq<char>) -> Seq<char> {
    trim_spec(strip_fish_marker(s))
}

/// Whether `s` starts with the fish command marker.
fn starts_with_fish_marker(s: &str) -> (r: bool)
    ensures
        r == is_fish_cmd_line(s@),
{
    proof {
        reveal_strlit("- cmd:");
    }
    if s.unicode_len() < 6 {
        return false;
    }
    let r = s.get_char(0) == '-' && s.get_char(1) == ' ' && s.get_char(2) == 'c' && s.get_char(3)
        == 'm' && s.get_char(4) == 'd' && s.get_char(5) == ':';
    proof {
        if r {
            assert(s@.subrange(0, 6) =~= fish_marker());
        } else {
            if s@.subrange(0, 6) == fish_marker() {
                assert(s@.subrange(0, 6)[0] == s@[0]);
                assert(s@.subrange(0, 6)[1] == s@[1]);
                assert(s@.subrange(0, 6)[2] == s@[2]);
                assert(s@.subrange(0, 6)[3] == s@[3]);
                assert(s@.subrange(0, 6)[4] == s@[4]);
                assert(s@.subrange(0, 6)[5] == s@[5]);
                assert(false);
            }
        }
    }
    r
}

/// `s` with every leading repetition of the fish command marker removed.
fn strip_fish_markers<'a>(s: &'a str) -> (r: &'a str)
    ensures
        r@ == strip_fish_marker(s@),
{
    let mut cur = s;
    let mut go = starts_with_fish_marker(cur);
    while go
        invariant
            strip_fish_marker(s@) == strip_fish_marker(cur@),
            go == is_fish_cmd_line(cur@),
        decreases cur@.len(),
    {
        proof {
            reveal_strlit("- cmd:");
        }
        cur = cur.substring_char(6, cur.unicode_len());
        go = starts_with_fish_marker(cur);
    }
    cur
}

/// The index of the first `c` in `s` at or after `i`, or `s`'s length when
/// there is none.
pub open spec fn find_from(s: Seq<char>, c: char, i: int) -> int
    decreases s.len() - i when 0 <= i <= s.len()
{
    if i >= s.len() {
        s.len() as int
    } else if s[i] == c {
        i
    } else {
        find_from(s, c, i + 1)
    }
}

/// The index of the first `c` in `s` at or after `start`, or `s`'s length.
fn find_char(s: &str, c: char, start: usize) -> (r: usize)
    requires
        start <= s@.len(),
    ensures
        r == find_from(s@, c, start as int),
        start <= r <= s@.len(),
{
    let len = s.unicode_len();
    let mut i: usize = start;
    while i < len
        invariant
            len == s@.len(),
            start <= i <= len,
            find_from(s@, c, start as int) == find_from(s@, c, i as int),
        decreases len - i,
    {
        if s.get_char(i) == c {
            return i;
        }
        i = i + 1;
    }
    len
}

/// The command a zsh history line records: the text between the first
/// semicolon and the one after it (or the line's end), or the whole line
/// when it has no semicolon.
pub open spec fn zsh_extract(s: Seq<char>) -> Seq<char> {
    let a = find_from(s, ';', 0);
    if a == s.len() {
        s
    } else {
        s.subrange(a + 1, find_from(s, ';', a + 1))
    }
}

/// The command a zsh history line records.
fn zsh_command_of_line(line: &str) -> (r: String)
    ensures
        r@ == zsh_extract(line@),
{
    let len = line.unicode_len();
    let a = find_char(line, ';', 0);
    if a == len {
        String::from_str(line)
    } else {
        let b = find_char(line, ';', a + 1);
        String::from_str(line.substring_char(a + 1, b))
    }
}

/// A shell dialect, deciding where the history file lives and how its lines
/// encode commands.
#[derive(Clone, Copy, Debug)]
pub enum Shell {
    Fish,
    Bash,
    Zsh,
    Unknown,
}

/// The views of a sequence of strings.
pub open spec fn texts_of(lines: Seq<String>) -> Seq<Seq<char>> {
    Seq::new(lines.len(), |i: int| lines[i]@)
}

/// The commands a fish history holds: one per marker line, in order.
pub open spec fn fish_commands(lines: Seq<Seq<char>>) -> Seq<Seq<char>>
    decreases lines.len(),
{
    if lines.len() == 0 {
        Seq::<Seq<char>>::empty()
    } else {
        let rest = fish_commands(lines.drop_last());
        if is_fish_cmd_line(lines.last()) {
            rest.push(fish_extract(lines.last()))
        } else {
            rest
        }
    }
}

/// Whether `n` occurs contiguously somewhere in `h`.
pub open spec fn contains_seq(h: Seq<char>, n: Seq<char>) -> bool {
    exists|i: int| 0 <= i && i + n.len() <= h.len() && #[trigger] h.subrange(i, i + n.len()) == n
}

impl Shell {
    /// The path of this dialect's history file under the home directory
    /// `home`, or `UnsupportedFormat` when the dialect is unknown.
    pub fn get_history_path(&self, home: &str) -> (r: Result<String, HistoryError>)
        ensures
            self is Fish ==> (r matches Ok(p) && p@ == home@
                + "/.local/share/fish/fish_history"@),
            self is Bash ==> (r matches Ok(p) && p@ == home@ + "/.bash_history"@),
            self is Zsh ==> (r matches Ok(p) && p@ == home@ + "/.zsh_history"@),
            r is Err <==> self is Unknown,
            r is Err ==> r == Err::<String, HistoryError>(HistoryError::UnsupportedFormat),
    {
        match self {
            Shell::Fish => {
                let mut p = String::from_str(home);
                p.append("/.local/share/fish/fish_history");
                Ok(p)
            },
            Shell::Bash => {
                let mut p = String::from_str(home);
                p.append("/.bash_history");
                Ok(p)
            },
            Shell::Zsh => {
                let mut p = String::from_str(home);
                p.append("/.zsh_history");
                Ok(p)
            },
            Shell::Unknown => Err(HistoryError::UnsupportedFormat),
        }
    }

    /// Decodes the lines of this dialect's history file into commands,
    /// oldest first: fish keeps its marker lines, stripped and trimmed; bash
    /// lines are commands as they stand; a zsh line keeps the text between
    /// its first semicolon and the next, or the whole line without one. An
    /// unknown dialect gives `UnsupportedFormat`.
    pub fn get_commands(&self, lines: &Vec<String>) -> (r: Result<Vec<String>, HistoryError>)
        ensures
            self is Fish ==> (r matches Ok(cmds) && texts_of(cmds@) == fish_commands(
                texts_of(lines@),
            )),
            self is Bash ==> (r matches Ok(cmds) && texts_of(cmds@) == texts_of(lines@)),
            self is Zsh ==> (r matches Ok(cmds) && cmds@.len() == lines@.len() && forall|i: int|
                0 <= i < lines@.len() ==> (#[trigger] cmds@[i])@ == zsh_extract(lines@[i]@)),
            r is Err <==> self is Unknown,
            r is Err ==> r == Err::<Vec<String>, HistoryError>(HistoryError::UnsupportedFormat),
    {
        match self {
            Shell::Fish => {
                let mut out: Vec<String> = Vec::new();
                let mut i: usize = 0;
                while i < lines.len()
                    invariant
                        i <= lines@.len(),
                        texts_of(out@) == fish_commands(texts_of(lines@).subrange(0, i as int)),
                    decreases lines@.len() - i,
                {
                    let ghost out0 = out@;
                    let line = &lines[i];
                    if starts_with_fish_marker(line.as_str()) {
                        let cmd = trim_chars(strip_fish_markers(line.as_str()));
                        proof {
                            assert(texts_of(out0.push(cmd)) =~= texts_of(out0).push(cmd@));
                        }
                        out.push(cmd);
                    }
                    proof {
                        let lv = texts_of(lines@);
                        assert(lv.subrange(0, i + 1).drop_last() =~= lv.subrange(0, i as int));
                        assert(lv.subrange(0, i + 1).last() == lines@[i as int]@);
                    }
                    i = i + 1;
                }
                proof {
                    assert(texts_of(lines@).subrange(0, lines@.len() as int) =~= texts_of(
                        lines@,
                    ));
                }
                Ok(out)
            },
            Shell::Bash => {
                let mut out: Vec<String> = Vec::new();
                let mut i: usize = 0;
                while i < lines.len()
                    invariant
                        i <= lines@.len(),
                        out@.len() == i,
                        forall|j: int| 0 <= j < i ==> out@[j] == lines@[j],
                    decreases lines@.len() - i,
                {
                    out.push(lines[i].clone());
                    i = i + 1;
                }
                proof {
                    assert(out@ =~= lines@);
                }
                Ok(out)
            },
            Shell::Zsh => {
                let mut out: Vec<String> = Vec::new();
                let mut i: usize = 0;
                while i < lines.len()
                    invariant
                        i <= lines@.len(),
                        out@.len() == i,
                        forall|j: int|
                            0 <= j < i ==> (#[trigger] out@[j])@ == zsh_extract(lines@[j]@),
                    decreases lines@.len() - i,
                {
                    out.push(zsh_command_of_line(lines[i].as_str()));
                    i = i + 1;
                }
                Ok(out)
            },
            Shell::Unknown => Err(HistoryError::UnsupportedFormat),
        }
    }
}

/// Whether `needle` occurs contiguously in `hay`.
fn contains_str(hay: &str, needle: &str) -> (r: bool)
    ensures
        r == contains_seq(hay@, needle@),
{
    let hl = hay.unicode_len();
    let nl = needle.unicode_len();
    if nl > hl {
        return false;
    }
    if nl == 0 {
        proof {
            let zero: int = 0;
            assert(hay@.subrange(zero, zero + needle@.len() as int) =~= needle@);
        }
        return true;
    }
    let mut i: usize = 0;
    while i <= hl - nl
        invariant
            hl == hay@.len(),
            nl == needle@.len(),
            1 <= nl <= hl,
            0 <= i <= hl - nl + 1,
            forall|j: int| 0 <= j < i ==> #[trigger] hay@.subrange(j, j + nl) != needle@,
        decreases hl - nl + 1 - i,
    {
        let mut k: usize = 0;
        let mut ok = true;
        while k < nl
            invariant
                hl == hay@.len(),
                nl == needle@.len(),
                i + nl <= hl,
                0 <= k <= nl,
                ok ==> forall|t: int| 0 <= t < k ==> hay@[i + t] == needle@[t],
                !ok ==> hay@.subrange(i as int, i + nl) != needle@,
            decreases nl - k,
        {
            if hay.get_char(i + k) != needle.get_char(k) {
                proof {
                    assert(hay@.subrange(i as int, i + nl)[k as int] == hay@[i + k]);
                }
                ok = false;
            }
            k = k + 1;
        }
        if ok {
            proof {
                assert(hay@.subrange(i as int, i + nl) =~= needle@);
            }
            return true;
        }
        i = i + 1;
    }
    proof {
        if contains_seq(hay@, needle@) {
            let w = choose|w: int|
                0 <= w && w + needle@.len() <= hay@.len() && #[trigger] hay@.subrange(
                    w,
                    w + needle@.len(),
                ) == needle@;
            assert(hay@.subrange(w, w + nl) != needle@);
            assert(false);
        }
    }
    false
}

/// Decides the shell dialect from the process table's description of the
/// parent process: the first of `fish`, `bash`, `zsh` that occurs in it
/// wins, and none of them gives `Unknown`.
pub fn detect_shell(ps_output: &str) -> (r: Shell)
    ensures
        r is Fish <==> contains_seq(ps_output@, "fish"@),
        r is Bash <==> (!contains_seq(ps_output@, "fish"@) && contains_seq(ps_output@, "bash"@)),
        r is Zsh <==> (!contains_seq(ps_output@, "fish"@) && !contains_seq(ps_output@, "bash"@)
            && contains_seq(ps_output@, "zsh"@)),
        r is Unknown <==> (!contains_seq(ps_output@, "fish"@) && !contains_seq(
            ps_output@,
            "bash"@,
        ) && !contains_seq(ps_output@, "zsh"@)),
{
    if contains_str(ps_output, "fish") {
        Shell::Fish
    } else if contains_str(ps_output, "bash") {
        Shell::Bash
    } else if contains_str(ps_output, "zsh") {
        Shell::Zsh
    } else {
        Shell::Unknown
    }
}

/// Why no command list could be produced.
#[derive(PartialEq, Eq, Structural, Debug)]
pub enum HistoryError {
    /// The backing history store cannot be located or read.
    SourceUnavailable,
    /// The shell dialect cannot be determined.
    UnsupportedFormat,
}

impl HistoryError {
    /// A human-readable description of the failure.
    pub fn message(&self) -> (r: &'static str)
        ensures
            self is SourceUnavailable ==> r@ == "history file missing or unreadable"@,
            self is UnsupportedFormat ==> r@ == "Unknown shell, unable to determine history file"@,
    {
        match self {
            HistoryError::SourceUnavailable => "history file missing or unreadable",
            HistoryError::UnsupportedFormat => "Unknown shell, unable to determine history file",
        }
    }
}

} // verus!
