//! Workspace catalog and resolution: socket paths under the run root,
//! the configuration-file scan for a preferred workspace, the known-workspace
//! listing, and the selection precedence.
use vstd::prelude::*;

use crate::json::str_eq;
use crate::protocol::{WorkspaceInfo, WorkspacesList};
use vstd::string::StrSliceExecFns;
use vstd::string::StringExecFns;

verus! {

/// Run root under a home directory: `<home>/.yai/run`.
pub open spec fn spec_run_root(home: Seq<char>) -> Seq<char> {
    home + "/.yai/run"@
}

/// Where a workspace's control socket lives: `<run-root>/<ws>/control.sock`.
pub open spec fn spec_socket_path(home: Seq<char>, ws: Seq<char>) -> Seq<char> {
    spec_run_root(home) + "/"@ + ws + "/control.sock"@
}

/// The per-user run directory that socket paths are rooted at.
pub fn run_root(home: &str) -> (r: String)
    ensures
        r@ == spec_run_root(home@),
{
    let mut s = String::from_str(home);
    s.append("/.yai/run");
    s
}

/// The control-socket path of one workspace.
pub fn socket_path_for_ws(home: &str, ws: &str) -> (r: String)
    ensures
        r@ == spec_socket_path(home@, ws@),
{
    let mut s = run_root(home);
    s.append("/");
    s.append(ws);
    s.append("/control.sock");
    proof {
        assert(s@ =~= spec_socket_path(home@, ws@));
    }
    s
}

/// The whitespace the configuration scan strips: blanks, tabs and line ends.
pub open spec fn spec_is_space(c: char) -> bool {
    c == ' ' || c == '\t' || c == '\r' || c == '\n'
}

fn is_space(c: char) -> (r: bool)
    ensures
        r == spec_is_space(c),
{
    c == ' ' || c == '\t' || c == '\r' || c == '\n'
}

/// First index at or after `i` whose character fails `space`, scanning
/// forward; the length when all of them pass.
pub open spec fn spec_scan_start(s: Seq<char>, i: int) -> int
    decreases s.len() - i,
{
    if i < 0 || i >= s.len() {
        s.len() as int
    } else if spec_is_space(s[i]) {
        spec_scan_start(s, i + 1)
    } else {
        i
    }
}

/// Index just past the last non-space character strictly before `i`,
/// scanning backward; zero when all of them are spaces.
pub open spec fn spec_scan_end(s: Seq<char>, i: int) -> int
    decreases i,
{
    if i <= 0 || i > s.len() {
        0
    } else if spec_is_space(s[i - 1]) {
        spec_scan_end(s, i - 1)
    } else {
        i
    }
}

/// What `str::trim` leaves: the contents between the outermost non-space
/// characters.
pub open spec fn spec_trim(s: Seq<char>) -> Seq<char> {
    let a = spec_scan_start(s, 0);
    let b = spec_scan_end(s, s.len() as int);
    if a <= b {
        s.subrange(a, b)
    } else {
        Seq::empty()
    }
}

proof fn lemma_scan_start_bounds(s: Seq<char>, i: int)
    requires
        0 <= i <= s.len(),
    ensures
        i <= spec_scan_start(s, i) <= s.len(),
    decreases s.len() - i,
{
    if i < s.len() && spec_is_space(s[i]) {
        lemma_scan_start_bounds(s, i + 1);
    }
}

proof fn lemma_scan_end_bounds(s: Seq<char>, i: int)
    requires
        0 <= i <= s.len(),
    ensures
        0 <= spec_scan_end(s, i) <= i,
    decreases i,
{
    if i > 0 && spec_is_space(s[i - 1]) {
        lemma_scan_end_bounds(s, i - 1);
    }
}

/// `str::trim`, proved against `spec_trim`.
pub fn trim_str<'a>(s: &'a str) -> (r: &'a str)
    ensures
        r@ == spec_trim(s@),
{
    let n = s.unicode_len();
    let mut a: usize = 0;
    while a < n && is_space(s.get_char(a))
        invariant
            0 <= a <= n,
            n == s@.len(),
            spec_scan_start(s@, 0) == spec_scan_start(s@, a as int),
        decreases n - a,
    {
        a = a + 1;
    }
    proof {
        lemma_scan_start_bounds(s@, a as int);
        assert(spec_scan_start(s@, a as int) == a as int);
    }
    let mut b: usize = n;
    while b > a && is_space(s.get_char(b - 1))
        invariant
            a <= b <= n,
            n == s@.len(),
            spec_scan_end(s@, n as int) == spec_scan_end(s@, b as int),
        decreases b,
    {
        b = b - 1;
    }
    proof {
        lemma_scan_end_bounds(s@, b as int);
        if b > a {
            assert(spec_scan_end(s@, b as int) == b as int);
        } else {
            // everything from `a` on is space, so the backward scan passes `a`
            assert(spec_scan_end(s@, b as int) <= b as int);
        }
    }
    let r = s.substring_char(a, b);
    proof {
        if b > a {
            assert(r@ =~= spec_trim(s@));
        } else {
            assert(r@ =~= spec_trim(s@));
        }
    }
    r
}

/// Forward scan past leading occurrences of one character.
pub open spec fn spec_scan_char_start(s: Seq<char>, i: int, c: char) -> int
    decreases s.len() - i,
{
    if i < 0 || i >= s.len() {
        s.len() as int
    } else if s[i] == c {
        spec_scan_char_start(s, i + 1, c)
    } else {
        i
    }
}

/// Backward scan past trailing occurrences of one character.
pub open spec fn spec_scan_char_end(s: Seq<char>, i: int, c: char) -> int
    decreases i,
{
    if i <= 0 || i > s.len() {
        0
    } else if s[i - 1] == c {
        spec_scan_char_end(s, i - 1, c)
    } else {
        i
    }
}

/// What `str::trim_matches(c)` leaves: the contents between the outermost
/// characters that differ from `c`.
pub open spec fn spec_trim_char(s: Seq<char>, c: char) -> Seq<char> {
    let a = spec_scan_char_start(s, 0, c);
    let b = spec_scan_char_end(s, s.len() as int, c);
    if a <= b {
        s.subrange(a, b)
    } else {
        Seq::empty()
    }
}

proof fn lemma_scan_char_start_bounds(s: Seq<char>, i: int, c: char)
    requires
        0 <= i <= s.len(),
    ensures
        i <= spec_scan_char_start(s, i, c) <= s.len(),
    decreases s.len() - i,
{
    if i < s.len() && s[i] == c {
        lemma_scan_char_start_bounds(s, i + 1, c);
    }
}

proof fn lemma_scan_char_end_bounds(s: Seq<char>, i: int, c: char)
    requires
        0 <= i <= s.len(),
    ensures
        0 <= spec_scan_char_end(s, i, c) <= i,
    decreases i,
{
    if i > 0 && s[i - 1] == c {
        lemma_scan_char_end_bounds(s, i - 1, c);
    }
}

/// `str::trim_matches(c)`, proved against `spec_trim_char`.
pub fn trim_char_str<'a>(s: &'a str, c: char) -> (r: &'a str)
    ensures
        r@ == spec_trim_char(s@, c),
{
    let n = s.unicode_len();
    let mut a: usize = 0;
    while a < n && s.get_char(a) == c
        invariant
            0 <= a <= n,
            n == s@.len(),
            spec_scan_char_start(s@, 0, c) == spec_scan_char_start(s@, a as int, c),
        decreases n - a,
    {
        a = a + 1;
    }
    proof {
        lemma_scan_char_start_bounds(s@, a as int, c);
        assert(spec_scan_char_start(s@, a as int, c) == a as int);
    }
    let mut b: usize = n;
    while b > a && s.get_char(b - 1) == c
        invariant
            a <= b <= n,
            n == s@.len(),
            spec_scan_char_end(s@, n as int, c) == spec_scan_char_end(s@, b as int, c),
        decreases b,
    {
        b = b - 1;
    }
    proof {
        lemma_scan_char_end_bounds(s@, b as int, c);
    }
    let r = s.substring_char(a, b);
    proof {
        assert(r@ =~= spec_trim_char(s@, c));
    }
    r
}

/// First index at or after `i` holding `c`; the length when there is none.
pub open spec fn spec_find(s: Seq<char>, c: char, i: int) -> int
    decreases s.len() - i,
{
    if i < 0 || i >= s.len() {
        s.len() as int
    } else if s[i] == c {
        i
    } else {
        spec_find(s, c, i + 1)
    }
}

fn find_char(s: &str, c: char, from: usize) -> (r: usize)
    requires
        from <= s@.len(),
    ensures
        r as int == spec_find(s@, c, from as int),
        from <= r <= s@.len(),
        r < s@.len() ==> s@[r as int] == c,
{
    let n = s.unicode_len();
    let mut j = from;
    while j < n && s.get_char(j) != c
        invariant
            from <= j <= n,
            n == s@.len(),
            spec_find(s@, c, from as int) == spec_find(s@, c, j as int),
        decreases n - j,
    {
        j = j + 1;
    }
    j
}

/// Prefix test on character sequences.
pub open spec fn spec_starts_with(s: Seq<char>, p: Seq<char>) -> bool {
    s.len() >= p.len() && s.subrange(0, p.len() as int) == p
}

fn starts_with_str(s: &str, p: &str) -> (r: bool)
    ensures
        r == spec_starts_with(s@, p@),
{
    let pn = p.unicode_len();
    let sn = s.unicode_len();
    if sn < pn {
        return false;
    }
    for i in 0..pn
        invariant
            pn == p@.len(),
            sn == s@.len(),
            sn >= pn,
            forall|k: int| 0 <= k < i ==> s@[k] == p@[k],
    {
        if s.get_char(i) != p.get_char(i) {
            proof {
                assert(s@.subrange(0, pn as int)[i as int] != p@[i as int]);
            }
            return false;
        }
    }
    proof {
        assert(s@.subrange(0, pn as int) =~= p@);
    }
    true
}

/// What the scan makes of one configuration line.
pub enum SpecLineResult {
    /// Blank, a comment, not a workspace key, or an empty value.
    Skip,
    /// A workspace key without `=`: the whole scan stops empty-handed.
    Abort,
    /// A workspace key with a non-empty (possibly quoted) value.
    Found(Seq<char>),
}

/// One line of the configuration scan: trim, skip blanks and `#` comments,
/// require a `ws`/`workspace` key, split at the first `=`, strip double then
/// single quotes, and accept a non-empty value.
pub open spec fn spec_parse_line(line: Seq<char>) -> SpecLineResult {
    let t = spec_trim(line);
    if t.len() == 0 {
        SpecLineResult::Skip
    } else if t[0] == '#' {
        SpecLineResult::Skip
    } else if !(spec_starts_with(t, "ws"@) || spec_starts_with(t, "workspace"@)) {
        SpecLineResult::Skip
    } else {
        let e = spec_find(t, '=', 0);
        if e >= t.len() {
            SpecLineResult::Abort
        } else {
            let raw = spec_trim(t.subrange(e + 1, t.len() as int));
            let q = spec_trim_char(spec_trim_char(raw, '"'), '\'');
            if q.len() > 0 {
                SpecLineResult::Found(q)
            } else {
                SpecLineResult::Skip
            }
        }
    }
}

/// The scan from position `p` on: line by line, first hit wins.
pub open spec fn spec_parse_ws_config(s: Seq<char>, p: int) -> Option<Seq<char>>
    decreases s.len() - p,
{
    if p < 0 || p > s.len() {
        None
    } else if !(p <= spec_find(s, '\n', p) <= s.len()) {
        // never taken: a find result lies between its start and the length
        None
    } else {
        let q = spec_find(s, '\n', p);
        match spec_parse_line(s.subrange(p, q)) {
            SpecLineResult::Found(v) => Some(v),
            SpecLineResult::Abort => None,
            SpecLineResult::Skip => {
                if q >= s.len() {
                    None
                } else {
                    spec_parse_ws_config(s, q + 1)
                }
            },
        }
    }
}

/// What the whole configuration text yields.
pub open spec fn spec_parse_workspace(s: Seq<char>) -> Option<Seq<char>> {
    spec_parse_ws_config(s, 0)
}

/// Scans configuration text, line by line, for the first `ws`/`workspace`
/// key and returns its value; a workspace key without `=` stops the scan.
pub fn parse_workspace_from_toml(content: &str) -> (r: Option<String>)
    ensures
        match r {
            Some(v) => spec_parse_workspace(content@) == Some(v@),
            None => spec_parse_workspace(content@) is None,
        },
{
    let n = content.unicode_len();
    let mut p: usize = 0;
    loop
        invariant
            p <= n,
            n == content@.len(),
            spec_parse_workspace(content@) == spec_parse_ws_config(content@, p as int),
        decreases n - p,
    {
        let q = find_char(content, '\n', p);
        let line = content.substring_char(p, q);
        let ghost line_v = content@.subrange(p as int, q as int);
        let t = trim_str(line);
        let tlen = t.unicode_len();
        let mut matched = false;
        if tlen == 0 {
        } else if t.get_char(0) == '#' {
        } else if !(starts_with_str(t, "ws") || starts_with_str(t, "workspace")) {
        } else {
            matched = true;
        }
        if matched {
            let e = find_char(t, '=', 0);
            if e >= tlen {
                proof {
                    assert(spec_parse_line(line_v) is Abort);
                }
                return None;
            }
            let raw = trim_str(t.substring_char(e + 1, tlen));
            let q1 = trim_char_str(raw, '"');
            let q2 = trim_char_str(q1, '\'');
            if q2.unicode_len() > 0 {
                let out: String = q2.to_owned();
                proof {
                    assert(spec_parse_line(line_v) == SpecLineResult::Found(out@));
                }
                return Some(out);
            }
        }
        proof {
            assert(spec_parse_line(line_v) is Skip);
        }
        if q >= n {
            return None;
        }
        p = q + 1;
    }
}

/// First configuration candidate (in order) whose text yields a workspace.
/// A candidate is `None` when its file could not be read.
pub open spec fn spec_first_config_ws(contents: Seq<Option<Seq<char>>>, i: int) -> Option<
    Seq<char>,
>
    decreases contents.len() - i,
{
    if i < 0 || i >= contents.len() {
        None
    } else {
        match contents[i] {
            Some(c) => match spec_parse_workspace(c) {
                Some(w) => Some(w),
                None => spec_first_config_ws(contents, i + 1),
            },
            None => spec_first_config_ws(contents, i + 1),
        }
    }
}

/// Scans the readable configuration candidates, in order, and returns the
/// first workspace hint any of them yields.
pub fn ws_from_configs(contents: &Vec<Option<String>>) -> (r: Option<String>)
    ensures
        match r {
            Some(v) => spec_first_config_ws(contents.deep_view(), 0) == Some(v@),
            None => spec_first_config_ws(contents.deep_view(), 0) is None,
        },
{
    let ghost dv = contents.deep_view();
    let n = contents.len();
    proof {
        assert(dv.len() == n);
    }
    for i in 0..n
        invariant
            n == contents.len(),
            dv == contents.deep_view(),
            dv.len() == n,
            spec_first_config_ws(dv, 0) == spec_first_config_ws(dv, i as int),
    {
        proof {
            assert(dv[i as int] == match contents@[i as int] {
                Some(s) => Some(s@),
                None => None::<Seq<char>>,
            });
        }
        match &contents[i] {
            Some(content) => {
                match parse_workspace_from_toml(content.as_str()) {
                    Some(w) => {
                        return Some(w);
                    },
                    None => {},
                }
            },
            None => {},
        }
    }
    None
}

/// The identifiers every catalog starts with.
pub open spec fn spec_baseline() -> Seq<Seq<char>> {
    seq!["dev"@, "stage"@, "prod"@]
}

/// Folds discovered names onto an accumulator, keeping first occurrences.
pub open spec fn spec_merge_known(acc: Seq<Seq<char>>, discovered: Seq<Seq<char>>, i: int) -> Seq<
    Seq<char>,
>
    decreases discovered.len() - i,
{
    if i < 0 || i >= discovered.len() {
        acc
    } else {
        let acc2 = if acc.contains(discovered[i]) {
            acc
        } else {
            acc.push(discovered[i])
        };
        spec_merge_known(acc2, discovered, i + 1)
    }
}

/// The catalog for a set of discovered run-directory names: the baseline
/// identifiers first, then each new name in discovery order.
pub open spec fn spec_known_workspaces(discovered: Seq<Seq<char>>) -> Seq<Seq<char>> {
    spec_merge_known(spec_baseline(), discovered, 0)
}

proof fn lemma_merge_keeps_prefix(acc: Seq<Seq<char>>, discovered: Seq<Seq<char>>, i: int)
    ensures
        spec_merge_known(acc, discovered, i).len() >= acc.len(),
        forall|k: int|
            0 <= k < acc.len() ==> spec_merge_known(acc, discovered, i)[k] == acc[k],
    decreases discovered.len() - i,
{
    if 0 <= i < discovered.len() {
        let acc2 = if acc.contains(discovered[i]) {
            acc
        } else {
            acc.push(discovered[i])
        };
        lemma_merge_keeps_prefix(acc2, discovered, i + 1);
    }
}

fn vec_contains_str(v: &Vec<String>, x: &String) -> (r: bool)
    ensures
        r == v.deep_view().contains(x@),
{
    let n = v.len();
    for i in 0..n
        invariant
            n == v.len(),
            forall|k: int| 0 <= k < i ==> v.deep_view()[k] != x@,
    {
        if str_eq(v[i].as_str(), x.as_str()) {
            proof {
                assert(v.deep_view()[i as int] == x@);
            }
            return true;
        }
    }
    proof {
        assert(forall|k: int| 0 <= k < v.deep_view().len() ==> v.deep_view()[k] != x@);
    }
    false
}

/// The known-workspace catalog: the three baseline identifiers, then every
/// newly discovered run-directory name, in order, without duplicates. The
/// baseline is present whether or not anything was discovered.
pub fn list_known_workspaces(discovered: &Vec<String>) -> (r: Vec<String>)
    ensures
        r.deep_view() == spec_known_workspaces(discovered.deep_view()),
        r.deep_view().len() >= 3,
        r.deep_view()[0] == "dev"@,
        r.deep_view()[1] == "stage"@,
        r.deep_view()[2] == "prod"@,
{
    let ghost dv = discovered.deep_view();
    let mut out: Vec<String> = Vec::new();
    out.push(String::from_str("dev"));
    out.push(String::from_str("stage"));
    out.push(String::from_str("prod"));
    proof {
        assert(out.deep_view() =~= spec_baseline());
        assert(dv.len() == discovered.len());
    }
    let n = discovered.len();
    for i in 0..n
        invariant
            n == discovered.len(),
            dv == discovered.deep_view(),
            dv.len() == n,
            spec_known_workspaces(dv) == spec_merge_known(out.deep_view(), dv, i as int),
            out.deep_view().len() >= 3,
            out.deep_view()[0] == "dev"@,
            out.deep_view()[1] == "stage"@,
            out.deep_view()[2] == "prod"@,
    {
        let ghost before = out.deep_view();
        if !vec_contains_str(&out, &discovered[i]) {
            let name = discovered[i].clone();
            out.push(name);
            proof {
                assert(out.deep_view() =~= before.push(dv[i as int]));
            }
        }
    }
    proof {
        lemma_merge_keeps_prefix(out.deep_view(), dv, n as int);
    }
    out
}

/// First catalog entry whose socket both exists and answered the probe.
pub open spec fn spec_first_live(items: Seq<crate::protocol::WorkspaceInfoV>, i: int) -> Option<
    Seq<char>,
>
    decreases items.len() - i,
{
    if i < 0 || i >= items.len() {
        None
    } else if items[i].exists && items[i].alive {
        Some(items[i].ws)
    } else {
        spec_first_live(items, i + 1)
    }
}

/// The selection precedence, highest first: a non-blank explicit override,
/// then a configuration-file hint, then the first live catalog entry, then
/// the hard-coded default `dev`.
pub open spec fn spec_resolve_ws(
    override_ws: Option<Seq<char>>,
    config_ws: Option<Seq<char>>,
    probed: Seq<crate::protocol::WorkspaceInfoV>,
) -> Seq<char> {
    if override_ws matches Some(w) && spec_trim(w).len() > 0 {
        override_ws->0
    } else if config_ws is Some {
        config_ws->0
    } else if spec_first_live(probed, 0) is Some {
        spec_first_live(probed, 0)->0
    } else {
        "dev"@
    }
}

/// Chooses the active workspace from the explicit override, the
/// configuration hint, and the probed catalog, in that order of precedence.
pub fn resolve_ws_preference(
    override_ws: &Option<String>,
    config_ws: &Option<String>,
    probed: &Vec<WorkspaceInfo>,
) -> (r: String)
    ensures
        r@ == spec_resolve_ws(
            crate::protocol::opt_str_view(*override_ws),
            crate::protocol::opt_str_view(*config_ws),
            probed.deep_view(),
        ),
{
    match override_ws {
        Some(w) => {
            let t = trim_str(w.as_str());
            if t.unicode_len() > 0 {
                return w.clone();
            }
        },
        None => {},
    }
    match config_ws {
        Some(w) => {
            return w.clone();
        },
        None => {},
    }
    let ghost dv = probed.deep_view();
    let n = probed.len();
    proof {
        assert(dv.len() == n);
    }
    for i in 0..n
        invariant
            n == probed.len(),
            dv == probed.deep_view(),
            dv.len() == n,
            spec_first_live(dv, 0) == spec_first_live(dv, i as int),
            crate::protocol::opt_str_view(*override_ws) matches Some(w) ==> spec_trim(w).len()
                == 0,
            crate::protocol::opt_str_view(*config_ws) is None,
    {
        proof {
            assert(dv[i as int] == probed@[i as int]@);
        }
        if probed[i].exists && probed[i].alive {
            return probed[i].ws.clone();
        }
    }
    String::from_str("dev")
}

/// Builds the outward catalog listing: one row per known identifier, its
/// socket path under `home`, and the probe flags the caller measured; a row
/// counts as alive only when its socket also exists.
pub fn workspaces_list(
    home: &str,
    names: &Vec<String>,
    flags: &Vec<(bool, bool)>,
    selected_ws: String,
) -> (r: WorkspacesList)
    requires
        flags.len() == names.len(),
    ensures
        r@.selected_ws == selected_ws@,
        r@.items.len() == names.len(),
        forall|i: int|
            0 <= i < names.len() ==> {
                &&& (#[trigger] r@.items[i]).ws == names.deep_view()[i]
                &&& r@.items[i].socket_path == spec_socket_path(home@, names.deep_view()[i])
                &&& r@.items[i].exists == flags@[i].0
                &&& r@.items[i].alive == (flags@[i].0 && flags@[i].1)
            },
{
    let n = names.len();
    let mut items: Vec<WorkspaceInfo> = Vec::new();
    for i in 0..n
        invariant
            n == names.len(),
            flags.len() == n,
            items.len() == i,
            forall|k: int|
                0 <= k < i ==> {
                    &&& (#[trigger] items.deep_view()[k]).ws == names.deep_view()[k]
                    &&& items.deep_view()[k].socket_path == spec_socket_path(
                        home@,
                        names.deep_view()[k],
                    )
                    &&& items.deep_view()[k].exists == flags@[k].0
                    &&& items.deep_view()[k].alive == (flags@[k].0 && flags@[k].1)
                },
    {
        let ghost before = items.deep_view();
        let ws = names[i].clone();
        let socket_path = socket_path_for_ws(home, ws.as_str());
        let exists = flags[i].0;
        let alive = exists && flags[i].1;
        let row = WorkspaceInfo { ws, socket_path, exists, alive };
        proof {
            assert(row@.ws == names.deep_view()[i as int]);
        }
        items.push(row);
        proof {
            assert(items.deep_view() =~= before.push(row@));
        }
    }
    WorkspacesList { items, selected_ws }
}

} // verus!
