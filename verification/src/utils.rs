//! Helpers of the workbench: front matter of agent and skill files, session
//! directory names, short ids and session titles.

use vstd::prelude::*;
use crate::state::{SubAgentInfo, SkillInfo, WorkspaceNode};
use crate::strs::{string_of, str_eq, push_str};
use crate::strs::{chars_of, string_from_chars, trim_chars, trim_spec, trim_start_spec, split_chars, split_spec, vec_chars_eq, push_char};

verus! {

/// `p` is a prefix of `s`.
pub open spec fn starts_with(s: Seq<char>, p: Seq<char>) -> bool {
    p.len() <= s.len() && s.take(p.len() as int) == p
}

/// Whether `p` is a prefix of `s`.
pub fn chars_start_with(s: &Vec<char>, p: &Vec<char>) -> (r: bool)
    ensures
        r == starts_with(s@, p@),
{
    if p.len() > s.len() {
        return false;
    }
    let mut i: usize = 0;
    while i < p.len()
        invariant
            p@.len() <= s@.len(),
            i <= p@.len(),
            forall|j: int| 0 <= j < i ==> s@[j] == p@[j],
        decreases p.len() - i,
    {
        if s[i] != p[i] {
            assert(s@.take(p@.len() as int)[i as int] != p@[i as int]);
            return false;
        }
        i = i + 1;
    }
    assert(s@.take(p@.len() as int) =~= p@);
    true
}

/// The first position from `i` on where `pat` occurs in `s`.
pub open spec fn find_from(s: Seq<char>, pat: Seq<char>, i: int) -> Option<int>
    decreases s.len() - i,
{
    if i < 0 || i + pat.len() > s.len() {
        None
    } else if s.subrange(i, i + pat.len()) == pat {
        Some(i)
    } else if i >= s.len() {
        None
    } else {
        find_from(s, pat, i + 1)
    }
}

/// The first position where `pat` occurs in `s` (`str::find`).
pub open spec fn find_spec(s: Seq<char>, pat: Seq<char>) -> Option<int> {
    find_from(s, pat, 0)
}

proof fn lemma_find_from_range(s: Seq<char>, pat: Seq<char>, i: int)
    ensures
        find_from(s, pat, i) matches Some(k) ==> i <= k && k + pat.len() <= s.len(),
    decreases s.len() - i,
{
    if i >= 0 && i + pat.len() <= s.len() && s.subrange(i, i + pat.len()) != pat && i < s.len() {
        lemma_find_from_range(s, pat, i + 1);
    }
}

/// The first position of `pat` in `s`.
pub fn find_chars(s: &Vec<char>, pat: &Vec<char>) -> (r: Option<usize>)
    ensures
        r matches Some(k) ==> find_spec(s@, pat@) == Some(k as int),
        r is None ==> find_spec(s@, pat@) is None,
{
    if pat.len() > s.len() {
        return None;
    }
    let last = s.len() - pat.len();
    let mut i: usize = 0;
    while i <= last
        invariant
            last + pat@.len() == s@.len(),
            i <= last + 1,
            find_spec(s@, pat@) == find_from(s@, pat@, i as int),
        decreases last + 1 - i,
    {
        let mut j: usize = 0;
        let mut ok = true;
        while j < pat.len()
            invariant
                j <= pat@.len(),
                i + pat@.len() <= s@.len(),
                s@.len() == s.len(),
                pat@.len() == pat.len(),
                ok ==> forall|t: int| 0 <= t < j ==> s@[i + t] == pat@[t],
                !ok ==> s@.subrange(i as int, i + pat@.len()) != pat@,
            decreases pat.len() - j,
        {
            if s[i + j] != pat[j] {
                ok = false;
                assert(s@.subrange(i as int, i + pat@.len())[j as int] != pat@[j as int]);
            }
            j = j + 1;
        }
        if ok {
            assert(s@.subrange(i as int, i + pat@.len()) =~= pat@);
            return Some(i);
        }
        if i == last {
            assert(find_from(s@, pat@, i + 1) is None);
            return None;
        }
        i = i + 1;
    }
    None
}

/// The value of the last line of `lines` that starts with `key` (after
/// trimming): the rest of that line, trimmed.
pub open spec fn last_field(lines: Seq<Seq<char>>, key: Seq<char>) -> Option<Seq<char>>
    decreases lines.len(),
{
    if lines.len() == 0 {
        None
    } else {
        let l = trim_spec(lines.last());
        if starts_with(l, key) {
            Some(trim_spec(l.skip(key.len() as int)))
        } else {
            last_field(lines.drop_last(), key)
        }
    }
}

/// The value of field `key` in front matter text (empty when absent).
pub open spec fn field_spec(yaml: Seq<char>, key: Seq<char>) -> Seq<char> {
    match last_field(split_spec(yaml, '\n'), key) {
        Some(v) => v,
        None => Seq::empty(),
    }
}

/// The front matter of a document: after trimming, it must start with
/// `---`; the text after it (leading white space trimmed) up to the next
/// `---` is the front matter.
pub open spec fn frontmatter_spec(content: Seq<char>) -> Option<Seq<char>> {
    let c = trim_spec(content);
    if !starts_with(c, "---"@) {
        None
    } else {
        let rest = trim_start_spec(c.skip(3));
        match find_spec(rest, "---"@) {
            Some(e) => Some(rest.take(e)),
            None => None,
        }
    }
}

/// Finds the front matter of a document (see `frontmatter_spec`).
fn frontmatter(content: &str) -> (r: Option<Vec<char>>)
    ensures
        r matches Some(v) ==> frontmatter_spec(content@) == Some(v@),
        r is None ==> frontmatter_spec(content@) is None,
{
    let all = chars_of(content);
    let c = trim_chars(&all);
    let dashes = chars_of("---");
    proof {
        reveal_strlit("---");
    }
    if !chars_start_with(&c, &dashes) {
        return None;
    }
    let mut after: Vec<char> = Vec::new();
    let mut k: usize = 3;
    while k < c.len()
        invariant
            3 <= k <= c@.len(),
            after@ == c@.subrange(3, k as int),
        decreases c.len() - k,
    {
        after.push(c[k]);
        assert(c@.subrange(3, k + 1) =~= c@.subrange(3, k as int).push(c@[k as int]));
        k = k + 1;
    }
    assert(after@ =~= c@.skip(3));
    let rest = crate::strs::trim_start_chars(&after);
    match find_chars(&rest, &dashes) {
        Some(e) => {
            proof {
                lemma_find_from_range(rest@, dashes@, 0);
            }
            let mut y: Vec<char> = Vec::new();
            let mut t: usize = 0;
            while t < e
                invariant
                    t <= e <= rest@.len(),
                    y@ == rest@.take(t as int),
                decreases e - t,
            {
                y.push(rest[t]);
                assert(rest@.take(t + 1) =~= rest@.take(t as int).push(rest@[t as int]));
                t = t + 1;
            }
            Some(y)
        },
        None => None,
    }
}

/// The value of field `key` in front matter text (see `field_spec`).
fn field(yaml: &Vec<char>, key: &str) -> (r: String)
    ensures
        r@ == field_spec(yaml@, key@),
{
    let k = chars_of(key);
    let lines = split_chars(yaml, '\n');
    let ghost ls = lines.deep_view();
    let mut found: Option<Vec<char>> = None;
    for i in 0..lines.len()
        invariant
            ls == lines.deep_view(),
            ls.len() == lines@.len(),
            k@ == key@,
            found matches Some(v) ==> last_field(ls.take(i as int), key@) == Some(v@),
            found is None ==> last_field(ls.take(i as int), key@) is None,
    {
        assert(ls.take(i + 1).drop_last() =~= ls.take(i as int));
        assert(lines@[i as int].deep_view() =~= lines@[i as int]@);
        let l = trim_chars(&lines[i]);
        if chars_start_with(&l, &k) {
            let mut rest: Vec<char> = Vec::new();
            let mut j = k.len();
            while j < l.len()
                invariant
                    k@.len() <= j <= l@.len(),
                    rest@ == l@.subrange(k@.len() as int, j as int),
                decreases l.len() - j,
            {
                rest.push(l[j]);
                assert(l@.subrange(k@.len() as int, j + 1) =~= l@.subrange(k@.len() as int, j as int).push(l@[j as int]));
                j = j + 1;
            }
            assert(rest@ =~= l@.skip(k@.len() as int));
            found = Some(trim_chars(&rest));
        }
    }
    assert(ls.take(ls.len() as int) =~= ls);
    match found {
        Some(v) => string_from_chars(&v),
        None => String::new(),
    }
}

/// The subagent described by an agent `.md` file: its front matter must
/// exist and give a non-empty `name`; `description` and `model` default to
/// empty.
pub open spec fn agent_md_spec(content: Seq<char>) -> Option<(Seq<char>, Seq<char>, Seq<char>)> {
    match frontmatter_spec(content) {
        Some(y) => {
            let name = field_spec(y, "name:"@);
            if name.len() == 0 {
                None
            } else {
                Some((name, field_spec(y, "description:"@), field_spec(y, "model:"@)))
            }
        },
        None => None,
    }
}

/// The skill described by a `SKILL.md` file: its front matter must exist and
/// give a non-empty `name`; `description` defaults to empty.
pub open spec fn skill_md_spec(content: Seq<char>) -> Option<(Seq<char>, Seq<char>)> {
    match frontmatter_spec(content) {
        Some(y) => {
            let name = field_spec(y, "name:"@);
            if name.len() == 0 {
                None
            } else {
                Some((name, field_spec(y, "description:"@)))
            }
        },
        None => None,
    }
}

/// Reads a subagent definition from the YAML front matter of an agent file
/// (see `agent_md_spec`).
pub fn parse_agent_md(content: &str) -> (r: Option<SubAgentInfo>)
    ensures
        r is None <==> agent_md_spec(content@) is None,
        r matches Some(a) ==> agent_md_spec(content@) == Some((a.name@, a.description@, a.model@)),
{
    let y = match frontmatter(content) {
        Some(y) => y,
        None => return None,
    };
    let name = field(&y, "name:");
    if name.as_str().is_empty() {
        return None;
    }
    let description = field(&y, "description:");
    let model = field(&y, "model:");
    Some(SubAgentInfo { name, description, model })
}

/// Reads a skill definition from the YAML front matter of a `SKILL.md` file
/// (see `skill_md_spec`).
pub fn parse_skill_md(content: &str) -> (r: Option<SkillInfo>)
    ensures
        r is None <==> skill_md_spec(content@) is None,
        r matches Some(sk) ==> skill_md_spec(content@) == Some((sk.name@, sk.description@)),
{
    let y = match frontmatter(content) {
        Some(y) => y,
        None => return None,
    };
    let name = field(&y, "name:");
    if name.as_str().is_empty() {
        return None;
    }
    let description = field(&y, "description:");
    Some(SkillInfo { name, description })
}

/// The path without its leading `/` characters.
pub open spec fn strip_leading_slashes(s: Seq<char>) -> Seq<char>
    decreases s.len(),
{
    if s.len() > 0 && s[0] == '/' {
        strip_leading_slashes(s.drop_first())
    } else {
        s
    }
}

/// Every `/` replaced by `-`.
pub open spec fn slashes_to_dashes(s: Seq<char>) -> Seq<char> {
    Seq::new(s.len(), |i: int| if s[i] == '/' { '-' } else { s[i] })
}

/// The sessions directory name of a workspace path: leading `/` removed,
/// every other `/` made `-`, and `--` before and after.
pub open spec fn encode_spec(path: Seq<char>) -> Seq<char> {
    seq!['-', '-'] + slashes_to_dashes(strip_leading_slashes(path)) + seq!['-', '-']
}

/// Encodes a file system path as a sessions directory name (see `encode_spec`):
/// `/home/hr/Projects/agent-tui` gives `--home-hr-Projects-agent-tui--`.
pub fn encode_workspace_name(path: &str) -> (r: String)
    ensures
        r@ == encode_spec(path@),
{
    let v = chars_of(path);
    let mut i: usize = 0;
    assert(v@.skip(0) =~= v@);
    while i < v.len() && v[i] == '/'
        invariant
            i <= v@.len(),
            strip_leading_slashes(v@) == strip_leading_slashes(v@.skip(i as int)),
        decreases v.len() - i,
    {
        assert(v@.skip(i as int).drop_first() =~= v@.skip(i + 1));
        i = i + 1;
    }
    let ghost t = v@.skip(i as int);
    assert(strip_leading_slashes(t) == t);
    let mut r = String::new();
    push_char(&mut r, '-');
    push_char(&mut r, '-');
    let mut k = i;
    while k < v.len()
        invariant
            i <= k <= v@.len(),
            t == v@.skip(i as int),
            r@ == seq!['-', '-'] + slashes_to_dashes(t).take(k - i),
        decreases v.len() - k,
    {
        let c = if v[k] == '/' {
            '-'
        } else {
            v[k]
        };
        push_char(&mut r, c);
        assert(slashes_to_dashes(t).take(k + 1 - i) =~= slashes_to_dashes(t).take(k - i).push(c));
        k = k + 1;
    }
    assert(slashes_to_dashes(t).take(v@.len() - i) =~= slashes_to_dashes(t));
    push_char(&mut r, '-');
    push_char(&mut r, '-');
    assert(r@ =~= encode_spec(path@));
    r
}

/// Whether a sessions directory name is the encoding of a working directory.
pub fn dir_matches_cwd(dir_name: &str, cwd: &str) -> (r: bool)
    ensures
        r == (encode_spec(cwd@) == dir_name@),
{
    let e = encode_workspace_name(cwd);
    let a = chars_of(e.as_str());
    let b = chars_of(dir_name);
    vec_chars_eq(&a, &b)
}

/// A lowercase hexadecimal digit.
pub open spec fn hex_digit(d: nat) -> char {
    if d < 10 {
        ((d + 48) as u8) as char
    } else {
        ((d - 10 + 97) as u8) as char
    }
}

/// The last `k` hexadecimal digits of `n`, most significant first.
pub open spec fn hex_digits(n: nat, k: nat) -> Seq<char>
    decreases k,
{
    if k == 0 {
        Seq::empty()
    } else {
        hex_digits(n / 16, (k - 1) as nat).push(hex_digit(n % 16))
    }
}

fn hex_digit_char(d: u64) -> (c: char)
    requires
        d < 16,
    ensures
        c == hex_digit(d as nat),
{
    if d < 10 {
        ((d + 48) as u8) as char
    } else {
        ((d - 10 + 97) as u8) as char
    }
}

/// The last `width` hexadecimal digits of `n`, zero-padded.
fn hex_width(n: u64, width: usize) -> (r: String)
    ensures
        r@ == hex_digits(n as nat, width as nat),
{
    let mut digits: Vec<char> = Vec::new();
    let mut m = n;
    let mut k: usize = 0;
    while k < width
        invariant
            k <= width,
            digits@.len() == k,
            hex_digits(n as nat, width as nat) == hex_digits(m as nat, (width - k) as nat) + digits@,
        decreases width - k,
    {
        let d = m % 16;
        let c = hex_digit_char(d);
        let ghost old_digits = digits@;
        digits.insert(0, c);
        assert(digits@ =~= seq![c] + old_digits);
        assert(hex_digits(m as nat, (width - k) as nat) == hex_digits((m / 16) as nat, (width - k - 1) as nat).push(c));
        assert(hex_digits((m / 16) as nat, (width - k - 1) as nat).push(c) + old_digits =~= hex_digits((m / 16) as nat, (width - k - 1) as nat) + digits@);
        m = m / 16;
        k = k + 1;
    }
    assert(hex_digits(m as nat, 0) + digits@ =~= digits@);
    string_from_chars(&digits)
}

/// `n` as 16 lowercase hexadecimal digits, zero-padded (`{:016x}`).
pub fn hex16(n: u64) -> (r: String)
    ensures
        r@ == hex_digits(n as nat, 16),
{
    hex_width(n, 16)
}

/// The short id of a nanosecond clock reading: its low 32 bits as 8
/// lowercase hexadecimal digits.
pub open spec fn short_id_spec(nanos: u128) -> Seq<char> {
    hex_digits((nanos % 0x1_0000_0000u128) as nat, 8)
}

/// The short id made from a nanosecond clock reading (see `short_id_spec`).
pub fn short_id_from_nanos(nanos: u128) -> (r: String)
    ensures
        r@ == short_id_spec(nanos),
{
    let v = nanos % 0x1_0000_0000u128;
    hex_width(v as u64, 8)
}

/// The short id has eight characters, each a digit or a letter `a`..`f`.
pub proof fn lemma_short_id_shape(nanos: u128)
    ensures
        short_id_spec(nanos).len() == 8,
        forall|i: int| 0 <= i < 8 ==> {
            let c = #[trigger] short_id_spec(nanos)[i];
            ('0' <= c <= '9') || ('a' <= c <= 'f')
        },
{
    lemma_hex_digits_shape((nanos % 0x1_0000_0000u128) as nat, 8);
}

/// `hex_digits(n, k)` has `k` characters, each a hexadecimal digit.
proof fn lemma_hex_digits_shape(n: nat, k: nat)
    ensures
        hex_digits(n, k).len() == k,
        forall|i: int| 0 <= i < k ==> {
            let c = #[trigger] hex_digits(n, k)[i];
            ('0' <= c <= '9') || ('a' <= c <= 'f')
        },
    decreases k,
{
    if k > 0 {
        lemma_hex_digits_shape(n / 16, (k - 1) as nat);
        assert(hex_digits(n, k) == hex_digits(n / 16, (k - 1) as nat).push(hex_digit(n % 16)));
    }
}

/// Nanoseconds since the Unix epoch (`SystemTime::now()` measured from
/// `UNIX_EPOCH`, 0 when the clock is before the epoch); nothing is claimed of
/// the value: it is the clock's.
#[verifier::external_body]
pub(crate) fn unix_nanos() -> u128 {
    std::time::SystemTime::now()
        .duration_since(std::time::UNIX_EPOCH)
        .unwrap_or_default()
        .as_nanos()
}

/// A short id from the clock: 8 lowercase hexadecimal digits of the
/// current time in nanoseconds (see `short_id_from_nanos`).
pub fn uuid_v4_simple() -> (r: String)
    ensures
        exists|t: u128| r@ == #[trigger] short_id_spec(t),
{
    let t = unix_nanos();
    short_id_from_nanos(t)
}

/// The longest session title kept whole, in characters.
pub const TITLE_MAX_CHARS: usize = 35;

/// A session title: the text trimmed; beyond 35 characters, its first 35
/// characters followed by `…`.
pub open spec fn session_title_spec(s: Seq<char>) -> Seq<char> {
    let t = trim_spec(s);
    if t.len() > 35 {
        t.take(35).push('…')
    } else {
        t
    }
}

/// Shortens a session name or first user message into a title (see
/// `session_title_spec`).
pub fn session_title(s: &str) -> (r: String)
    ensures
        r@ == session_title_spec(s@),
{
    let v = chars_of(s);
    let t = trim_chars(&v);
    if t.len() > TITLE_MAX_CHARS {
        let mut out: Vec<char> = Vec::new();
        let mut i: usize = 0;
        while i < TITLE_MAX_CHARS
            invariant
                i <= 35 < t@.len(),
                out@ == t@.take(i as int),
            decreases 35 - i,
        {
            out.push(t[i]);
            assert(t@.take(i + 1) =~= t@.take(i as int).push(t@[i as int]));
            i = i + 1;
        }
        out.push('…');
        string_from_chars(&out)
    } else {
        string_from_chars(&t)
    }
}


/// The last component of a path (`std::path::Path::file_name`, as text),
/// named: path parsing is not spelled out here.
pub uninterp spec fn path_file_name(p: Seq<char>) -> Option<Seq<char>>;

/// The path without its last component (`std::path::Path::parent`, as
/// text), named.
pub uninterp spec fn path_parent(p: Seq<char>) -> Option<Seq<char>>;

/// The last component of a path: `Path::new(p).file_name()`, as text
/// (see `path_file_name`).
#[verifier::external_body]
fn file_name_of(p: &str) -> (r: Option<String>)
    ensures
        r.deep_view() == path_file_name(p@),
{
    std::path::Path::new(p).file_name().map(|n| n.to_string_lossy().to_string())
}

/// The parent of a path: `Path::new(p).parent()`, as text (see
/// `path_parent`).
#[verifier::external_body]
fn parent_of(p: &str) -> (r: Option<String>)
    ensures
        r.deep_view() == path_parent(p@),
{
    std::path::Path::new(p).parent().map(|q| q.to_string_lossy().to_string())
}

/// A workspace's first name: the last component of its directory, or the
/// whole directory when it has none.
pub open spec fn base_name(cwd: Seq<char>) -> Seq<char> {
    match path_file_name(cwd) {
        Some(n) => n,
        None => cwd,
    }
}

/// The name of a directory's parent, when it has one.
pub open spec fn parent_name(cwd: Seq<char>) -> Option<Seq<char>> {
    match path_parent(cwd) {
        Some(q) => path_file_name(q),
        None => None,
    }
}

/// How many of the names are `n`.
pub open spec fn count_of(names: Seq<Seq<char>>, n: Seq<char>) -> nat
    decreases names.len(),
{
    if names.len() == 0 {
        0
    } else {
        count_of(names.drop_last(), n) + if names.last() == n { 1nat } else { 0nat }
    }
}

/// One round of telling names apart: every name that occurs more than once
/// gets the name of its directory's parent and `/` in front, when there is
/// such a parent.
pub open spec fn name_step(names: Seq<Seq<char>>, cwds: Seq<Seq<char>>) -> Seq<Seq<char>> {
    Seq::new(
        names.len(),
        |i: int|
            if count_of(names, names[i]) > 1 {
                match parent_name(cwds[i]) {
                    Some(p) => p + "/"@ + names[i],
                    None => names[i],
                }
            } else {
                names[i]
            },
    )
}

/// The names of the workspaces with directories `cwds` after `k` rounds.
pub open spec fn name_rounds(cwds: Seq<Seq<char>>, k: nat) -> Seq<Seq<char>>
    decreases k,
{
    if k == 0 {
        Seq::new(cwds.len(), |i: int| base_name(cwds[i]))
    } else {
        name_step(name_rounds(cwds, (k - 1) as nat), cwds)
    }
}

/// No two names are the same.
pub open spec fn all_distinct(names: Seq<Seq<char>>) -> bool {
    forall|i: int, j: int| 0 <= i < j < names.len() ==> names[i] != names[j]
}

/// Round `k` is the first one after which the names are all different.
pub open spec fn settled_at(cwds: Seq<Seq<char>>, k: nat) -> bool {
    &&& all_distinct(name_rounds(cwds, k))
    &&& forall|j: nat| j < k ==> !all_distinct(#[trigger] name_rounds(cwds, j))
}

/// The directories of the workspaces.
pub open spec fn cwds_of(ws: Seq<WorkspaceNode>) -> Seq<Seq<char>> {
    Seq::new(ws.len(), |i: int| ws[i].cwd@)
}

proof fn lemma_name_rounds_len(cwds: Seq<Seq<char>>, k: nat)
    ensures
        name_rounds(cwds, k).len() == cwds.len(),
    decreases k,
{
    if k > 0 {
        lemma_name_rounds_len(cwds, (k - 1) as nat);
    }
}

/// How many of the names are `n` (see `count_of`).
fn count_name(names: &Vec<String>, n: &str) -> (r: usize)
    ensures
        r == count_of(names.deep_view(), n@),
{
    let ghost nv = names.deep_view();
    let mut c: usize = 0;
    let mut i: usize = 0;
    while i < names.len()
        invariant
            nv == names.deep_view(),
            i <= nv.len(),
            c == count_of(nv.take(i as int), n@),
            c <= i,
        decreases nv.len() - i,
    {
        assert(nv.take(i + 1).drop_last() =~= nv.take(i as int));
        assert(nv[i as int] == names@[i as int]@);
        if str_eq(names[i].as_str(), n) {
            c = c + 1;
        }
        i += 1;
    }
    assert(nv.take(nv.len() as int) =~= nv);
    c
}

/// Whether no two names are the same (see `all_distinct`).
fn names_distinct(names: &Vec<String>) -> (r: bool)
    ensures
        r == all_distinct(names.deep_view()),
{
    let ghost nv = names.deep_view();
    let mut i: usize = 0;
    while i < names.len()
        invariant
            nv == names.deep_view(),
            i <= nv.len(),
            forall|a: int, b: int| 0 <= a < i && a < b < nv.len() ==> nv[a] != nv[b],
        decreases nv.len() - i,
    {
        let mut j: usize = i + 1;
        while j < names.len()
            invariant
                nv == names.deep_view(),
                i < nv.len(),
                i + 1 <= j <= nv.len(),
                forall|a: int, b: int| 0 <= a < i && a < b < nv.len() ==> nv[a] != nv[b],
                forall|b: int| i < b < j ==> nv[i as int] != nv[b],
            decreases nv.len() - j,
        {
            assert(nv[i as int] == names@[i as int]@);
            assert(nv[j as int] == names@[j as int]@);
            if str_eq(names[i].as_str(), names[j].as_str()) {
                return false;
            }
            j += 1;
        }
        i += 1;
    }
    true
}

/// The first names of the workspaces (see `name_rounds`).
fn base_names(ws: &Vec<WorkspaceNode>) -> (r: Vec<String>)
    ensures
        r.deep_view() == name_rounds(cwds_of(ws@), 0),
{
    let ghost cw = cwds_of(ws@);
    let mut out: Vec<String> = Vec::new();
    let mut i: usize = 0;
    while i < ws.len()
        invariant
            cw == cwds_of(ws@),
            i <= ws@.len(),
            out.deep_view() =~= Seq::new(i as nat, |k: int| base_name(cw[k])),
        decreases ws@.len() - i,
    {
        let n = match file_name_of(ws[i].cwd.as_str()) {
            Some(n) => n,
            None => string_of(ws[i].cwd.as_str()),
        };
        let ghost before = out.deep_view();
        out.push(n);
        assert(out.deep_view() =~= before.push(base_name(cw[i as int])));
        i += 1;
    }
    out
}

/// One round of telling the names apart (see `name_step`).
fn step_names(names: &Vec<String>, ws: &Vec<WorkspaceNode>) -> (r: Vec<String>)
    requires
        names@.len() == ws@.len(),
    ensures
        r.deep_view() == name_step(names.deep_view(), cwds_of(ws@)),
{
    let ghost nv = names.deep_view();
    let ghost cw = cwds_of(ws@);
    let mut out: Vec<String> = Vec::new();
    let mut i: usize = 0;
    while i < names.len()
        invariant
            nv == names.deep_view(),
            cw == cwds_of(ws@),
            nv.len() == cw.len(),
            i <= nv.len(),
            out.deep_view() =~= name_step(nv, cw).take(i as int),
        decreases nv.len() - i,
    {
        assert(nv[i as int] == names@[i as int]@);
        let c = count_name(names, names[i].as_str());
        let n = if c > 1 {
            let parent = match parent_of(ws[i].cwd.as_str()) {
                Some(q) => file_name_of(q.as_str()),
                None => None,
            };
            match parent {
                Some(p) => {
                    let mut t = string_of(p.as_str());
                    push_str(&mut t, "/");
                    push_str(&mut t, names[i].as_str());
                    t
                },
                None => string_of(names[i].as_str()),
            }
        } else {
            string_of(names[i].as_str())
        };
        let ghost before = out.deep_view();
        out.push(n);
        assert(out.deep_view() =~= before.push(name_step(nv, cw)[i as int]));
        assert(name_step(nv, cw).take(i + 1) =~= name_step(nv, cw).take(i as int).push(name_step(nv, cw)[i as int]));
        i += 1;
    }
    assert(name_step(nv, cw).take(nv.len() as int) =~= name_step(nv, cw));
    out
}

/// Whether the names of the workspaces become all different within `bound`
/// rounds.
pub fn names_settle_within(ws: &Vec<WorkspaceNode>, bound: usize) -> (r: bool)
    ensures
        r == exists|k: nat| k <= bound && all_distinct(#[trigger] name_rounds(cwds_of(ws@), k)),
{
    let ghost cw = cwds_of(ws@);
    let mut names = base_names(ws);
    let mut r: usize = 0;
    loop
        invariant
            cw == cwds_of(ws@),
            r <= bound,
            names.deep_view() == name_rounds(cw, r as nat),
            forall|j: nat| j < r ==> !all_distinct(#[trigger] name_rounds(cw, j)),
        decreases bound - r,
    {
        proof {
            lemma_name_rounds_len(cw, r as nat);
        }
        if names_distinct(&names) {
            assert(all_distinct(name_rounds(cw, r as nat)));
            return true;
        }
        if r == bound {
            assert forall|k: nat| k <= bound implies !all_distinct(#[trigger] name_rounds(cw, k)) by {
                if k < r {
                } else {
                    assert(k == r);
                }
            }
            return false;
        }
        names = step_names(&names, ws);
        r = r + 1;
    }
}

/// Gives each workspace a name of its own: the last component of its
/// directory, prefixed round by round with its parent's name while names
/// collide (see `name_rounds`). The rounds must end: some round leaves the
/// names all different.
pub fn compute_display_names(workspaces: &mut Vec<WorkspaceNode>)
    requires
        exists|k: nat| all_distinct(#[trigger] name_rounds(cwds_of(old(workspaces)@), k)),
    ensures
        final(workspaces)@.len() == old(workspaces)@.len(),
        forall|i: int|
            0 <= i < old(workspaces)@.len() ==> {
                &&& (#[trigger] final(workspaces)@[i]).cwd == old(workspaces)@[i].cwd
                &&& final(workspaces)@[i].sessions == old(workspaces)@[i].sessions
                &&& final(workspaces)@[i].expanded == old(workspaces)@[i].expanded
            },
        exists|k: nat|
            #[trigger] settled_at(cwds_of(old(workspaces)@), k) && forall|i: int|
                0 <= i < old(workspaces)@.len() ==> final(workspaces)@[i].display_name@ == name_rounds(
                    cwds_of(old(workspaces)@),
                    k,
                )[i],
{
    let ghost cw = cwds_of(workspaces@);
    let ghost k0 = choose|k: nat| all_distinct(#[trigger] name_rounds(cw, k));
    let mut names = base_names(workspaces);
    let ghost mut r: nat = 0;
    loop
        invariant
            cw == cwds_of(workspaces@),
            all_distinct(name_rounds(cw, k0)),
            r <= k0,
            names.deep_view() == name_rounds(cw, r),
            forall|j: nat| j < r ==> !all_distinct(#[trigger] name_rounds(cw, j)),
        ensures
            cw == cwds_of(workspaces@),
            names.deep_view() == name_rounds(cw, r),
            all_distinct(name_rounds(cw, r)),
            forall|j: nat| j < r ==> !all_distinct(#[trigger] name_rounds(cw, j)),
        decreases k0 - r,
    {
        proof {
            lemma_name_rounds_len(cw, r);
        }
        if names_distinct(&names) {
            break;
        }
        assert(r != k0);
        names = step_names(&names, workspaces);
        proof {
            r = r + 1;
        }
    }
    proof {
        lemma_name_rounds_len(cw, r);
        assert(settled_at(cw, r));
    }
    let ghost w0 = workspaces@;
    let ghost nv = names.deep_view();
    let mut i: usize = 0;
    while i < workspaces.len()
        invariant
            nv == names.deep_view(),
            nv.len() == w0.len(),
            workspaces@.len() == w0.len(),
            i <= w0.len(),
            forall|j: int|
                0 <= j < w0.len() ==> {
                    &&& (#[trigger] workspaces@[j]).cwd == w0[j].cwd
                    &&& workspaces@[j].sessions == w0[j].sessions
                    &&& workspaces@[j].expanded == w0[j].expanded
                },
            forall|j: int| 0 <= j < i ==> (#[trigger] workspaces@[j]).display_name@ == nv[j],
        decreases w0.len() - i,
    {
        assert(nv[i as int] == names@[i as int]@);
        let mut w = workspaces.remove(i);
        w.display_name = string_of(names[i].as_str());
        workspaces.insert(i, w);
        i += 1;
    }
}
} // verus!
