//! The git smart-HTTP protocol pieces that the git endpoints compute: the
//! service names and content types, pkt-line framing, the push commands that
//! a `git-receive-pack` request carries, and who may read or push.
//!
//! Spawning `git`, reading request bodies and resolving repositories are I/O
//! and stay with the HTTP layer.

use vstd::prelude::*;
use vstd::string::{StrSliceExecFns, StringSliceAdditionalSpecFns};
use vstd::utf8::{decode_utf8, valid_utf8};
use crate::text::{chars_of, has_prefix, starts_with, string_from_chars};

verus! {

broadcast use vstd::string::group_string_axioms;

/// A git smart-HTTP service.
#[derive(Debug, Clone, Copy, PartialEq, Eq, Structural)]
pub enum GitService {
    UploadPack,
    ReceivePack,
}

impl GitService {
    /// The service's wire name.
    pub open spec fn name(self) -> Seq<char> {
        match self {
            GitService::UploadPack => "git-upload-pack"@,
            GitService::ReceivePack => "git-receive-pack"@,
        }
    }

    /// Parses a service name; only the two services' exact names are accepted.
    pub fn from_str(s: &str) -> (r: Option<GitService>)
        ensures
            r matches Some(g) ==> g.name() == s@,
            r is None ==> s@ != "git-upload-pack"@ && s@ != "git-receive-pack"@,
    {
        let upload = "git-upload-pack";
        let receive = "git-receive-pack";
        if crate::text::str_eq(s, upload) {
            Some(GitService::UploadPack)
        } else if crate::text::str_eq(s, receive) {
            Some(GitService::ReceivePack)
        } else {
            None
        }
    }

    /// The service's wire name.
    pub fn as_str(&self) -> (r: &'static str)
        ensures
            r@ == self.name(),
    {
        match self {
            GitService::UploadPack => "git-upload-pack",
            GitService::ReceivePack => "git-receive-pack",
        }
    }

    /// The content type of the ref advertisement for this service.
    pub fn content_type(&self) -> (r: &'static str)
        ensures
            r@ == (match self {
                GitService::UploadPack => "application/x-git-upload-pack-advertisement"@,
                GitService::ReceivePack => "application/x-git-receive-pack-advertisement"@,
            }),
    {
        match self {
            GitService::UploadPack => "application/x-git-upload-pack-advertisement",
            GitService::ReceivePack => "application/x-git-receive-pack-advertisement",
        }
    }

    /// The content type of the result of running this service.
    pub fn result_content_type(&self) -> (r: &'static str)
        ensures
            r@ == (match self {
                GitService::UploadPack => "application/x-git-upload-pack-result"@,
                GitService::ReceivePack => "application/x-git-receive-pack-result"@,
            }),
    {
        match self {
            GitService::UploadPack => "application/x-git-upload-pack-result",
            GitService::ReceivePack => "application/x-git-receive-pack-result",
        }
    }
}

/// The all-zero object id, which stands for "no object" in push commands.
pub const ZERO_SHA: &'static str = "0000000000000000000000000000000000000000";

/// The characters of `ZERO_SHA`: forty zeros.
pub open spec fn zero_sha_view() -> Seq<char> {
    Seq::new(40, |_i: int| '0')
}

/// `ZERO_SHA` is forty `'0'` characters.
pub proof fn lemma_zero_sha()
    ensures
        ZERO_SHA@ == zero_sha_view(),
{
    reveal_strlit("0000000000000000000000000000000000000000");
    assert(ZERO_SHA@ =~= zero_sha_view());
}

// ---------------------------------------------------------------------------
// pkt-line framing
// ---------------------------------------------------------------------------

/// The lowercase hex digit for `d < 16`, as an ASCII byte.
pub open spec fn hex_digit(d: nat) -> u8 {
    if d < 10 {
        (48 + d) as u8
    } else {
        (87 + d) as u8
    }
}

/// `n` in lowercase hex, without leading zeros (`"0"` for zero).
pub open spec fn hex_of(n: nat) -> Seq<u8>
    decreases n,
{
    if n < 16 {
        seq![hex_digit(n)]
    } else {
        hex_of(n / 16).push(hex_digit(n % 16))
    }
}

/// `n` in lowercase hex, left-padded with zeros to at least four digits
/// (what `format!("{n:04x}")` writes).
pub open spec fn hex4(n: nat) -> Seq<u8> {
    let h = hex_of(n);
    if h.len() < 4 {
        Seq::new((4 - h.len()) as nat, |_i: int| 48u8) + h
    } else {
        h
    }
}

fn hex_digit_exec(d: usize) -> (b: u8)
    requires
        d < 16,
    ensures
        b == hex_digit(d as nat),
{
    if d < 10 {
        (48 + d) as u8
    } else {
        (87 + d) as u8
    }
}

/// The lowercase hex digits of `n`, padded with zeros to at least four.
pub fn hex4_exec(n: usize) -> (r: Vec<u8>)
    ensures
        r@ == hex4(n as nat),
{
    // Digits from least to most significant.
    let mut rev: Vec<u8> = Vec::new();
    let mut cur = n;
    rev.push(hex_digit_exec(cur % 16));
    cur = cur / 16;
    proof {
        assert(hex_of(n as nat) == if n < 16 { seq![hex_digit(n as nat)] } else { hex_of(cur as nat).push(hex_digit(n as nat % 16)) });
        assert(rev@.reverse() =~= seq![hex_digit(n as nat % 16)]);
        assert(hex_of(n as nat) =~= if n < 16 { rev@.reverse() } else { hex_of(cur as nat) + rev@.reverse() });
    }
    while cur > 0
        invariant
            cur > 0 ==> hex_of(n as nat) == hex_of(cur as nat) + rev@.reverse(),
            cur > 0 ==> cur < n,
            cur == 0 ==> hex_of(n as nat) == rev@.reverse(),
            rev.len() >= 1,
        decreases cur,
    {
        let ghost old_rev = rev@;
        let ghost old_cur = cur;
        rev.push(hex_digit_exec(cur % 16));
        cur = cur / 16;
        proof {
            if old_cur >= 16 {
                assert(hex_of(old_cur as nat) == hex_of(cur as nat).push(hex_digit(old_cur as nat % 16)));
                assert(rev@.reverse() =~= seq![hex_digit(old_cur as nat % 16)] + old_rev.reverse());
                assert(hex_of(n as nat) =~= hex_of(cur as nat) + rev@.reverse());
            } else {
                assert(hex_of(old_cur as nat) == seq![hex_digit(old_cur as nat)]);
                assert(rev@.reverse() =~= seq![hex_digit(old_cur as nat % 16)] + old_rev.reverse());
                assert(hex_of(n as nat) =~= rev@.reverse());
            }
        }
    }
    let ghost h = hex_of(n as nat);
    assert(h == rev@.reverse());
    let mut out: Vec<u8> = Vec::new();
    let mut pad: usize = if rev.len() < 4 { 4 - rev.len() } else { 0 };
    let pad_total = pad;
    while pad > 0
        invariant
            out@ == Seq::new((pad_total - pad) as nat, |_i: int| 48u8),
            pad <= pad_total,
        decreases pad,
    {
        out.push(48u8);
        pad = pad - 1;
        assert(out@ =~= Seq::new((pad_total - pad) as nat, |_i: int| 48u8));
    }
    let ghost padding = out@;
    let mut k = rev.len();
    while k > 0
        invariant
            k <= rev.len(),
            out@ == padding + rev@.reverse().subrange(0, (rev.len() - k) as int),
        decreases k,
    {
        k = k - 1;
        out.push(rev[k]);
        proof {
            assert(rev@.reverse()[(rev.len() - k - 1) as int] == rev@[k as int]);
            assert(out@ =~= padding + rev@.reverse().subrange(0, (rev.len() - k) as int));
        }
    }
    assert(rev@.reverse().subrange(0, rev.len() as int) =~= rev@.reverse());
    assert(out@ =~= hex4(n as nat));
    out
}

/// Frames `data` as a pkt-line: its length plus four, as four (or more) hex
/// digits, then its bytes.
pub fn pkt_line(data: &str) -> (r: Vec<u8>)
    requires
        data.spec_bytes().len() + 4 <= usize::MAX,
    ensures
        r@ == hex4((data.spec_bytes().len() + 4) as nat) + data.spec_bytes(),
{
    let bytes = data.as_bytes();
    let n = bytes.len() + 4;
    let mut out = hex4_exec(n);
    let ghost head = out@;
    let mut i: usize = 0;
    while i < bytes.len()
        invariant
            i <= bytes@.len(),
            out@ == head + bytes@.subrange(0, i as int),
        decreases bytes.len() - i,
    {
        out.push(bytes[i]);
        i = i + 1;
        assert(out@ =~= head + bytes@.subrange(0, i as int));
    }
    assert(bytes@.subrange(0, bytes@.len() as int) =~= bytes@);
    out
}

/// The flush packet, `0000`.
pub fn pkt_flush() -> (r: Vec<u8>)
    ensures
        r@ == seq![48u8, 48u8, 48u8, 48u8],
{
    let mut v: Vec<u8> = Vec::new();
    v.push(48u8);
    v.push(48u8);
    v.push(48u8);
    v.push(48u8);
    v
}

/// The branch a ref names, if it is a branch (`refs/heads/<branch>`).
pub fn extract_branch_name(ref_name: &str) -> (r: Option<&str>)
    ensures
        has_prefix(ref_name@, "refs/heads/"@) ==> (r matches Some(b) && b@ == ref_name@.skip(11)),
        !has_prefix(ref_name@, "refs/heads/"@) ==> r is None,
{
    proof {
        reveal_strlit("refs/heads/");
    }
    if starts_with(ref_name, "refs/heads/") {
        let n = ref_name.unicode_len();
        Some(ref_name.substring_char(11, n))
    } else {
        None
    }
}

// ---------------------------------------------------------------------------
// Push commands
// ---------------------------------------------------------------------------

/// The value of an ASCII hex digit, or -1 for any other byte.
pub open spec fn hex_val(b: u8) -> int {
    if 48 <= b <= 57 {
        b - 48
    } else if 97 <= b <= 102 {
        b - 87
    } else if 65 <= b <= 70 {
        b - 55
    } else {
        -1
    }
}

/// The length that a four-byte pkt-line header gives: the four bytes read
/// as a hexadecimal number (a leading `+` is allowed in place of the first
/// digit), or 0 when they are not one.
pub open spec fn pkt_len(h: Seq<u8>) -> nat {
    if hex_val(h[0]) >= 0 && hex_val(h[1]) >= 0 && hex_val(h[2]) >= 0 && hex_val(h[3]) >= 0 {
        (hex_val(h[0]) * 4096 + hex_val(h[1]) * 256 + hex_val(h[2]) * 16 + hex_val(h[3])) as nat
    } else if h[0] == 43 && hex_val(h[1]) >= 0 && hex_val(h[2]) >= 0 && hex_val(h[3]) >= 0 {
        (hex_val(h[1]) * 256 + hex_val(h[2]) * 16 + hex_val(h[3])) as nat
    } else {
        0
    }
}

/// The first position at or after `from` where `c` occurs in `s`, or
/// `s.len()` when there is none.
pub open spec fn find_from(s: Seq<char>, c: char, from: int) -> int
    decreases s.len() - from,
{
    if from < 0 || from >= s.len() {
        s.len() as int
    } else if s[from] == c {
        from
    } else {
        find_from(s, c, from + 1)
    }
}

/// `s` without its trailing `c` characters (`str::trim_end_matches`).
pub open spec fn trim_trailing(s: Seq<char>, c: char) -> Seq<char>
    decreases s.len(),
{
    if s.len() > 0 && s.last() == c {
        trim_trailing(s.drop_last(), c)
    } else {
        s
    }
}

/// The push command that one pkt-line carries, as (old id, new id, ref):
/// the line must be UTF-8; its trailing newlines are dropped; it must hold
/// two spaces; the ref is what follows the second space, up to the first NUL
/// (after which the client lists its capabilities).
pub open spec fn command_of_line(line: Seq<u8>) -> Option<(Seq<char>, Seq<char>, Seq<char>)> {
    if !valid_utf8(line) {
        None
    } else {
        let t = trim_trailing(decode_utf8(line), '\n');
        let i = find_from(t, ' ', 0);
        let j = find_from(t, ' ', i + 1);
        if i >= t.len() || j >= t.len() {
            None
        } else {
            let z = find_from(t, '\0', j + 1);
            Some((t.subrange(0, i), t.subrange(i + 1, j), t.subrange(j + 1, z)))
        }
    }
}

/// The push commands in `body` from byte `pos` on: pkt-lines are read until
/// a flush packet, a header that is not a length, or a line that runs past
/// the end; lines that carry no command are skipped.
pub open spec fn commands_from(body: Seq<u8>, pos: nat) -> Seq<(Seq<char>, Seq<char>, Seq<char>)>
    decreases body.len() - pos,
{
    if pos + 4 > body.len() {
        seq![]
    } else {
        let n = pkt_len(body.subrange(pos as int, pos + 4int));
        if n < 4 || pos + n > body.len() {
            seq![]
        } else {
            let rest = commands_from(body, pos + n);
            match command_of_line(body.subrange(pos + 4int, (pos + n) as int)) {
                Some(c) => seq![c] + rest,
                None => rest,
            }
        }
    }
}

/// No pkt-line in `body`, read from `pos` on, announces a length of 1, 2 or 3
/// (shorter than its own header), which the reader cannot slice.
pub open spec fn framing_ok(body: Seq<u8>, pos: nat) -> bool
    decreases body.len() - pos,
{
    if pos + 4 > body.len() {
        true
    } else {
        let n = pkt_len(body.subrange(pos as int, pos + 4int));
        if n == 0 || pos + n > body.len() {
            true
        } else if n < 4 {
            false
        } else {
            framing_ok(body, pos + n)
        }
    }
}

/// A ref update that a push requests.
#[derive(Debug)]
pub struct PushCommand {
    pub old_sha: String,
    pub new_sha: String,
    pub ref_name: String,
}

impl PushCommand {
    /// The old id, the new id and the ref.
    pub open spec fn view_parts(self) -> (Seq<char>, Seq<char>, Seq<char>) {
        (self.old_sha@, self.new_sha@, self.ref_name@)
    }
}

/// The bytes as UTF-8 text (`std::str::from_utf8`): present exactly when the
/// bytes are valid UTF-8, and then their decoding.
#[verifier::external_body]
fn utf8_str(bytes: &[u8]) -> (r: Option<&str>)
    ensures
        r is Some <==> valid_utf8(bytes@),
        r matches Some(s) ==> s@ == decode_utf8(bytes@),
{
    std::str::from_utf8(bytes).ok()
}

fn hex_val_exec(b: u8) -> (r: i32)
    ensures
        r == hex_val(b),
{
    if 48 <= b && b <= 57 {
        (b - 48) as i32
    } else if 97 <= b && b <= 102 {
        (b - 87) as i32
    } else if 65 <= b && b <= 70 {
        (b - 55) as i32
    } else {
        -1
    }
}

fn pkt_len_at(body: &[u8], pos: usize) -> (n: usize)
    requires
        pos + 4 <= body@.len(),
    ensures
        n == pkt_len(body@.subrange(pos as int, pos + 4)),
{
    let ghost h = body@.subrange(pos as int, pos + 4);
    assert(h[0] == body@[pos as int] && h[1] == body@[pos + 1] && h[2] == body@[pos + 2] && h[3] == body@[pos + 3]);
    let a = hex_val_exec(body[pos]);
    let b = hex_val_exec(body[pos + 1]);
    let c = hex_val_exec(body[pos + 2]);
    let d = hex_val_exec(body[pos + 3]);
    if a >= 0 && b >= 0 && c >= 0 && d >= 0 {
        (a * 4096 + b * 256 + c * 16 + d) as usize
    } else if body[pos] == 43 && b >= 0 && c >= 0 && d >= 0 {
        (b * 256 + c * 16 + d) as usize
    } else {
        0
    }
}

fn find_char_from(v: &Vec<char>, c: char, from: usize, end: usize) -> (r: usize)
    requires
        from <= end <= v.len(),
    ensures
        from <= r <= end,
        r < end ==> v@[r as int] == c,
        forall|k: int| from <= k < r ==> v@[k] != c,
{
    let mut k = from;
    while k < end
        invariant
            from <= k <= end <= v.len(),
            forall|m: int| from <= m < k ==> v@[m] != c,
        decreases end - k,
    {
        if v[k] == c {
            return k;
        }
        k = k + 1;
    }
    k
}

proof fn lemma_find_from(s: Seq<char>, c: char, from: int, r: int)
    requires
        0 <= from <= r <= s.len(),
        r < s.len() ==> s[r] == c,
        forall|k: int| from <= k < r ==> s[k] != c,
    ensures
        find_from(s, c, from) == r,
    decreases r - from,
{
    if from < r {
        lemma_find_from(s, c, from + 1, r);
    }
}

/// `r` is where `find_from` lands when every position from `from` up to it
/// differs from `c` and `r` holds `c` (or is the end).
pub proof fn lemma_find_from_position(s: Seq<char>, c: char, from: int, r: int)
    requires
        0 <= from <= r <= s.len(),
        r < s.len() ==> s[r] == c,
        forall|k: int| from <= k < r ==> s[k] != c,
    ensures
        find_from(s, c, from) == r,
{
    lemma_find_from(s, c, from, r);
}

proof fn lemma_trim_trailing_prefix(s: Seq<char>, c: char, k: int)
    requires
        0 <= k <= s.len(),
        forall|m: int| k <= m < s.len() ==> s[m] == c,
    ensures
        trim_trailing(s, c) == trim_trailing(s.take(k), c),
    decreases s.len() - k,
{
    if k < s.len() {
        assert(s.drop_last() =~= s.drop_last());
        lemma_trim_trailing_prefix(s.drop_last(), c, k);
        assert(s.drop_last().take(k) =~= s.take(k));
    } else {
        assert(s.take(k) =~= s);
    }
}

fn command_of_line_exec(body: &[u8], lo: usize, hi: usize) -> (r: Option<PushCommand>)
    requires
        lo <= hi <= body@.len(),
    ensures
        match command_of_line(body@.subrange(lo as int, hi as int)) {
            Some(c) => r matches Some(p) && p.view_parts() == c,
            None => r is None,
        },
{
    let mut line: Vec<u8> = Vec::new();
    let mut i = lo;
    while i < hi
        invariant
            lo <= i <= hi <= body@.len(),
            line@ == body@.subrange(lo as int, i as int),
        decreases hi - i,
    {
        line.push(body[i]);
        i = i + 1;
        assert(line@ =~= body@.subrange(lo as int, i as int));
    }
    let text = match utf8_str(line.as_slice()) {
        Some(t) => t,
        None => {
            return None;
        },
    };
    let v = chars_of(text);
    let ghost full = v@;
    let mut end = v.len();
    while end > 0 && v[end - 1] == '\n'
        invariant
            end <= v.len(),
            forall|m: int| end <= m < v.len() ==> v@[m] == '\n',
        decreases end,
    {
        end = end - 1;
    }
    proof {
        lemma_trim_trailing_prefix(full, '\n', end as int);
        let p = full.take(end as int);
        if end > 0 {
            assert(p.last() != '\n');
        }
        assert(trim_trailing(p, '\n') == p);
    }
    let ghost t = full.take(end as int);
    let sp1 = find_char_from(&v, ' ', 0, end);
    proof {
        lemma_find_from(t, ' ', 0, sp1 as int);
    }
    if sp1 >= end {
        return None;
    }
    let sp2 = find_char_from(&v, ' ', sp1 + 1, end);
    proof {
        lemma_find_from(t, ' ', sp1 + 1, sp2 as int);
    }
    if sp2 >= end {
        return None;
    }
    let nul = find_char_from(&v, '\0', sp2 + 1, end);
    proof {
        lemma_find_from(t, '\0', sp2 + 1, nul as int);
    }
    let old_sha = string_from_chars(&v, 0, sp1);
    let new_sha = string_from_chars(&v, sp1 + 1, sp2);
    let ref_name = string_from_chars(&v, sp2 + 1, nul);
    proof {
        assert(old_sha@ =~= t.subrange(0, sp1 as int));
        assert(new_sha@ =~= t.subrange(sp1 + 1, sp2 as int));
        assert(ref_name@ =~= t.subrange(sp2 + 1, nul as int));
    }
    Some(PushCommand { old_sha, new_sha, ref_name })
}

/// The views of a list of push commands.
pub open spec fn commands_view(v: Seq<PushCommand>) -> Seq<(Seq<char>, Seq<char>, Seq<char>)> {
    v.map_values(|c: PushCommand| c.view_parts())
}

/// Whether `body`'s pkt-line framing can be read without a length shorter
/// than a header.
pub fn pkt_framing_ok(body: &[u8]) -> (r: bool)
    ensures
        r == framing_ok(body@, 0),
{
    let mut pos: usize = 0;
    while body.len() - pos >= 4
        invariant
            pos <= body@.len(),
            framing_ok(body@, 0) == framing_ok(body@, pos as nat),
        decreases body.len() - pos,
    {
        let n = pkt_len_at(body, pos);
        if n == 0 || n > body.len() - pos {
            return true;
        }
        if n < 4 {
            return false;
        }
        pos = pos + n;
    }
    true
}

/// The ref updates that a `git-receive-pack` request body carries.
pub fn parse_push_commands(body: &[u8]) -> (r: Vec<PushCommand>)
    requires
        framing_ok(body@, 0),
    ensures
        commands_view(r@) == commands_from(body@, 0),
{
    let mut commands: Vec<PushCommand> = Vec::new();
    let mut pos: usize = 0;
    let mut done = false;
    while !done && body.len() - pos >= 4
        invariant
            pos <= body@.len(),
            framing_ok(body@, pos as nat),
            commands_view(commands@) + commands_from(body@, pos as nat) == commands_from(body@, 0),
            done ==> commands_from(body@, pos as nat) == Seq::<(Seq<char>, Seq<char>, Seq<char>)>::empty(),
        decreases body.len() - pos, if done { 0int } else { 1int },
    {
        let n = pkt_len_at(body, pos);
        if n == 0 || n > body.len() - pos {
            done = true;
        } else {
            let line_end = pos + n;
            let cmd = command_of_line_exec(body, pos + 4, line_end);
            let ghost before = commands_view(commands@);
            match cmd {
                Some(c) => {
                    commands.push(c);
                    proof {
                        assert(commands_view(commands@) =~= before.push(commands@.last().view_parts()));
                        assert(commands_from(body@, pos as nat) == seq![commands@.last().view_parts()]
                            + commands_from(body@, line_end as nat));
                        assert(commands_view(commands@) + commands_from(body@, line_end as nat)
                            =~= before + commands_from(body@, pos as nat));
                    }
                },
                None => {
                    proof {
                        assert(commands_view(commands@) =~= before);
                    }
                },
            }
            pos = line_end;
        }
    }
    proof {
        assert(commands_from(body@, pos as nat) =~= Seq::<(Seq<char>, Seq<char>, Seq<char>)>::empty());
        assert(commands_view(commands@) + Seq::<(Seq<char>, Seq<char>, Seq<char>)>::empty() =~= commands_view(commands@));
    }
    commands
}

// ---------------------------------------------------------------------------
// Access
// ---------------------------------------------------------------------------

/// Why a git request is refused for want of authentication. Each reason
/// carries the message key under which the user-facing text is found.
#[derive(Debug, Clone, Copy, PartialEq, Eq, Structural)]
pub enum GitAuthError {
    /// Reading a private repository needs a signed-in user.
    AuthRequiredPrivate,
    /// Pushing needs a signed-in user.
    AuthRequiredPush,
}

impl GitAuthError {
    /// The message key of the refusal.
    pub fn message_key(&self) -> (r: &'static str)
        ensures
            r@ == (match self {
                GitAuthError::AuthRequiredPrivate => "server.api.scm.git.auth_required_private"@,
                GitAuthError::AuthRequiredPush => "server.api.scm.git.auth_required_push"@,
            }),
    {
        match self {
            GitAuthError::AuthRequiredPrivate => "server.api.scm.git.auth_required_private",
            GitAuthError::AuthRequiredPush => "server.api.scm.git.auth_required_push",
        }
    }
}

/// Anyone may clone or fetch a public repository; a private one only a
/// signed-in user.
pub fn check_read_access(visibility: crate::access::Visibility, authenticated: bool) -> (r: Result<(), GitAuthError>)
    ensures
        r == (if visibility == crate::access::Visibility::Public || authenticated {
            Ok(())
        } else {
            Err(GitAuthError::AuthRequiredPrivate)
        }),
{
    match visibility {
        crate::access::Visibility::Public => Ok(()),
        crate::access::Visibility::Private => {
            if authenticated {
                Ok(())
            } else {
                Err(GitAuthError::AuthRequiredPrivate)
            }
        },
    }
}

/// Only a signed-in user may push.
pub fn check_write_access(authenticated: bool) -> (r: Result<(), GitAuthError>)
    ensures
        r == (if authenticated {
            Ok(())
        } else {
            Err(GitAuthError::AuthRequiredPush)
        }),
{
    if authenticated {
        Ok(())
    } else {
        Err(GitAuthError::AuthRequiredPush)
    }
}

/// The access check that the ref advertisement of a service needs: read
/// access for `git-upload-pack`, write access for `git-receive-pack`.
pub fn check_service_access(
    service: GitService,
    visibility: crate::access::Visibility,
    authenticated: bool,
) -> (r: Result<(), GitAuthError>)
    ensures
        service == GitService::UploadPack ==> r == (if visibility == crate::access::Visibility::Public
            || authenticated {
            Ok(())
        } else {
            Err(GitAuthError::AuthRequiredPrivate)
        }),
        service == GitService::ReceivePack ==> r == (if authenticated {
            Ok(())
        } else {
            Err(GitAuthError::AuthRequiredPush)
        }),
{
    match service {
        GitService::UploadPack => check_read_access(visibility, authenticated),
        GitService::ReceivePack => check_write_access(authenticated),
    }
}

/// Whether `s` is the all-zero object id.
pub fn is_zero_sha(s: &str) -> (r: bool)
    ensures
        r == (s@ == zero_sha_view()),
{
    proof {
        lemma_zero_sha();
    }
    crate::text::str_eq(s, ZERO_SHA)
}

/// Whether a push from `old_sha` to `new_sha` needs the ancestry test that
/// tells a force push: it does unless one side is the zero id (a creation or
/// a deletion is never a force push).
pub fn needs_ancestry_check(old_sha: &str, new_sha: &str) -> (r: bool)
    ensures
        r == (old_sha@ != zero_sha_view() && new_sha@ != zero_sha_view()),
{
    !is_zero_sha(old_sha) && !is_zero_sha(new_sha)
}

/// What branch protection is asked about one ref update.
#[derive(Debug)]
pub struct PushCheck {
    pub branch: String,
    pub is_force_push: bool,
    pub is_deletion: bool,
    pub user_is_admin: bool,
}

/// The branch protection question for one push command, or `None` when the
/// command does not update a branch (tags and other refs are not checked).
/// `force_push` is the outcome of the ancestry test (false when
/// `needs_ancestry_check` says none is needed).
pub fn push_check_for(cmd: &PushCommand, force_push: bool, user_is_admin: bool) -> (r: Option<PushCheck>)
    ensures
        !has_prefix(cmd.ref_name@, "refs/heads/"@) ==> r is None,
        has_prefix(cmd.ref_name@, "refs/heads/"@) ==> (r matches Some(c) && c.branch@ == cmd.ref_name@.skip(11)
            && c.is_force_push == force_push && c.is_deletion == (cmd.new_sha@ == zero_sha_view())
            && c.user_is_admin == user_is_admin),
{
    match extract_branch_name(cmd.ref_name.as_str()) {
        Some(branch) => {
            let is_deletion = is_zero_sha(cmd.new_sha.as_str());
            Some(PushCheck { branch: branch.to_string(), is_force_push: force_push, is_deletion, user_is_admin })
        },
        None => None,
    }
}

// ---------------------------------------------------------------------------
// Requests
// ---------------------------------------------------------------------------

/// Query of the ref advertisement (`info/refs`).
#[derive(Debug)]
pub struct InfoRefsParams {
    /// The service asked for.
    pub service: String,
}

/// The service a ref advertisement asks for; another name is a bad request.
pub fn requested_service(params: &InfoRefsParams) -> (r: Result<GitService, crate::error::ServerError>)
    ensures
        r matches Ok(g) ==> g.name() == params.service@,
        params.service@ == "git-upload-pack"@ ==> r == Ok::<GitService, crate::error::ServerError>(GitService::UploadPack),
        params.service@ == "git-receive-pack"@ ==> r == Ok::<GitService, crate::error::ServerError>(GitService::ReceivePack),
        r is Err <==> (params.service@ != "git-upload-pack"@ && params.service@ != "git-receive-pack"@),
        r matches Err(e) ==> (e matches crate::error::ServerError::BadRequest(m) && m@ == "Invalid service: "@ + params.service@),
{
    proof {
        reveal_strlit("git-upload-pack");
        reveal_strlit("git-receive-pack");
        assert("git-upload-pack"@.len() != "git-receive-pack"@.len());
    }
    match GitService::from_str(params.service.as_str()) {
        Some(g) => Ok(g),
        None => Err(
            crate::error::ServerError::BadRequest(
                vstd::string::StringExecFns::concat("Invalid service: ".to_string(), params.service.as_str()),
            ),
        ),
    }
}

/// The content type a request to run a service must carry.
pub open spec fn request_content_type(g: GitService) -> Seq<char> {
    match g {
        GitService::UploadPack => "application/x-git-upload-pack-request"@,
        GitService::ReceivePack => "application/x-git-receive-pack-request"@,
    }
}

/// Refuses a request to run a service whose content type is not the
/// service's request type.
pub fn check_request_content_type(g: GitService, content_type: &str) -> (r: Result<(), crate::error::ServerError>)
    ensures
        r is Ok <==> content_type@ == request_content_type(g),
        r matches Err(e) ==> (e matches crate::error::ServerError::BadRequest(m) && m@ == "Invalid content type: "@
            + content_type@),
{
    let expected = match g {
        GitService::UploadPack => "application/x-git-upload-pack-request",
        GitService::ReceivePack => "application/x-git-receive-pack-request",
    };
    if crate::text::str_eq(content_type, expected) {
        Ok(())
    } else {
        Err(
            crate::error::ServerError::BadRequest(
                vstd::string::StringExecFns::concat("Invalid content type: ".to_string(), content_type),
            ),
        )
    }
}

/// The first line of a ref advertisement, before the flush packet:
/// `# service=<name>` and a newline.
pub open spec fn service_line(g: GitService) -> Seq<char> {
    "# service="@ + g.name() + "\n"@
}

/// The body of a ref advertisement: the service line as a pkt-line, a flush
/// packet, then what `git` printed.
pub fn advertisement(g: GitService, git_output: &Vec<u8>) -> (r: Vec<u8>)
    ensures
        r@ == hex4((vstd::utf8::encode_utf8(service_line(g)).len() + 4) as nat) + vstd::utf8::encode_utf8(
            service_line(g),
        ) + seq![48u8, 48u8, 48u8, 48u8] + git_output@,
{
    let line = vstd::string::StringExecFns::concat(
        vstd::string::StringExecFns::concat("# service=".to_string(), g.as_str()),
        "\n",
    );
    let n = line.as_str().as_bytes().len();
    assert(line@ == service_line(g));
    let mut out = if n <= usize::MAX - 4 {
        pkt_line(line.as_str())
    } else {
        Vec::new()
    };
    proof {
        assert(vstd::utf8::encode_utf8(service_line(g)).len() < 100) by {
            reveal_strlit("# service=");
            reveal_strlit("\n");
            reveal_strlit("git-upload-pack");
            reveal_strlit("git-receive-pack");
            vstd::utf8::is_ascii_chars_encode_utf8(service_line(g));
        }
    }
    let ghost head = out@;
    let flush = pkt_flush();
    let mut i: usize = 0;
    while i < 4
        invariant
            i <= 4,
            flush@ == seq![48u8, 48u8, 48u8, 48u8],
            out@ == head + flush@.take(i as int),
        decreases 4 - i,
    {
        out.push(flush[i]);
        assert(flush@.take(i + 1) == flush@.take(i as int).push(flush@[i as int]));
        i = i + 1;
    }
    let ghost mid = out@;
    let mut j: usize = 0;
    while j < git_output.len()
        invariant
            j <= git_output.len(),
            out@ == mid + git_output@.take(j as int),
        decreases git_output.len() - j,
    {
        out.push(git_output[j]);
        assert(git_output@.take(j + 1) == git_output@.take(j as int).push(git_output@[j as int]));
        j = j + 1;
    }
    assert(flush@.take(4) == flush@);
    assert(git_output@.take(j as int) == git_output@);
    out
}

// ---------------------------------------------------------------------------
// Reading back what a client frames
// ---------------------------------------------------------------------------

/// The line a client sends to update `ref_name` from `old` to `new`.
pub open spec fn command_line(old: Seq<char>, new: Seq<char>, ref_name: Seq<char>) -> Seq<char> {
    old + seq![' '] + new + seq![' '] + ref_name + seq!['\n']
}

/// That line framed as a pkt-line, followed by a flush packet.
pub open spec fn framed_command(old: Seq<char>, new: Seq<char>, ref_name: Seq<char>) -> Seq<u8> {
    let b = vstd::utf8::encode_utf8(command_line(old, new, ref_name));
    hex4((b.len() + 4) as nat) + b + seq![48u8, 48u8, 48u8, 48u8]
}

proof fn lemma_hex_digit_val(d: nat)
    requires
        d < 16,
    ensures
        hex_val(hex_digit(d)) == d,
{
}

proof fn lemma_hex4_digits(n: nat)
    requires
        n < 65536,
    ensures
        hex4(n) == seq![hex_digit(n / 4096), hex_digit((n / 256) % 16), hex_digit((n / 16) % 16), hex_digit(n % 16)],
{
    let a = n / 4096;
    let b = (n / 256) % 16;
    let c = (n / 16) % 16;
    let d = n % 16;
    assert(n / 16 / 16 == n / 256) by (nonlinear_arith);
    assert(n / 16 / 16 / 16 == n / 4096) by (nonlinear_arith);
    assert(n / 256 < 16 ==> (n / 256) % 16 == n / 256) by (nonlinear_arith);
    assert(n / 16 < 16 ==> (n / 16) % 16 == n / 16) by (nonlinear_arith);
    assert((n / 16) % 16 == c);
    assert((n / 16 / 16) % 16 == b);
    if n < 16 {
        assert(hex_of(n) == seq![hex_digit(n)]);
        assert(n / 16 == 0 && n / 256 == 0 && n / 4096 == 0) by (nonlinear_arith)
            requires
                n < 16,
        ;
        assert(hex4(n) =~= seq![48u8, 48u8, 48u8] + seq![hex_digit(n)]);
    } else if n < 256 {
        assert(n / 16 < 16 && n / 256 == 0 && n / 4096 == 0) by (nonlinear_arith)
            requires
                16 <= n < 256,
        ;
        assert(hex_of(n / 16) == seq![hex_digit(n / 16)]);
        assert(hex_of(n) == hex_of(n / 16).push(hex_digit(n % 16)));
        assert(hex4(n) =~= seq![48u8, 48u8] + seq![hex_digit(n / 16), hex_digit(n % 16)]);
    } else if n < 4096 {
        assert(16 <= n / 16 < 256 && n / 256 < 16 && n / 4096 == 0) by (nonlinear_arith)
            requires
                256 <= n < 4096,
        ;
        let m = n / 16;
        assert(hex_of(m / 16) == seq![hex_digit(m / 16)]);
        assert(hex_of(m) == hex_of(m / 16).push(hex_digit(m % 16)));
        assert(hex_of(n) == hex_of(m).push(hex_digit(n % 16)));
        assert(hex4(n) =~= seq![48u8] + seq![hex_digit(n / 256), hex_digit(c), hex_digit(d)]);
    } else {
        assert(256 <= n / 16 < 4096 && 16 <= n / 256 < 256 && n / 4096 < 16) by (nonlinear_arith)
            requires
                4096 <= n < 65536,
        ;
        let m = n / 16;
        let q = m / 16;
        assert(q == n / 256);
        assert(q / 16 == n / 4096) by (nonlinear_arith)
            requires
                q == n / 256,
        ;
        assert(hex_of(q / 16) == seq![hex_digit(q / 16)]);
        assert(hex_of(q) == hex_of(q / 16).push(hex_digit(q % 16)));
        assert(hex_of(m) == hex_of(q).push(hex_digit(m % 16)));
        assert(hex_of(n) == hex_of(m).push(hex_digit(n % 16)));
        assert(hex4(n) =~= seq![hex_digit(a), hex_digit(b), hex_digit(c), hex_digit(d)]);
    }
}

proof fn lemma_pkt_len_of_hex4(n: nat)
    requires
        n < 65536,
    ensures
        hex4(n).len() == 4,
        pkt_len(hex4(n)) == n,
{
    lemma_hex4_digits(n);
    let a = n / 4096;
    let b = (n / 256) % 16;
    let c = (n / 16) % 16;
    let d = n % 16;
    assert(a < 16 && b < 16 && c < 16 && d < 16) by (nonlinear_arith)
        requires
            n < 65536,
            a == n / 4096,
            b == (n / 256) % 16,
            c == (n / 16) % 16,
            d == n % 16,
    ;
    lemma_hex_digit_val(a);
    lemma_hex_digit_val(b);
    lemma_hex_digit_val(c);
    lemma_hex_digit_val(d);
    assert(a * 4096 + b * 256 + c * 16 + d == n) by (nonlinear_arith)
        requires
            a == n / 4096,
            b == (n / 256) % 16,
            c == (n / 16) % 16,
            d == n % 16,
    ;
}

proof fn lemma_command_of_line(old: Seq<char>, new: Seq<char>, ref_name: Seq<char>)
    requires
        !old.contains(' '),
        !new.contains(' '),
        !ref_name.contains('\0'),
        !ref_name.contains('\n'),
    ensures
        command_of_line(vstd::utf8::encode_utf8(command_line(old, new, ref_name))) == Some((old, new, ref_name)),
{
    let line = command_line(old, new, ref_name);
    vstd::utf8::encode_utf8_valid_utf8(line);
    vstd::utf8::encode_utf8_decode_utf8(line);
    let body = old + seq![' '] + new + seq![' '] + ref_name;
    assert(line == body.push('\n'));
    assert(line.drop_last() == body);
    assert(trim_trailing(body, '\n') == body) by {
        if body.len() > 0 && body.last() == '\n' {
            if ref_name.len() > 0 {
                assert(body.last() == ref_name.last());
                assert(ref_name.contains(ref_name.last()));
            } else {
                assert(body.last() == ' ');
            }
        }
    }
    let t = body;
    let i = old.len() as int;
    let j = i + 1 + new.len();
    assert(t[i] == ' ');
    assert forall|k: int| 0 <= k < i implies t[k] != ' ' by {
        assert(t[k] == old[k]);
        if t[k] == ' ' {
            assert(old.contains(' '));
        }
    }
    lemma_find_from(t, ' ', 0, i);
    assert(t[j] == ' ');
    assert forall|k: int| i + 1 <= k < j implies t[k] != ' ' by {
        assert(t[k] == new[k - i - 1]);
        if t[k] == ' ' {
            assert(new.contains(' '));
        }
    }
    lemma_find_from(t, ' ', i + 1, j);
    assert forall|k: int| j + 1 <= k < t.len() implies t[k] != '\0' by {
        assert(t[k] == ref_name[k - j - 1]);
        if t[k] == '\0' {
            assert(ref_name.contains('\0'));
        }
    }
    lemma_find_from(t, '\0', j + 1, t.len() as int);
    assert(t.subrange(0, i) =~= old);
    assert(t.subrange(i + 1, j) =~= new);
    assert(t.subrange(j + 1, t.len() as int) =~= ref_name);
}

/// What a client frames is read back: one `old new ref` line in a pkt-line
/// followed by a flush packet is well framed, and it carries exactly that
/// command, when the ids hold no space, the ref no NUL and no newline, and
/// the line fits a pkt-line.
pub proof fn lemma_push_command_roundtrip(old: Seq<char>, new: Seq<char>, ref_name: Seq<char>)
    requires
        !old.contains(' '),
        !new.contains(' '),
        !ref_name.contains('\0'),
        !ref_name.contains('\n'),
        vstd::utf8::encode_utf8(command_line(old, new, ref_name)).len() + 4 < 65536,
    ensures
        framing_ok(framed_command(old, new, ref_name), 0),
        commands_from(framed_command(old, new, ref_name), 0) == seq![(old, new, ref_name)],
{
    let b = vstd::utf8::encode_utf8(command_line(old, new, ref_name));
    let n = (b.len() + 4) as nat;
    let f = framed_command(old, new, ref_name);
    lemma_pkt_len_of_hex4(n);
    let h = hex4(n);
    assert(f == h + b + seq![48u8, 48u8, 48u8, 48u8]);
    assert(f.len() == n + 4);
    assert(f.subrange(0, 4) =~= h);
    assert(f.subrange(4, n as int) =~= b);
    assert(f.subrange(n as int, n as int + 4) =~= seq![48u8, 48u8, 48u8, 48u8]);
    assert(pkt_len(f.subrange(n as int, n as int + 4)) == 0);
    lemma_command_of_line(old, new, ref_name);
    assert(commands_from(f, n) == Seq::<(Seq<char>, Seq<char>, Seq<char>)>::empty());
    assert(framing_ok(f, n));
}

/// The pkt-line that carries the command to update `ref_name` from `old`
/// to `new` (without a flush packet after it).
pub open spec fn command_pkt(old: Seq<char>, new: Seq<char>, ref_name: Seq<char>) -> Seq<u8> {
    let b = vstd::utf8::encode_utf8(command_line(old, new, ref_name));
    hex4((b.len() + 4) as nat) + b
}

/// A command that a client can frame: ids without spaces, a ref without NUL
/// or newline, and a line that fits a pkt-line.
pub open spec fn frameable(c: (Seq<char>, Seq<char>, Seq<char>)) -> bool {
    &&& !c.0.contains(' ')
    &&& !c.1.contains(' ')
    &&& !c.2.contains('\0')
    &&& !c.2.contains('\n')
    &&& vstd::utf8::encode_utf8(command_line(c.0, c.1, c.2)).len() + 4 < 65536
}

/// The pkt-lines of several commands, one after another.
pub open spec fn command_pkts(cmds: Seq<(Seq<char>, Seq<char>, Seq<char>)>) -> Seq<u8>
    decreases cmds.len(),
{
    if cmds.len() == 0 {
        seq![]
    } else {
        command_pkt(cmds[0].0, cmds[0].1, cmds[0].2) + command_pkts(cmds.drop_first())
    }
}

proof fn lemma_commands_shift(p: Seq<u8>, b: Seq<u8>, pos: nat)
    ensures
        commands_from(p + b, p.len() + pos) == commands_from(b, pos),
        framing_ok(p + b, p.len() + pos) == framing_ok(b, pos),
    decreases b.len() - pos,
{
    let pb = p + b;
    let q = p.len() + pos;
    if pos + 4 <= b.len() {
        assert(pb.subrange(q as int, q + 4int) =~= b.subrange(pos as int, pos + 4int));
        let n = pkt_len(b.subrange(pos as int, pos + 4int));
        if n >= 4 && pos + n <= b.len() {
            assert(pb.subrange(q + 4int, (q + n) as int) =~= b.subrange(pos + 4int, (pos + n) as int));
        }
        if n > 0 && pos + n <= b.len() {
            lemma_commands_shift(p, b, pos + n);
        }
    }
}

/// A command's pkt-line is read as that one command, and whatever follows
/// it is read on as if it stood alone: the commands of the line followed by
/// `b` are the line's command followed by the commands of `b`, and the
/// framing is as good as `b`'s.
pub proof fn lemma_command_then_rest(c: (Seq<char>, Seq<char>, Seq<char>), b: Seq<u8>)
    requires
        frameable(c),
    ensures
        commands_from(command_pkt(c.0, c.1, c.2) + b, 0) == seq![c] + commands_from(b, 0),
        framing_ok(command_pkt(c.0, c.1, c.2) + b, 0) == framing_ok(b, 0),
{
    let line = vstd::utf8::encode_utf8(command_line(c.0, c.1, c.2));
    let n = (line.len() + 4) as nat;
    let p = command_pkt(c.0, c.1, c.2);
    lemma_pkt_len_of_hex4(n);
    lemma_command_of_line(c.0, c.1, c.2);
    let f = p + b;
    assert(p.len() == n);
    assert(f.subrange(0, 4) =~= hex4(n));
    assert(f.subrange(4, n as int) =~= line);
    lemma_commands_shift(p, b, 0);
    assert(c == (c.0, c.1, c.2));
}

/// A push of several commands, each in its own pkt-line and ended by a flush
/// packet, is well framed and read as exactly those commands, in order: no
/// command is lost and none is added.
pub proof fn lemma_every_command_is_read(cmds: Seq<(Seq<char>, Seq<char>, Seq<char>)>)
    requires
        forall|i: int| 0 <= i < cmds.len() ==> frameable(#[trigger] cmds[i]),
    ensures
        framing_ok(command_pkts(cmds) + seq![48u8, 48u8, 48u8, 48u8], 0),
        commands_from(command_pkts(cmds) + seq![48u8, 48u8, 48u8, 48u8], 0) == cmds,
        commands_from(command_pkts(cmds) + seq![48u8, 48u8, 48u8, 48u8], 0).len() == cmds.len(),
    decreases cmds.len(),
{
    let flush = seq![48u8, 48u8, 48u8, 48u8];
    if cmds.len() == 0 {
        assert(command_pkts(cmds) + flush =~= flush);
        assert(pkt_len(flush.subrange(0, 4)) == 0);
        assert(commands_from(flush, 0) =~= cmds);
    } else {
        let rest = cmds.drop_first();
        assert forall|i: int| 0 <= i < rest.len() implies frameable(#[trigger] rest[i]) by {
            assert(rest[i] == cmds[i + 1]);
        }
        lemma_every_command_is_read(rest);
        assert(frameable(cmds[0]));
        let c = cmds[0];
        let tail = command_pkts(rest) + flush;
        lemma_command_then_rest(c, tail);
        assert(command_pkts(cmds) + flush =~= command_pkt(c.0, c.1, c.2) + tail);
        assert(seq![c] + rest =~= cmds);
    }
}

} // verus!
