//! The engine's owned state: one command's latest output snapshot, with a
//! forward read cursor, a cached header row, and the line-level diff through
//! which a new capture is applied.

use crate::runner::{capture, captured_lines, RawCapture, RunError};
use crate::text::{alphabetic, header_like, split_whitespace_tokens, uppercase, whitespace_tokens};
use vstd::prelude::*;
use vstd::string::StrSliceExecFns;

verus! {

/// Why a diff could not be applied.
#[derive(Debug, Clone, PartialEq, Eq)]
pub enum DiffError {
    /// The new capture has fewer lines than the snapshot retains.
    ShorterOutput,
}

/// Why no header row was detected.
#[derive(Debug, Clone, PartialEq, Eq)]
pub enum HeaderError {
    /// The snapshot holds no output at all.
    NoOutput,
    /// Line 0 has a lowercase alphabetic character in it, so it does not
    /// look like a header.
    NotAllCaps,
}

/// The mathematical content of a snapshot.
pub ghost struct SnapshotModel {
    pub cmdline: Seq<char>,
    pub cmdname: Seq<char>,
    pub timestamp: Seq<char>,
    pub lines: Seq<Seq<char>>,
    pub headers: Option<Seq<Seq<char>>>,
    pub cursor: int,
}

/// One monitored command's state: the command line it was created from, the
/// resolved program name, the latest captured output with its timestamp, the
/// cached header row, and the read cursor.
///
/// The read cursor and the diff are two independent access paths over the
/// same lines; applying an update deliberately resets the cursor.
#[derive(Debug, Clone)]
pub struct CmdOutput {
    pub cmdline: String,
    pub timestamp: String,
    pub output: Vec<String>,
    cmdname: String,
    current: usize,
    headers: Option<Vec<String>>,
}

impl View for CmdOutput {
    type V = SnapshotModel;

    closed spec fn view(&self) -> SnapshotModel {
        SnapshotModel {
            cmdline: self.cmdline@,
            cmdname: self.cmdname@,
            timestamp: self.timestamp@,
            lines: self.output.deep_view(),
            headers: match self.headers {
                Option::Some(h) => Option::Some(h.deep_view()),
                Option::None => Option::None,
            },
            cursor: self.current as int,
        }
    }
}

/// One step of sequential read: the line yielded at a cursor position, and
/// the cursor after it.
pub open spec fn cursor_step(lines: Seq<Seq<char>>, cursor: int) -> (int, Option<Seq<char>>) {
    if 0 <= cursor < lines.len() {
        (cursor + 1, Option::Some(lines[cursor]))
    } else {
        (cursor, Option::None)
    }
}

/// Every line that sequential reads yield from a cursor position onward.
pub open spec fn drain_from(lines: Seq<Seq<char>>, cursor: int) -> Seq<Seq<char>>
    decreases lines.len() - cursor,
{
    if 0 <= cursor < lines.len() {
        seq![lines[cursor]] + drain_from(lines, cursor + 1)
    } else {
        Seq::empty()
    }
}

/// The indices among `0 .. n` whose content differs between two captures, in
/// ascending order.
pub open spec fn changed_indices(a: Seq<Seq<char>>, b: Seq<Seq<char>>, n: int) -> Seq<int>
    decreases n,
{
    if n <= 0 {
        Seq::empty()
    } else if a[n - 1] != b[n - 1] {
        changed_indices(a, b, n - 1).push(n - 1)
    } else {
        changed_indices(a, b, n - 1)
    }
}

impl CmdOutput {
    /// A snapshot is well formed when its cursor is within bounds and its
    /// program name is non-empty.
    pub open spec fn wf(&self) -> bool {
        &&& 0 <= self@.cursor <= self@.lines.len()
        &&& self@.cmdname.len() > 0
    }

    /// Builds the initial snapshot from a command line and the outcome of
    /// its first spawn. Construction fails entirely when the command line
    /// has no token to invoke or when the first capture failed; on success
    /// the cursor starts at zero and no header is cached yet.
    pub fn new(cmdline: &str, raw: Result<RawCapture, String>) -> (r: Result<CmdOutput, RunError>)
        ensures
            ({
                let toks = whitespace_tokens(cmdline@);
                if toks.len() == 0 {
                    r == Err::<CmdOutput, RunError>(RunError::NoCommand)
                } else {
                    match raw {
                        Result::Err(cause) => r == Err::<CmdOutput, RunError>(
                            RunError::SpawnFailed(cause),
                        ),
                        Result::Ok(rc) => {
                            if !rc.exit_ok {
                                r == Err::<CmdOutput, RunError>(RunError::NonZeroExit)
                            } else {
                                &&& r is Ok
                                &&& r->Ok_0.wf()
                                &&& r->Ok_0@.cmdline == cmdline@
                                &&& r->Ok_0@.cmdname == toks[0]
                                &&& r->Ok_0@.lines == captured_lines(rc.stdout@)
                                &&& r->Ok_0@.cursor == 0
                                &&& r->Ok_0@.headers is None
                            }
                        },
                    }
                }
            }),
    {
        let mut toks = split_whitespace_tokens(cmdline);
        if toks.len() == 0 {
            return Err(RunError::NoCommand);
        }
        let cmdname = toks.remove(0);
        match capture(raw) {
            Ok(cap) => Ok(
                CmdOutput {
                    cmdline: cmdline.to_owned(),
                    timestamp: cap.timestamp,
                    output: cap.lines,
                    cmdname,
                    current: 0,
                    headers: None,
                },
            ),
            Err(e) => Err(e),
        }
    }

    /// The resolved program name: the first token of the command line, as
    /// bound at construction. Re-invocation runs exactly this.
    pub fn command_name(&self) -> (r: &String)
        ensures
            r@ == self@.cmdname,
    {
        &self.cmdname
    }

    /// Accepts the outcome of a re-invocation of the bound program name.
    /// By design — a deliberate quirk of the polling path — re-invocation
    /// runs only the program name; the argument list from construction is
    /// dropped. On success the fresh lines are returned for a later diff, the
    /// timestamp is renewed and the cursor moves back to the start; a failed
    /// poll leaves the snapshot exactly as it was.
    pub fn execute(&mut self, raw: Result<RawCapture, String>) -> (r: Result<Vec<String>, RunError>)
        ensures
            ({
                let pre = old(self)@;
                let post = final(self)@;
                if pre.cmdname.len() == 0 {
                    r == Err::<Vec<String>, RunError>(RunError::NoCommand) && post == pre
                } else {
                    match raw {
                        Result::Err(cause) => r == Err::<Vec<String>, RunError>(
                            RunError::SpawnFailed(cause),
                        ) && post == pre,
                        Result::Ok(rc) => {
                            if !rc.exit_ok {
                                r == Err::<Vec<String>, RunError>(RunError::NonZeroExit) && post
                                    == pre
                            } else {
                                &&& r is Ok
                                &&& r->Ok_0.deep_view() == captured_lines(rc.stdout@)
                                &&& post.cmdline == pre.cmdline
                                &&& post.cmdname == pre.cmdname
                                &&& post.lines == pre.lines
                                &&& post.headers == pre.headers
                                &&& post.cursor == 0
                            }
                        },
                    }
                }
            }),
            old(self).wf() ==> final(self).wf(),
    {
        if self.cmdname.as_str().is_empty() {
            return Err(RunError::NoCommand);
        }
        match capture(raw) {
            Ok(cap) => {
                self.timestamp = cap.timestamp;
                self.current = 0;
                Ok(cap.lines)
            },
            Err(e) => Err(e),
        }
    }

    /// Applies a fresh capture to the snapshot: every index whose content
    /// differs is overwritten and recorded, in ascending order, and the read
    /// cursor moves back to the start whether or not anything changed. A
    /// capture with fewer lines than the snapshot retains is refused and
    /// changes nothing; extra trailing lines of a longer capture are
    /// ignored, a documented limit of the fixed-width diff.
    pub fn update_lines(&mut self, oplines: Vec<String>) -> (r: Result<Vec<usize>, DiffError>)
        ensures
            ({
                let pre = old(self)@;
                let post = final(self)@;
                let fresh = oplines.deep_view();
                if fresh.len() < pre.lines.len() {
                    r == Err::<Vec<usize>, DiffError>(DiffError::ShorterOutput) && post == pre
                } else {
                    &&& r is Ok
                    &&& r->Ok_0@.map_values(|u: usize| u as int) == changed_indices(
                        pre.lines,
                        fresh,
                        pre.lines.len() as int,
                    )
                    &&& post.lines.len() == pre.lines.len()
                    &&& (forall|i: int|
                        0 <= i < pre.lines.len() ==> post.lines[i] == fresh[i])
                    &&& post.cursor == 0
                    &&& post.cmdline == pre.cmdline
                    &&& post.cmdname == pre.cmdname
                    &&& post.timestamp == pre.timestamp
                    &&& post.headers == pre.headers
                }
            }),
            old(self).wf() ==> final(self).wf(),
    {
        let ghost pre = old(self)@;
        let ghost fresh = oplines.deep_view();
        let n = self.output.len();
        if oplines.len() < n {
            return Err(DiffError::ShorterOutput);
        }
        let mut changed: Vec<usize> = Vec::new();
        let mut oi: usize = 0;
        while oi < n
            invariant
                oi <= n,
                n == pre.lines.len(),
                self.output@.len() == n,
                oplines@.len() >= n,
                fresh == oplines.deep_view(),
                self.cmdline == old(self).cmdline,
                self.cmdname == old(self).cmdname,
                self.timestamp == old(self).timestamp,
                self.headers == old(self).headers,
                self.current == old(self).current,
                forall|j: int| 0 <= j < oi ==> self.output.deep_view()[j] == fresh[j],
                forall|j: int| oi <= j < n ==> self.output.deep_view()[j] == pre.lines[j],
                changed@.map_values(|u: usize| u as int) =~= changed_indices(
                    pre.lines,
                    fresh,
                    oi as int,
                ),
            decreases n - oi,
        {
            if !(self.output[oi] == oplines[oi]) {
                self.output[oi] = oplines[oi].clone();
                changed.push(oi);
            }
            proof {
                assert(fresh[oi as int] == oplines@[oi as int]@);
                assert(changed@.map_values(|u: usize| u as int) =~= changed_indices(
                    pre.lines,
                    fresh,
                    oi + 1,
                ));
            }
            oi += 1;
        }
        self.current = 0;
        proof {
            assert(changed@.map_values(|u: usize| u as int) == changed_indices(
                pre.lines,
                fresh,
                pre.lines.len() as int,
            ));
        }
        Ok(changed)
    }

    /// Tries to read line 0 as a column header: it qualifies when every
    /// alphabetic character in it is uppercase. The detected tokens are
    /// cached on the snapshot and returned; a snapshot with no output, or a
    /// first line that does not qualify, leaves the cache as it was.
    pub fn get_headers(&mut self) -> (r: Result<Vec<String>, HeaderError>)
        ensures
            ({
                let pre = old(self)@;
                let post = final(self)@;
                &&& post.cmdline == pre.cmdline
                &&& post.cmdname == pre.cmdname
                &&& post.timestamp == pre.timestamp
                &&& post.lines == pre.lines
                &&& post.cursor == pre.cursor
                &&& if pre.lines.len() == 0 {
                    r == Err::<Vec<String>, HeaderError>(HeaderError::NoOutput) && post.headers
                        == pre.headers
                } else if !header_like(pre.lines[0]) {
                    r == Err::<Vec<String>, HeaderError>(HeaderError::NotAllCaps) && post.headers
                        == pre.headers
                } else {
                    &&& r is Ok
                    &&& r->Ok_0.deep_view() == whitespace_tokens(pre.lines[0])
                    &&& post.headers == Some(whitespace_tokens(pre.lines[0]))
                }
            }),
            old(self).wf() ==> final(self).wf(),
    {
        if self.output.len() == 0 {
            return Err(HeaderError::NoOutput);
        }
        let line0 = &self.output[0];
        let n = line0.as_str().unicode_len();
        let mut i: usize = 0;
        while i < n
            invariant
                i <= n,
                n == line0@.len(),
                old(self)@.lines.len() > 0,
                line0@ == old(self)@.lines[0],
                forall|j: int| 0 <= j < i ==> (alphabetic(#[trigger] line0@[j]) ==> uppercase(line0@[j])),
            decreases n - i,
        {
            let c = line0.as_str().get_char(i);
            if c.is_alphabetic() && !c.is_uppercase() {
                proof {
                    assert(alphabetic(old(self)@.lines[0][i as int]));
                    assert(!uppercase(old(self)@.lines[0][i as int]));
                }
                return Err(HeaderError::NotAllCaps);
            }
            i += 1;
        }
        proof {
            assert(header_like(old(self)@.lines[0]));
        }
        let toks = split_whitespace_tokens(line0.as_str());
        let cached = toks.clone();
        proof {
            assert forall|j: int| 0 <= j < toks@.len() implies cached@[j] == toks@[j] by {
                assert(cloned::<String>(toks@[j], cached@[j]));
            }
            assert(cached@ =~= toks@);
            assert(cached.deep_view() =~= toks.deep_view());
        }
        self.headers = Some(cached);
        Ok(toks)
    }

    /// Returns a copy of the line at the given index, if there is one. The
    /// snapshot is consumed; sequential access is the cursor's business.
    pub fn get_output_line(self, num: usize) -> (r: Option<String>)
        ensures
            num < self@.lines.len() ==> r is Some && r->0@ == self@.lines[num as int],
            num >= self@.lines.len() ==> r is None,
    {
        if num < self.output.len() {
            let line = &self.output[num];
            Some(line.clone())
        } else {
            None
        }
    }

    /// Borrows the line at the given index: the indexed access the push
    /// layer uses when it forwards changed lines.
    pub fn line_at(&self, num: usize) -> (r: &String)
        requires
            num < self@.lines.len(),
        ensures
            r@ == self@.lines[num as int],
    {
        &self.output[num]
    }

    /// Returns the line under the cursor and advances it; `None` once the
    /// cursor has passed the last line. Draining is independent of the
    /// diff: only an applied update moves the cursor back to the start.
    pub fn next(&mut self) -> (r: Option<String>)
        ensures
            ({
                let pre = old(self)@;
                let post = final(self)@;
                &&& post.cmdline == pre.cmdline
                &&& post.cmdname == pre.cmdname
                &&& post.timestamp == pre.timestamp
                &&& post.lines == pre.lines
                &&& post.headers == pre.headers
                &&& match r {
                    Option::Some(line) => {
                        &&& pre.cursor < pre.lines.len()
                        &&& line@ == pre.lines[pre.cursor]
                        &&& post.cursor == pre.cursor + 1
                        &&& (post.cursor, Option::Some(line@)) == cursor_step(
                            pre.lines,
                            pre.cursor,
                        )
                    },
                    Option::None => {
                        &&& pre.cursor >= pre.lines.len()
                        &&& post.cursor == pre.cursor
                        &&& (post.cursor, Option::None::<Seq<char>>) == cursor_step(
                            pre.lines,
                            pre.cursor,
                        )
                    },
                }
            }),
            old(self).wf() ==> final(self).wf(),
    {
        if self.current < self.output.len() {
            let line = &self.output[self.current];
            let value = line.clone();
            self.current = self.current + 1;
            Some(value)
        } else {
            None
        }
    }
}

/// Law: draining from the start yields every retained line, in order, and
/// the read after exhaustion yields nothing.
pub proof fn lemma_drain_in_order(lines: Seq<Seq<char>>)
    ensures
        drain_from(lines, 0) == lines,
        cursor_step(lines, lines.len() as int).1 is None,
{
    lemma_drain_suffix(lines, 0);
    assert(lines.skip(0) =~= lines);
}

proof fn lemma_drain_suffix(lines: Seq<Seq<char>>, cursor: int)
    requires
        0 <= cursor <= lines.len(),
    ensures
        drain_from(lines, cursor) =~= lines.skip(cursor),
    decreases lines.len() - cursor,
{
    if cursor < lines.len() {
        lemma_drain_suffix(lines, cursor + 1);
    }
}

/// Law: a capture identical to the retained lines records no changed index.
pub proof fn lemma_identical_capture_changes_nothing(lines: Seq<Seq<char>>, n: int)
    requires
        0 <= n,
    ensures
        changed_indices(lines, lines, n) == Seq::<int>::empty(),
    decreases n,
{
    if n > 0 {
        lemma_identical_capture_changes_nothing(lines, n - 1);
    }
}

/// Law: the recorded indices are exactly the positions whose content
/// differs, each within bounds, and they come in strictly ascending order.
pub proof fn lemma_changed_indices_exact(a: Seq<Seq<char>>, b: Seq<Seq<char>>, n: int)
    requires
        0 <= n,
    ensures
        forall|i: int| #[trigger]
            changed_indices(a, b, n).contains(i) <==> (0 <= i < n && a[i] != b[i]),
        forall|k1: int, k2: int|
            0 <= k1 < k2 < changed_indices(a, b, n).len() ==> changed_indices(a, b, n)[k1]
                < changed_indices(a, b, n)[k2],
    decreases n,
{
    if n > 0 {
        lemma_changed_indices_exact(a, b, n - 1);
        let prev = changed_indices(a, b, n - 1);
        let cur = changed_indices(a, b, n);
        assert forall|k: int| 0 <= k < prev.len() implies 0 <= prev[k] < n - 1 && a[prev[k]]
            != b[prev[k]] by {
            assert(prev.contains(prev[k]));
        }
        if a[n - 1] != b[n - 1] {
            assert(cur == prev.push(n - 1));
            assert forall|i: int| #[trigger] cur.contains(i) implies (0 <= i < n && a[i]
                != b[i]) by {
                let k = choose|k: int| 0 <= k < cur.len() && cur[k] == i;
                if k < prev.len() {
                    assert(prev.contains(i));
                }
            }
            assert forall|i: int| 0 <= i < n && a[i] != b[i] implies #[trigger] cur.contains(
                i,
            ) by {
                if i < n - 1 {
                    assert(prev.contains(i));
                    let k = choose|k: int| 0 <= k < prev.len() && prev[k] == i;
                    assert(cur[k] == i);
                } else {
                    assert(cur[cur.len() - 1] == i);
                }
            }
        } else {
            assert(cur == prev);
        }
    }
}

} // verus!
