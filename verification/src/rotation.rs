//! Size-based rotation: the file manager's byte counter and sequence index,
//! the per-line rotation decision, and the write plan for a batch of lines.

use vstd::prelude::*;

verus! {

/// A size limit with its unit, as accepted at configuration time.
#[derive(Clone, Copy)]
pub enum FileSize {
    Kb(u64),
    Mb(u64),
    Gb(u64),
}

impl FileSize {
    /// The limit in bytes.
    pub open spec fn spec_bytes(self) -> int {
        match self {
            FileSize::Kb(v) => v * 0x400,
            FileSize::Mb(v) => v * 0x100000,
            FileSize::Gb(v) => v * 0x40000000,
        }
    }

    /// The limit in bytes; the caller keeps the product inside `u64`.
    pub fn to_bytes(self) -> (r: u64)
        requires
            self.spec_bytes() <= u64::MAX,
        ensures
            r == self.spec_bytes(),
    {
        match self {
            FileSize::Kb(v) => v * 0x400,
            FileSize::Mb(v) => v * 0x100000,
            FileSize::Gb(v) => v * 0x40000000,
        }
    }
}

/// The rotation policy fixed at configuration time: the base name of the
/// log files and the byte limit of one file.
pub struct RotationPolicy {
    pub base_name: String,
    pub max_bytes: u64,
}

impl RotationPolicy {
    /// A valid policy has a positive byte limit.
    pub open spec fn wf(self) -> bool {
        self.max_bytes > 0
    }
}

/// The state of the active output file: how many bytes have been appended
/// to it and how many rotations have happened before it was opened.
pub struct FileState {
    pub bytes_written: u64,
    pub sequence_index: u64,
}

/// The mathematical image of a `FileState`.
pub struct FileStateView {
    pub bytes_written: int,
    pub sequence_index: int,
}

impl View for FileState {
    type V = FileStateView;

    open spec fn view(&self) -> FileStateView {
        FileStateView {
            bytes_written: self.bytes_written as int,
            sequence_index: self.sequence_index as int,
        }
    }
}

/// One write command handed to the process around the engine: rotate first
/// if asked, then append the line to the active file. `sequence` is the
/// sequence index of the file the line lands in; on rotation it is also the
/// suffix under which the previous active file is archived.
pub struct WriteCmd {
    pub rotate: bool,
    pub sequence: u64,
    pub line: String,
}

/// The mathematical image of a `WriteCmd`.
pub struct WriteCmdView {
    pub rotate: bool,
    pub sequence: int,
    pub line: Seq<char>,
}

impl View for WriteCmd {
    type V = WriteCmdView;

    open spec fn view(&self) -> WriteCmdView {
        WriteCmdView { rotate: self.rotate, sequence: self.sequence as int, line: self.line@ }
    }
}

/// The byte length of a line of text — the length of its UTF-8 encoding,
/// reduced to the machine word exactly as `str::len` reports it. This is
/// what the file's byte counter accumulates.
pub open spec fn byte_len(line: Seq<char>) -> int {
    (vstd::utf8::encode_utf8(line).len() as usize) as int
}

/// The rotation decision for one line of `len` bytes against limit `max`:
/// rotate exactly when the line would push the file past the limit; the
/// overflowing line lands whole in the fresh file, never split.
pub open spec fn spec_append(s: FileStateView, max: int, len: int) -> (bool, FileStateView) {
    if s.bytes_written + len > max {
        (true, FileStateView { bytes_written: len, sequence_index: s.sequence_index + 1 })
    } else {
        (false, FileStateView { bytes_written: s.bytes_written + len, ..s })
    }
}

/// The write plan for a batch of lines, threading the file state through
/// the per-line decision in order.
pub open spec fn spec_plan(s: FileStateView, max: int, lines: Seq<Seq<char>>) -> (Seq<WriteCmdView>,
    FileStateView)
    decreases lines.len(),
{
    if lines.len() == 0 {
        (seq![], s)
    } else {
        let (cmds, st) = spec_plan(s, max, lines.drop_last());
        let (rot, st2) = spec_append(st, max, byte_len(lines.last()));
        (
            cmds.push(WriteCmdView { rotate: rot, sequence: st2.sequence_index, line: lines.last() }),
            st2,
        )
    }
}

/// The total byte length of a batch of lines.
pub open spec fn sum_lens(lines: Seq<Seq<char>>) -> int
    decreases lines.len(),
{
    if lines.len() == 0 {
        0
    } else {
        sum_lens(lines.drop_last()) + byte_len(lines.last())
    }
}

/// Law: a plan keeps every line, in order, with nothing added — the file
/// write order matches the enqueue order and no line is lost or duplicated.
pub proof fn lemma_plan_keeps_lines(s: FileStateView, max: int, lines: Seq<Seq<char>>)
    ensures
        spec_plan(s, max, lines).0.len() == lines.len(),
        forall|i: int| 0 <= i < lines.len() ==> #[trigger] spec_plan(s, max, lines).0[i].line
            == lines[i],
    decreases lines.len(),
{
    if lines.len() > 0 {
        lemma_plan_keeps_lines(s, max, lines.drop_last());
        assert(forall|i: int| 0 <= i < lines.len() - 1 ==> lines.drop_last()[i] == lines[i]);
    }
}

/// Law: while the cumulative length stays within the limit, no rotation
/// happens; the counter just accumulates and the sequence index stands.
pub proof fn lemma_plan_no_rotation(s: FileStateView, max: int, lines: Seq<Seq<char>>)
    requires
        s.bytes_written >= 0,
        s.bytes_written + sum_lens(lines) <= max,
    ensures
        forall|i: int| 0 <= i < lines.len() ==> !(#[trigger] spec_plan(s, max, lines).0[i].rotate),
        spec_plan(s, max, lines).1.sequence_index == s.sequence_index,
        spec_plan(s, max, lines).1.bytes_written == s.bytes_written + sum_lens(lines),
    decreases lines.len(),
{
    if lines.len() > 0 {
        lemma_sum_lens_nonneg(lines.drop_last());
        lemma_plan_no_rotation(s, max, lines.drop_last());
        lemma_plan_keeps_lines(s, max, lines.drop_last());
    }
}

/// The total length of a batch is never negative.
pub proof fn lemma_sum_lens_nonneg(lines: Seq<Seq<char>>)
    ensures
        sum_lens(lines) >= 0,
    decreases lines.len(),
{
    if lines.len() > 0 {
        lemma_sum_lens_nonneg(lines.drop_last());
    }
}

/// A plan's first `k` commands are the plan of the first `k` lines: what
/// happens to a line depends only on the lines before it.
pub proof fn lemma_plan_prefix(s: FileStateView, max: int, lines: Seq<Seq<char>>, k: int)
    requires
        0 <= k <= lines.len(),
    ensures
        spec_plan(s, max, lines).0.take(k) == spec_plan(s, max, lines.take(k)).0,
    decreases lines.len(),
{
    lemma_plan_keeps_lines(s, max, lines);
    if k == lines.len() {
        assert(lines.take(k) =~= lines);
        assert(spec_plan(s, max, lines).0.take(k) =~= spec_plan(s, max, lines).0);
    } else {
        lemma_plan_prefix(s, max, lines.drop_last(), k);
        lemma_plan_keeps_lines(s, max, lines.drop_last());
        assert(lines.drop_last().take(k) =~= lines.take(k));
        assert(spec_plan(s, max, lines).0.take(k) =~= spec_plan(s, max, lines.drop_last()).0.take(
            k,
        ));
    }
}

/// Law: if the cumulative length of a batch first exceeds the limit with
/// its last line, the plan rotates exactly once, at that line: the earlier
/// lines land in the old file unrotated, and the overflowing line becomes
/// the first content of the fresh file, never split across the two.
pub proof fn lemma_rotation_boundary(s: FileStateView, max: int, lines: Seq<Seq<char>>)
    requires
        s.bytes_written >= 0,
        lines.len() > 0,
        s.bytes_written + sum_lens(lines.drop_last()) <= max,
        s.bytes_written + sum_lens(lines) > max,
    ensures
        forall|i: int| 0 <= i < lines.len() - 1 ==> !(#[trigger] spec_plan(s, max, lines).0[
            i
        ].rotate),
        spec_plan(s, max, lines).0.last().rotate,
        spec_plan(s, max, lines).0.last().sequence == s.sequence_index + 1,
        spec_plan(s, max, lines).1.sequence_index == s.sequence_index + 1,
        spec_plan(s, max, lines).1.bytes_written == byte_len(lines.last()),
{
    lemma_plan_no_rotation(s, max, lines.drop_last());
    lemma_plan_keeps_lines(s, max, lines.drop_last());
    lemma_plan_keeps_lines(s, max, lines);
}

/// Law: wherever inside a batch the cumulative length first exceeds the
/// limit — strictly after line `k` — exactly one rotation happens among
/// the first `k + 1` writes, at line `k` itself, and that line opens the
/// fresh file whole.
pub proof fn lemma_rotation_boundary_at(s: FileStateView, max: int, lines: Seq<Seq<char>>, k: int)
    requires
        s.bytes_written >= 0,
        0 <= k < lines.len(),
        s.bytes_written + sum_lens(lines.take(k)) <= max,
        s.bytes_written + sum_lens(lines.take(k + 1)) > max,
    ensures
        forall|i: int| 0 <= i < k ==> !(#[trigger] spec_plan(s, max, lines).0[i].rotate),
        spec_plan(s, max, lines).0[k].rotate,
        spec_plan(s, max, lines).0[k].sequence == s.sequence_index + 1,
{
    lemma_plan_keeps_lines(s, max, lines);
    lemma_plan_prefix(s, max, lines, k + 1);
    assert(lines.take(k + 1).drop_last() =~= lines.take(k));
    lemma_rotation_boundary(s, max, lines.take(k + 1));
    let full = spec_plan(s, max, lines).0;
    let pre = spec_plan(s, max, lines.take(k + 1)).0;
    lemma_plan_keeps_lines(s, max, lines.take(k + 1));
    assert(full.take(k + 1) == pre);
    assert(pre.last() == pre[k]);
    assert forall|i: int| 0 <= i < k implies !(#[trigger] full[i].rotate) by {
        assert(full[i] == full.take(k + 1)[i]);
    }
    assert(full[k] == full.take(k + 1)[k]);
}

} // verus!
