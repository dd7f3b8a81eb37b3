//! The record model and the deterministic formatter.

use vstd::prelude::*;
use vstd::string::StringExecFns;
use crate::text::lower_seq;

verus! {

/// One structured log event: an ordered, non-empty tag path, a
/// case-normalised severity level, a message, and the enqueue timestamp
/// (milliseconds, supplied by the caller's clock).
pub struct Record {
    pub tags: Vec<String>,
    pub level: String,
    pub message: String,
    pub timestamp: u64,
}

/// The mathematical image of a `Record`.
pub struct RecordView {
    pub tags: Seq<Seq<char>>,
    pub level: Seq<char>,
    pub message: Seq<char>,
    pub timestamp: int,
}

/// The character sequences of a sequence of strings, in order.
pub open spec fn views_of(tags: Seq<String>) -> Seq<Seq<char>> {
    Seq::new(tags.len(), |i: int| tags[i]@)
}

impl View for Record {
    type V = RecordView;

    open spec fn view(&self) -> RecordView {
        RecordView {
            tags: views_of(self.tags@),
            level: self.level@,
            message: self.message@,
            timestamp: self.timestamp as int,
        }
    }
}

impl RecordView {
    /// A well-formed record carries at least one tag and a level already in
    /// case-normal form.
    pub open spec fn wf(self) -> bool {
        &&& self.tags.len() > 0
        &&& self.level == lower_seq(self.level)
    }
}

impl Record {
    /// An explicit copy whose mathematical image equals the original's.
    pub fn duplicate(&self) -> (c: Record)
        ensures
            c@ == self@,
    {
        let mut tags: Vec<String> = Vec::new();
        let mut i: usize = 0;
        while i < self.tags.len()
            invariant
                i <= self.tags@.len(),
                tags@.len() == i,
                views_of(tags@) == views_of(self.tags@).take(i as int),
            decreases self.tags@.len() - i,
        {
            tags.push(self.tags[i].clone());
            proof {
                assert(views_of(tags@) =~= views_of(self.tags@).take(i + 1));
            }
            i = i + 1;
        }
        proof {
            assert(views_of(self.tags@).take(self.tags@.len() as int) =~= views_of(self.tags@));
        }
        let c = Record {
            tags,
            level: self.level.clone(),
            message: self.message.clone(),
            timestamp: self.timestamp,
        };
        c
    }
}

/// The tag path joined by single colons, in the given order.
pub open spec fn join_tags(tags: Seq<Seq<char>>) -> Seq<char>
    decreases tags.len(),
{
    if tags.len() == 0 {
        seq![]
    } else if tags.len() == 1 {
        tags[0]
    } else {
        join_tags(tags.drop_last()) + seq![':'] + tags.last()
    }
}

/// The one stable textual form of a record:
/// `tag1:tag2:...: level -> message\n`.
pub open spec fn line_of(r: RecordView) -> Seq<char> {
    join_tags(r.tags) + ": "@ + r.level + " -> "@ + r.message + "\n"@
}

/// Law: formatting is pure and deterministic — it is a function of the
/// record's mathematical image alone, so equal records yield equal lines.
pub proof fn lemma_format_deterministic(a: RecordView, b: RecordView)
    requires
        a == b,
    ensures
        line_of(a) == line_of(b),
{
}

/// Render a record as its one textual line.
pub fn format_record(r: &Record) -> (line: String)
    ensures
        line@ == line_of(r@),
{
    let ghost tag_views = views_of(r.tags@);
    let mut line = String::new();
    for i in 0..r.tags.len()
        invariant
            tag_views == views_of(r.tags@),
            tag_views.len() == r.tags@.len(),
            line@ == join_tags(tag_views.take(i as int)),
    {
        if i != 0 {
            line.append(":");
        }
        line.append(r.tags[i].as_str());
        proof {
            assert(tag_views.take(i + 1).drop_last() =~= tag_views.take(i as int));
            assert(tag_views.take(i + 1).last() == tag_views[i as int]);
            if i != 0 {
                assert(line@ == join_tags(tag_views.take(i as int)) + ":"@ + tag_views[i as int]);
                reveal_strlit(":");
                assert(":"@ =~= seq![':']);
            }
            assert(line@ == join_tags(tag_views.take(i + 1)));
        }
    }
    proof {
        assert(tag_views.take(r.tags@.len() as int) =~= tag_views);
    }
    line.append(": ");
    line.append(r.level.as_str());
    line.append(" -> ");
    line.append(r.message.as_str());
    line.append("\n");
    line
}

} // verus!
