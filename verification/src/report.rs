//! The merge report and its presentation.
//!
//! A merge produces an ordered list of warnings and an ordered list of
//! change events. The presenter renders each warning as one line and each
//! event as "<entity id> <kind>", strictly in report order, never
//! deduplicated and never sorted. Entity identifiers are 128-bit UUIDs,
//! printed in the usual hyphenated lowercase hexadecimal form.

use vstd::prelude::*;
use vstd::string::StringExecFns;

verus! {

/// The kind of change one merge event records.
#[derive(Clone, Copy, PartialEq, Eq, Structural, Debug)]
pub enum MergeEventKind {
    /// The object existed only in the source and was added to the destination.
    Added,
    /// The object's contents were updated from the source.
    Updated,
    /// The object was deleted by the merge.
    Deleted,
    /// The object was moved to a different parent.
    Moved,
}

/// One change the merge applied, identified by the object's UUID.
#[derive(Clone, Copy, PartialEq, Eq, Structural, Debug)]
pub struct ReportEvent {
    pub entity_id: u128,
    pub kind: MergeEventKind,
}

/// Everything one merge reported: warnings and change events, each in the
/// order the merge emitted them.
pub struct MergeReport {
    pub warnings: Vec<String>,
    pub events: Vec<ReportEvent>,
}

/// Ghost image of a `MergeReport`.
pub struct MergeReportView {
    pub warnings: Seq<Seq<char>>,
    pub events: Seq<ReportEvent>,
}

impl View for MergeReport {
    type V = MergeReportView;

    open spec fn view(&self) -> MergeReportView {
        MergeReportView { warnings: self.warnings.deep_view(), events: self.events@ }
    }
}

/// The nibble of `id` that the `i`-th hexadecimal digit shows, counting
/// from the most significant.
pub open spec fn nibble_of(id: u128, i: int) -> u128
    recommends
        0 <= i < 32,
{
    (id >> ((4 * (31 - i)) as u128)) & 0xf
}

/// The lowercase hexadecimal digit for a value below sixteen.
pub open spec fn hex_char_of(v: u128) -> char
    recommends
        v < 16,
{
    if v == 0 {
        '0'
    } else if v == 1 {
        '1'
    } else if v == 2 {
        '2'
    } else if v == 3 {
        '3'
    } else if v == 4 {
        '4'
    } else if v == 5 {
        '5'
    } else if v == 6 {
        '6'
    } else if v == 7 {
        '7'
    } else if v == 8 {
        '8'
    } else if v == 9 {
        '9'
    } else if v == 10 {
        'a'
    } else if v == 11 {
        'b'
    } else if v == 12 {
        'c'
    } else if v == 13 {
        'd'
    } else if v == 14 {
        'e'
    } else {
        'f'
    }
}

/// Which nibble the `j`-th character of the hyphenated form shows, for the
/// positions that are not hyphens.
pub open spec fn uuid_nibble_index(j: int) -> int {
    if j < 8 {
        j
    } else if j < 13 {
        j - 1
    } else if j < 18 {
        j - 2
    } else if j < 23 {
        j - 3
    } else {
        j - 4
    }
}

/// Whether the `j`-th character of the hyphenated form is a hyphen.
pub open spec fn uuid_is_hyphen(j: int) -> bool {
    j == 8 || j == 13 || j == 18 || j == 23
}

/// The hyphenated lowercase hexadecimal form of a 128-bit UUID: 36
/// characters, in groups of 8, 4, 4, 4 and 12 digits.
pub open spec fn uuid_chars(id: u128) -> Seq<char> {
    Seq::new(
        36,
        |j: int|
            if uuid_is_hyphen(j) {
                '-'
            } else {
                hex_char_of(nibble_of(id, uuid_nibble_index(j)))
            },
    )
}

/// One lowercase hexadecimal digit as text.
fn hex_digit_str(v: u128) -> (r: &'static str)
    requires
        v < 16,
    ensures
        r@ == seq![hex_char_of(v)],
{
    proof {
        reveal_strlit("0");
        reveal_strlit("1");
        reveal_strlit("2");
        reveal_strlit("3");
        reveal_strlit("4");
        reveal_strlit("5");
        reveal_strlit("6");
        reveal_strlit("7");
        reveal_strlit("8");
        reveal_strlit("9");
        reveal_strlit("a");
        reveal_strlit("b");
        reveal_strlit("c");
        reveal_strlit("d");
        reveal_strlit("e");
        reveal_strlit("f");
    }
    let r: &'static str = if v == 0 {
        "0"
    } else if v == 1 {
        "1"
    } else if v == 2 {
        "2"
    } else if v == 3 {
        "3"
    } else if v == 4 {
        "4"
    } else if v == 5 {
        "5"
    } else if v == 6 {
        "6"
    } else if v == 7 {
        "7"
    } else if v == 8 {
        "8"
    } else if v == 9 {
        "9"
    } else if v == 10 {
        "a"
    } else if v == 11 {
        "b"
    } else if v == 12 {
        "c"
    } else if v == 13 {
        "d"
    } else if v == 14 {
        "e"
    } else {
        "f"
    };
    proof {
        assert(r@ =~= seq![hex_char_of(v)]);
    }
    r
}

/// Render a UUID in its hyphenated lowercase hexadecimal form.
pub fn format_uuid(id: u128) -> (r: String)
    ensures
        r@ == uuid_chars(id),
{
    let mut out = String::new();
    let mut j: usize = 0;
    while j < 36
        invariant
            0 <= j <= 36,
            out@ =~= uuid_chars(id).subrange(0, j as int),
        decreases 36 - j,
    {
        if j == 8 || j == 13 || j == 18 || j == 23 {
            proof {
                reveal_strlit("-");
            }
            out.append("-");
            proof {
                assert("-"@ =~= seq!['-']);
            }
        } else {
            let idx: usize = if j < 8 {
                j
            } else if j < 13 {
                j - 1
            } else if j < 18 {
                j - 2
            } else if j < 23 {
                j - 3
            } else {
                j - 4
            };
            let shift: u32 = 4 * (31 - (idx as u32));
            let v: u128 = (id >> shift) & 0xf;
            proof {
                assert((id >> shift) & 0xf < 16) by (bit_vector);
                assert(v == nibble_of(id, idx as int));
            }
            let d = hex_digit_str(v);
            out.append(d);
        }
        j = j + 1;
        proof {
            assert(out@ =~= uuid_chars(id).subrange(0, j as int));
        }
    }
    proof {
        assert(out@ =~= uuid_chars(id));
    }
    out
}

/// The label under which an event kind is rendered.
pub open spec fn kind_label(k: MergeEventKind) -> Seq<char> {
    match k {
        MergeEventKind::Added => "Added"@,
        MergeEventKind::Updated => "Updated"@,
        MergeEventKind::Deleted => "Deleted"@,
        MergeEventKind::Moved => "Moved"@,
    }
}

/// The line a warning is rendered as.
pub open spec fn warning_line(w: Seq<char>) -> Seq<char> {
    "WARNING: "@ + w
}

/// The line an event is rendered as: the entity's UUID, a space, the kind.
pub open spec fn event_line(e: ReportEvent) -> Seq<char> {
    uuid_chars(e.entity_id) + " "@ + kind_label(e.kind)
}

/// Render one warning.
pub fn render_warning(w: &String) -> (r: String)
    ensures
        r@ == warning_line(w@),
{
    let mut out = String::from_str("WARNING: ");
    out.append(w.as_str());
    out
}

/// Render one event.
pub fn render_event(e: &ReportEvent) -> (r: String)
    ensures
        r@ == event_line(*e),
{
    let mut out = format_uuid(e.entity_id);
    out.append(" ");
    let label: &'static str = match e.kind {
        MergeEventKind::Added => "Added",
        MergeEventKind::Updated => "Updated",
        MergeEventKind::Deleted => "Deleted",
        MergeEventKind::Moved => "Moved",
    };
    out.append(label);
    out
}

/// The lines a report is rendered as: every warning, then every event,
/// strictly in report order.
pub open spec fn report_lines(r: MergeReportView) -> Seq<Seq<char>> {
    r.warnings.map(|i: int, w: Seq<char>| warning_line(w)) + r.events.map(
        |i: int, e: ReportEvent| event_line(e),
    )
}

/// Render a whole report for human consumption: one line per warning, then
/// one line per event, in report order. Pure formatting; nothing is
/// filtered, reordered or deduplicated.
pub fn present(report: &MergeReport) -> (r: Vec<String>)
    ensures
        r.deep_view() == report_lines(report@),
{
    let mut out: Vec<String> = Vec::new();
    let mut i: usize = 0;
    while i < report.warnings.len()
        invariant
            0 <= i <= report.warnings@.len(),
            out@.len() == i,
            forall|k: int| 0 <= k < i ==> #[trigger] out@[k]@ == warning_line(
                report.warnings@[k]@,
            ),
        decreases report.warnings@.len() - i,
    {
        out.push(render_warning(&report.warnings[i]));
        i = i + 1;
    }
    let nw: usize = report.warnings.len();
    let mut j: usize = 0;
    while j < report.events.len()
        invariant
            0 <= j <= report.events@.len(),
            nw == report.warnings@.len(),
            out@.len() == nw + j,
            forall|k: int| 0 <= k < nw ==> #[trigger] out@[k]@ == warning_line(
                report.warnings@[k]@,
            ),
            forall|k: int| 0 <= k < j ==> #[trigger] out@[nw + k]@ == event_line(
                report.events@[k],
            ),
        decreases report.events@.len() - j,
    {
        out.push(render_event(&report.events[j]));
        j = j + 1;
    }
    proof {
        let lines = report_lines(report@);
        assert(out.deep_view().len() == lines.len());
        assert forall|k: int| 0 <= k < lines.len() implies out.deep_view()[k] == lines[k] by {
            assert(out.deep_view()[k] == out@[k]@);
            if k < report@.warnings.len() {
                assert(report@.warnings[k] == report.warnings@[k]@);
                assert(lines[k] == warning_line(report@.warnings[k]));
            } else {
                let k2 = k - nw;
                assert(out@[nw + k2]@ == event_line(report.events@[k2]));
                assert(lines[k] == event_line(report@.events[k2]));
            }
        }
        assert(out.deep_view() =~= lines);
    }
    out
}

} // verus!
