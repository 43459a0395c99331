//! What a decoder mended on the way and tells of without failing.

use vstd::prelude::*;

verus! {

/// A count that was negative on the wire and was taken as zero.
#[derive(Debug, Clone, PartialEq, Eq)]
pub struct Warning {
    /// The wire field that held the count.
    pub field: String,
    /// The count as it came.
    pub value: i64,
}

/// The mathematical value of a [`Warning`].
pub struct WarningView {
    pub field: Seq<char>,
    pub value: i64,
}

impl DeepView for Warning {
    type V = WarningView;

    open spec fn deep_view(&self) -> WarningView {
        WarningView { field: self.field@, value: self.value }
    }
}

impl View for Warning {
    type V = WarningView;

    open spec fn view(&self) -> WarningView {
        self.deep_view()
    }
}

/// A count of the unified model: the wire's count, zero where that is
/// negative.
pub open spec fn clamped(count: i64) -> u64 {
    if count < 0 {
        0
    } else {
        count as u64
    }
}

/// The warnings that a count gives rise to: one where it is negative.
pub open spec fn count_warnings(field: Seq<char>, count: i64) -> Seq<WarningView> {
    if count < 0 {
        seq![WarningView { field, value: count }]
    } else {
        Seq::empty()
    }
}

/// Takes a count from the wire: a negative one becomes zero and a warning
/// is put at the end of `sink`; any other is kept and `sink` stays as it is.
pub fn clamp_count(field: &str, count: i64, sink: &mut Vec<Warning>) -> (n: u64)
    ensures
        n == clamped(count),
        final(sink).deep_view() == old(sink).deep_view() + count_warnings(field@, count),
{
    if count < 0 {
        let ghost before = sink.deep_view();
        let warning = Warning { field: field.to_owned(), value: count };
        sink.push(warning);
        assert(sink.deep_view() =~= before + count_warnings(field@, count));
        0
    } else {
        assert(sink.deep_view() =~= sink.deep_view() + count_warnings(field@, count));
        count as u64
    }
}

} // verus!
