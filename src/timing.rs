//! Per-phase wall-clock times of a run, and the lines that report them.
use vstd::prelude::*;
use crate::decimal::{decimal, push_decimal};
use crate::workload::Strategy;

verus! {

/// Milliseconds spent in each phase of a run.
#[derive(Debug, Clone, Copy, PartialEq, Eq)]
pub struct PhaseTimes {
    pub create: u128,
    pub read: u128,
    pub update: u128,
    pub delete: u128,
}

impl PhaseTimes {
    /// The sum of the four phase times.
    pub open spec fn sum(&self) -> int {
        self.create + self.read + self.update + self.delete
    }

    /// The time of the whole run, or `None` when the sum does not fit a `u128`.
    pub fn total(&self) -> (r: Option<u128>)
        ensures
            r == (if self.sum() <= u128::MAX {
                Some(self.sum() as u128)
            } else {
                None::<u128>
            }),
    {
        let a = self.create.checked_add(self.read);
        match a {
            None => None,
            Some(a) => match a.checked_add(self.update) {
                None => None,
                Some(b) => b.checked_add(self.delete),
            },
        }
    }
}

/// The name under which a strategy's times are reported.
pub open spec fn label_of(s: Strategy) -> Seq<char> {
    match s {
        Strategy::Buffered => "Traditional"@,
        Strategy::MappedUpdate => "Smart"@,
        Strategy::Sequential => "Sequential"@,
    }
}

/// The line that reports each phase of a run.
pub open spec fn phase_line_of(s: Strategy, t: PhaseTimes) -> Seq<char> {
    label_of(s) + " times (ms): Create: "@ + decimal(t.create as nat) + ", Read: "@ + decimal(
        t.read as nat,
    ) + ", Update: "@ + decimal(t.update as nat) + ", Delete: "@ + decimal(t.delete as nat)
}

/// The line that reports the time of a whole run.
pub open spec fn total_line_of(total: nat) -> Seq<char> {
    "Total: "@ + decimal(total) + " ms"@
}

/// The line that reports each phase of a run under strategy `s`.
pub fn phase_line(s: Strategy, t: &PhaseTimes) -> (r: String)
    ensures
        r@ == phase_line_of(s, *t),
{
    let mut line = match s {
        Strategy::Buffered => String::from_str("Traditional"),
        Strategy::MappedUpdate => String::from_str("Smart"),
        Strategy::Sequential => String::from_str("Sequential"),
    };
    line.append(" times (ms): Create: ");
    push_decimal(&mut line, t.create);
    line.append(", Read: ");
    push_decimal(&mut line, t.read);
    line.append(", Update: ");
    push_decimal(&mut line, t.update);
    line.append(", Delete: ");
    push_decimal(&mut line, t.delete);
    line
}

/// The line that reports the time of the whole run, or `None` when the phase
/// times do not add up within a `u128`.
pub fn total_line(t: &PhaseTimes) -> (r: Option<String>)
    ensures
        r is Some <==> t.sum() <= u128::MAX,
        r is Some ==> r->Some_0@ == total_line_of(t.sum() as nat),
{
    match t.total() {
        None => None,
        Some(total) => {
            let mut line = String::from_str("Total: ");
            push_decimal(&mut line, total);
            line.append(" ms");
            Some(line)
        },
    }
}

} // verus!
