//! The line that reports one strategy's timing.

use vstd::prelude::*;
use vstd::string::StringExecFns;
use crate::strategy::MapStrategy;

verus! {

/// The text of a report line: the strategy's name, one space, the elapsed
/// time as the caller has rendered it.
pub open spec fn report_text(strategy: MapStrategy, elapsed: Seq<char>) -> Seq<char> {
    strategy.label() + seq![' '] + elapsed
}

/// The line that reports `elapsed` for `strategy`.
pub fn report_line(strategy: MapStrategy, elapsed: &str) -> (line: String)
    ensures
        line@ == report_text(strategy, elapsed@),
{
    let mut line = String::from_str(strategy.name());
    proof {
        reveal_strlit(" ");
        assert(" "@ =~= seq![' ']);
    }
    line.append(" ");
    line.append(elapsed);
    line
}

} // verus!
