//! Finding the installed terminals: the decisions of the scan, one probe at a time.
//!
//! The caller runs each probe (see [`Terminal::installed_probe`]) and reports
//! its outcome with [`TerminalScan::record`]; the scan says what to do next.

use vstd::prelude::*;
use crate::platform::Os;
use crate::terminal::{all_terminals, Terminal};

verus! {

/// The terminals, in enum order, whose probe answered `true`, among the first
/// `answers.len()` terminals.
pub open spec fn found_among(answers: Seq<bool>) -> Seq<Terminal>
    decreases answers.len(),
{
    if answers.len() == 0 {
        Seq::empty()
    } else {
        found_among(answers.drop_last()) + (if answers.last() {
            seq![all_terminals()[answers.len() - 1]]
        } else {
            Seq::empty()
        })
    }
}

/// The first terminal, in enum order, whose probe answered `true`, alone; or
/// nothing if there is none.
pub open spec fn first_installed(answers: Seq<bool>) -> Seq<Terminal>
    decreases answers.len(),
{
    if answers.len() == 0 {
        Seq::empty()
    } else if first_installed(answers.drop_last()).len() > 0 {
        first_installed(answers.drop_last())
    } else if answers.last() {
        seq![all_terminals()[answers.len() - 1]]
    } else {
        Seq::empty()
    }
}

/// What a scan outside Windows and macOS gives when each terminal's probe
/// answers as in `outcomes` (one outcome per terminal, in enum order): the
/// first installed terminal if it stops there, else every installed terminal.
pub open spec fn scan_result(return_immediately: bool, outcomes: Seq<bool>) -> Seq<Terminal> {
    if return_immediately {
        first_installed(outcomes)
    } else {
        found_among(outcomes)
    }
}

/// `found` is what the scan gives for every full list of probe outcomes that
/// begins with `answers`.
pub open spec fn result_for_every_completion(
    found: Seq<Terminal>,
    return_immediately: bool,
    answers: Seq<bool>,
) -> bool {
    forall|outcomes: Seq<bool>|
        #![trigger outcomes.take(answers.len() as int)]
        outcomes.len() == all_terminals().len() && outcomes.take(answers.len() as int) == answers
            ==> found == scan_result(return_immediately, outcomes)
}

/// A scan in progress, as plain values.
pub struct TerminalScanView {
    /// Whether the scan stops at the first installed terminal.
    pub return_immediately: bool,
    /// The probe outcomes so far, for the terminals in enum order.
    pub answers: Seq<bool>,
}

/// A scan over the terminals, waiting for the outcome of one probe.
pub struct TerminalScan {
    return_immediately: bool,
    next: usize,
    found: Vec<Terminal>,
    answers: Ghost<Seq<bool>>,
}

/// What the scan asks for next.
pub enum ScanStep {
    /// Probe [`TerminalScan::terminal`] and report the outcome.
    Probe(TerminalScan),
    /// The scan is over; these terminals should work.
    Done(Vec<Terminal>),
}

impl View for TerminalScan {
    type V = TerminalScanView;

    closed spec fn view(&self) -> TerminalScanView {
        TerminalScanView { return_immediately: self.return_immediately, answers: self.answers@ }
    }
}

impl TerminalScan {
    #[verifier::type_invariant]
    spec fn well_formed(self) -> bool {
        &&& self.next == self.answers@.len()
        &&& self.next < all_terminals().len()
        &&& self.found@ == found_among(self.answers@)
        &&& self.return_immediately ==> !self.answers@.contains(true)
    }

    /// Starts the scan. On Windows only `cmd` and on macOS only the Terminal
    /// app are offered, without probing; elsewhere every terminal is probed
    /// in enum order, from the first.
    pub fn start(return_immediately: bool, os: Os) -> (r: ScanStep)
        ensures
            match r {
                ScanStep::Done(v) => (os == Os::Windows && v@ == seq![Terminal::CMD]) || (os
                    == Os::MacOs && v@ == seq![Terminal::Terminal]),
                ScanStep::Probe(s) => os != Os::Windows && os != Os::MacOs && s@
                    == (TerminalScanView { return_immediately, answers: Seq::empty() }),
            },
    {
        match os {
            Os::Windows => {
                let mut v = Vec::new();
                v.push(Terminal::CMD);
                ScanStep::Done(v)
            },
            Os::MacOs => {
                let mut v = Vec::new();
                v.push(Terminal::Terminal);
                ScanStep::Done(v)
            },
            _ => {
                let s = TerminalScan {
                    return_immediately,
                    next: 0,
                    found: Vec::new(),
                    answers: Ghost(Seq::empty()),
                };
                assert(s.found@ =~= found_among(Seq::empty()));
                ScanStep::Probe(s)
            },
        }
    }

    /// The terminal to probe now.
    pub fn terminal(&self) -> (t: Terminal)
        ensures
            t == all_terminals()[self@.answers.len() as int],
    {
        proof {
            use_type_invariant(self);
        }
        let terminals = Terminal::iter();
        terminals[self.next]
    }

    /// Records whether the terminal being probed is installed. The scan ends
    /// with that terminal alone if it is installed and the scan stops at the
    /// first one; it ends with every installed terminal once the last has
    /// been probed; otherwise it goes on with the next terminal.
    pub fn record(self, installed: bool) -> (r: ScanStep)
        ensures
            ({
                let answers = self@.answers.push(installed);
                let t = all_terminals()[self@.answers.len() as int];
                if installed && self@.return_immediately {
                    r matches ScanStep::Done(v) && v@ == seq![t]
                } else if answers.len() == all_terminals().len() {
                    r matches ScanStep::Done(v) && v@ == found_among(answers)
                } else {
                    r matches ScanStep::Probe(s) && s@ == (TerminalScanView {
                        return_immediately: self@.return_immediately,
                        answers,
                    })
                }
            }),
            r matches ScanStep::Done(v) ==> result_for_every_completion(
                v@,
                self@.return_immediately,
                self@.answers.push(installed),
            ),
    {
        proof {
            use_type_invariant(&self);
        }
        let t = self.terminal();
        let TerminalScan { return_immediately, next, mut found, answers } = self;
        let ghost new_answers = answers@.push(installed);
        if installed {
            if return_immediately {
                let mut v = Vec::new();
                v.push(t);
                proof {
                    lemma_none_installed(answers@);
                    assert(new_answers.drop_last() =~= answers@);
                    assert(first_installed(new_answers) == seq![t]);
                    assert forall|outcomes: Seq<bool>|
                        outcomes.len() == all_terminals().len() && #[trigger] outcomes.take(
                            new_answers.len() as int,
                        ) == new_answers implies v@ == scan_result(true, outcomes) by {
                        lemma_first_installed_prefix(outcomes, new_answers.len() as int);
                    }
                }
                return ScanStep::Done(v);
            }
            found.push(t);
        }
        assert(new_answers.drop_last() =~= answers@);
        assert(found@ =~= found_among(new_answers));
        if next + 1 == Terminal::iter().len() {
            proof {
                if return_immediately {
                    assert(!new_answers.contains(true)) by {
                        if new_answers.contains(true) {
                            let k = choose|k: int| 0 <= k < new_answers.len() && new_answers[k] == true;
                            if k < answers@.len() {
                                assert(answers@[k] == true);
                            }
                        }
                    }
                    lemma_none_installed(new_answers);
                }
                assert forall|outcomes: Seq<bool>|
                    outcomes.len() == all_terminals().len() && #[trigger] outcomes.take(
                        new_answers.len() as int,
                    ) == new_answers implies found@ == scan_result(return_immediately, outcomes) by {
                    assert(outcomes =~= outcomes.take(new_answers.len() as int));
                }
            }
            ScanStep::Done(found)
        } else {
            proof {
                if return_immediately {
                    assert forall|k: int| 0 <= k < new_answers.len() implies !new_answers[k] by {
                        if k < answers@.len() {
                            assert(answers@[k] != true);
                        }
                    }
                }
            }
            ScanStep::Probe(TerminalScan { return_immediately, next: next + 1, found, answers: Ghost(new_answers) })
        }
    }
}

/// The scan's result lists exactly the probed terminals whose probe answered
/// `true`: a terminal among the first `answers.len()` is in the result if and
/// only if it was found installed.
pub proof fn law_found_exactly_installed(answers: Seq<bool>, i: int)
    requires
        answers.len() <= all_terminals().len(),
        0 <= i < answers.len(),
    ensures
        found_among(answers).contains(all_terminals()[i]) <==> answers[i],
    decreases answers.len(),
{
    let n = answers.len() - 1;
    let rest = answers.drop_last();
    crate::terminal::law_position_round_trip(i);
    crate::terminal::law_position_round_trip(n);
    lemma_found_within(rest);
    if i < n {
        law_found_exactly_installed(rest, i);
        assert(rest[i] == answers[i]);
        if answers.last() {
            let tail = seq![all_terminals()[n]];
            assert(found_among(answers) == found_among(rest) + tail);
            if found_among(answers).contains(all_terminals()[i]) {
                let k = choose|k: int|
                    0 <= k < found_among(answers).len() && found_among(answers)[k]
                        == all_terminals()[i];
                if k >= found_among(rest).len() {
                    assert(found_among(answers)[k] == all_terminals()[n]);
                    assert(false);
                } else {
                    assert(found_among(rest)[k] == all_terminals()[i]);
                }
            }
            if answers[i] {
                let k = choose|k: int|
                    0 <= k < found_among(rest).len() && found_among(rest)[k] == all_terminals()[i];
                assert(found_among(answers)[k] == all_terminals()[i]);
            }
        } else {
            assert(found_among(answers) =~= found_among(rest));
        }
    } else {
        if answers.last() {
            let m = found_among(rest).len();
            assert(found_among(answers)[m as int] == all_terminals()[i]);
        } else {
            assert(found_among(answers) =~= found_among(rest));
            if found_among(rest).contains(all_terminals()[i]) {
                let k = choose|k: int|
                    0 <= k < found_among(rest).len() && found_among(rest)[k] == all_terminals()[i];
                assert(false);
            }
        }
    }
}

/// The first element of a sequence, alone; or nothing if it is empty.
pub open spec fn first_of(s: Seq<Terminal>) -> Seq<Terminal> {
    if s.len() == 0 {
        Seq::empty()
    } else {
        seq![s[0]]
    }
}

/// Stopping at the first installed terminal gives the first terminal that the
/// full scan finds (nothing if it finds none), for the same probe outcomes.
pub proof fn law_early_stop_is_first_of_full_scan(outcomes: Seq<bool>)
    ensures
        scan_result(true, outcomes) == first_of(scan_result(false, outcomes)),
    decreases outcomes.len(),
{
    if outcomes.len() > 0 {
        let rest = outcomes.drop_last();
        law_early_stop_is_first_of_full_scan(rest);
        let tail = if outcomes.last() {
            seq![all_terminals()[outcomes.len() - 1]]
        } else {
            Seq::<Terminal>::empty()
        };
        assert(found_among(outcomes) == found_among(rest) + tail);
        if found_among(rest).len() > 0 {
            assert((found_among(rest) + tail)[0] == found_among(rest)[0]);
        } else {
            assert(found_among(rest) + tail =~= tail);
            if outcomes.last() {
                assert(first_of(tail) =~= tail);
            }
        }
    }
}

/// Where no probe answered `true`, nothing is found.
pub proof fn lemma_none_installed(answers: Seq<bool>)
    requires
        !answers.contains(true),
    ensures
        found_among(answers) == Seq::<Terminal>::empty(),
        first_installed(answers) == Seq::<Terminal>::empty(),
    decreases answers.len(),
{
    if answers.len() > 0 {
        let rest = answers.drop_last();
        assert(!rest.contains(true)) by {
            if rest.contains(true) {
                let k = choose|k: int| 0 <= k < rest.len() && rest[k] == true;
                assert(answers[k] == true);
            }
        }
        lemma_none_installed(rest);
        assert(answers.last() == answers[answers.len() - 1]);
        assert(found_among(answers) =~= Seq::<Terminal>::empty());
    }
}

/// Once a prefix of the outcomes has an installed terminal, the first
/// installed terminal of the whole is that of the prefix.
pub proof fn lemma_first_installed_prefix(outcomes: Seq<bool>, m: int)
    requires
        0 <= m <= outcomes.len(),
        first_installed(outcomes.take(m)).len() > 0,
    ensures
        first_installed(outcomes) == first_installed(outcomes.take(m)),
    decreases outcomes.len(),
{
    if m == outcomes.len() {
        assert(outcomes.take(m) =~= outcomes);
    } else {
        let rest = outcomes.drop_last();
        assert(rest.take(m) =~= outcomes.take(m));
        lemma_first_installed_prefix(rest, m);
    }
}

/// Every terminal found among the first `answers.len()` stands before
/// position `answers.len()` in enum order.
pub proof fn lemma_found_within(answers: Seq<bool>)
    requires
        answers.len() <= all_terminals().len(),
    ensures
        forall|k: int|
            0 <= k < found_among(answers).len() ==> crate::terminal::terminal_index(
                #[trigger] found_among(answers)[k],
            ) < answers.len(),
    decreases answers.len(),
{
    if answers.len() > 0 {
        let rest = answers.drop_last();
        lemma_found_within(rest);
        crate::terminal::law_position_round_trip(answers.len() - 1);
        assert forall|k: int| 0 <= k < found_among(answers).len() implies crate::terminal::terminal_index(
            #[trigger] found_among(answers)[k],
        ) < answers.len() by {
            if k < found_among(rest).len() {
                assert(found_among(answers)[k] == found_among(rest)[k]);
            }
        }
    }
}

/// The found terminals come in enum order, each once.
pub proof fn law_found_in_order(answers: Seq<bool>)
    requires
        answers.len() <= all_terminals().len(),
    ensures
        forall|i: int, j: int|
            0 <= i < j < found_among(answers).len() ==> crate::terminal::terminal_index(
                #[trigger] found_among(answers)[i],
            ) < crate::terminal::terminal_index(#[trigger] found_among(answers)[j]),
    decreases answers.len(),
{
    if answers.len() > 0 {
        let rest = answers.drop_last();
        law_found_in_order(rest);
        lemma_found_within(rest);
        crate::terminal::law_position_round_trip(answers.len() - 1);
        assert forall|i: int, j: int|
            0 <= i < j < found_among(answers).len() implies crate::terminal::terminal_index(
            #[trigger] found_among(answers)[i],
        ) < crate::terminal::terminal_index(#[trigger] found_among(answers)[j]) by {
            assert(found_among(answers)[i] == found_among(rest)[i]);
            if j < found_among(rest).len() {
                assert(found_among(answers)[j] == found_among(rest)[j]);
            } else {
                assert(found_among(answers)[j] == all_terminals()[answers.len() - 1]);
            }
        }
    }
}

} // verus!
