use crate::channel::{ActionKind, ButtonChannel};
use crate::error::{outcome, ErrorKind, ErrorView};
use vstd::prelude::*;

verus! {

/// How the wait for a unit of work ended.
#[derive(Debug, PartialEq, Eq)]
pub enum JoinOutcome {
    /// The unit could not be joined.
    Failed,
    /// The unit ran to its end and reported this.
    Finished(Result<(), ErrorKind>),
}

/// A unit of work that was waited for: the action of its button, and how
/// the wait ended.
#[derive(Debug, PartialEq, Eq)]
pub struct Joined {
    pub unit: ActionKind,
    pub outcome: JoinOutcome,
}

impl Joined {
    /// What the unit leaves to report: its own error, or that it could not
    /// be joined, under its name.
    pub open spec fn verdict(self) -> Result<(), ErrorView> {
        match self.outcome {
            JoinOutcome::Failed => Err(ErrorView::ThreadJoinErr(self.unit.unit_name())),
            JoinOutcome::Finished(result) => outcome(result),
        }
    }

    /// What the unit leaves to report: its own error, or that it could not
    /// be joined, under its name.
    pub fn conclude(self) -> (report: Result<(), ErrorKind>)
        ensures
            outcome(report) == self.verdict(),
    {
        match self.outcome {
            JoinOutcome::Failed => Err(ErrorKind::ThreadJoinErr(self.unit.unit().to_owned())),
            JoinOutcome::Finished(result) => result,
        }
    }
}

/// The first error among the verdicts of `joins`, in their order.
pub open spec fn first_failure(joins: Seq<Joined>) -> Result<(), ErrorView>
    decreases joins.len(),
{
    if joins.len() == 0 {
        Ok(())
    } else {
        match joins[0].verdict() {
            Ok(_) => first_failure(joins.drop_first()),
            Err(error) => Err(error),
        }
    }
}

/// The first failure is the verdict of the first unit that has one: it is
/// success exactly when every unit finished without an error.
pub proof fn lemma_first_failure(joins: Seq<Joined>)
    ensures
        match first_failure(joins) {
            Ok(_) => forall|i: int| 0 <= i < joins.len() ==> (#[trigger] joins[i]).verdict() is Ok,
            Err(error) => exists|i: int|
                0 <= i < joins.len() && (#[trigger] joins[i]).verdict() == Err::<(), ErrorView>(
                    error,
                ) && forall|j: int| 0 <= j < i ==> (#[trigger] joins[j]).verdict() is Ok,
        },
    decreases joins.len(),
{
    if joins.len() > 0 {
        let rest = joins.drop_first();
        assert(forall|i: int| 0 <= i < rest.len() ==> rest[i] == joins[i + 1]);
        match joins[0].verdict() {
            Ok(_) => {
                lemma_first_failure(rest);
                match first_failure(rest) {
                    Ok(_) => {
                        assert forall|i: int| 0 <= i < joins.len() implies (
                        #[trigger] joins[i]).verdict() is Ok by {
                            if i > 0 {
                                assert(rest[i - 1] == joins[i]);
                            }
                        }
                    },
                    Err(error) => {
                        let i = choose|i: int|
                            0 <= i < rest.len() && (#[trigger] rest[i]).verdict() == Err::<
                                (),
                                ErrorView,
                            >(error) && forall|j: int|
                                0 <= j < i ==> (#[trigger] rest[j]).verdict() is Ok;
                        assert forall|j: int| 0 <= j < i + 1 implies (
                        #[trigger] joins[j]).verdict() is Ok by {
                            if j > 0 {
                                assert(rest[j - 1] == joins[j]);
                            }
                        }
                        assert(joins[i + 1].verdict() == Err::<(), ErrorView>(error));
                    },
                }
            },
            Err(error) => {
                assert(joins[0].verdict() == Err::<(), ErrorView>(error));
            },
        }
    }
}

/// The buttons of the supervisor, in the order in which their units are
/// started and joined: data logger, stream server, capture application.
pub fn channels() -> (all: Vec<ButtonChannel>)
    ensures
        all@ == seq![
            ButtonChannel::new_spec(ActionKind::ToggleLoggerBehavior),
            ButtonChannel::new_spec(ActionKind::ToggleStreamProcess),
            ButtonChannel::new_spec(ActionKind::ToggleCaptureProcess),
        ],
{
    let mut all: Vec<ButtonChannel> = Vec::new();
    all.push(ButtonChannel::new(ActionKind::ToggleLoggerBehavior));
    all.push(ButtonChannel::new(ActionKind::ToggleStreamProcess));
    all.push(ButtonChannel::new(ActionKind::ToggleCaptureProcess));
    proof {
        assert(all@ =~= seq![
            ButtonChannel::new_spec(ActionKind::ToggleLoggerBehavior),
            ButtonChannel::new_spec(ActionKind::ToggleStreamProcess),
            ButtonChannel::new_spec(ActionKind::ToggleCaptureProcess),
        ]);
    }
    all
}

/// Sums up the units once each was waited for, in the order of `joins`:
/// success when every unit finished without an error, and otherwise the
/// error of the first one that did not, a unit that could not be joined
/// counting as an error under its name.
pub fn join_all(joins: Vec<Joined>) -> (report: Result<(), ErrorKind>)
    ensures
        outcome(report) == first_failure(joins@),
{
    let ghost all = joins@;
    let mut left = joins;
    let mut report: Result<(), ErrorKind> = Ok(());
    proof {
        assert(all.skip(all.len() as int).len() == 0);
    }
    while left.len() > 0
        invariant
            left@.len() <= all.len(),
            left@ == all.take(left@.len() as int),
            outcome(report) == first_failure(all.skip(left@.len() as int)),
        decreases left@.len(),
    {
        let ghost before = left@.len() as int;
        match left.pop() {
            Some(joined) => {
                proof {
                    let tail = all.skip(before - 1);
                    assert(joined == all.take(before)[before - 1]);
                    assert(tail[0] == joined);
                    assert(tail.drop_first() =~= all.skip(before));
                    assert(left@ =~= all.take(before - 1));
                }
                match joined.conclude() {
                    Ok(_) => {},
                    Err(error) => {
                        report = Err(error);
                    },
                }
            },
            None => {},
        }
    }
    proof {
        assert(all.skip(0) =~= all);
    }
    report
}

} // verus!
