use vstd::prelude::*;

verus! {

/// One monitored job as the inventory endpoint reports it: its display
/// name, the two gating flags, and its canonical URL.
pub struct Job {
    pub name: String,
    pub disabled: bool,
    pub in_queue: bool,
    pub url: String,
}

/// The latest-build information for one job: the result of the last
/// build, if any, and whether a build is currently running.
pub struct BuildStatus {
    pub result: Option<String>,
    pub in_progress: bool,
}

/// The three-way outcome derived from a job's latest build status.
/// `Quiet` jobs are healthy and are not reported.
#[derive(PartialEq, Eq, Structural, Clone, Copy, Debug)]
pub enum Classification {
    Failing,
    InProgress,
    Quiet,
}

/// How a latest-build status is classified: a recorded `FAILURE` result is
/// `Failing`; no result while a build runs is `InProgress`; everything else
/// is `Quiet` and is not reported.
pub open spec fn spec_classify(result: Option<Seq<char>>, in_progress: bool) -> Classification {
    if result == Some("FAILURE"@) {
        Classification::Failing
    } else if result is None && in_progress {
        Classification::InProgress
    } else {
        Classification::Quiet
    }
}

impl BuildStatus {
    /// The result field of the status, seen as a sequence of characters.
    pub open spec fn result_view(&self) -> Option<Seq<char>> {
        self.result.deep_view()
    }

    /// Classifies this status.
    pub fn classify(&self) -> (c: Classification)
        ensures
            c == spec_classify(self.result_view(), self.in_progress),
    {
        match &self.result {
            Some(s) => {
                let failure = "FAILURE".to_owned();
                if s.eq(&failure) {
                    Classification::Failing
                } else {
                    Classification::Quiet
                }
            },
            None => {
                if self.in_progress {
                    Classification::InProgress
                } else {
                    Classification::Quiet
                }
            },
        }
    }
}

} // verus!
