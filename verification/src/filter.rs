//! The job filter: the exclusion rules that decide which jobs of the
//! inventory are checked in a cycle, and the laws that hold of them.
use vstd::prelude::*;
use crate::jobs::Job;
use crate::text::{
    contains_ci, contains_exact, strip_spec, chars_of, strip_build_suffix, contains_chars_ci,
    contains_chars, chars_eq,
};

verus! {

/// The exclusion rules applied to each job name: suite-boundary markers
/// (matched case-insensitively as substrings), exact name exclusions, and
/// excluded-module substrings. Built once at startup and never mutated.
pub struct JobFilterRuleset {
    pub suite_markers: Vec<String>,
    pub excluded_names: Vec<String>,
    pub excluded_modules: Vec<String>,
}

/// Some suite-boundary marker occurs in `name`, ignoring ASCII case.
pub open spec fn marker_matched(rs: JobFilterRuleset, name: Seq<char>) -> bool {
    exists|k: int|
        0 <= k < rs.suite_markers@.len() && contains_ci(name, #[trigger] rs.suite_markers@[k]@)
}

/// `name` is one of the explicitly excluded names.
pub open spec fn name_listed(rs: JobFilterRuleset, name: Seq<char>) -> bool {
    exists|k: int| 0 <= k < rs.excluded_names@.len() && name == #[trigger] rs.excluded_names@[k]@
}

/// Some excluded-module substring occurs in `name`.
pub open spec fn module_matched(rs: JobFilterRuleset, name: Seq<char>) -> bool {
    exists|k: int|
        0 <= k < rs.excluded_modules@.len() && contains_exact(
            name,
            #[trigger] rs.excluded_modules@[k]@,
        )
}

/// The name-based exclusion checks, applied to the name after its trailing
/// build-number suffix is stripped.
pub open spec fn name_excluded(rs: JobFilterRuleset, name: Seq<char>) -> bool {
    let bare = strip_spec(name);
    marker_matched(rs, bare) || name_listed(rs, bare) || module_matched(rs, bare)
}

/// A job is excluded when it is disabled, queued, or its name falls to one
/// of the name-based checks.
pub open spec fn job_excluded(rs: JobFilterRuleset, job: Job) -> bool {
    job.disabled || job.in_queue || name_excluded(rs, job.name@)
}

/// The subsequence of `s` that survives the filter, in order.
pub open spec fn filter_seq(rs: JobFilterRuleset, s: Seq<Job>) -> Seq<Job>
    decreases s.len(),
{
    if s.len() == 0 {
        Seq::empty()
    } else {
        let rest = filter_seq(rs, s.subrange(1, s.len() as int));
        if !job_excluded(rs, s[0]) {
            seq![s[0]] + rest
        } else {
            rest
        }
    }
}

impl JobFilterRuleset {
    /// Decides whether one job is kept for this cycle.
    pub fn include_job(&self, job: &Job) -> (r: bool)
        ensures
            r == !job_excluded(*self, *job),
    {
        if job.disabled || job.in_queue {
            return false;
        }
        let cs = chars_of(job.name.as_str());
        let bare = strip_build_suffix(&cs);
        let mut k: usize = 0;
        while k < self.suite_markers.len()
            invariant
                forall|t: int|
                    0 <= t < k ==> !contains_ci(strip_spec(job.name@), self.suite_markers@[t]@),
                bare@ == strip_spec(job.name@),
            decreases self.suite_markers.len() - k,
        {
            let m = chars_of(self.suite_markers[k].as_str());
            if contains_chars_ci(&bare, &m) {
                assert(marker_matched(*self, strip_spec(job.name@)));
                return false;
            }
            k += 1;
        }
        assert(!marker_matched(*self, strip_spec(job.name@)));
        let mut k: usize = 0;
        while k < self.excluded_names.len()
            invariant
                forall|t: int| 0 <= t < k ==> strip_spec(job.name@) != self.excluded_names@[t]@,
                bare@ == strip_spec(job.name@),
            decreases self.excluded_names.len() - k,
        {
            let m = chars_of(self.excluded_names[k].as_str());
            if chars_eq(&bare, &m) {
                assert(name_listed(*self, strip_spec(job.name@)));
                return false;
            }
            k += 1;
        }
        assert(!name_listed(*self, strip_spec(job.name@)));
        let mut k: usize = 0;
        while k < self.excluded_modules.len()
            invariant
                forall|t: int|
                    0 <= t < k ==> !contains_exact(strip_spec(job.name@), self.excluded_modules@[t]@),
                bare@ == strip_spec(job.name@),
            decreases self.excluded_modules.len() - k,
        {
            let m = chars_of(self.excluded_modules[k].as_str());
            if contains_chars(&bare, &m) {
                assert(module_matched(*self, strip_spec(job.name@)));
                return false;
            }
            k += 1;
        }
        assert(!module_matched(*self, strip_spec(job.name@)));
        true
    }

    /// Applies the filter to a whole inventory, keeping the surviving jobs
    /// in their original order.
    pub fn filter_jobs(&self, jobs: Vec<Job>) -> (kept: Vec<Job>)
        ensures
            kept@ == filter_seq(*self, jobs@),
    {
        let ghost orig = jobs@;
        let mut rest = jobs;
        let mut kept: Vec<Job> = Vec::new();
        while rest.len() > 0
            invariant
                filter_seq(*self, orig) == kept@ + filter_seq(*self, rest@),
            decreases rest.len(),
        {
            let ghost before = rest@;
            let j = rest.remove(0);
            proof {
                assert(rest@ =~= before.subrange(1, before.len() as int));
            }
            if self.include_job(&j) {
                kept.push(j);
                proof {
                    assert(filter_seq(*self, before) =~= seq![before[0]] + filter_seq(
                        *self,
                        before.subrange(1, before.len() as int),
                    ));
                    assert(filter_seq(*self, orig) =~= kept@ + filter_seq(*self, rest@));
                }
            } else {
                proof {
                    assert(filter_seq(*self, orig) =~= kept@ + filter_seq(*self, rest@));
                }
            }
        }
        proof {
            assert(filter_seq(*self, rest@) =~= Seq::<Job>::empty());
            assert(kept@ =~= filter_seq(*self, orig));
        }
        kept
    }
}

/// The standard ruleset: the three suite-boundary markers that mark
/// orchestration jobs, and empty exact-name and module lists.
pub fn standard_ruleset() -> (rs: JobFilterRuleset)
    ensures
        rs.suite_markers@.len() == 3,
        rs.suite_markers@[0]@ == "_start_test_suite"@,
        rs.suite_markers@[1]@ == "-test-suite-start"@,
        rs.suite_markers@[2]@ == "-post-deployment"@,
        rs.excluded_names@.len() == 0,
        rs.excluded_modules@.len() == 0,
{
    let mut suite_markers: Vec<String> = Vec::new();
    suite_markers.push("_start_test_suite".to_owned());
    suite_markers.push("-test-suite-start".to_owned());
    suite_markers.push("-post-deployment".to_owned());
    JobFilterRuleset { suite_markers, excluded_names: Vec::new(), excluded_modules: Vec::new() }
}

/// Every job that survives the filter passes every exclusion check — so
/// an excluded job never appears in the working set a cycle fans out
/// over, and never reaches a status check.
pub proof fn lemma_filtered_jobs_pass(rs: JobFilterRuleset, s: Seq<Job>, i: int)
    requires
        0 <= i < filter_seq(rs, s).len(),
    ensures
        !job_excluded(rs, filter_seq(rs, s)[i]),
    decreases s.len(),
{
    if s.len() > 0 {
        let rest = s.subrange(1, s.len() as int);
        if !job_excluded(rs, s[0]) {
            if i > 0 {
                lemma_filtered_jobs_pass(rs, rest, i - 1);
            }
        } else {
            lemma_filtered_jobs_pass(rs, rest, i);
        }
    }
}

/// A disabled or queued job is excluded whatever its name says.
pub proof fn lemma_gated_job_excluded(rs: JobFilterRuleset, job: Job)
    requires
        job.disabled || job.in_queue,
    ensures
        job_excluded(rs, job),
{
}

/// A name in which some suite-boundary marker occurs (ignoring case) is
/// excluded by the name-based checks, for any marker that itself holds no
/// whitespace, `#`, or digit characters — stripping a build-number suffix
/// cannot remove such a match.
pub proof fn lemma_marker_match_excluded(rs: JobFilterRuleset, name: Seq<char>, k: int)
    requires
        0 <= k < rs.suite_markers@.len(),
        contains_ci(name, rs.suite_markers@[k]@),
        forall|j: int|
            0 <= j < rs.suite_markers@[k]@.len() ==> !crate::text::is_suffix_code(
                #[trigger] crate::text::fold_char(rs.suite_markers@[k]@[j]),
            ),
    ensures
        name_excluded(rs, name),
{
    crate::text::lemma_contains_survives_strip(name, rs.suite_markers@[k]@);
    assert(marker_matched(rs, strip_spec(name)));
}

/// None of the three standard suite-boundary markers holds a whitespace,
/// `#`, or digit character.
pub proof fn lemma_standard_markers_free()
    ensures
        forall|j: int|
            0 <= j < "_start_test_suite"@.len() ==> !crate::text::is_suffix_code(
                #[trigger] crate::text::fold_char("_start_test_suite"@[j]),
            ),
        forall|j: int|
            0 <= j < "-test-suite-start"@.len() ==> !crate::text::is_suffix_code(
                #[trigger] crate::text::fold_char("-test-suite-start"@[j]),
            ),
        forall|j: int|
            0 <= j < "-post-deployment"@.len() ==> !crate::text::is_suffix_code(
                #[trigger] crate::text::fold_char("-post-deployment"@[j]),
            ),
{
    reveal_strlit("_start_test_suite");
    reveal_strlit("-test-suite-start");
    reveal_strlit("-post-deployment");
}

/// A name in which one of the standard suite-boundary markers occurs,
/// ignoring case, is excluded under any ruleset that carries them.
pub proof fn lemma_standard_marker_excludes(rs: JobFilterRuleset, name: Seq<char>, k: int)
    requires
        rs.suite_markers@.len() == 3,
        rs.suite_markers@[0]@ == "_start_test_suite"@,
        rs.suite_markers@[1]@ == "-test-suite-start"@,
        rs.suite_markers@[2]@ == "-post-deployment"@,
        0 <= k < 3,
        contains_ci(name, rs.suite_markers@[k]@),
    ensures
        name_excluded(rs, name),
{
    lemma_standard_markers_free();
    lemma_marker_match_excluded(rs, name, k);
}

/// Once the name of a job carries no further build-number suffix, the
/// name-based exclusion checks treat a name with such a suffix exactly as
/// they treat its stripped form.
pub proof fn lemma_stripped_name_equivalent(rs: JobFilterRuleset, name: Seq<char>)
    requires
        strip_spec(strip_spec(name)) == strip_spec(name),
    ensures
        name_excluded(rs, name) == name_excluded(rs, strip_spec(name)),
{
}

} // verus!
