use crate::result::TestResult;
use vstd::prelude::*;

verus! {

/// Structured detail of one failed test.
#[derive(Debug, Clone, PartialEq, Eq)]
pub struct Failure {
    /// What went wrong, in the backend's words.
    pub message: String,
    /// Where it went wrong, when the backend says so.
    pub location: Option<String>,
}

/// One named test and its outcome.
#[derive(Debug, Clone, PartialEq, Eq)]
pub struct TestCase {
    pub name: String,
    pub result: TestResult,
}

/// A named sequence of test cases, in the order in which they ran.
#[derive(Debug, Clone, PartialEq, Eq)]
pub struct TestSuite {
    pub name: String,
    pub cases: Vec<TestCase>,
}

/// How many cases a report holds, and how many of them passed and failed.
/// The counts are 128 bits wide, which no sequence of suites can exceed.
#[derive(Debug, Copy, Clone, PartialEq, Eq, Structural)]
pub struct Summary {
    pub total: u128,
    pub passed: u128,
    pub failed: u128,
}

/// How many of `cases` passed.
pub open spec fn count_passed(cases: Seq<TestCase>) -> nat
    decreases cases.len(),
{
    if cases.len() == 0 {
        0
    } else {
        count_passed(cases.drop_last()) + if cases.last().result is Pass {
            1nat
        } else {
            0nat
        }
    }
}

/// How many of `cases` failed.
pub open spec fn count_failed(cases: Seq<TestCase>) -> nat
    decreases cases.len(),
{
    if cases.len() == 0 {
        0
    } else {
        count_failed(cases.drop_last()) + if cases.last().result is Fail {
            1nat
        } else {
            0nat
        }
    }
}

/// Every case either passed or failed.
pub proof fn lemma_counts_partition(cases: Seq<TestCase>)
    ensures
        count_passed(cases) + count_failed(cases) == cases.len(),
    decreases cases.len(),
{
    if cases.len() > 0 {
        lemma_counts_partition(cases.drop_last());
    }
}

impl TestSuite {
    /// A suite of the given name that holds no case yet.
    pub fn new(name: String) -> (suite: TestSuite)
        ensures
            suite.name == name,
            suite.cases@ == Seq::<TestCase>::empty(),
    {
        TestSuite { name, cases: Vec::new() }
    }

    /// Appends a case: it comes after all the cases that the suite holds.
    pub fn add_case(&mut self, case: TestCase)
        ensures
            final(self).name == old(self).name,
            final(self).cases@ == old(self).cases@.push(case),
    {
        self.cases.push(case);
    }

    /// How many cases the suite holds.
    pub fn len(&self) -> (n: usize)
        ensures
            n == self.cases@.len(),
    {
        self.cases.len()
    }

    /// How many of the suite's cases passed.
    pub fn passed(&self) -> (n: usize)
        ensures
            n == count_passed(self.cases@),
    {
        let mut n: usize = 0;
        let mut i: usize = 0;
        while i < self.cases.len()
            invariant
                i <= self.cases.len(),
                n == count_passed(self.cases@.take(i as int)),
                n <= i,
            decreases self.cases.len() - i,
        {
            assert(self.cases@.take(i + 1).drop_last() =~= self.cases@.take(i as int));
            if self.cases[i].result.is_pass() {
                n += 1;
            }
            i += 1;
        }
        assert(self.cases@.take(i as int) =~= self.cases@);
        n
    }

    /// How many of the suite's cases failed.
    pub fn failed(&self) -> (n: usize)
        ensures
            n == count_failed(self.cases@),
    {
        proof {
            lemma_counts_partition(self.cases@);
        }
        self.cases.len() - self.passed()
    }
}

/// How many cases a sequence of suites holds in all.
pub open spec fn total_cases(suites: Seq<TestSuite>) -> nat
    decreases suites.len(),
{
    if suites.len() == 0 {
        0
    } else {
        total_cases(suites.drop_last()) + suites.last().cases@.len()
    }
}

/// How many cases of a sequence of suites passed.
pub open spec fn total_passed(suites: Seq<TestSuite>) -> nat
    decreases suites.len(),
{
    if suites.len() == 0 {
        0
    } else {
        total_passed(suites.drop_last()) + count_passed(suites.last().cases@)
    }
}

/// How many cases of a sequence of suites failed.
pub open spec fn total_failed(suites: Seq<TestSuite>) -> nat
    decreases suites.len(),
{
    if suites.len() == 0 {
        0
    } else {
        total_failed(suites.drop_last()) + count_failed(suites.last().cases@)
    }
}

/// The counts that belong to a sequence of suites.
pub open spec fn summary_of(suites: Seq<TestSuite>, summary: Summary) -> bool {
    &&& summary.total == total_cases(suites)
    &&& summary.passed == total_passed(suites)
    &&& summary.failed == total_failed(suites)
}

/// Over any sequence of suites, the passed and the failed cases together are
/// all the cases.
pub proof fn lemma_totals_partition(suites: Seq<TestSuite>)
    ensures
        total_passed(suites) + total_failed(suites) == total_cases(suites),
    decreases suites.len(),
{
    if suites.len() > 0 {
        lemma_totals_partition(suites.drop_last());
        lemma_counts_partition(suites.last().cases@);
    }
}

/// The counts over as many suites as a vector can hold fit in 128 bits.
proof fn lemma_totals_fit(suites: Seq<TestSuite>)
    requires
        suites.len() <= usize::MAX,
    ensures
        total_cases(suites) <= suites.len() * usize::MAX <= u128::MAX,
        total_passed(suites) <= total_cases(suites),
        total_failed(suites) <= total_cases(suites),
    decreases suites.len(),
{
    lemma_totals_partition(suites);
    if suites.len() > 0 {
        lemma_totals_fit(suites.drop_last());
        vstd::std_specs::vec::axiom_spec_len(&suites.last().cases);
    }
    assert(suites.len() * usize::MAX <= u128::MAX) by (nonlinear_arith)
        requires
            suites.len() <= usize::MAX <= u64::MAX,
    ;
    assert((suites.len() - 1) * usize::MAX + usize::MAX == suites.len() * usize::MAX)
        by (nonlinear_arith);
}

/// The normalised result of one run: the suites in the order in which they
/// ran, and the counts over them. The counts are kept beside the suites and
/// never depart from them.
#[derive(Debug, PartialEq, Eq)]
pub struct Report {
    suites: Vec<TestSuite>,
    summary: Summary,
}

impl View for Report {
    type V = Seq<TestSuite>;

    closed spec fn view(&self) -> Seq<TestSuite> {
        self.suites@
    }
}

impl Report {
    #[verifier::type_invariant]
    spec fn consistent(self) -> bool {
        summary_of(self.suites@, self.summary)
    }

    /// A report without suites.
    pub fn new() -> (report: Report)
        ensures
            report@ == Seq::<TestSuite>::empty(),
    {
        Report { suites: Vec::new(), summary: Summary { total: 0, passed: 0, failed: 0 } }
    }

    /// The report over `suites`, in their order.
    pub fn from_suites(suites: Vec<TestSuite>) -> (report: Report)
        ensures
            report@ == suites@,
    {
        let mut total: u128 = 0;
        let mut passed: u128 = 0;
        let mut failed: u128 = 0;
        let mut i: usize = 0;
        while i < suites.len()
            invariant
                i <= suites.len(),
                total == total_cases(suites@.take(i as int)),
                passed == total_passed(suites@.take(i as int)),
                failed == total_failed(suites@.take(i as int)),
            decreases suites.len() - i,
        {
            proof {
                assert(suites@.take(i + 1).drop_last() =~= suites@.take(i as int));
                lemma_totals_fit(suites@.take(i + 1));
            }
            total += suites[i].len() as u128;
            passed += suites[i].passed() as u128;
            failed += suites[i].failed() as u128;
            i += 1;
        }
        assert(suites@.take(i as int) =~= suites@);
        Report { suites, summary: Summary { total, passed, failed } }
    }

    /// Appends a suite to the report and brings the counts up to date.
    pub fn add_suite(&mut self, suite: TestSuite)
        ensures
            final(self)@ == old(self)@.push(suite),
    {
        let total = suite.len() as u128;
        let passed = suite.passed() as u128;
        let failed = suite.failed() as u128;
        let mut previous = Report::new();
        core::mem::swap(self, &mut previous);
        proof {
            use_type_invariant(&previous);
        }
        let Report { mut suites, summary } = previous;
        suites.push(suite);
        proof {
            assert(suites@.drop_last() =~= old(self)@);
            vstd::std_specs::vec::axiom_spec_len(&suites);
            lemma_totals_fit(suites@);
        }
        *self = Report {
            suites,
            summary: Summary {
                total: summary.total + total,
                passed: summary.passed + passed,
                failed: summary.failed + failed,
            },
        };
    }

    /// The suites of the report, in the order in which they were added.
    pub fn suites(&self) -> (suites: &Vec<TestSuite>)
        ensures
            suites@ == self@,
    {
        &self.suites
    }

    /// The counts over the report's suites.
    pub fn summary(&self) -> (summary: Summary)
        ensures
            summary_of(self@, summary),
            summary.passed + summary.failed == summary.total,
    {
        proof {
            use_type_invariant(self);
            lemma_totals_partition(self@);
        }
        self.summary
    }
}

} // verus!
