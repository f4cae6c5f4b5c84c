//! The batch driver: classifies each triangle of a batch independently,
//! counts the ones that contain the origin, and records each failing record
//! against its index without aborting the rest of the batch.

use crate::classify::classify;
use crate::classify::spec_classify;
use crate::classify::ClassifyError;
use crate::geometry::Triangle;
use vstd::prelude::*;

verus! {

/// How many triangles of the batch are classified `Ok(true)`.
pub open spec fn count_contains(s: Seq<Triangle>) -> int
    decreases s.len(),
{
    if s.len() == 0 {
        0
    } else {
        count_contains(s.drop_last()) + if (spec_classify(s.last()) matches Ok(inside) && inside) {
            1int
        } else {
            0int
        }
    }
}

/// Counts the triangles of the batch whose closed interior contains the
/// origin. Records that fail to classify are excluded from the count.
pub fn count_containing(triangles: &Vec<Triangle>) -> (n: usize)
    ensures
        n == count_contains(triangles@),
{
    let mut n: usize = 0;
    let mut i: usize = 0;
    while i < triangles.len()
        invariant
            i <= triangles@.len(),
            n <= i,
            n == count_contains(triangles@.take(i as int)),
        decreases triangles@.len() - i,
    {
        proof {
            assert(triangles@.take(i as int + 1).drop_last() =~= triangles@.take(i as int));
        }
        let verdict = classify(&triangles[i]);
        match verdict {
            Ok(inside) => if inside {
                n = n + 1;
            },
            Err(_) => {},
        }
        i = i + 1;
    }
    proof {
        assert(triangles@.take(triangles@.len() as int) =~= triangles@);
    }
    n
}

/// Classifies every triangle of the batch independently, surfacing the
/// per-record outcome (contains / does not / error) in input order.
pub fn classify_batch(triangles: &Vec<Triangle>) -> (verdicts: Vec<Result<bool, ClassifyError>>)
    ensures
        verdicts@.len() == triangles@.len(),
        forall|i: int| 0 <= i < triangles@.len() ==> verdicts@[i] == spec_classify(triangles@[i]),
{
    let mut verdicts: Vec<Result<bool, ClassifyError>> = Vec::new();
    let mut i: usize = 0;
    while i < triangles.len()
        invariant
            i <= triangles@.len(),
            verdicts@.len() == i,
            forall|k: int| 0 <= k < i ==> verdicts@[k] == spec_classify(triangles@[k]),
        decreases triangles@.len() - i,
    {
        verdicts.push(classify(&triangles[i]));
        i = i + 1;
    }
    verdicts
}

/// How many records of the batch fail to classify.
pub open spec fn count_errors(s: Seq<Triangle>) -> int
    decreases s.len(),
{
    if s.len() == 0 {
        0
    } else {
        count_errors(s.drop_last()) + if spec_classify(s.last()) is Err {
            1int
        } else {
            0int
        }
    }
}

/// A recorded error names a record of the batch and the error that record
/// classifies to.
pub open spec fn error_entry_ok(s: Seq<Triangle>, e: (usize, ClassifyError)) -> bool {
    &&& e.0 < s.len()
    &&& spec_classify(s[e.0 as int]) == Err::<bool, ClassifyError>(e.1)
}

/// The outcome of a whole batch: the number of triangles that contain the
/// origin, and every record that failed to classify, recorded against its
/// index in input order.
pub struct BatchReport {
    pub contained: usize,
    pub errors: Vec<(usize, ClassifyError)>,
}

/// Runs the whole batch: counts the triangles whose closed interior contains
/// the origin and records each failing record against its index, without
/// letting a single bad record abort the rest. The error list holds exactly
/// the failing records, in strictly increasing index order.
pub fn run_batch(triangles: &Vec<Triangle>) -> (report: BatchReport)
    ensures
        report.contained == count_contains(triangles@),
        report.errors@.len() == count_errors(triangles@),
        forall|k: int|
            0 <= k < report.errors@.len() ==> error_entry_ok(
                triangles@,
                #[trigger] report.errors@[k],
            ),
        forall|k1: int, k2: int|
            0 <= k1 < k2 < report.errors@.len() ==> report.errors@[k1].0 < report.errors@[k2].0,
{
    let mut contained: usize = 0;
    let mut errors: Vec<(usize, ClassifyError)> = Vec::new();
    let mut i: usize = 0;
    while i < triangles.len()
        invariant
            i <= triangles@.len(),
            contained <= i,
            contained == count_contains(triangles@.take(i as int)),
            errors@.len() == count_errors(triangles@.take(i as int)),
            forall|k: int|
                0 <= k < errors@.len() ==> error_entry_ok(triangles@, #[trigger] errors@[k])
                    && errors@[k].0 < i,
            forall|k1: int, k2: int|
                0 <= k1 < k2 < errors@.len() ==> errors@[k1].0 < errors@[k2].0,
        decreases triangles@.len() - i,
    {
        proof {
            assert(triangles@.take(i as int + 1).drop_last() =~= triangles@.take(i as int));
        }
        let verdict = classify(&triangles[i]);
        match verdict {
            Ok(inside) => if inside {
                contained = contained + 1;
            },
            Err(e) => {
                errors.push((i, e));
            },
        }
        i = i + 1;
    }
    proof {
        assert(triangles@.take(triangles@.len() as int) =~= triangles@);
    }
    BatchReport { contained, errors }
}

} // verus!
