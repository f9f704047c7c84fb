use vstd::prelude::*;

use crate::layout::Dims;

verus! {

/// How the resolution of an array read from disk compares with the grid asked for.
#[derive(Clone, Copy, Debug, PartialEq, Eq, Structural)]
pub enum Resolution {
    Same,
    /// Fewer cells along every axis.
    Lower,
    /// More cells along every axis.
    Higher,
    /// Fewer along some axes and more, or as many, along others.
    Mixed,
}

/// Why an array could not be read from disk.
#[derive(Clone, Copy, Debug, PartialEq, Eq, Structural)]
pub enum LoadError {
    /// No file to read.
    NotFound,
    /// The number of records does not fill the box that their largest indices span.
    Malformed,
    /// The records describe a grid other than the one asked for.
    ResolutionMismatch(Resolution),
}

/// Which of the two files of a state is read.
#[derive(Clone, Copy, Debug, PartialEq, Eq, Structural)]
pub enum InputFile {
    /// `wavefunction_<k>.csv`, written by a converged search.
    Complete,
    /// `wavefunction_<k>_partial.csv`, written by a search that stopped early.
    Partial,
}

/// Prefers the file of a converged search, falls back on the partial one.
pub fn choose_wavefunction_file(complete_exists: bool, partial_exists: bool) -> (r: Result<
    InputFile,
    LoadError,
>)
    ensures
        r == (if complete_exists {
            Ok(InputFile::Complete)
        } else if partial_exists {
            Ok(InputFile::Partial)
        } else {
            Err(LoadError::NotFound)
        }),
{
    if complete_exists {
        Ok(InputFile::Complete)
    } else if partial_exists {
        Ok(InputFile::Partial)
    } else {
        Err(LoadError::NotFound)
    }
}

pub open spec fn compare_spec(a: (int, int, int), b: (int, int, int)) -> Resolution {
    if a == b {
        Resolution::Same
    } else if a.0 < b.0 && a.1 < b.1 && a.2 < b.2 {
        Resolution::Lower
    } else if a.0 > b.0 && a.1 > b.1 && a.2 > b.2 {
        Resolution::Higher
    } else {
        Resolution::Mixed
    }
}

/// Compares the extents `loaded` of an array read from disk with the extents
/// `target` asked for.
pub fn compare_resolution(loaded: (usize, usize, usize), target: (usize, usize, usize)) -> (r:
    Resolution)
    ensures
        r == compare_spec(
            (loaded.0 as int, loaded.1 as int, loaded.2 as int),
            (target.0 as int, target.1 as int, target.2 as int),
        ),
{
    if loaded.0 == target.0 && loaded.1 == target.1 && loaded.2 == target.2 {
        Resolution::Same
    } else if loaded.0 < target.0 && loaded.1 < target.1 && loaded.2 < target.2 {
        Resolution::Lower
    } else if loaded.0 > target.0 && loaded.1 > target.1 && loaded.2 > target.2 {
        Resolution::Higher
    } else {
        Resolution::Mixed
    }
}

/// Largest index along each axis among the records `s` (zero where there are none).
pub open spec fn max_index(s: Seq<(usize, usize, usize)>) -> (int, int, int)
    decreases s.len(),
{
    if s.len() == 0 {
        (0, 0, 0)
    } else {
        let m = max_index(s.drop_last());
        let c = s.last();
        (
            if c.0 > m.0 { c.0 as int } else { m.0 },
            if c.1 > m.1 { c.1 as int } else { m.1 },
            if c.2 > m.2 { c.2 as int } else { m.2 },
        )
    }
}

/// Extents of the box that the records span, from index zero to the largest index.
pub open spec fn spanned(s: Seq<(usize, usize, usize)>) -> (int, int, int) {
    let m = max_index(s);
    (m.0 + 1, m.1 + 1, m.2 + 1)
}

/// The records fill the box that they span, one value per cell.
pub open spec fn fills_box(s: Seq<(usize, usize, usize)>) -> bool {
    let e = spanned(s);
    s.len() == e.0 * e.1 * e.2
}

/// Result of checking the indices of the records of a file against the
/// interior extents asked for.
pub open spec fn check_spec(s: Seq<(usize, usize, usize)>, target: Dims) -> Result<Dims, LoadError> {
    let want = (target.nx as int, target.ny as int, target.nz as int);
    if !fills_box(s) {
        Err(LoadError::Malformed)
    } else if compare_spec(spanned(s), want) != Resolution::Same {
        Err(LoadError::ResolutionMismatch(compare_spec(spanned(s), want)))
    } else {
        Ok(target)
    }
}

proof fn lemma_max_index_bounds(s: Seq<(usize, usize, usize)>)
    ensures
        0 <= max_index(s).0 <= usize::MAX,
        0 <= max_index(s).1 <= usize::MAX,
        0 <= max_index(s).2 <= usize::MAX,
    decreases s.len(),
{
    if s.len() > 0 {
        lemma_max_index_bounds(s.drop_last());
    }
}

/// Largest index along each axis among `records`.
pub fn max_indices(records: &Vec<(usize, usize, usize)>) -> (r: (usize, usize, usize))
    ensures
        (r.0 as int, r.1 as int, r.2 as int) == max_index(records@),
{
    let mut mx: usize = 0;
    let mut my: usize = 0;
    let mut mz: usize = 0;
    let mut n: usize = 0;
    while n < records.len()
        invariant
            n <= records.len(),
            (mx as int, my as int, mz as int) == max_index(records@.subrange(0, n as int)),
        decreases records.len() - n,
    {
        let c = records[n];
        assert(records@.subrange(0, n + 1).drop_last() =~= records@.subrange(0, n as int));
        if c.0 > mx {
            mx = c.0;
        }
        if c.1 > my {
            my = c.1;
        }
        if c.2 > mz {
            mz = c.2;
        }
        n = n + 1;
    }
    assert(records@.subrange(0, n as int) =~= records@);
    (mx, my, mz)
}

/// Checks the indices `(i, j, k)` of the records of a file, taken in file
/// order, against the interior extents `target` of the grid. The records
/// must fill, one value per cell, the box from index zero to their largest
/// indices, and that box must be the grid's interior.
pub fn check_records(records: &Vec<(usize, usize, usize)>, target: &Dims) -> (r: Result<
    Dims,
    LoadError,
>)
    requires
        target.wf(),
    ensures
        r == check_spec(records@, *target),
{
    let (mx, my, mz) = max_indices(records);
    let len = records.len();
    proof {
        lemma_max_index_bounds(records@);
    }
    let ghost e = spanned(records@);
    if mx == usize::MAX || my == usize::MAX || mz == usize::MAX {
        proof {
            assert(e.0 * e.1 * e.2 >= e.0 && e.0 * e.1 * e.2 >= e.1 && e.0 * e.1 * e.2 >= e.2)
                by (nonlinear_arith)
                requires
                    e.0 >= 1,
                    e.1 >= 1,
                    e.2 >= 1,
            ;
        }
        return Err(LoadError::Malformed);
    }
    let (ex, ey, ez) = (mx + 1, my + 1, mz + 1);
    let cells = match ex.checked_mul(ey) {
        Some(exy) => exy.checked_mul(ez),
        None => {
            proof {
                assert(ex * ey * ez >= ex * ey) by (nonlinear_arith)
                    requires
                        ez >= 1,
                        ex >= 1,
                        ey >= 1,
                ;
            }
            None
        },
    };
    match cells {
        None => Err(LoadError::Malformed),
        Some(c) => {
            if c != len {
                Err(LoadError::Malformed)
            } else {
                let cmp = compare_resolution((ex, ey, ez), (target.nx, target.ny, target.nz));
                match cmp {
                    Resolution::Same => Ok(*target),
                    _ => Err(LoadError::ResolutionMismatch(cmp)),
                }
            }
        },
    }
}

} // verus!
