//! Pruning the cache of covers: which file is removed next.
//!
//! Files older than a given age go first, in the order of the listing.
//! Then, while the cache is larger than allowed, the oldest file that is
//! left goes, one after the other. The pruner only decides; the caller
//! removes the file it is given and reports whether that worked. A file
//! that could not be removed stays counted and is not tried again in the
//! same stage.

use vstd::prelude::*;
use crate::album_art::CachePruneResult;

verus! {

pub const SECONDS_PER_DAY: u64 = 86400;

pub const BYTES_PER_MEGABYTE: u64 = 1048576;

/// A file of the cache.
#[derive(Clone, Copy, Debug, PartialEq, Eq, Structural)]
pub struct CacheFile {
    /// When the file was last modified, in seconds since the epoch.
    pub modified: u64,
    /// Its size in bytes.
    pub size: u64,
}

/// The instant before which a file is older than `max_age_days` at `now`;
/// the epoch where the age reaches back beyond it.
pub fn age_cutoff(now: u64, max_age_days: u64) -> (cutoff: u64)
    ensures
        cutoff == (if max_age_days * SECONDS_PER_DAY <= now {
            now - max_age_days * SECONDS_PER_DAY
        } else {
            0
        }),
{
    match max_age_days.checked_mul(SECONDS_PER_DAY) {
        Some(age) => if age <= now {
            now - age
        } else {
            0
        },
        None => 0,
    }
}

/// The size in bytes that a cache of `max_size_mb` megabytes may have; the
/// largest number where the product does not fit.
pub fn size_limit(max_size_mb: u64) -> (bytes: u64)
    ensures
        bytes == (if max_size_mb * BYTES_PER_MEGABYTE <= u64::MAX {
            max_size_mb * BYTES_PER_MEGABYTE
        } else {
            u64::MAX as int
        }),
{
    match max_size_mb.checked_mul(BYTES_PER_MEGABYTE) {
        Some(bytes) => bytes,
        None => u64::MAX,
    }
}

/// The pruner as mathematics.
pub struct PrunerModel {
    pub files: Seq<CacheFile>,
    /// For each file, whether it was removed.
    pub gone: Seq<bool>,
    /// For each file, whether the size stage has tried it.
    pub tried: Seq<bool>,
    /// The age stage has looked at the files before this index.
    pub cursor: nat,
    /// Whether the age stage still runs.
    pub aging: bool,
    /// Files modified before this instant are removed for their age.
    pub cutoff: Option<u64>,
    /// The size that the cache may have.
    pub max_bytes: Option<u64>,
    /// Bytes of the files that are left, counted from the start of the
    /// size stage on.
    pub total: nat,
    pub removed_files: nat,
    pub freed_bytes: nat,
    /// The file that was handed out and is not reported yet.
    pub awaiting: Option<int>,
}

/// What holds of every pruner.
pub open spec fn well_formed(m: PrunerModel) -> bool {
    &&& m.gone.len() == m.files.len()
    &&& m.tried.len() == m.files.len()
    &&& m.cursor <= m.files.len()
    &&& m.awaiting is Some ==> 0 <= m.awaiting->0 < m.files.len()
    &&& m.removed_files <= usize::MAX
    &&& m.freed_bytes <= u64::MAX
    &&& m.total <= m.files.len() * u64::MAX
}

/// Bytes of the first `n` files that are not removed.
pub open spec fn bytes_left(files: Seq<CacheFile>, gone: Seq<bool>, n: nat) -> nat
    decreases n,
{
    if n == 0 {
        0
    } else {
        bytes_left(files, gone, (n - 1) as nat) + (if gone[n - 1] {
            0nat
        } else {
            files[n - 1].size as nat
        })
    }
}

/// The first file from `from` on that was modified before `cutoff`.
pub open spec fn first_due(files: Seq<CacheFile>, cutoff: u64, from: nat) -> Option<int>
    decreases files.len() - from,
{
    if from >= files.len() {
        None
    } else if files[from as int].modified < cutoff {
        Some(from as int)
    } else {
        first_due(files, cutoff, from + 1)
    }
}

/// Whether the size stage may still pick file `i`.
pub open spec fn candidate(gone: Seq<bool>, tried: Seq<bool>, i: int) -> bool {
    0 <= i < gone.len() && i < tried.len() && !gone[i] && !tried[i]
}

/// The oldest candidate among the first `n` files, the first of several
/// that are equally old.
pub open spec fn oldest(files: Seq<CacheFile>, gone: Seq<bool>, tried: Seq<bool>, n: nat) -> Option<
    int,
>
    decreases n,
{
    if n == 0 {
        None
    } else {
        let before = oldest(files, gone, tried, (n - 1) as nat);
        let i = n - 1;
        if candidate(gone, tried, i) && (before is None || files[i].modified
            < files[before->0].modified) {
            Some(i)
        } else {
            before
        }
    }
}

/// The size stage: while the cache is too large, the oldest candidate.
pub open spec fn size_step(m: PrunerModel) -> (PrunerModel, Option<int>) {
    let pick = oldest(m.files, m.gone, m.tried, m.files.len());
    if m.max_bytes is Some && m.total > m.max_bytes->0 && pick is Some {
        (
            PrunerModel { tried: m.tried.update(pick->0, true), awaiting: pick, ..m },
            pick,
        )
    } else {
        (m, None)
    }
}

/// The pruner after it was asked for the next file, and the file.
pub open spec fn advanced(m: PrunerModel) -> (PrunerModel, Option<int>) {
    if m.awaiting is Some {
        (m, m.awaiting)
    } else if m.aging {
        let due = if m.cutoff is Some {
            first_due(m.files, m.cutoff->0, m.cursor)
        } else {
            None
        };
        if due is Some {
            (PrunerModel { cursor: (due->0 + 1) as nat, awaiting: due, ..m }, due)
        } else {
            size_step(
                PrunerModel {
                    aging: false,
                    cursor: m.files.len(),
                    total: bytes_left(m.files, m.gone, m.files.len()),
                    ..m
                },
            )
        }
    } else {
        size_step(m)
    }
}

/// `n` and one more; the largest number stays.
pub open spec fn bumped(n: nat, max: nat) -> nat {
    if n >= max {
        n
    } else {
        n + 1
    }
}

/// `a + b`, or `max` where the sum is beyond it.
pub open spec fn capped_sum(a: nat, b: nat, max: nat) -> nat {
    if a + b > max {
        max
    } else {
        a + b
    }
}

/// The pruner after the removal of the file handed out was reported.
pub open spec fn reported(m: PrunerModel, removed: bool) -> PrunerModel {
    match m.awaiting {
        Some(i) => if removed {
            PrunerModel {
                awaiting: None,
                gone: m.gone.update(i, true),
                removed_files: bumped(m.removed_files, usize::MAX as nat),
                freed_bytes: capped_sum(m.freed_bytes, m.files[i].size as nat, u64::MAX as nat),
                total: if m.aging {
                    m.total
                } else if m.total >= m.files[i].size {
                    (m.total - m.files[i].size) as nat
                } else {
                    0
                },
                ..m
            }
        } else {
            PrunerModel { awaiting: None, ..m }
        },
        None => m,
    }
}

/// Decides which files of the cache are removed.
pub struct CachePruner {
    files: Vec<CacheFile>,
    gone: Vec<bool>,
    tried: Vec<bool>,
    cursor: usize,
    aging: bool,
    cutoff: Option<u64>,
    max_bytes: Option<u64>,
    total: u128,
    removed_files: usize,
    freed_bytes: u64,
    awaiting: Option<usize>,
}

impl View for CachePruner {
    type V = PrunerModel;

    closed spec fn view(&self) -> PrunerModel {
        PrunerModel {
            files: self.files@,
            gone: self.gone@,
            tried: self.tried@,
            cursor: self.cursor as nat,
            aging: self.aging,
            cutoff: self.cutoff,
            max_bytes: self.max_bytes,
            total: self.total as nat,
            removed_files: self.removed_files as nat,
            freed_bytes: self.freed_bytes as nat,
            awaiting: match self.awaiting {
                Some(i) => Some(i as int),
                None => None,
            },
        }
    }
}

proof fn lemma_bytes_left_bound(files: Seq<CacheFile>, gone: Seq<bool>, n: nat)
    requires
        n <= files.len(),
        gone.len() == files.len(),
    ensures
        bytes_left(files, gone, n) <= n * u64::MAX,
    decreases n,
{
    if n > 0 {
        lemma_bytes_left_bound(files, gone, (n - 1) as nat);
        assert((n - 1) * u64::MAX + u64::MAX == n * u64::MAX) by (nonlinear_arith);
    }
}

proof fn lemma_count_fits(n: nat)
    requires
        n <= usize::MAX,
    ensures
        n * u64::MAX <= u128::MAX,
{
    assert(n * u64::MAX <= 0xFFFF_FFFF_FFFF_FFFF * 0xFFFF_FFFF_FFFF_FFFF) by (nonlinear_arith)
        requires
            n <= 0xFFFF_FFFF_FFFF_FFFF,
            u64::MAX == 0xFFFF_FFFF_FFFF_FFFF;
}

impl CachePruner {
    /// A pruner for the files of a listing. Files modified before
    /// `cutoff` are removed for their age; `max_bytes` is the size that the
    /// cache may have. Either may be left out.
    pub fn new(files: Vec<CacheFile>, cutoff: Option<u64>, max_bytes: Option<u64>) -> (p: Self)
        ensures
            well_formed(p@),
            p@ == (PrunerModel {
                files: files@,
                gone: Seq::new(files@.len(), |i: int| false),
                tried: Seq::new(files@.len(), |i: int| false),
                cursor: 0,
                aging: true,
                cutoff,
                max_bytes,
                total: 0,
                removed_files: 0,
                freed_bytes: 0,
                awaiting: None,
            }),
    {
        let mut gone: Vec<bool> = Vec::new();
        let mut tried: Vec<bool> = Vec::new();
        let mut i: usize = 0;
        while i < files.len()
            invariant
                0 <= i <= files@.len(),
                gone@ == Seq::new(i as nat, |k: int| false),
                tried@ == Seq::new(i as nat, |k: int| false),
            decreases files@.len() - i,
        {
            gone.push(false);
            tried.push(false);
            assert(gone@ =~= Seq::new((i + 1) as nat, |k: int| false));
            assert(tried@ =~= Seq::new((i + 1) as nat, |k: int| false));
            i += 1;
        }
        assert(0 <= files@.len() * u64::MAX) by (nonlinear_arith);
        CachePruner {
            files,
            gone,
            tried,
            cursor: 0,
            aging: true,
            cutoff,
            max_bytes,
            total: 0,
            removed_files: 0,
            freed_bytes: 0,
            awaiting: None,
        }
    }

    fn find_due(&self, cutoff: u64) -> (r: Option<usize>)
        requires
            well_formed(self@),
        ensures
            match r {
                Some(i) => first_due(self@.files, cutoff, self@.cursor) == Some(i as int) && i
                    < self@.files.len(),
                None => first_due(self@.files, cutoff, self@.cursor) is None,
            },
    {
        let mut i: usize = self.cursor;
        while i < self.files.len()
            invariant
                self.cursor <= i <= self.files@.len(),
                first_due(self.files@, cutoff, self.cursor as nat) == first_due(
                    self.files@,
                    cutoff,
                    i as nat,
                ),
            decreases self.files@.len() - i,
        {
            if self.files[i].modified < cutoff {
                return Some(i);
            }
            i += 1;
        }
        None
    }

    fn find_oldest(&self) -> (r: Option<usize>)
        requires
            well_formed(self@),
        ensures
            match r {
                Some(i) => oldest(self@.files, self@.gone, self@.tried, self@.files.len()) == Some(
                    i as int,
                ) && i < self@.files.len(),
                None => oldest(self@.files, self@.gone, self@.tried, self@.files.len()) is None,
            },
    {
        let mut best: Option<usize> = None;
        let mut i: usize = 0;
        while i < self.files.len()
            invariant
                0 <= i <= self.files@.len(),
                self.gone@.len() == self.files@.len(),
                self.tried@.len() == self.files@.len(),
                match best {
                    Some(b) => oldest(self.files@, self.gone@, self.tried@, i as nat) == Some(
                        b as int,
                    ) && b < i,
                    None => oldest(self.files@, self.gone@, self.tried@, i as nat) is None,
                },
            decreases self.files@.len() - i,
        {
            if !self.gone[i] && !self.tried[i] {
                let better = match best {
                    Some(b) => self.files[i].modified < self.files[b].modified,
                    None => true,
                };
                if better {
                    best = Some(i);
                }
            }
            i += 1;
        }
        best
    }

    fn sum_left(&self) -> (total: u128)
        requires
            well_formed(self@),
        ensures
            total == bytes_left(self@.files, self@.gone, self@.files.len()),
            total <= self@.files.len() * u64::MAX,
    {
        let mut total: u128 = 0;
        let mut i: usize = 0;
        while i < self.files.len()
            invariant
                0 <= i <= self.files@.len(),
                self.gone@.len() == self.files@.len(),
                total == bytes_left(self.files@, self.gone@, i as nat),
            decreases self.files@.len() - i,
        {
            proof {
                lemma_bytes_left_bound(self.files@, self.gone@, i as nat);
                lemma_bytes_left_bound(self.files@, self.gone@, (i + 1) as nat);
                lemma_count_fits((i + 1) as nat);
            }
            if !self.gone[i] {
                total = total + self.files[i].size as u128;
            }
            i += 1;
        }
        proof {
            lemma_bytes_left_bound(self.files@, self.gone@, self.files@.len());
        }
        total
    }

    fn next_by_size(&mut self) -> (r: Option<usize>)
        requires
            well_formed(old(self)@),
            old(self)@.awaiting is None,
        ensures
            well_formed(final(self)@),
            (final(self)@, match r {
                Some(i) => Some(i as int),
                None => None,
            }) == size_step(old(self)@),
    {
        let over = match self.max_bytes {
            Some(max) => self.total > max as u128,
            None => false,
        };
        if !over {
            return None;
        }
        match self.find_oldest() {
            Some(i) => {
                self.tried.set(i, true);
                self.awaiting = Some(i);
                Some(i)
            },
            None => None,
        }
    }

    /// The index in the listing of the file to remove next, or `None` when
    /// the pruning is done. A file that was handed out is handed out again
    /// until its removal is reported.
    pub fn next(&mut self) -> (r: Option<usize>)
        requires
            well_formed(old(self)@),
        ensures
            well_formed(final(self)@),
            (final(self)@, match r {
                Some(i) => Some(i as int),
                None => None,
            }) == advanced(old(self)@),
            r is Some ==> r->0 < old(self)@.files.len(),
    {
        match self.awaiting {
            Some(i) => {
                return Some(i);
            },
            None => {},
        }
        if self.aging {
            let due = match self.cutoff {
                Some(cutoff) => self.find_due(cutoff),
                None => None,
            };
            match due {
                Some(i) => {
                    let len = self.files.len();
                    assert(i < len);
                    self.cursor = i + 1;
                    self.awaiting = Some(i);
                    return Some(i);
                },
                None => {
                    let total = self.sum_left();
                    self.aging = false;
                    self.cursor = self.files.len();
                    self.total = total;
                },
            }
        }
        self.next_by_size()
    }

    /// Reports whether the file handed out was removed. A removed file is
    /// counted, its bytes are freed, and from the size stage on they no
    /// longer count for the size of the cache.
    pub fn report(&mut self, removed: bool)
        requires
            well_formed(old(self)@),
        ensures
            well_formed(final(self)@),
            final(self)@ == reported(old(self)@, removed),
    {
        match self.awaiting {
            Some(i) => {
                self.awaiting = None;
                if removed {
                    let size = self.files[i].size;
                    self.gone.set(i, true);
                    if self.removed_files < usize::MAX {
                        self.removed_files = self.removed_files + 1;
                    }
                    self.freed_bytes = self.freed_bytes.saturating_add(size);
                    if !self.aging {
                        self.total = if self.total >= size as u128 {
                            self.total - size as u128
                        } else {
                            0
                        };
                    }
                }
            },
            None => {},
        }
    }

    /// What the pruning did, given what a new listing of the cache shows
    /// to be left.
    pub fn result(&self, remaining_files: usize, remaining_bytes: u64) -> (r: CachePruneResult)
        ensures
            r == (CachePruneResult {
                removed_files: self@.removed_files as usize,
                freed_bytes: self@.freed_bytes as u64,
                remaining_files,
                remaining_bytes,
            }),
    {
        CachePruneResult {
            removed_files: self.removed_files,
            freed_bytes: self.freed_bytes,
            remaining_files,
            remaining_bytes,
        }
    }
}

/// The size stage removes oldest first: the file it picks may still be
/// picked, and no file that may still be picked is older. Of files that are
/// equally old the one listed first is picked.
pub proof fn law_oldest_goes_first(
    files: Seq<CacheFile>,
    gone: Seq<bool>,
    tried: Seq<bool>,
    n: nat,
    j: int,
)
    requires
        n <= files.len(),
        gone.len() == files.len(),
        tried.len() == files.len(),
        0 <= j < n,
        candidate(gone, tried, j),
    ensures
        oldest(files, gone, tried, n) is Some,
        candidate(gone, tried, oldest(files, gone, tried, n)->0),
        0 <= oldest(files, gone, tried, n)->0 < n,
        files[oldest(files, gone, tried, n)->0].modified <= files[j].modified,
        files[oldest(files, gone, tried, n)->0].modified == files[j].modified ==> oldest(
            files,
            gone,
            tried,
            n,
        )->0 <= j,
    decreases n,
{
    if j < n - 1 {
        law_oldest_goes_first(files, gone, tried, (n - 1) as nat, j);
    } else {
        lemma_oldest_is_candidate(files, gone, tried, (n - 1) as nat);
    }
}

proof fn lemma_oldest_is_candidate(
    files: Seq<CacheFile>,
    gone: Seq<bool>,
    tried: Seq<bool>,
    n: nat,
)
    requires
        n <= files.len(),
        gone.len() == files.len(),
        tried.len() == files.len(),
    ensures
        oldest(files, gone, tried, n) is Some ==> 0 <= oldest(files, gone, tried, n)->0 < n
            && candidate(gone, tried, oldest(files, gone, tried, n)->0),
    decreases n,
{
    if n > 0 {
        lemma_oldest_is_candidate(files, gone, tried, (n - 1) as nat);
    }
}

/// The size stage ends as soon as the cache is small enough: with the
/// files that are left at or under the limit, no file is picked.
pub proof fn law_pruning_stops_at_the_limit(m: PrunerModel)
    requires
        m.awaiting is None,
        !m.aging,
        m.max_bytes is Some,
        m.total <= m.max_bytes->0,
    ensures
        advanced(m) == (m, None::<int>),
{
}

impl CachePruneResult {
    /// Counts a file that clearing the cache came to: its bytes count as
    /// freed where its size is known, and it counts as removed where the
    /// removal worked.
    pub fn count_cleared(&mut self, size: Option<u64>, removed: bool)
        ensures
            final(self).freed_bytes == capped_sum(
                old(self).freed_bytes as nat,
                match size {
                    Some(s) => s as nat,
                    None => 0,
                },
                u64::MAX as nat,
            ),
            final(self).removed_files == (if removed {
                bumped(old(self).removed_files as nat, usize::MAX as nat)
            } else {
                old(self).removed_files as nat
            }),
            final(self).remaining_files == old(self).remaining_files,
            final(self).remaining_bytes == old(self).remaining_bytes,
    {
        match size {
            Some(s) => {
                self.freed_bytes = self.freed_bytes.saturating_add(s);
            },
            None => {},
        }
        if removed && self.removed_files < usize::MAX {
            self.removed_files = self.removed_files + 1;
        }
    }

    /// Counts a file that is left in the cache.
    pub fn count_remaining(&mut self, size: u64)
        ensures
            final(self).remaining_files == bumped(
                old(self).remaining_files as nat,
                usize::MAX as nat,
            ),
            final(self).remaining_bytes == capped_sum(
                old(self).remaining_bytes as nat,
                size as nat,
                u64::MAX as nat,
            ),
            final(self).removed_files == old(self).removed_files,
            final(self).freed_bytes == old(self).freed_bytes,
    {
        if self.remaining_files < usize::MAX {
            self.remaining_files = self.remaining_files + 1;
        }
        self.remaining_bytes = self.remaining_bytes.saturating_add(size);
    }
}

} // verus!
