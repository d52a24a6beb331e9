use vstd::prelude::*;

verus! {

/// Size accounting of the active file, owned by the background writer.
#[derive(Clone, Copy, Debug, PartialEq, Eq, Structural)]
pub struct Rotator {
    pub current_bytes: usize,
    pub max_size: usize,
    pub max_count: usize,
}

/// `j - 1` down to `0`.
pub open spec fn plan_from(j: nat) -> Seq<nat> {
    Seq::new(j, |k: int| (j - 1 - k) as nat)
}

/// Indices to rename, each to the next one, in order: `count - 2` down to `0`.
pub open spec fn rename_plan_spec(count: nat) -> Seq<nat> {
    plan_from((if count >= 1 { count - 1 } else { 0 }) as nat)
}

/// The set of log files as a map from index to contents.
pub type FileSet = Map<nat, Seq<u8>>;

/// Renames file `i` to `i + 1` where file `i` exists; a file at `i + 1` is replaced.
pub open spec fn rename_step(files: FileSet, i: nat) -> FileSet {
    if files.contains_key(i) {
        files.remove(i).insert(i + 1, files[i])
    } else {
        files
    }
}

pub open spec fn apply_renames(files: FileSet, plan: Seq<nat>) -> FileSet
    decreases plan.len(),
{
    if plan.len() == 0 {
        files
    } else {
        apply_renames(rename_step(files, plan[0]), plan.drop_first())
    }
}

/// The file set after a full rotation pass: the renames of the plan, then a
/// fresh, empty file 0.
pub open spec fn rotate_files(files: FileSet, count: nat) -> FileSet {
    apply_renames(files, rename_plan_spec(count)).insert(0, Seq::empty())
}

/// What holds of the file set once every index at or above `j` has been renamed.
pub open spec fn shifted_above(m: FileSet, files: FileSet, j: nat, count: nat) -> bool {
    &&& j < count
    &&& forall|k: nat| m.contains_key(k) ==> k < count
    &&& forall|k: nat|
        k < j ==> (#[trigger] m.contains_key(k) == files.contains_key(k) && (files.contains_key(k) ==> m[k] == files[k]))
    &&& (j + 1 < count && files.contains_key(j)) ==> (m.contains_key(j + 1) && m[j + 1] == files[j])
}

proof fn lemma_shift(m: FileSet, files: FileSet, j: nat, count: nat)
    requires
        shifted_above(m, files, j, count),
    ensures
        shifted_above(apply_renames(m, plan_from(j)), files, 0, count),
    decreases j,
{
    if j > 0 {
        let i = (j - 1) as nat;
        let m2 = rename_step(m, i);
        assert(plan_from(j)[0] == i);
        assert(plan_from(j).drop_first() =~= plan_from(i));
        assert(m.contains_key(i) == files.contains_key(i));
        assert forall|k: nat| m2.contains_key(k) implies k < count by {
            if k != i + 1 {
                assert(m.contains_key(k));
            }
        }
        assert(shifted_above(m2, files, i, count));
        lemma_shift(m2, files, i, count);
    } else {
        assert(plan_from(0) =~= Seq::<nat>::empty());
    }
}

/// A rotation pass over files whose indices stay below the retained count
/// leaves an empty file 0, moves the former file 0 to index 1, and keeps every
/// index below the count, so no more than `count` files ever exist.
pub proof fn lemma_rotation(files: FileSet, count: nat)
    requires
        count >= 2,
        forall|k: nat| files.contains_key(k) ==> k < count,
    ensures
        rotate_files(files, count).contains_key(0),
        rotate_files(files, count)[0] == Seq::<u8>::empty(),
        files.contains_key(0) ==> rotate_files(files, count).contains_key(1)
            && rotate_files(files, count)[1] == files[0],
        forall|k: nat| rotate_files(files, count).contains_key(k) ==> k < count,
{
    assert(shifted_above(files, files, (count - 1) as nat, count));
    lemma_shift(files, files, (count - 1) as nat, count);
}

impl Rotator {
    /// Starts the accounting of an active file that already holds `existing_len` bytes.
    pub fn new(max_size: usize, max_count: usize, existing_len: usize) -> (r: Rotator)
        ensures
            r.current_bytes == existing_len,
            r.max_size == max_size,
            r.max_count == max_count,
    {
        Rotator { current_bytes: existing_len, max_size, max_count }
    }

    pub open spec fn due(&self) -> bool {
        self.current_bytes >= self.max_size
    }

    /// Whether the active file has reached its size limit.
    pub fn needs_rotation(&self) -> (r: bool)
        ensures
            r == self.due(),
    {
        self.current_bytes >= self.max_size
    }

    /// Counts `n` more bytes written to the active file (saturating at the
    /// largest `usize`) and tells whether a rotation is due.
    pub fn record_write(&mut self, n: usize) -> (r: bool)
        ensures
            final(self).current_bytes == if old(self).current_bytes + n <= usize::MAX {
                (old(self).current_bytes + n) as usize
            } else {
                usize::MAX
            },
            final(self).max_size == old(self).max_size,
            final(self).max_count == old(self).max_count,
            r == final(self).due(),
    {
        self.current_bytes = self.current_bytes.saturating_add(n);
        self.current_bytes >= self.max_size
    }

    /// The renames of one rotation pass: each index `i` of the result is
    /// renamed to `i + 1`, in order, and the highest retained index is overwritten.
    pub fn rename_plan(&self) -> (r: Vec<usize>)
        ensures
            r@.len() == rename_plan_spec(self.max_count as nat).len(),
            forall|k: int| 0 <= k < r@.len() ==> r@[k] as nat == #[trigger] rename_plan_spec(self.max_count as nat)[k],
    {
        let mut r: Vec<usize> = Vec::new();
        if self.max_count >= 2 {
            let mut i: usize = self.max_count - 1;
            while i > 0
                invariant
                    self.max_count >= 2,
                    i < self.max_count,
                    r@.len() == self.max_count - 1 - i,
                    forall|k: int| 0 <= k < r@.len() ==> r@[k] == self.max_count - 2 - k,
                decreases i,
            {
                i = i - 1;
                r.push(i);
            }
        }
        r
    }

    /// A fresh file 0 was opened: nothing is written to it yet.
    pub fn rotated(&mut self)
        ensures
            final(self).current_bytes == 0,
            final(self).max_size == old(self).max_size,
            final(self).max_count == old(self).max_count,
    {
        self.current_bytes = 0;
    }
}

} // verus!
