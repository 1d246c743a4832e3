use libc::c_int;
use vstd::prelude::*;

verus! {

broadcast use vstd::layout::layout_of_primitives;

/// Workspace for QUADPACK's adaptive routines: `iwork` holds one integer per
/// allowed subinterval and `work` four values per subinterval, as the routines'
/// `limit` and `lenw = 4 * limit` arguments demand.
pub struct QuadpackScratch<T> where T: Copy {
    iwork: Vec<c_int>,
    work: Vec<T>,
}

/// Bytes that one subinterval takes in the workspace: one `c_int` and four `T`.
pub open spec fn bytes_per_subdiv<T>() -> int {
    (vstd::layout::size_of::<c_int>() + 4 * vstd::layout::size_of::<T>()) as int
}

/// The least number of subintervals whose workspace covers `sz_bytes` bytes.
pub open spec fn subdivs_for_bytes<T>(sz_bytes: int) -> int {
    (sz_bytes + bytes_per_subdiv::<T>() - 1) / bytes_per_subdiv::<T>()
}

impl<T: Copy> View for QuadpackScratch<T> {
    /// The integer workspace and the real workspace, in order.
    type V = (Seq<c_int>, Seq<T>);

    closed spec fn view(&self) -> (Seq<c_int>, Seq<T>) {
        (self.iwork@, self.work@)
    }
}

impl<T: Copy> QuadpackScratch<T> {
    /// The number of subintervals the workspace allows (QUADPACK's `limit`).
    pub open spec fn max_subdivs(self) -> nat {
        self@.0.len()
    }

    /// The number of values in the real workspace (QUADPACK's `lenw`).
    pub open spec fn work_len(self) -> nat {
        self@.1.len()
    }

    /// The real workspace holds four values per subinterval.
    pub open spec fn wf(self) -> bool {
        self.work_len() == 4 * self.max_subdivs()
    }
}

impl<T: Copy + Default> QuadpackScratch<T> {
    /// Workspace for as many subintervals as fit in `sz_bytes` bytes, rounded
    /// up, so that at least `sz_bytes` bytes are used.
    pub fn new(sz_bytes: usize) -> (s: QuadpackScratch<T>)
        requires
            sz_bytes >= 1,
            sz_bytes + bytes_per_subdiv::<T>() <= usize::MAX,
        ensures
            s.wf(),
            s.max_subdivs() == subdivs_for_bytes::<T>(sz_bytes as int),
            s.max_subdivs() >= 1,
            s.max_subdivs() * bytes_per_subdiv::<T>() >= sz_bytes,
            (s.max_subdivs() - 1) * bytes_per_subdiv::<T>() < sz_bytes,
            forall|i: int| 0 <= i < s.max_subdivs() ==> s@.0[i] == 0,
            forall|i: int| 0 <= i < s.work_len() ==> call_ensures(T::default, (), #[trigger] s@.1[i]),
    {
        let quantum: usize = core::mem::size_of::<c_int>() + 4 * core::mem::size_of::<T>();
        let max_len: usize = (sz_bytes + quantum - 1) / quantum;
        proof {
            let q = quantum as int;
            let z = sz_bytes as int;
            assert(q >= 4);
            assert(max_len >= 1) by (nonlinear_arith)
                requires q >= 4, z >= 1, max_len == (z + q - 1) / q;
            assert(max_len * q >= z) by (nonlinear_arith)
                requires q >= 4, z >= 1, max_len == (z + q - 1) / q;
            assert((max_len - 1) * q < z) by (nonlinear_arith)
                requires q >= 4, z >= 1, max_len == (z + q - 1) / q;
            assert(max_len <= usize::MAX / 4) by (nonlinear_arith)
                requires q >= 4, z >= 1, max_len == (z + q - 1) / q, z + q - 1 <= usize::MAX;
        }
        QuadpackScratch::with_max_subdivs(max_len)
    }

    /// Workspace for exactly `len` subintervals, zero-filled.
    pub fn with_max_subdivs(len: usize) -> (s: QuadpackScratch<T>)
        requires
            len <= usize::MAX / 4,
        ensures
            s.wf(),
            s.max_subdivs() == len,
            s.work_len() == 4 * len,
            forall|i: int| 0 <= i < len ==> s@.0[i] == 0,
            forall|i: int| 0 <= i < 4 * len ==> call_ensures(T::default, (), #[trigger] s@.1[i]),
    {
        let mut iwork: Vec<c_int> = Vec::with_capacity(len);
        for _k in 0..len
            invariant
                iwork@.len() == _k,
                forall|i: int| 0 <= i < iwork@.len() ==> iwork@[i] == 0,
        {
            iwork.push(0);
        }
        let mut work: Vec<T> = Vec::with_capacity(len * 4);
        for _k in 0..len * 4
            invariant
                work@.len() == _k,
                forall|i: int| 0 <= i < work@.len() ==> call_ensures(T::default, (), #[trigger] work@[i]),
        {
            work.push(T::default());
        }
        QuadpackScratch { iwork, work }
    }
}


impl<T: Copy> QuadpackScratch<T> {
    /// The `limit` and `lenw` arguments handed to QUADPACK, as `c_int`s
    /// (converted as Rust's `as` does). They are refused (`None`) where
    /// `4 * limit` does not fit in a `c_int` or `lenw < 4 * limit`, the check
    /// that must pass before the workspace goes to QUADPACK.
    pub fn workspace_limits(&self) -> (r: Option<(c_int, c_int)>)
        ensures
            ({
                let limit = self.max_subdivs() as c_int;
                let lenw = self.work_len() as c_int;
                &&& r is Some <==> (i32::MIN <= 4 * limit <= i32::MAX && lenw >= 4 * limit)
                &&& r is Some ==> r == Some((limit, lenw))
            }),
            self.wf() && 4 * self.max_subdivs() <= i32::MAX ==> r == Some(
                (self.max_subdivs() as c_int, (4 * self.max_subdivs()) as c_int),
            ),
    {
        let limit: c_int = self.iwork.len() as c_int;
        let lenw: c_int = self.work.len() as c_int;
        let four_limit: i64 = 4 * (limit as i64);
        if four_limit < (i32::MIN as i64) || four_limit > (i32::MAX as i64) {
            None
        } else if (lenw as i64) < four_limit {
            None
        } else {
            Some((limit, lenw))
        }
    }

    /// Mutable access to both workspaces at once, for QUADPACK to write into.
    /// The workspace afterwards holds what was written through the slices.
    /// A slice cannot change its length, so the workspace keeps its shape; the
    /// verifier has no law for the length of a `&mut [T]` once it is handed to
    /// the caller, so that is stated below on the condition that the lengths
    /// were kept.
    pub fn workspace_mut(&mut self) -> (r: (&mut [c_int], &mut [T]))
        ensures
            r.0@ == old(self)@.0,
            r.1@ == old(self)@.1,
            final(self)@ == (final(r.0)@, final(r.1)@),
            old(self).wf() && final(r.0)@.len() == r.0@.len() && final(r.1)@.len() == r.1@.len()
                ==> final(self).wf(),
    {
        (self.iwork.as_mut_slice(), self.work.as_mut_slice())
    }
}

} // verus!
