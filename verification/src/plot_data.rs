use vstd::prelude::*;

verus! {

/// The most samples of the estimate that are kept before the oldest leave.
pub const MAX_SIZE: usize = 6000;

/// How many times fewer position fixes are kept when only the recent past is shown.
pub const FOLLOW_DIVISOR: usize = 300;

/// The last `limit` items of `series`, or all of it where it has no more.
pub open spec fn kept<T>(series: Seq<T>, limit: usize) -> Seq<T> {
    if series.len() > limit {
        series.subrange(series.len() - limit, series.len() as int)
    } else {
        series
    }
}

/// Drops from the front of `series` what it has beyond `limit` items.
fn trim<T>(series: &mut Vec<T>, limit: usize)
    ensures
        final(series)@ == kept(old(series)@, limit),
{
    if series.len() > limit {
        let excess: usize = series.len() - limit;
        let tail = series.split_off(excess);
        *series = tail;
    }
}

/// What a display reads: the history of the estimate, sample by sample, and the
/// position fixes that came in. `T` is the type of one number. A sample is one
/// item in each series of the estimate, so these all have one length; a fix is
/// one item in each of the three series of fixes.
pub struct PlotData<T> {
    /// Estimated position, per axis.
    pub x: Vec<T>,
    pub y: Vec<T>,
    pub z: Vec<T>,
    /// Position fixes, per axis.
    pub x_gps: Vec<T>,
    pub y_gps: Vec<T>,
    pub z_gps: Vec<T>,
    /// Estimated velocity, per axis.
    pub vx: Vec<T>,
    pub vy: Vec<T>,
    pub vz: Vec<T>,
    /// Variance of the estimated position, per axis.
    pub x_unc: Vec<T>,
    pub y_unc: Vec<T>,
    pub z_unc: Vec<T>,
    /// Variance of the estimated velocity, per axis.
    pub vx_unc: Vec<T>,
    pub vy_unc: Vec<T>,
    pub vz_unc: Vec<T>,
    /// Innovation of the last correction, per axis.
    pub x_innov: Vec<T>,
    pub y_innov: Vec<T>,
    pub z_innov: Vec<T>,
    /// Normalised innovation squared of the last correction.
    pub nis: Vec<T>,
    /// No more samples will come.
    pub done: bool,
    /// How many samples may stand before a push drops the oldest.
    pub max_size: usize,
    /// How many fixes may stand before a push drops the oldest.
    pub max_size_gps: usize,
}

impl<T: Copy> PlotData<T> {
    /// The series of the estimate have one length, and so have those of the fixes.
    pub open spec fn wf(&self) -> bool {
        &&& self.y@.len() == self.x@.len()
        &&& self.z@.len() == self.x@.len()
        &&& self.vx@.len() == self.x@.len()
        &&& self.vy@.len() == self.x@.len()
        &&& self.vz@.len() == self.x@.len()
        &&& self.x_unc@.len() == self.x@.len()
        &&& self.y_unc@.len() == self.x@.len()
        &&& self.z_unc@.len() == self.x@.len()
        &&& self.vx_unc@.len() == self.x@.len()
        &&& self.vy_unc@.len() == self.x@.len()
        &&& self.vz_unc@.len() == self.x@.len()
        &&& self.x_innov@.len() == self.x@.len()
        &&& self.y_innov@.len() == self.x@.len()
        &&& self.z_innov@.len() == self.x@.len()
        &&& self.nis@.len() == self.x@.len()
        &&& self.y_gps@.len() == self.x_gps@.len()
        &&& self.z_gps@.len() == self.x_gps@.len()
    }

    /// An empty history. With `follow` only the recent fixes are kept.
    pub fn new(follow: bool) -> (r: Self)
        ensures
            r.wf(),
            r.x@.len() == 0,
            r.x_gps@.len() == 0,
            !r.done,
            r.max_size == MAX_SIZE,
            r.max_size_gps == if follow { MAX_SIZE / FOLLOW_DIVISOR } else { MAX_SIZE },
    {
        let max_size: usize = MAX_SIZE;
        let divisor: usize = if follow { FOLLOW_DIVISOR } else { 1 };
        PlotData {
            max_size,
            max_size_gps: max_size / divisor,
            x: Vec::with_capacity(max_size),
            y: Vec::with_capacity(max_size),
            z: Vec::with_capacity(max_size),
            vx: Vec::with_capacity(max_size),
            vy: Vec::with_capacity(max_size),
            vz: Vec::with_capacity(max_size),
            x_unc: Vec::with_capacity(max_size),
            y_unc: Vec::with_capacity(max_size),
            z_unc: Vec::with_capacity(max_size),
            vx_unc: Vec::with_capacity(max_size),
            vy_unc: Vec::with_capacity(max_size),
            vz_unc: Vec::with_capacity(max_size),
            x_innov: Vec::with_capacity(max_size),
            y_innov: Vec::with_capacity(max_size),
            z_innov: Vec::with_capacity(max_size),
            nis: Vec::with_capacity(max_size),
            x_gps: Vec::with_capacity(max_size),
            y_gps: Vec::with_capacity(max_size),
            z_gps: Vec::with_capacity(max_size),
            done: false,
        }
    }

    /// Appends one sample, and the fix `gps` if there is one. Before that, a
    /// history that is longer than its limit loses its oldest items, down to the
    /// limit; so after a push it holds at most one more than the limit.
    pub fn push(
        &mut self,
        state: &[T],
        state_unc: &[T],
        innovation: &[T],
        gps: Option<&[T]>,
        nis: T,
    )
        requires
            old(self).wf(),
            state@.len() >= 6,
            state_unc@.len() >= 6,
            innovation@.len() >= 3,
            gps matches Some(g) ==> g@.len() >= 3,
        ensures
            final(self).wf(),
            final(self).max_size == old(self).max_size,
            final(self).max_size_gps == old(self).max_size_gps,
            final(self).done == old(self).done,
            final(self).x@ == kept(old(self).x@, old(self).max_size).push(state@[0]),
            final(self).y@ == kept(old(self).y@, old(self).max_size).push(state@[1]),
            final(self).z@ == kept(old(self).z@, old(self).max_size).push(state@[2]),
            final(self).vx@ == kept(old(self).vx@, old(self).max_size).push(state@[3]),
            final(self).vy@ == kept(old(self).vy@, old(self).max_size).push(state@[4]),
            final(self).vz@ == kept(old(self).vz@, old(self).max_size).push(state@[5]),
            final(self).x_unc@ == kept(old(self).x_unc@, old(self).max_size).push(state_unc@[0]),
            final(self).y_unc@ == kept(old(self).y_unc@, old(self).max_size).push(state_unc@[1]),
            final(self).z_unc@ == kept(old(self).z_unc@, old(self).max_size).push(state_unc@[2]),
            final(self).vx_unc@ == kept(old(self).vx_unc@, old(self).max_size).push(state_unc@[3]),
            final(self).vy_unc@ == kept(old(self).vy_unc@, old(self).max_size).push(state_unc@[4]),
            final(self).vz_unc@ == kept(old(self).vz_unc@, old(self).max_size).push(state_unc@[5]),
            final(self).x_innov@ == kept(old(self).x_innov@, old(self).max_size).push(innovation@[0]),
            final(self).y_innov@ == kept(old(self).y_innov@, old(self).max_size).push(innovation@[1]),
            final(self).z_innov@ == kept(old(self).z_innov@, old(self).max_size).push(innovation@[2]),
            final(self).nis@ == kept(old(self).nis@, old(self).max_size).push(nis),
            final(self).x_gps@ == match gps {
                Some(g) => kept(old(self).x_gps@, old(self).max_size_gps).push(g@[0]),
                None => kept(old(self).x_gps@, old(self).max_size_gps),
            },
            final(self).y_gps@ == match gps {
                Some(g) => kept(old(self).y_gps@, old(self).max_size_gps).push(g@[1]),
                None => kept(old(self).y_gps@, old(self).max_size_gps),
            },
            final(self).z_gps@ == match gps {
                Some(g) => kept(old(self).z_gps@, old(self).max_size_gps).push(g@[2]),
                None => kept(old(self).z_gps@, old(self).max_size_gps),
            },
    {
        trim(&mut self.x, self.max_size);
        trim(&mut self.y, self.max_size);
        trim(&mut self.z, self.max_size);
        trim(&mut self.vx, self.max_size);
        trim(&mut self.vy, self.max_size);
        trim(&mut self.vz, self.max_size);
        trim(&mut self.x_unc, self.max_size);
        trim(&mut self.y_unc, self.max_size);
        trim(&mut self.z_unc, self.max_size);
        trim(&mut self.vx_unc, self.max_size);
        trim(&mut self.vy_unc, self.max_size);
        trim(&mut self.vz_unc, self.max_size);
        trim(&mut self.x_innov, self.max_size);
        trim(&mut self.y_innov, self.max_size);
        trim(&mut self.z_innov, self.max_size);
        trim(&mut self.nis, self.max_size);
        trim(&mut self.x_gps, self.max_size_gps);
        trim(&mut self.y_gps, self.max_size_gps);
        trim(&mut self.z_gps, self.max_size_gps);
        self.x.push(state[0]);
        self.y.push(state[1]);
        self.z.push(state[2]);
        self.vx.push(state[3]);
        self.vy.push(state[4]);
        self.vz.push(state[5]);
        self.x_unc.push(state_unc[0]);
        self.y_unc.push(state_unc[1]);
        self.z_unc.push(state_unc[2]);
        self.vx_unc.push(state_unc[3]);
        self.vy_unc.push(state_unc[4]);
        self.vz_unc.push(state_unc[5]);
        self.x_innov.push(innovation[0]);
        self.y_innov.push(innovation[1]);
        self.z_innov.push(innovation[2]);
        self.nis.push(nis);
        if let Some(g) = gps {
            self.x_gps.push(g[0]);
            self.y_gps.push(g[1]);
            self.z_gps.push(g[2]);
        }
    }

    /// Marks the history as complete.
    pub fn finish(&mut self)
        ensures
            final(self).done,
            final(self).max_size == old(self).max_size,
            final(self).max_size_gps == old(self).max_size_gps,
            final(self).x@ == old(self).x@,
            final(self).y@ == old(self).y@,
            final(self).z@ == old(self).z@,
            final(self).vx@ == old(self).vx@,
            final(self).vy@ == old(self).vy@,
            final(self).vz@ == old(self).vz@,
            final(self).x_unc@ == old(self).x_unc@,
            final(self).y_unc@ == old(self).y_unc@,
            final(self).z_unc@ == old(self).z_unc@,
            final(self).vx_unc@ == old(self).vx_unc@,
            final(self).vy_unc@ == old(self).vy_unc@,
            final(self).vz_unc@ == old(self).vz_unc@,
            final(self).x_innov@ == old(self).x_innov@,
            final(self).y_innov@ == old(self).y_innov@,
            final(self).z_innov@ == old(self).z_innov@,
            final(self).nis@ == old(self).nis@,
            final(self).x_gps@ == old(self).x_gps@,
            final(self).y_gps@ == old(self).y_gps@,
            final(self).z_gps@ == old(self).z_gps@,
    {
        self.done = true;
    }
}

} // verus!
