use vstd::prelude::*;
use crate::bins::{index_of, energy_of, lemma_index_in_range, lemma_index_round_trip};
use crate::method::{Method, MethodParams};

verus! {

/// What is needed to start a run.
pub struct EnergyMCParams<R> {
    /// The adaptive scheme.
    pub method: MethodParams<R>,
    /// The seed of the random stream; 0 when absent.
    pub seed: Option<u64>,
}

/// The state of an adaptive-weight Monte Carlo run.
pub struct EnergyMC<R> {
    /// The adaptive scheme and its bookkeeping.
    pub method: Method<R>,
    /// The number of moves that have been made.
    pub moves: u64,
    /// The last move where a new energy was discovered.
    pub time_l: u64,
    /// The number of moves that have been rejected.
    pub rejected_moves: u64,
    /// How many times each energy bin has been visited.
    pub histogram: Vec<u64>,
    /// The log weight of each energy bin.
    pub lnw: Vec<R>,
    /// The lowest energy of the lowest bin.
    pub min_energy_bin: i64,
    /// The width of each bin.
    pub energy_bin: i64,
    /// The energy at which the largest log weight was seen.
    pub max_entropy_energy: i64,
    /// The largest log weight seen.
    pub max_s: R,
    /// The seed that the random stream was started from.
    pub seed: u64,
}

impl<R> EnergyMC<R> {
    /// The number of bins.
    pub open spec fn len(&self) -> int {
        self.lnw@.len() as int
    }

    /// One past the highest energy that the table covers.
    pub open spec fn top(&self) -> int {
        self.min_energy_bin + self.energy_bin * self.len()
    }

    /// Whether energy `e` lies in one of the table's bins.
    pub open spec fn in_range(&self, e: int) -> bool {
        self.min_energy_bin <= e < self.top()
    }

    /// The bin of energy `e`.
    pub open spec fn index_spec(&self, e: int) -> int {
        index_of(self.min_energy_bin as int, self.energy_bin as int, e)
    }

    /// The lowest energy of bin `i`.
    pub open spec fn energy_spec(&self, i: int) -> int {
        energy_of(self.min_energy_bin as int, self.energy_bin as int, i)
    }

    /// The structural invariants of a run.
    pub open spec fn wf(&self) -> bool {
        &&& self.energy_bin > 0
        &&& self.histogram@.len() == self.lnw@.len()
        &&& self.len() >= 1
        &&& self.energy_spec(self.len() - 1) <= i64::MAX
        &&& self.rejected_moves <= self.moves
        &&& self.in_range(self.max_entropy_energy as int)
        &&& match self.method {
            Method::Sad { too_lo, too_hi, min_important_energy, t_l, n_found, .. } => {
                &&& too_lo <= too_hi
                &&& self.in_range(too_lo as int)
                &&& self.in_range(too_hi as int)
                &&& self.in_range(min_important_energy as int)
                &&& n_found >= 1
                &&& t_l <= self.moves
            },
            Method::Samc { .. } => true,
        }
    }

    /// The bin of energy `e`.
    pub fn energy_to_index(&self, e: i64) -> (r: usize)
        requires
            self.wf(),
            self.in_range(e as int),
        ensures
            r as int == self.index_spec(e as int),
            r < self.lnw@.len(),
    {
        proof {
            lemma_index_in_range(self.min_energy_bin as int, self.energy_bin as int, self.len(), e as int);
        }
        let x: u64 = (e as i128 - self.min_energy_bin as i128) as u64;
        let q: u64 = x / (self.energy_bin as u64);
        assert(q as int == self.index_spec(e as int));
        let n: usize = self.lnw.len();
        assert(q < n);
        q as usize
    }

    /// The lowest energy of bin `i`.
    pub fn index_to_energy(&self, i: usize) -> (r: i64)
        requires
            self.wf(),
            i < self.lnw@.len(),
        ensures
            r as int == self.energy_spec(i as int),
    {
        let b = self.energy_bin as i128;
        let n = i as i128;
        assert(0 <= b * n <= b * (self.len() - 1)) by (nonlinear_arith)
            requires
                b > 0,
                0 <= n <= self.len() - 1,
        ;
        (self.min_energy_bin as i128 + b * n) as i64
    }
}

/// What the weight update of one move is to do.
pub enum WeightUpdate {
    /// Leave every log weight as it is.
    Hold,
    /// Add `num / den` to the log weight of bin `i` (SAMC).
    Step { i: usize, num: u64, den: u64 },
    /// Add SAD's step `gamma` to the log weight of bin `i`, which lies
    /// inside the window.
    Inside { i: usize },
    /// Bin `i` lies outside the window: raise its weight `w` to `w'` with
    /// `1/w' = 1/w + gamma/w0`, where `w0` is the weight of bin `anchor`,
    /// the window's nearer edge.
    Anchored { i: usize, anchor: usize },
}

/// `k` copies of `z`.
pub open spec fn zeros<T>(k: nat, z: T) -> Seq<T> {
    Seq::new(k, |_i: int| z)
}

impl<R: Copy> EnergyMC<R> {
    /// Everything but the bin table is the same in `self` and `o`.
    pub open spec fn same_but_table(&self, o: &Self) -> bool {
        &&& self.method == o.method
        &&& self.moves == o.moves
        &&& self.time_l == o.time_l
        &&& self.rejected_moves == o.rejected_moves
        &&& self.energy_bin == o.energy_bin
        &&& self.max_entropy_energy == o.max_entropy_energy
        &&& self.max_s == o.max_s
        &&& self.seed == o.seed
    }

    /// `self` is `o` with `k` empty bins put below and `m` above, where `z`
    /// is the log weight of an empty bin.
    pub open spec fn grown_by(&self, o: &Self, z: R, k: nat, m: nat) -> bool {
        &&& self.lnw@ == zeros(k, z) + o.lnw@ + zeros(m, z)
        &&& self.histogram@ == zeros(k, 0u64) + o.histogram@ + zeros(m, 0u64)
        &&& self.min_energy_bin == o.min_energy_bin - o.energy_bin * k
    }

    /// Grows the table just enough for it to cover energy `e`: empty bins
    /// (visit count 0, log weight `zero`) are put below the lowest bin while
    /// `e` lies below it, and above the highest while `e` lies above it.
    pub fn prepare_for_energy(&mut self, e: i64, zero: R)
        requires
            old(self).wf(),
            e < old(self).min_energy_bin ==> e - old(self).energy_bin >= i64::MIN,
        ensures
            final(self).wf(),
            final(self).in_range(e as int),
            final(self).same_but_table(old(self)),
            exists|k: nat, m: nat| #[trigger] final(self).grown_by(old(self), zero, k, m)
                && (k > 0 ==> e < final(self).min_energy_bin + final(self).energy_bin)
                && (m > 0 ==> final(self).top() - final(self).energy_bin <= e),
    {
        let ghost start = *self;
        let ghost mut k: nat = 0;
        let bin = self.energy_bin;
        while e < self.min_energy_bin
            invariant
                self.wf(),
                self.same_but_table(&start),
                self.grown_by(&start, zero, k, 0),
                self.top() == start.top(),
                bin == self.energy_bin,
                e < start.min_energy_bin ==> e - bin >= i64::MIN,
                k > 0 ==> e < self.min_energy_bin + bin,
            decreases self.min_energy_bin - e + bin,
        {
            let ghost before = *self;
            self.histogram.insert(0, 0);
            self.lnw.insert(0, zero);
            self.min_energy_bin = self.min_energy_bin - bin;
            proof {
                k = k + 1;
                assert(self.lnw@ =~= zeros(k, zero) + start.lnw@ + zeros(0, zero));
                assert(self.histogram@ =~= zeros(k, 0u64) + start.histogram@ + zeros(0, 0u64));
                assert(self.min_energy_bin == start.min_energy_bin - bin * k) by (nonlinear_arith)
                    requires
                        before.min_energy_bin == start.min_energy_bin - bin * (k - 1),
                        self.min_energy_bin == before.min_energy_bin - bin,
                ;
                assert(self.top() == before.top()) by (nonlinear_arith)
                    requires
                        self.len() == before.len() + 1,
                        self.min_energy_bin == before.min_energy_bin - bin,
                        self.energy_bin == bin,
                        before.energy_bin == bin,
                ;
                assert(self.energy_spec(self.len() - 1) == before.energy_spec(before.len() - 1))
                    by (nonlinear_arith)
                    requires
                        self.len() == before.len() + 1,
                        self.min_energy_bin == before.min_energy_bin - bin,
                        self.energy_bin == bin,
                        before.energy_bin == bin,
                ;
            }
        }
        let ghost mid = *self;
        let ghost mut m: nat = 0;
        let b = bin as i128;
        let n = self.lnw.len() as i128;
        assert(b * n == b * (n - 1) + b) by (nonlinear_arith);
        let mut top: i128 = self.min_energy_bin as i128 + b * n;
        while e as i128 >= top
            invariant
                self.wf(),
                self.same_but_table(&start),
                self.grown_by(&start, zero, k, m),
                self.min_energy_bin == mid.min_energy_bin,
                top == self.top(),
                bin == self.energy_bin,
                b == bin,
                k > 0 ==> e < self.min_energy_bin + bin,
                m > 0 ==> self.top() - bin <= e,
                self.min_energy_bin <= e,
            decreases e - top + b,
        {
            let ghost before = *self;
            self.lnw.push(zero);
            self.histogram.push(0);
            top = top + b;
            proof {
                m = m + 1;
                assert(self.lnw@ =~= zeros(k, zero) + start.lnw@ + zeros(m, zero));
                assert(self.histogram@ =~= zeros(k, 0u64) + start.histogram@ + zeros(m, 0u64));
                assert(self.top() == before.top() + bin) by (nonlinear_arith)
                    requires
                        self.len() == before.len() + 1,
                        self.min_energy_bin == before.min_energy_bin,
                        self.energy_bin == bin,
                        before.energy_bin == bin,
                ;
                assert(self.energy_spec(self.len() - 1) == before.top()) by (nonlinear_arith)
                    requires
                        self.len() == before.len() + 1,
                        self.min_energy_bin == before.min_energy_bin,
                        self.energy_bin == bin,
                        before.energy_bin == bin,
                ;
            }
        }
        assert(self.grown_by(&start, zero, k, m));
    }

    /// Everything but the counters of moves is the same in `self` and `o`.
    pub open spec fn same_but_counters(&self, o: &Self) -> bool {
        &&& self.method == o.method
        &&& self.time_l == o.time_l
        &&& self.histogram == o.histogram
        &&& self.lnw == o.lnw
        &&& self.min_energy_bin == o.min_energy_bin
        &&& self.energy_bin == o.energy_bin
        &&& self.max_entropy_energy == o.max_entropy_energy
        &&& self.max_s == o.max_s
        &&& self.seed == o.seed
    }

    /// Only the scheme's state may differ between `self` and `o`.
    pub open spec fn same_but_method(&self, o: &Self) -> bool {
        &&& self.moves == o.moves
        &&& self.rejected_moves == o.rejected_moves
        &&& self.same_but_counters(&Self { method: self.method, ..*o })
    }

    /// A fresh run at the system's energy `e0`: one bin holding `e0`, with
    /// one visit and log weight `zero`.  The bins are `delta` wide, or 1
    /// when the system suggests no width.
    pub fn from_params(params: EnergyMCParams<R>, e0: i64, delta: Option<i64>, zero: R) -> (r: Self)
        requires
            match delta {
                Some(d) => d > 0,
                None => true,
            },
        ensures
            r.wf(),
            r.method == Method::start(params.method, e0),
            r.moves == 0,
            r.time_l == 0,
            r.rejected_moves == 0,
            r.histogram@ == seq![1u64],
            r.lnw@ == seq![zero],
            r.min_energy_bin == e0,
            r.energy_bin == match delta {
                Some(d) => d,
                None => 1,
            },
            r.max_entropy_energy == e0,
            r.max_s == zero,
            r.seed == match params.seed {
                Some(s) => s,
                None => 0,
            },
    {
        let energy_bin = match delta {
            Some(d) => d,
            None => 1,
        };
        let seed = match params.seed {
            Some(s) => s,
            None => 0,
        };
        let r = EnergyMC {
            method: Method::new(params.method, e0),
            moves: 0,
            time_l: 0,
            rejected_moves: 0,
            histogram: vec![1],
            lnw: vec![zero],
            min_energy_bin: e0,
            energy_bin,
            max_entropy_energy: e0,
            max_s: zero,
            seed,
        };
        assert(r.lnw@ =~= seq![zero]);
        assert(r.histogram@ =~= seq![1u64]);
        assert(r.len() == 1);
        assert(r.energy_bin * 1 == r.energy_bin);
        assert(r.energy_bin * 0 == 0);
        r
    }

    /// Counts the start of a move.
    pub fn begin_move(&mut self)
        requires
            old(self).wf(),
            old(self).moves < u64::MAX,
        ensures
            final(self).wf(),
            final(self).moves == old(self).moves + 1,
            final(self).rejected_moves == old(self).rejected_moves,
            final(self).same_but_counters(old(self)),
    {
        self.moves = self.moves + 1;
    }

    /// Counts the rejection of the current move, by the system or by the
    /// acceptance test.
    pub fn count_rejection(&mut self)
        requires
            old(self).wf(),
            old(self).rejected_moves < old(self).moves,
        ensures
            final(self).wf(),
            final(self).moves == old(self).moves,
            final(self).rejected_moves == old(self).rejected_moves + 1,
            final(self).same_but_counters(old(self)),
    {
        self.rejected_moves = self.rejected_moves + 1;
    }

    /// The bin whose log weight stands for energy `e` in the acceptance
    /// test: SAD reads energies outside its window at the window's edge.
    pub open spec fn weight_index_spec(&self, e: int) -> int {
        match self.method {
            Method::Sad { too_lo, too_hi, .. } => if e < too_lo {
                self.index_spec(too_lo as int)
            } else if e > too_hi {
                self.index_spec(too_hi as int)
            } else {
                self.index_spec(e)
            },
            Method::Samc { .. } => self.index_spec(e),
        }
    }

    /// The bin whose log weight stands for energy `e` in the acceptance test.
    pub fn weight_index(&self, e: i64) -> (r: usize)
        requires
            self.wf(),
            self.in_range(e as int),
        ensures
            r as int == self.weight_index_spec(e as int),
            r < self.lnw@.len(),
    {
        match self.method {
            Method::Sad { too_lo, too_hi, .. } => if e < too_lo {
                self.energy_to_index(too_lo)
            } else if e > too_hi {
                self.energy_to_index(too_hi)
            } else {
                self.energy_to_index(e)
            },
            Method::Samc { .. } => self.energy_to_index(e),
        }
    }

    /// The scheme's state after the acceptance test for a move to `e2`
    /// (judged `rejected`): SAD counts a bin that an
    /// accepted move enters for the first time, and notes when.
    pub open spec fn after_trial(&self, e2: int, rejected: bool) -> Method<R> {
        match self.method {
            Method::Sad { min_t, too_lo, too_hi, min_important_energy, t_l, n_found } =>
                if !rejected && self.histogram@[self.index_spec(e2)] == 0 {
                    Method::Sad {
                        min_t,
                        too_lo,
                        too_hi,
                        min_important_energy,
                        t_l: self.moves,
                        n_found: (n_found + 1) as u64,
                    }
                } else {
                    self.method
                },
            Method::Samc { .. } => self.method,
        }
    }

    /// The acceptance test for a move to energy `e2`.  `lnw_rises` says that
    /// the log weight at `weight_index(e2)` exceeds the one at the
    /// pre-move energy's `weight_index`; `draw_exceeds` says that this
    /// move's uniform draw exceeds `exp` of their difference (old minus new).
    /// The move is rejected when both hold.
    pub fn reject_move(&mut self, e2: i64, lnw_rises: bool, draw_exceeds: bool) -> (r: bool)
        requires
            old(self).wf(),
            old(self).in_range(e2 as int),
            old(self).method is Sad ==> old(self).method->n_found < u64::MAX,
        ensures
            r == (lnw_rises && draw_exceeds),
            final(self).wf(),
            final(self).method == old(self).after_trial(e2 as int, r),
            final(self).same_but_method(old(self)),
    {
        let rejected = lnw_rises && draw_exceeds;
        let i2 = self.energy_to_index(e2);
        if let Method::Sad { min_t, too_lo, too_hi, min_important_energy, t_l, n_found } = self.method {
            if !rejected && self.histogram[i2] == 0 {
                self.method = Method::Sad {
                    min_t,
                    too_lo,
                    too_hi,
                    min_important_energy,
                    t_l: self.moves,
                    n_found: n_found + 1,
                };
            }
        }
        rejected
    }

    /// The weight update for a move that started at energy `e1`.  SAMC adds
    /// 1 to the bin of `e1` for the first `t0` moves and `t0 / t` at move
    /// `t` after that.  SAD changes nothing until its window has grown past
    /// a single energy; the step it takes divides by the move count of the
    /// last discovery, so it also waits while that count is 0.
    pub open spec fn weight_update_spec(&self, e1: int) -> WeightUpdate {
        let i = self.index_spec(e1) as usize;
        match self.method {
            Method::Sad { too_lo, too_hi, t_l, .. } => if too_lo < too_hi && t_l > 0 {
                if e1 > too_hi {
                    WeightUpdate::Anchored { i, anchor: self.index_spec(too_hi as int) as usize }
                } else if e1 < too_lo {
                    WeightUpdate::Anchored { i, anchor: self.index_spec(too_lo as int) as usize }
                } else {
                    WeightUpdate::Inside { i }
                }
            } else {
                WeightUpdate::Hold
            },
            Method::Samc { t0 } => if self.moves > t0 {
                WeightUpdate::Step { i, num: t0, den: self.moves }
            } else {
                WeightUpdate::Step { i, num: 1, den: 1 }
            },
        }
    }

    /// The weight update for a move that started at energy `e1`.
    pub fn weight_update(&self, e1: i64) -> (r: WeightUpdate)
        requires
            self.wf(),
            self.in_range(e1 as int),
        ensures
            r == self.weight_update_spec(e1 as int),
            match r {
                WeightUpdate::Hold => true,
                WeightUpdate::Step { i, den, .. } => i < self.lnw@.len() && den > 0,
                WeightUpdate::Inside { i } => i < self.lnw@.len(),
                WeightUpdate::Anchored { i, anchor } => i < self.lnw@.len() && anchor < self.lnw@.len(),
            },
    {
        let i = self.energy_to_index(e1);
        match self.method {
            Method::Sad { too_lo, too_hi, t_l, .. } => if too_lo < too_hi && t_l > 0 {
                if e1 > too_hi {
                    WeightUpdate::Anchored { i, anchor: self.energy_to_index(too_hi) }
                } else if e1 < too_lo {
                    WeightUpdate::Anchored { i, anchor: self.energy_to_index(too_lo) }
                } else {
                    WeightUpdate::Inside { i }
                }
            } else {
                WeightUpdate::Hold
            },
            Method::Samc { t0 } => if self.moves > t0 {
                WeightUpdate::Step { i, num: t0, den: self.moves }
            } else {
                WeightUpdate::Step { i, num: 1, den: 1 }
            },
        }
    }

    /// Sets the log weight of bin `i` to `w`.
    pub fn set_lnw(&mut self, i: usize, w: R)
        requires
            old(self).wf(),
            i < old(self).lnw@.len(),
        ensures
            final(self).wf(),
            final(self).lnw@ == old(self).lnw@.update(i as int, w),
            final(self).moves == old(self).moves,
            final(self).rejected_moves == old(self).rejected_moves,
            final(self).same_but_counters(&(EnergyMC { lnw: final(self).lnw, ..*old(self) })),
    {
        self.lnw.set(i, w);
    }

    /// SAD's window after the weight update of a move that started at `e1`.
    /// `exceeds_max` says that the updated log weight of the bin of `e1`
    /// exceeds the largest one seen so far; `above_boltz` says that this
    /// log weight plus `e1 / min_t` exceeds the same sum taken at
    /// `min_important_energy`.  The upper edge moves up to `e1` on the
    /// first; on the second `e1` becomes the lowest important energy, and
    /// the lower edge moves down to it if it lies below.
    pub open spec fn after_window(&self, e1: i64, exceeds_max: bool, above_boltz: bool) -> Method<R> {
        match self.method {
            Method::Sad { min_t, too_lo, too_hi, min_important_energy, t_l, n_found } =>
                Method::Sad {
                    min_t,
                    too_lo: if above_boltz && e1 < too_lo { e1 } else { too_lo },
                    too_hi: if exceeds_max && e1 > too_hi { e1 } else { too_hi },
                    min_important_energy: if above_boltz { e1 } else { min_important_energy },
                    t_l,
                    n_found,
                },
            Method::Samc { .. } => self.method,
        }
    }

    /// Grows SAD's window after the weight update of a move that started at
    /// energy `e1` (see `after_window`).  The window never shrinks.
    pub fn update_window(&mut self, e1: i64, exceeds_max: bool, above_boltz: bool)
        requires
            old(self).wf(),
            old(self).in_range(e1 as int),
        ensures
            final(self).wf(),
            final(self).method == old(self).after_window(e1, exceeds_max, above_boltz),
            final(self).same_but_method(old(self)),
            old(self).method is Sad ==> {
                &&& final(self).method->too_lo <= old(self).method->too_lo
                &&& final(self).method->too_hi >= old(self).method->too_hi
            },
    {
        if let Method::Sad { min_t, too_lo, too_hi, min_important_energy, t_l, n_found } = self.method {
            let new_hi = if exceeds_max && e1 > too_hi { e1 } else { too_hi };
            let new_lo = if above_boltz && e1 < too_lo { e1 } else { too_lo };
            let new_imp = if above_boltz { e1 } else { min_important_energy };
            self.method = Method::Sad {
                min_t,
                too_lo: new_lo,
                too_hi: new_hi,
                min_important_energy: new_imp,
                t_l,
                n_found,
            };
        }
    }

    /// Counts a visit to the bin of the system's energy `e` after a move,
    /// and returns that bin.
    pub fn record_visit(&mut self, e: i64) -> (r: usize)
        requires
            old(self).wf(),
            old(self).in_range(e as int),
            old(self).histogram@[old(self).index_spec(e as int)] < u64::MAX,
        ensures
            final(self).wf(),
            r as int == old(self).index_spec(e as int),
            final(self).histogram@ == old(self).histogram@.update(r as int, (old(self).histogram@[r as int] + 1) as u64),
            final(self).moves == old(self).moves,
            final(self).rejected_moves == old(self).rejected_moves,
            final(self).same_but_counters(&(EnergyMC { histogram: final(self).histogram, ..*old(self) })),
    {
        let i = self.energy_to_index(e);
        let c = self.histogram[i];
        self.histogram.set(i, c + 1);
        i
    }

    /// Records the system's energy `e` after a move as the one of largest
    /// entropy when `exceeds_max` says that the log weight of its bin
    /// exceeds the largest seen so far.
    pub fn track_max(&mut self, e: i64, exceeds_max: bool)
        requires
            old(self).wf(),
            old(self).in_range(e as int),
        ensures
            final(self).wf(),
            exceeds_max ==> final(self).max_s == old(self).lnw@[old(self).index_spec(e as int)]
                && final(self).max_entropy_energy == e,
            !exceeds_max ==> final(self).max_s == old(self).max_s
                && final(self).max_entropy_energy == old(self).max_entropy_energy,
            final(self).moves == old(self).moves,
            final(self).rejected_moves == old(self).rejected_moves,
            final(self).same_but_counters(
                &(EnergyMC { max_s: final(self).max_s, max_entropy_energy: final(self).max_entropy_energy, ..*old(self) }),
            ),
    {
        if exceeds_max {
            let i = self.energy_to_index(e);
            self.max_s = self.lnw[i];
            self.max_entropy_energy = e;
        }
    }
}

} // verus!
