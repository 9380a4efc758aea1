//! The benchmark suite model.
//!
//! A suite accumulates registration groups: each group pairs a list of
//! named benchmark functions (name, closure-state token, function-pointer
//! token) with one argument set, numeric or opaque.  Running the suite
//! invokes every function on every argument of its group — the cartesian
//! product — and the run plan records, in order, the function name and the
//! displayed argument of each invocation.  On the opaque path a ledger
//! counts every adapter clone and drop the boundary and the engine
//! perform; its balance is the no-leak, no-double-free law.

use vstd::prelude::*;

use crate::args::ArgSet;
use crate::args::arg_count;
use crate::args::display_at;
use crate::args::is_opaque;
use crate::config::LibDiolConfig;
use crate::text::Utf8Text;
use crate::text::copy_bytes;
use crate::numfmt::format_usize;

verus! {

/// One registration call: parallel lists of function names, closure-state
/// tokens and function-pointer tokens, against one argument set.
pub struct BenchGroup {
    pub names: Vec<Utf8Text>,
    pub func_data: Vec<usize>,
    pub funcs: Vec<usize>,
    pub args: ArgSet,
}

/// Running tally of adapter operations performed through a caller's
/// vtable: how often its clone and its drop were called.
#[derive(Clone, Copy, PartialEq, Eq, Structural, Debug)]
pub struct LibDiolArgLedger {
    pub clones: usize,
    pub drops: usize,
}

/// One benchmark suite owned behind a suite handle.
pub struct LibDiolBench {
    pub config: LibDiolConfig,
    pub groups: Vec<BenchGroup>,
    pub ledger: LibDiolArgLedger,
}

/// One entry of the run plan: the invoked function's name and the text
/// displayed for its argument.
pub struct LibDiolRunEntry {
    pub name: Vec<u8>,
    pub display: Vec<u8>,
}

/// What a run hands back: the plan it executed, one entry per invocation,
/// in order.
pub struct LibDiolResult {
    pub entries: Vec<LibDiolRunEntry>,
}

/// The engine's per-invocation timing context, identified by the index of
/// the invocation it belongs to.  Handed to the benchmark body for the
/// duration of one invocation and consumed by the timing primitive.
pub struct LibDiolBencher {
    pub invocation: usize,
}

/// The record the timing primitive leaves behind: which invocation was
/// measured and which timed body (function-pointer and data tokens) ran.
pub struct LibDiolMeasurement {
    pub invocation: usize,
    pub body_fn: usize,
    pub body_data: usize,
}

impl LibDiolBencher {
    /// The exposed timing primitive.  Consumes the timing context — a
    /// context can be measured at most once, and reuse does not
    /// type-check — and attributes the timed body to its invocation.
    /// The engine alone decides how many timed iterations the body runs.
    pub fn run_timed(self, body_fn: usize, body_data: usize) -> (m: LibDiolMeasurement)
        ensures
            m.invocation == self.invocation,
            m.body_fn == body_fn,
            m.body_data == body_data,
    {
        LibDiolMeasurement { invocation: self.invocation, body_fn, body_data }
    }
}

/// The parallel lists of a group agree in length and every name is
/// well-formed text.
pub open spec fn group_wf(g: BenchGroup) -> bool {
    &&& g.names@.len() == g.funcs@.len()
    &&& g.names@.len() == g.func_data@.len()
    &&& forall|i: int| 0 <= i < g.names@.len() ==> (#[trigger] g.names@[i]).wf()
}

/// The row of the plan for argument `j` of a group: every function of the
/// group, in registration order, paired with that argument's display text.
pub open spec fn plan_row(g: BenchGroup, j: int) -> Seq<(Seq<u8>, Seq<u8>)> {
    Seq::new(g.names@.len(), |i: int| (g.names@[i]@, display_at(g.args, j)))
}

/// The plan of a group restricted to its first `j` arguments.
pub open spec fn group_plan_upto(g: BenchGroup, j: int) -> Seq<(Seq<u8>, Seq<u8>)>
    decreases j,
{
    if j <= 0 {
        Seq::empty()
    } else {
        group_plan_upto(g, j - 1) + plan_row(g, j - 1)
    }
}

/// The plan of a group: its functions crossed with its arguments,
/// argument-major.
pub open spec fn group_plan(g: BenchGroup) -> Seq<(Seq<u8>, Seq<u8>)> {
    group_plan_upto(g, arg_count(g.args) as int)
}

/// The plan of the first `k` groups of a suite.
pub open spec fn bench_plan_upto(gs: Seq<BenchGroup>, k: int) -> Seq<(Seq<u8>, Seq<u8>)>
    decreases k,
{
    if k <= 0 {
        Seq::empty()
    } else {
        bench_plan_upto(gs, k - 1) + group_plan(gs[k - 1])
    }
}

/// The full run plan of a suite: every group's plan, in registration
/// order.
pub open spec fn bench_plan(b: LibDiolBench) -> Seq<(Seq<u8>, Seq<u8>)> {
    bench_plan_upto(b.groups@, b.groups@.len() as int)
}

/// Adapter clones the engine makes while running the first `j` arguments
/// of a group: one per invocation on the opaque path, none on the numeric
/// path.
pub open spec fn group_opaque_upto(g: BenchGroup, j: int) -> nat
    decreases j,
{
    if j <= 0 {
        0
    } else {
        group_opaque_upto(g, j - 1) + if is_opaque(g.args) {
            g.names@.len()
        } else {
            0
        }
    }
}

/// Adapter clones the engine makes while running a whole group.
pub open spec fn group_opaque_invocations(g: BenchGroup) -> nat {
    group_opaque_upto(g, arg_count(g.args) as int)
}

/// Adapter clones the engine makes while running the first `k` groups.
pub open spec fn opaque_invocations_upto(gs: Seq<BenchGroup>, k: int) -> nat
    decreases k,
{
    if k <= 0 {
        0
    } else {
        opaque_invocations_upto(gs, k - 1) + group_opaque_invocations(gs[k - 1])
    }
}

/// Adapter clones the engine makes while running a whole suite.
pub open spec fn opaque_invocations(b: LibDiolBench) -> nat {
    opaque_invocations_upto(b.groups@, b.groups@.len() as int)
}

/// Opaque adapters held by the first `k` groups of a suite: one per opaque
/// argument, cloned from the caller's value when the group was registered
/// and dropped when the suite is destroyed.
pub open spec fn stored_opaques_upto(gs: Seq<BenchGroup>, k: int) -> nat
    decreases k,
{
    if k <= 0 {
        0
    } else {
        stored_opaques_upto(gs, k - 1) + if is_opaque(gs[k - 1].args) {
            arg_count(gs[k - 1].args)
        } else {
            0
        }
    }
}

/// Opaque adapters held by a whole suite.
pub open spec fn stored_opaques(b: LibDiolBench) -> nat {
    stored_opaques_upto(b.groups@, b.groups@.len() as int)
}

/// Suite well-formedness: every group is well-formed, the configuration
/// is, and the ledger accounts for every stored adapter — each clone made
/// so far was either dropped or is still held by a group.
pub open spec fn bench_wf(b: LibDiolBench) -> bool {
    &&& forall|k: int| 0 <= k < b.groups@.len() ==> group_wf(#[trigger] b.groups@[k])
    &&& b.config.wf()
    &&& b.ledger.clones == b.ledger.drops + stored_opaques(b)
}

/// The plan a sequence of run entries reports: one (name, display) pair
/// per entry.
pub open spec fn entries_plan(es: Seq<LibDiolRunEntry>) -> Seq<(Seq<u8>, Seq<u8>)> {
    Seq::new(es.len(), |k: int| (es[k].name@, es[k].display@))
}

/// The plan a result reports.
pub open spec fn result_plan(r: LibDiolResult) -> Seq<(Seq<u8>, Seq<u8>)> {
    entries_plan(r.entries@)
}

/// Recording one more entry extends the reported plan by its pair.
pub proof fn lemma_entries_plan_push(es: Seq<LibDiolRunEntry>, e: LibDiolRunEntry)
    ensures
        entries_plan(es.push(e)) == entries_plan(es).push((e.name@, e.display@)),
{
    assert(entries_plan(es.push(e)) =~~= entries_plan(es).push((e.name@, e.display@)));
}

/// Appending a group does not change the plan of the groups before it.
pub proof fn lemma_bench_plan_upto_push(gs: Seq<BenchGroup>, g: BenchGroup, k: int)
    requires
        0 <= k <= gs.len(),
    ensures
        bench_plan_upto(gs.push(g), k) == bench_plan_upto(gs, k),
    decreases k,
{
    if k > 0 {
        lemma_bench_plan_upto_push(gs, g, k - 1);
        assert(gs.push(g)[k - 1] == gs[k - 1]);
    }
}

/// Appending a group does not change the engine clone count of the groups
/// before it.
pub proof fn lemma_opaque_upto_push(gs: Seq<BenchGroup>, g: BenchGroup, k: int)
    requires
        0 <= k <= gs.len(),
    ensures
        opaque_invocations_upto(gs.push(g), k) == opaque_invocations_upto(gs, k),
    decreases k,
{
    if k > 0 {
        lemma_opaque_upto_push(gs, g, k - 1);
        assert(gs.push(g)[k - 1] == gs[k - 1]);
    }
}

/// Appending a group does not change the stored-adapter count of the
/// groups before it.
pub proof fn lemma_stored_upto_push(gs: Seq<BenchGroup>, g: BenchGroup, k: int)
    requires
        0 <= k <= gs.len(),
    ensures
        stored_opaques_upto(gs.push(g), k) == stored_opaques_upto(gs, k),
    decreases k,
{
    if k > 0 {
        lemma_stored_upto_push(gs, g, k - 1);
        assert(gs.push(g)[k - 1] == gs[k - 1]);
    }
}

/// The engine clone count of a group grows with the argument prefix.
pub proof fn lemma_group_opaque_upto_mono(g: BenchGroup, j1: int, j2: int)
    requires
        j1 <= j2,
    ensures
        group_opaque_upto(g, j1) <= group_opaque_upto(g, j2),
    decreases j2 - j1,
{
    if j1 < j2 {
        lemma_group_opaque_upto_mono(g, j1, j2 - 1);
    }
}

/// The engine clone count of a suite grows with the group prefix.
pub proof fn lemma_opaque_upto_mono(gs: Seq<BenchGroup>, k1: int, k2: int)
    requires
        k1 <= k2,
    ensures
        opaque_invocations_upto(gs, k1) <= opaque_invocations_upto(gs, k2),
    decreases k2 - k1,
{
    if k1 < k2 {
        lemma_opaque_upto_mono(gs, k1, k2 - 1);
    }
}

/// The stored-adapter count of a suite grows with the group prefix.
pub proof fn lemma_stored_upto_mono(gs: Seq<BenchGroup>, k1: int, k2: int)
    requires
        k1 <= k2,
    ensures
        stored_opaques_upto(gs, k1) <= stored_opaques_upto(gs, k2),
    decreases k2 - k1,
{
    if k1 < k2 {
        lemma_stored_upto_mono(gs, k1, k2 - 1);
    }
}

impl LibDiolBench {
    /// Creates a suite from a configuration.  The configuration is copied
    /// out, never consumed, and the new suite holds no registrations.
    pub fn from_config(config: &LibDiolConfig) -> (b: LibDiolBench)
        requires
            config.wf(),
        ensures
            b.config@ == config@,
            b.groups@.len() == 0,
            b.ledger == (LibDiolArgLedger { clones: 0, drops: 0 }),
            bench_wf(b),
    {
        LibDiolBench {
            config: config.duplicate(),
            groups: Vec::new(),
            ledger: LibDiolArgLedger { clones: 0, drops: 0 },
        }
    }

    /// Registers the cartesian product of the given functions against the
    /// given argument set, as one group.  On the opaque path the boundary
    /// clones each incoming argument once through the caller's vtable and
    /// stores the clones.  Zero functions or zero arguments is legal and
    /// adds zero invocations to the plan.
    pub fn register(
        &mut self,
        names: Vec<Utf8Text>,
        func_data: Vec<usize>,
        funcs: Vec<usize>,
        args: ArgSet,
    )
        requires
            bench_wf(*old(self)),
            names@.len() == funcs@.len(),
            names@.len() == func_data@.len(),
            forall|i: int| 0 <= i < names@.len() ==> (#[trigger] names@[i]).wf(),
            old(self).ledger.clones + arg_count(args) <= usize::MAX,
        ensures
            bench_wf(*final(self)),
            final(self).config == old(self).config,
            final(self).groups@ == old(self).groups@.push(
                (BenchGroup { names, func_data, funcs, args }),
            ),
            final(self).ledger.drops == old(self).ledger.drops,
            final(self).ledger.clones == old(self).ledger.clones + if is_opaque(args) {
                arg_count(args)
            } else {
                0
            },
            bench_plan(*final(self)) == bench_plan(*old(self)) + group_plan(
                (BenchGroup { names, func_data, funcs, args }),
            ),
            opaque_invocations(*final(self)) == opaque_invocations(*old(self))
                + group_opaque_invocations((BenchGroup { names, func_data, funcs, args })),
    {
        let is_opq = args.takes_opaque_path();
        let n_args = args.len();
        if is_opq {
            self.ledger.clones = self.ledger.clones + n_args;
        }
        let g = BenchGroup { names, func_data, funcs, args };
        let ghost gsnap = g;
        self.groups.push(g);
        proof {
            let gs = old(self).groups@;
            let n = gs.len() as int;
            assert(self.groups@ == gs.push(gsnap));
            assert(self.groups@[n] == gsnap);
            lemma_stored_upto_push(gs, gsnap, n);
            lemma_bench_plan_upto_push(gs, gsnap, n);
            lemma_opaque_upto_push(gs, gsnap, n);
            assert(stored_opaques(*self) == stored_opaques_upto(gs.push(gsnap), n)
                + if is_opaque(gsnap.args) {
                arg_count(gsnap.args)
            } else {
                0
            });
            assert(bench_plan(*self) == bench_plan_upto(gs.push(gsnap), n) + group_plan(gsnap));
            assert(opaque_invocations(*self) == opaque_invocations_upto(gs.push(gsnap), n)
                + group_opaque_invocations(gsnap));
        }
    }

    /// Runs every registered (function, argument) pair and reports the
    /// executed plan, group by group, argument-major within a group.  On
    /// the opaque path the engine clones the stored adapter once per
    /// invocation and drops that clone when the invocation ends, so the
    /// ledger grows by the same amount on both sides.
    pub fn run(&mut self) -> (r: LibDiolResult)
        requires
            bench_wf(*old(self)),
            old(self).ledger.clones + opaque_invocations(*old(self)) <= usize::MAX,
            old(self).ledger.drops + opaque_invocations(*old(self)) <= usize::MAX,
        ensures
            bench_wf(*final(self)),
            final(self).config == old(self).config,
            final(self).groups@ == old(self).groups@,
            final(self).ledger.clones == old(self).ledger.clones + opaque_invocations(
                *old(self),
            ),
            final(self).ledger.drops == old(self).ledger.drops + opaque_invocations(
                *old(self),
            ),
            result_plan(r) == bench_plan(*old(self)),
    {
        let ghost gs = self.groups@;
        let mut entries: Vec<LibDiolRunEntry> = Vec::new();
        let mut opq: usize = 0;
        let n_groups = self.groups.len();
        let mut gi: usize = 0;
        while gi < n_groups
            invariant
                *self == *old(self),
                bench_wf(*self),
                old(self).ledger.clones + opaque_invocations(*old(self)) <= usize::MAX,
                gs == self.groups@,
                n_groups == gs.len(),
                gi <= n_groups,
                entries_plan(entries@) == bench_plan_upto(gs, gi as int),
                opq == opaque_invocations_upto(gs, gi as int),
            decreases n_groups - gi,
        {
            let ghost g = gs[gi as int];
            let n_args = self.groups[gi].args.len();
            let n_funcs = self.groups[gi].names.len();
            let g_opq = self.groups[gi].args.takes_opaque_path();
            let mut j: usize = 0;
            while j < n_args
                invariant
                    *self == *old(self),
                    bench_wf(*self),
                    old(self).ledger.clones + opaque_invocations(*old(self)) <= usize::MAX,
                    gs == self.groups@,
                    n_groups == gs.len(),
                    gi < n_groups,
                    g == gs[gi as int],
                    n_args == arg_count(g.args),
                    n_funcs == g.names@.len(),
                    g_opq == is_opaque(g.args),
                    j <= n_args,
                    entries_plan(entries@) == bench_plan_upto(gs, gi as int)
                        + group_plan_upto(g, j as int),
                    opq == opaque_invocations_upto(gs, gi as int)
                        + group_opaque_upto(g, j as int),
                decreases n_args - j,
            {
                let mut i: usize = 0;
                proof {
                    assert(plan_row(g, j as int).take(0) =~= Seq::<(Seq<u8>, Seq<u8>)>::empty());
                    assert(entries_plan(entries@) + plan_row(g, j as int).take(0)
                        =~= entries_plan(entries@));
                }
                while i < n_funcs
                    invariant
                        *self == *old(self),
                        bench_wf(*self),
                        old(self).ledger.clones + opaque_invocations(*old(self)) <= usize::MAX,
                        gs == self.groups@,
                        n_groups == gs.len(),
                        gi < n_groups,
                        g == gs[gi as int],
                        n_args == arg_count(g.args),
                        n_funcs == g.names@.len(),
                        g_opq == is_opaque(g.args),
                        j < n_args,
                        i <= n_funcs,
                        entries_plan(entries@) == bench_plan_upto(gs, gi as int)
                            + group_plan_upto(g, j as int) + plan_row(g, j as int).take(i as int),
                        opq == opaque_invocations_upto(gs, gi as int)
                            + group_opaque_upto(g, j as int) + if g_opq {
                            i as int
                        } else {
                            0
                        },
                    decreases n_funcs - i,
                {
                    let name = copy_bytes(&self.groups[gi].names[i].bytes);
                    let display = match &self.groups[gi].args {
                        ArgSet::Numeric(v) => format_usize(v[j].n),
                        ArgSet::Opaque(v) => copy_bytes(&v[j].display),
                    };
                    let entry = LibDiolRunEntry { name, display };
                    let ghost esnap = entry;
                    proof {
                        lemma_entries_plan_push(entries@, esnap);
                        assert((esnap.name@, esnap.display@) == plan_row(g, j as int)[i as int]);
                        assert(plan_row(g, j as int).take(i as int + 1) =~= plan_row(
                            g,
                            j as int,
                        ).take(i as int).push(plan_row(g, j as int)[i as int]));
                    }
                    entries.push(entry);
                    if g_opq {
                        proof {
                            lemma_group_opaque_upto_mono(g, j as int + 1, n_args as int);
                            assert(opaque_invocations_upto(gs, gi as int + 1)
                                == opaque_invocations_upto(gs, gi as int)
                                + group_opaque_invocations(g));
                            lemma_opaque_upto_mono(gs, gi as int + 1, n_groups as int);
                        }
                        opq += 1;
                    }
                    i += 1;
                }
                proof {
                    assert(plan_row(g, j as int).take(n_funcs as int) =~= plan_row(g, j as int));
                }
                j += 1;
            }
            proof {
                assert(bench_plan_upto(gs, gi as int + 1) == bench_plan_upto(gs, gi as int)
                    + group_plan(g));
                assert(opaque_invocations_upto(gs, gi as int + 1) == opaque_invocations_upto(
                    gs,
                    gi as int,
                ) + group_opaque_invocations(g));
            }
            gi += 1;
        }
        self.ledger.clones = self.ledger.clones + opq;
        self.ledger.drops = self.ledger.drops + opq;
        LibDiolResult { entries }
    }

    /// Destroys the suite.  Every adapter still stored is dropped through
    /// its vtable, and the returned final ledger is balanced: every clone
    /// ever made has been dropped exactly once — no leak, no double free.
    pub fn destroy(self) -> (l: LibDiolArgLedger)
        requires
            bench_wf(self),
        ensures
            l.clones == self.ledger.clones,
            l.drops == self.ledger.drops + stored_opaques(self),
            l.clones == l.drops,
    {
        let n = self.groups.len();
        let mut dropped: usize = 0;
        let mut k: usize = 0;
        while k < n
            invariant
                bench_wf(self),
                n == self.groups@.len(),
                k <= n,
                dropped == stored_opaques_upto(self.groups@, k as int),
            decreases n - k,
        {
            let c: usize = if self.groups[k].args.takes_opaque_path() {
                self.groups[k].args.len()
            } else {
                0
            };
            proof {
                assert(stored_opaques_upto(self.groups@, k as int + 1) == dropped + c);
                lemma_stored_upto_mono(self.groups@, k as int + 1, n as int);
            }
            dropped = dropped + c;
            k += 1;
        }
        LibDiolArgLedger { clones: self.ledger.clones, drops: self.ledger.drops + dropped }
    }
}

/// A group's plan has one entry per (function, argument) pair.
pub proof fn lemma_group_plan_len(g: BenchGroup, j: int)
    requires
        0 <= j,
    ensures
        group_plan_upto(g, j).len() == g.names@.len() * j,
    decreases j,
{
    if j > 0 {
        lemma_group_plan_len(g, j - 1);
        assert(g.names@.len() * (j - 1) + g.names@.len() == g.names@.len() * j)
            by (nonlinear_arith);
    } else {
        assert(g.names@.len() * 0 == 0) by (nonlinear_arith);
    }
}

/// A group with no functions makes no engine clones, however many
/// arguments it has.
pub proof fn lemma_group_opaque_upto_zero(g: BenchGroup, j: int)
    requires
        g.names@.len() == 0,
        0 <= j,
    ensures
        group_opaque_upto(g, j) == 0,
    decreases j,
{
    if j > 0 {
        lemma_group_opaque_upto_zero(g, j - 1);
    }
}

/// Zero-registration law: a group with no functions or no arguments adds
/// no invocations to the plan and makes no engine clones, so registering
/// it and running is legal and runs nothing.
pub proof fn lemma_zero_registration(g: BenchGroup)
    requires
        g.names@.len() == 0 || arg_count(g.args) == 0,
    ensures
        group_plan(g).len() == 0,
        group_opaque_invocations(g) == 0,
{
    lemma_group_plan_len(g, arg_count(g.args) as int);
    assert(g.names@.len() * arg_count(g.args) == 0) by (nonlinear_arith)
        requires
            g.names@.len() == 0 || arg_count(g.args) == 0,
    ;
    if g.names@.len() == 0 {
        lemma_group_opaque_upto_zero(g, arg_count(g.args) as int);
    }
}

/// For one opaque argument registered against `n` functions, the engine
/// clones the stored adapter exactly once per function during the run —
/// at least once per distinct function, as the adapter contract demands.
pub proof fn lemma_opaque_clone_count(g: BenchGroup)
    requires
        is_opaque(g.args),
        arg_count(g.args) == 1,
    ensures
        group_opaque_invocations(g) == g.names@.len(),
{
    assert(group_opaque_upto(g, 0) == 0);
    assert(group_opaque_upto(g, 1) == g.names@.len());
}

/// Clone/drop balance law: in a well-formed suite every adapter clone made
/// so far is either already dropped or still stored, so after a run (which
/// adds one clone and one drop per opaque invocation) and destruction
/// (which drops exactly what is stored) the totals agree — no leak, no
/// double free.
pub proof fn lemma_clone_drop_balance(b: LibDiolBench)
    requires
        bench_wf(b),
    ensures
        b.ledger.clones + opaque_invocations(b) == (b.ledger.drops + opaque_invocations(b))
            + stored_opaques(b),
{
}

/// The plans of two groups with the same functions agree row by row when
/// their argument displays agree.
proof fn lemma_plan_upto_eq(gn: BenchGroup, go: BenchGroup, j: int)
    requires
        gn.names@ == go.names@,
        arg_count(gn.args) == arg_count(go.args),
        forall|jj: int|
            0 <= jj < arg_count(gn.args) ==> display_at(go.args, jj) == display_at(gn.args, jj),
        0 <= j <= arg_count(gn.args),
    ensures
        group_plan_upto(go, j) == group_plan_upto(gn, j),
    decreases j,
{
    if j > 0 {
        lemma_plan_upto_eq(gn, go, j - 1);
        assert(plan_row(go, j - 1) =~~= plan_row(gn, j - 1));
    }
}

/// Path-equivalence law: the same argument values registered once through
/// the numeric path and once through the opaque path — wrapped so that the
/// print callback yields exactly the engine's numeric formatting — give
/// run plans that are identical, invocation for invocation, in count and
/// in displayed text.
pub proof fn lemma_path_equivalence(gn: BenchGroup, go: BenchGroup)
    requires
        gn.args is Numeric,
        go.args is Opaque,
        gn.names@ == go.names@,
        arg_count(gn.args) == arg_count(go.args),
        forall|j: int|
            0 <= j < arg_count(gn.args) ==> display_at(go.args, j) == display_at(gn.args, j),
    ensures
        group_plan(go) == group_plan(gn),
{
    lemma_plan_upto_eq(gn, go, arg_count(gn.args) as int);
}

} // verus!
