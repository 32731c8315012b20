//! Keeps collected values alive until a function returns.
//!
//! A conservative collector may finalize an object as soon as no register or
//! stack slot refers to it, which can be earlier than the end of the scope of
//! the variable that owns it. The pass below therefore rewrites every return
//! of a function body: before returning, the body passes each user variable
//! of a finalizable `Gc` type to an opaque call, which the optimizer cannot
//! see through, so those values stay reachable up to the return.
//!
//! A body is modelled as its locals and its basic blocks; a basic block keeps
//! its statements as opaque identifiers.

use vstd::prelude::*;

verus! {

/// The type of a local, as far as the pass reads it.
#[derive(Clone, Copy, Debug, PartialEq, Eq, Structural)]
pub enum LocalTy {
    /// The collected pointer type; `no_finalize` holds when its referent
    /// needs no finalizer.
    Gc { no_finalize: bool },
    /// Any other struct, enum or union.
    OtherAdt,
    /// The unit type `()`.
    Unit,
    /// Any other type.
    NotAdt,
}

#[derive(Clone, Copy, Debug, PartialEq, Eq, Structural)]
pub struct LocalDecl {
    /// Whether the local is a variable the user wrote, not a temporary.
    pub is_user_variable: bool,
    pub ty: LocalTy,
}

#[derive(Clone, Copy, Debug, PartialEq, Eq, Structural)]
pub enum Terminator {
    Return,
    Goto { target: usize },
    /// A call of the opaque keep-alive function on local `local`, whose
    /// unit result goes to local `temp`, continuing at block `target`.
    KeepAlive { local: usize, temp: usize, target: usize },
    /// A drop of a value, continuing at block `target`; `needs_drop` holds
    /// when the dropped value's type needs dropping at all.
    Drop { needs_drop: bool, target: usize },
    /// Any other terminator, by an opaque identifier.
    Other(u64),
}

pub struct BasicBlock {
    pub statements: Vec<u64>,
    pub terminator: Terminator,
    pub is_cleanup: bool,
}

pub struct Body {
    pub blocks: Vec<BasicBlock>,
    pub locals: Vec<LocalDecl>,
}

pub struct BlockView {
    pub statements: Seq<u64>,
    pub terminator: Terminator,
    pub is_cleanup: bool,
}

pub struct BodyView {
    pub blocks: Seq<BlockView>,
    pub locals: Seq<LocalDecl>,
}

impl View for BasicBlock {
    type V = BlockView;

    open spec fn view(&self) -> BlockView {
        BlockView {
            statements: self.statements@,
            terminator: self.terminator,
            is_cleanup: self.is_cleanup,
        }
    }
}

impl View for Body {
    type V = BodyView;

    open spec fn view(&self) -> BodyView {
        BodyView { blocks: self.blocks@.map_values(|b: BasicBlock| b@), locals: self.locals@ }
    }
}

/// Whether the local must be kept alive up to every return.
pub open spec fn needs_keep_alive(d: LocalDecl) -> bool {
    &&& d.is_user_variable
    &&& d.ty matches LocalTy::Gc { no_finalize }
    &&& !no_finalize
}

/// The indices, in increasing order, of the first `n` locals that must be
/// kept alive.
pub open spec fn keep_alive_locals(locals: Seq<LocalDecl>, n: int) -> Seq<usize>
    decreases n,
{
    if n <= 0 {
        Seq::empty()
    } else if needs_keep_alive(locals[n - 1]) {
        keep_alive_locals(locals, n - 1).push((n - 1) as usize)
    } else {
        keep_alive_locals(locals, n - 1)
    }
}

/// The number of blocks among the first `n` that end in a return.
pub open spec fn returns_before(blocks: Seq<BlockView>, n: int) -> nat
    decreases n,
{
    if n <= 0 {
        0
    } else if blocks[n - 1].terminator is Return {
        returns_before(blocks, n - 1) + 1
    } else {
        returns_before(blocks, n - 1)
    }
}

/// The unit temporary that receives the result of a keep-alive call.
pub open spec fn unit_temp() -> LocalDecl {
    LocalDecl { is_user_variable: false, ty: LocalTy::Unit }
}

/// Block number `idx` among the blocks the pass appends to a body that had
/// `num_blocks` blocks and `num_locals` locals, when `kept` are the locals to
/// keep alive. The appended blocks come in groups, one per return block in
/// order: first a copy of the return, then one keep-alive call per kept
/// local, each continuing at the block before it. The group's last block is
/// where the return block now jumps.
pub open spec fn appended_block(num_blocks: int, num_locals: int, kept: Seq<usize>, idx: int) -> BlockView {
    let w = kept.len() + 1int;
    let k = idx / w;
    let j = idx % w;
    if j == 0 {
        BlockView { statements: Seq::empty(), terminator: Terminator::Return, is_cleanup: false }
    } else {
        BlockView {
            statements: Seq::empty(),
            terminator: Terminator::KeepAlive {
                local: kept[j - 1],
                temp: (num_locals + k * kept.len() + j - 1) as usize,
                target: (num_blocks + k * w + j - 1) as usize,
            },
            is_cleanup: false,
        }
    }
}

/// The first block of the group appended for the `rank`-th return block.
pub open spec fn group_start(num_blocks: int, kept_len: int, rank: int) -> int {
    num_blocks + rank * (kept_len + 1)
}

/// Block `b` of the input body after the pass: a return block now jumps to
/// the last block of its group; any other block is unchanged.
pub open spec fn rewritten_block(blocks: Seq<BlockView>, kept_len: int, b: int) -> BlockView {
    if blocks[b].terminator is Return {
        BlockView {
            terminator: Terminator::Goto {
                target: (group_start(blocks.len() as int, kept_len, returns_before(blocks, b) as int)
                    + kept_len) as usize,
            },
            ..blocks[b]
        }
    } else {
        blocks[b]
    }
}

/// What the pass promises of the body `after`, given the body `before` and
/// whether the collected pointer type exists in the program.
pub open spec fn keep_alive_applied(before: BodyView, after: BodyView, has_gc_type: bool) -> bool {
    let kept = keep_alive_locals(before.locals, before.locals.len() as int);
    let nb = before.blocks.len() as int;
    let nl = before.locals.len() as int;
    let r = returns_before(before.blocks, nb) as int;
    let w = kept.len() + 1int;
    if !has_gc_type || kept.len() == 0 {
        after == before
    } else {
        &&& after.blocks.len() == nb + r * w
        &&& after.locals.len() == nl + r * kept.len()
        &&& forall|b: int|
            0 <= b < nb ==> #[trigger] after.blocks[b] == rewritten_block(before.blocks, kept.len() as int, b)
        &&& forall|idx: int|
            0 <= idx < r * w ==> #[trigger] after.blocks[nb + idx] == appended_block(nb, nl, kept, idx)
        &&& forall|i: int| 0 <= i < nl ==> #[trigger] after.locals[i] == before.locals[i]
        &&& forall|i: int| nl <= i < nl + r * kept.len() ==> #[trigger] after.locals[i] == unit_temp()
    }
}

/// Whether every block and local index the pass creates fits in a `usize`.
pub open spec fn keep_alive_fits(before: BodyView) -> bool {
    let kept = keep_alive_locals(before.locals, before.locals.len() as int);
    let r = returns_before(before.blocks, before.blocks.len() as int) as int;
    &&& before.blocks.len() + r * (kept.len() + 1) <= usize::MAX
    &&& before.locals.len() + r * kept.len() <= usize::MAX
}

proof fn lemma_returns_before_monotone(blocks: Seq<BlockView>, a: int, b: int)
    requires
        0 <= a <= b <= blocks.len(),
    ensures
        returns_before(blocks, a) <= returns_before(blocks, b),
    decreases b - a,
{
    if a < b {
        lemma_returns_before_monotone(blocks, a, b - 1);
    }
}

proof fn lemma_keep_alive_locals_bounded(locals: Seq<LocalDecl>, n: int)
    requires
        0 <= n <= locals.len(),
    ensures
        keep_alive_locals(locals, n).len() <= n,
        forall|j: int|
            0 <= j < keep_alive_locals(locals, n).len() ==> #[trigger] keep_alive_locals(locals, n)[j]
                < n,
    decreases n,
{
    if n > 0 {
        lemma_keep_alive_locals_bounded(locals, n - 1);
    }
}

proof fn lemma_group_index(w: int, k: int, j: int)
    requires
        w > 0,
        k >= 0,
        0 <= j < w,
    ensures
        (k * w + j) / w == k,
        (k * w + j) % w == j,
{
    vstd::arithmetic::div_mod::lemma_fundamental_div_mod_converse(k * w + j, w, k, j);
}

proof fn lemma_mul_step(k: int, w: int)
    ensures
        (k + 1) * w == k * w + w,
{
    assert((k + 1) * w == k * w + w) by (nonlinear_arith);
}

proof fn lemma_mul_le(k: int, r: int, w: int)
    requires
        0 <= k <= r,
        0 <= w,
    ensures
        k * w <= r * w,
{
    assert(k * w <= r * w) by (nonlinear_arith)
        requires
            0 <= k <= r,
            0 <= w,
    ;
}

/// Whether the local must be kept alive up to every return.
pub fn needs_black_box(local: &LocalDecl) -> (r: bool)
    ensures
        r == needs_keep_alive(*local),
{
    if !local.is_user_variable {
        return false;
    }
    match local.ty {
        LocalTy::Gc { no_finalize } => !no_finalize,
        _ => false,
    }
}

/// Whether the terminator returns from the function.
pub fn is_return(terminator: &Terminator) -> (r: bool)
    ensures
        r == (*terminator is Return),
{
    match terminator {
        Terminator::Return => true,
        _ => false,
    }
}

fn collect_keep_alive_locals(locals: &Vec<LocalDecl>) -> (kept: Vec<usize>)
    ensures
        kept@ == keep_alive_locals(locals@, locals@.len() as int),
{
    let mut kept: Vec<usize> = Vec::new();
    let mut i: usize = 0;
    while i < locals.len()
        invariant
            i <= locals@.len(),
            kept@ == keep_alive_locals(locals@, i as int),
        decreases locals@.len() - i,
    {
        if needs_black_box(&locals[i]) {
            kept.push(i);
        }
        i = i + 1;
    }
    kept
}

/// The pass that keeps collected values alive up to every return.
#[derive(Clone, Copy, Debug, PartialEq, Eq, Structural)]
pub struct PreventEarlyFinalization;

impl PreventEarlyFinalization {
    /// Rewrites every return of `body` so that, before returning, each user
    /// variable of a finalizable `Gc` type is passed to an opaque keep-alive
    /// call. Does nothing when the program has no `Gc` type or when no local
    /// needs keeping alive.
    pub fn run_pass(&self, body: &mut Body, has_gc_type: bool)
        requires
            keep_alive_fits(old(body)@),
        ensures
            keep_alive_applied(old(body)@, final(body)@, has_gc_type),
    {
        rewrite_returns(body, has_gc_type)
    }
}

fn rewrite_returns(body: &mut Body, has_gc_type: bool)
    requires
        keep_alive_fits(old(body)@),
    ensures
        keep_alive_applied(old(body)@, final(body)@, has_gc_type),
{
    if !has_gc_type {
        return;
    }
    let kept = collect_keep_alive_locals(&body.locals);
    if kept.len() == 0 {
        return;
    }
    let ghost before = body@;
    let ghost nb = before.blocks.len() as int;
    let ghost nl = before.locals.len() as int;
    let ghost r = returns_before(before.blocks, nb) as int;
    let n = kept.len();
    let num_blocks = body.blocks.len();
    let num_locals = body.locals.len();
    proof {
        lemma_keep_alive_locals_bounded(before.locals, nl);
        lemma_returns_before_monotone(before.blocks, 0, nb);
    }
    let mut appended: Vec<BasicBlock> = Vec::new();
    let mut temps: usize = 0;
    let mut i: usize = 0;
    while i < num_blocks
        invariant
            kept@ == keep_alive_locals(before.locals, nl),
            n == kept@.len(),
            n > 0,
            num_blocks as int == nb,
            num_locals as int == nl,
            nb == before.blocks.len(),
            nl == before.locals.len(),
            body.locals@ == before.locals,
            body.blocks@.len() == nb,
            keep_alive_fits(before),
            r == returns_before(before.blocks, nb),
            i <= nb,
            appended@.len() == returns_before(before.blocks, i as int) * (n + 1),
            temps == returns_before(before.blocks, i as int) * n,
            forall|idx: int|
                0 <= idx < appended@.len() ==> #[trigger] appended@[idx]@ == appended_block(
                    nb,
                    nl,
                    kept@,
                    idx,
                ),
            forall|b: int|
                0 <= b < i ==> #[trigger] body.blocks@[b]@ == rewritten_block(before.blocks, n as int, b),
            forall|b: int| i <= b < nb ==> #[trigger] body.blocks@[b]@ == before.blocks[b],
        decreases nb - i,
    {
        proof {
            assert(body.blocks@[i as int]@ == before.blocks[i as int]);
        }
        if is_return(&body.blocks[i].terminator) {
            let ghost k = returns_before(before.blocks, i as int) as int;
            proof {
                assert(returns_before(before.blocks, i + 1) == k + 1);
                lemma_returns_before_monotone(before.blocks, i + 1, nb);
                lemma_mul_le(k + 1, r, n + 1);
                lemma_mul_le(k + 1, r, n as int);
                lemma_mul_step(k, n + 1);
                lemma_mul_step(k, n as int);
            }
            let start = num_blocks + appended.len();
            proof {
                lemma_group_index(n + 1, k, 0);
            }
            appended.push(BasicBlock { statements: Vec::new(), terminator: Terminator::Return, is_cleanup: false });
            let mut j: usize = 0;
            while j < n
                invariant
                    kept@ == keep_alive_locals(before.locals, nl),
                    n == kept@.len(),
                    0 <= k,
                    num_blocks as int == nb,
                    num_locals as int == nl,
                    start == nb + k * (n + 1),
                    (k + 1) * (n + 1) <= r * (n + 1),
                    (k + 1) * (n + 1) == k * (n + 1) + n + 1,
                    (k + 1) * n == k * n + n,
                    (k + 1) * n <= r * n,
                    nb + r * (n + 1) <= usize::MAX,
                    nl + r * n <= usize::MAX,
                    j <= n,
                    appended@.len() == k * (n + 1) + j + 1,
                    temps == k * n + j,
                    forall|idx: int|
                        0 <= idx < appended@.len() ==> #[trigger] appended@[idx]@ == appended_block(
                            nb,
                            nl,
                            kept@,
                            idx,
                        ),
                decreases n - j,
            {
                proof {
                    lemma_group_index(n + 1, k, j + 1);
                }
                let local = kept[j];
                appended.push(
                    BasicBlock {
                        statements: Vec::new(),
                        terminator: Terminator::KeepAlive {
                            local,
                            temp: num_locals + temps,
                            target: start + j,
                        },
                        is_cleanup: false,
                    },
                );
                temps = temps + 1;
                j = j + 1;
            }
            let last = start + n;
            body.blocks[i].terminator = Terminator::Goto { target: last };
            proof {
                assert(body.blocks@[i as int]@ == rewritten_block(before.blocks, n as int, i as int));
            }
        }
        i = i + 1;
    }
    let ghost rewritten = body.blocks@;
    let mut t: usize = 0;
    while t < temps
        invariant
            body.blocks@ == rewritten,
            body.locals@.len() == nl + t,
            nl == before.locals.len(),
            t <= temps,
            temps == r * n,
            nl + r * n <= usize::MAX,
            forall|x: int| 0 <= x < nl ==> #[trigger] body.locals@[x] == before.locals[x],
            forall|x: int| nl <= x < nl + t ==> #[trigger] body.locals@[x] == unit_temp(),
        decreases temps - t,
    {
        body.locals.push(LocalDecl { is_user_variable: false, ty: LocalTy::Unit });
        t = t + 1;
    }
    let ghost pre = body.blocks@;
    let ghost added = appended@;
    body.blocks.append(&mut appended);
    proof {
        let after = body@;
        assert(body.blocks@ == pre + added);
        assert(after.blocks.len() == nb + r * (n + 1));
        assert forall|b: int| 0 <= b < nb implies #[trigger] after.blocks[b] == rewritten_block(
            before.blocks,
            n as int,
            b,
        ) by {
            assert(body.blocks@[b] == pre[b]);
        }
        assert forall|idx: int| 0 <= idx < r * (n + 1) implies #[trigger] after.blocks[nb + idx]
            == appended_block(nb, nl, kept@, idx) by {
            assert(body.blocks@[nb + idx] == added[idx]);
        }
    }
}

/// Whether the terminator passes `local` to the keep-alive call and continues
/// at block `target`.
pub open spec fn is_keep_alive_of(t: Terminator, local: usize, target: int) -> bool {
    t matches Terminator::KeepAlive { local: l, target: g, .. } && l == local && g == target
}

/// After the pass, a block that used to return jumps to the last block of
/// its group. Walking the group from there, each block passes one kept local
/// to the keep-alive call and continues at the block before it, the last
/// kept local first, until the first block of the group returns. So every
/// kept local stays alive up to every return of the function.
pub proof fn lemma_returns_keep_locals_alive(before: BodyView, after: BodyView, b: int)
    requires
        keep_alive_applied(before, after, true),
        keep_alive_fits(before),
        keep_alive_locals(before.locals, before.locals.len() as int).len() > 0,
        0 <= b < before.blocks.len(),
        before.blocks[b].terminator is Return,
    ensures
        ({
            let kept = keep_alive_locals(before.locals, before.locals.len() as int);
            let n = kept.len() as int;
            let s = group_start(before.blocks.len() as int, n, returns_before(before.blocks, b) as int);
            &&& after.blocks[b].terminator == Terminator::Goto { target: (s + n) as usize }
            &&& after.blocks[s].terminator is Return
            &&& forall|j: int|
                0 <= j < n ==> is_keep_alive_of(
                    (#[trigger] after.blocks[s + j + 1]).terminator,
                    kept[j],
                    s + j,
                )
        }),
{
    let kept = keep_alive_locals(before.locals, before.locals.len() as int);
    let n = kept.len() as int;
    let nb = before.blocks.len() as int;
    let nl = before.locals.len() as int;
    let k = returns_before(before.blocks, b) as int;
    let r = returns_before(before.blocks, nb) as int;
    let s = group_start(nb, n, k);
    assert(returns_before(before.blocks, b + 1) == k + 1);
    lemma_returns_before_monotone(before.blocks, b + 1, nb);
    lemma_mul_le(k + 1, r, n + 1);
    lemma_mul_step(k, n + 1);
    assert(after.blocks[b] == rewritten_block(before.blocks, n, b));
    lemma_group_index(n + 1, k, 0);
    assert(after.blocks[nb + (k * (n + 1) + 0)] == appended_block(nb, nl, kept, k * (n + 1) + 0));
    assert forall|j: int| 0 <= j < n implies is_keep_alive_of(
        (#[trigger] after.blocks[s + j + 1]).terminator,
        kept[j],
        s + j,
    ) by {
        lemma_group_index(n + 1, k, j + 1);
        assert(after.blocks[nb + (k * (n + 1) + j + 1)] == appended_block(
            nb,
            nl,
            kept,
            k * (n + 1) + j + 1,
        ));
        assert(nb + (k * (n + 1) + j + 1) == s + j + 1);
    }
}

/// After the pass, no block of the input body returns: every block that
/// returns is the first block of an appended group.
pub proof fn lemma_only_group_starts_return(before: BodyView, after: BodyView, i: int)
    requires
        keep_alive_applied(before, after, true),
        keep_alive_locals(before.locals, before.locals.len() as int).len() > 0,
        0 <= i < after.blocks.len(),
        after.blocks[i].terminator is Return,
    ensures
        i >= before.blocks.len(),
        (i - before.blocks.len()) % (keep_alive_locals(before.locals, before.locals.len() as int).len()
            + 1int) == 0,
{
    let kept = keep_alive_locals(before.locals, before.locals.len() as int);
    let nb = before.blocks.len() as int;
    let nl = before.locals.len() as int;
    if i < nb {
        assert(after.blocks[i] == rewritten_block(before.blocks, kept.len() as int, i));
    } else {
        assert(after.blocks[nb + (i - nb)] == appended_block(nb, nl, kept, i - nb));
    }
}

} // verus!
