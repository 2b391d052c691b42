use vstd::prelude::*;

use crate::geometry::Rect;
use crate::render::{
    child_frames_from, run_spec, shadow_final_ops_from, shape_final_ops, spec_culled, step_spec,
    Frame, SchedState,
};
use crate::shape::{Shape, ROOT_NODE_ID};
use crate::surface::CanvasOp;

verus! {

/// How many layer or transform scopes a command opens.
pub open spec fn op_opens(op: CanvasOp) -> int {
    if op is SaveLayer || op is Save {
        1
    } else {
        0
    }
}

/// How many scopes a command closes.
pub open spec fn op_closes(op: CanvasOp) -> int {
    if op is Restore {
        1
    } else {
        0
    }
}

/// The opens in a command log.
pub open spec fn count_opens(ops: Seq<CanvasOp>) -> int
    decreases ops.len(),
{
    if ops.len() == 0 {
        0
    } else {
        count_opens(ops.drop_last()) + op_opens(ops.last())
    }
}

/// The closes in a command log.
pub open spec fn count_closes(ops: Seq<CanvasOp>) -> int
    decreases ops.len(),
{
    if ops.len() == 0 {
        0
    } else {
        count_closes(ops.drop_last()) + op_closes(ops.last())
    }
}

/// Opens minus closes: the depth of scopes a log leaves open.
pub open spec fn layer_balance(ops: Seq<CanvasOp>) -> int {
    count_opens(ops) - count_closes(ops)
}

/// The frames on the stack whose layer is open and awaits its close.
pub open spec fn exit_frames(stack: Seq<Frame>) -> int
    decreases stack.len(),
{
    if stack.len() == 0 {
        0
    } else {
        exit_frames(stack.drop_last()) + (if stack.last().visited {
            1int
        } else {
            0int
        })
    }
}

/// Every visited frame's node is still in the tree; the scheduler only
/// pushes visited frames for nodes it has looked up, and the tree is
/// read-only during a pass.
pub open spec fn visited_frames_resolvable(stack: Seq<Frame>, tree: Map<u128, Shape>) -> bool {
    forall|i: int|
        0 <= i < stack.len() && #[trigger] stack[i].visited ==> tree.contains_key(stack[i].id)
}

proof fn lemma_count_opens_concat(a: Seq<CanvasOp>, b: Seq<CanvasOp>)
    ensures
        count_opens(a + b) == count_opens(a) + count_opens(b),
        count_closes(a + b) == count_closes(a) + count_closes(b),
    decreases b.len(),
{
    if b.len() == 0 {
        assert(a + b =~= a);
    } else {
        lemma_count_opens_concat(a, b.drop_last());
        assert((a + b).drop_last() =~= a + b.drop_last());
        assert((a + b).last() == b.last());
    }
}

proof fn lemma_exit_frames_concat(a: Seq<Frame>, b: Seq<Frame>)
    ensures
        exit_frames(a + b) == exit_frames(a) + exit_frames(b),
    decreases b.len(),
{
    if b.len() == 0 {
        assert(a + b =~= a);
    } else {
        lemma_exit_frames_concat(a, b.drop_last());
        assert((a + b).drop_last() =~= a + b.drop_last());
    }
}

proof fn lemma_exit_frames_nonneg(stack: Seq<Frame>)
    ensures
        exit_frames(stack) >= 0,
    decreases stack.len(),
{
    if stack.len() > 0 {
        lemma_exit_frames_nonneg(stack.drop_last());
    }
}

/// Child frames are all unvisited: they hold no open layer.
proof fn lemma_child_frames_all_unvisited(children: Seq<u128>, i: int)
    ensures
        exit_frames(child_frames_from(children, i)) == 0,
        forall|k: int|
            0 <= k < child_frames_from(children, i).len() ==> !(#[trigger] child_frames_from(
                children,
                i,
            )[k]).visited,
    decreases children.len() - i,
{
    if !(i < 0 || i >= children.len()) {
        lemma_child_frames_all_unvisited(children, i + 1);
        let whole = child_frames_from(children, i);
        assert(whole.drop_last() =~= child_frames_from(children, i + 1));
    }
}

/// Shadow compositing opens and closes nothing on the final surface.
proof fn lemma_shadow_final_ops_balanced(shadows: Seq<crate::shadow::Shadow>, i: int)
    ensures
        count_opens(shadow_final_ops_from(shadows, i)) == 0,
        count_closes(shadow_final_ops_from(shadows, i)) == 0,
    decreases shadows.len() - i,
{
    if !(i < 0 || i >= shadows.len()) {
        lemma_shadow_final_ops_balanced(shadows, i + 1);
        let sub = shadow_final_ops_from(shadows, i + 1);
        if crate::render::spec_renders_as_drop_shadow(shadows[i]) {
            let blk = seq![CanvasOp::DrawShadowSurface];
            lemma_count_opens_concat(sub, blk);
            assert(blk.drop_last() =~= Seq::<CanvasOp>::empty());
            assert(count_opens(Seq::<CanvasOp>::empty()) == 0);
            assert(count_closes(Seq::<CanvasOp>::empty()) == 0);
            assert(blk.last() == CanvasOp::DrawShadowSurface);
            assert(count_opens(blk) == count_opens(blk.drop_last()) + op_opens(blk.last()));
            assert(count_closes(blk) == count_closes(blk.drop_last()) + op_closes(blk.last()));
        } else {
            lemma_count_opens_concat(sub, Seq::<CanvasOp>::empty());
            assert(shadow_final_ops_from(shadows, i) == sub + Seq::<CanvasOp>::empty());
        }
    }
}

proof fn lemma_count_push(ops: Seq<CanvasOp>, op: CanvasOp)
    ensures
        count_opens(ops.push(op)) == count_opens(ops) + op_opens(op),
        count_closes(ops.push(op)) == count_closes(ops) + op_closes(op),
{
    assert(ops.push(op).drop_last() =~= ops);
    assert(ops.push(op).last() == op);
}

proof fn lemma_count_singleton(op: CanvasOp)
    ensures
        count_opens(seq![op]) == op_opens(op),
        count_closes(seq![op]) == op_closes(op),
{
    assert(seq![op].drop_last() =~= Seq::<CanvasOp>::empty());
    assert(seq![op].last() == op);
    assert(count_opens(Seq::<CanvasOp>::empty()) == 0);
    assert(count_closes(Seq::<CanvasOp>::empty()) == 0);
    assert(count_opens(seq![op]) == count_opens(seq![op].drop_last()) + op_opens(seq![op].last()));
    assert(count_closes(seq![op]) == count_closes(seq![op].drop_last()) + op_closes(
        seq![op].last(),
    ));
}

proof fn lemma_exit_push(stack: Seq<Frame>, fr: Frame)
    ensures
        exit_frames(stack.push(fr)) == exit_frames(stack) + (if fr.visited {
            1int
        } else {
            0int
        }),
{
    assert(stack.push(fr).drop_last() =~= stack);
    assert(stack.push(fr).last() == fr);
}

/// One step keeps the books: the scopes the final surface leaves open,
/// beyond what was open at the start, are exactly the visited frames on
/// the stack; and visited frames stay resolvable.
proof fn lemma_step_preserves_layer_balance(
    s: SchedState,
    tree: Map<u128, Shape>,
    area: Rect,
    scale_micro: u64,
)
    requires
        visited_frames_resolvable(s.stack, tree),
    ensures
        visited_frames_resolvable(step_spec(s, tree, area, scale_micro).stack, tree),
        layer_balance(step_spec(s, tree, area, scale_micro).final_ops) - exit_frames(
            step_spec(s, tree, area, scale_micro).stack,
        ) == layer_balance(s.final_ops) - exit_frames(s.stack),
{
    if s.stack.len() == 0 {
    } else {
        let fr = s.stack.last();
        let rest = s.stack.drop_last();
        assert(s.stack[s.stack.len() - 1] == fr);
        assert(forall|i: int| 0 <= i < rest.len() ==> rest[i] == s.stack[i]);
        if !tree.contains_key(fr.id) {
            assert(!fr.visited);
        } else {
            let shape = tree[fr.id];
            if fr.visited {
                lemma_count_push(s.final_ops, CanvasOp::Restore);
            } else if fr.id != ROOT_NODE_ID && spec_culled(shape, area) {
            } else {
                let entered = rest.push(Frame { id: fr.id, visited: true });
                let kids = if shape.recursive {
                    child_frames_from(shape.children@, 0)
                } else {
                    Seq::<Frame>::empty()
                };
                lemma_child_frames_all_unvisited(shape.children@, 0);
                lemma_exit_frames_concat(entered, kids);
                assert(entered.drop_last() =~= rest);
                let newstack = entered + kids;
                assert forall|idx: int|
                    0 <= idx < newstack.len() && #[trigger] newstack[idx].visited implies
                    tree.contains_key(newstack[idx].id) by {
                    if idx < rest.len() {
                        assert(newstack[idx] == s.stack[idx]);
                    } else if idx == rest.len() {
                        assert(newstack[idx] == Frame { id: fr.id, visited: true });
                    } else {
                        assert(newstack[idx] == kids[idx - entered.len()]);
                    }
                }
                lemma_exit_push(rest, Frame { id: fr.id, visited: true });
                let layer = CanvasOp::SaveLayer { paint: shape.spec_layer_paint(scale_micro) };
                let opened = s.final_ops.push(layer);
                lemma_count_push(s.final_ops, layer);
                if fr.id == ROOT_NODE_ID {
                    lemma_count_push(opened, CanvasOp::DrawDrawingSurface);
                } else {
                    lemma_shadow_final_ops_balanced(shape.shadows@, 0);
                    lemma_count_opens_concat(opened, shape_final_ops(shape));
                    lemma_count_opens_concat(
                        shadow_final_ops_from(shape.shadows@, 0),
                        seq![CanvasOp::DrawDrawingSurface],
                    );
                    lemma_count_singleton(CanvasOp::DrawDrawingSurface);
                }
            }
        }
    }
}

/// `n` steps keep the books too.
proof fn lemma_run_preserves_layer_balance(
    s: SchedState,
    tree: Map<u128, Shape>,
    area: Rect,
    scale_micro: u64,
    n: nat,
)
    requires
        visited_frames_resolvable(s.stack, tree),
    ensures
        visited_frames_resolvable(run_spec(s, tree, area, scale_micro, n).stack, tree),
        layer_balance(run_spec(s, tree, area, scale_micro, n).final_ops) - exit_frames(
            run_spec(s, tree, area, scale_micro, n).stack,
        ) == layer_balance(s.final_ops) - exit_frames(s.stack),
    decreases n,
{
    if n > 0 {
        lemma_run_preserves_layer_balance(s, tree, area, scale_micro, (n - 1) as nat);
        lemma_step_preserves_layer_balance(
            run_spec(s, tree, area, scale_micro, (n - 1) as nat),
            tree,
            area,
            scale_micro,
        );
    }
}

/// Layer balance. A traversal that starts with no layer held open (as
/// `start_rendering` seeds it: one unvisited root frame) and drains its
/// stack opens exactly as many layers on the final surface as it closes;
/// and the opens never lag the closes at any intermediate point, so the
/// open-close pairs nest as a stack discipline.
pub proof fn lemma_layer_balance(
    s: SchedState,
    tree: Map<u128, Shape>,
    area: Rect,
    scale_micro: u64,
    n: nat,
)
    requires
        exit_frames(s.stack) == 0,
        visited_frames_resolvable(s.stack, tree),
        run_spec(s, tree, area, scale_micro, n).stack.len() == 0,
    ensures
        layer_balance(run_spec(s, tree, area, scale_micro, n).final_ops) == layer_balance(
            s.final_ops,
        ),
        forall|m: nat|
            m <= n ==> layer_balance(
                #[trigger] run_spec(s, tree, area, scale_micro, m).final_ops,
            ) >= layer_balance(s.final_ops),
{
    lemma_run_preserves_layer_balance(s, tree, area, scale_micro, n);
    assert forall|m: nat|
        m <= n implies layer_balance(
        #[trigger] run_spec(s, tree, area, scale_micro, m).final_ops,
    ) >= layer_balance(s.final_ops) by {
        lemma_run_preserves_layer_balance(s, tree, area, scale_micro, m);
        lemma_exit_frames_nonneg(run_spec(s, tree, area, scale_micro, m).stack);
    }
}

/// Resumability, first half: scheduler steps compose. Running `k` steps
/// and then `j` more reaches exactly the state of one uninterrupted run
/// of `k + j` steps, so splitting a traversal into budgeted resumptions
/// changes no side effect.
pub proof fn lemma_run_spec_compose(
    s: SchedState,
    tree: Map<u128, Shape>,
    area: Rect,
    scale_micro: u64,
    k: nat,
    j: nat,
)
    ensures
        run_spec(run_spec(s, tree, area, scale_micro, k), tree, area, scale_micro, j) == run_spec(
            s,
            tree,
            area,
            scale_micro,
            (k + j) as nat,
        ),
    decreases j,
{
    if j > 0 {
        lemma_run_spec_compose(s, tree, area, scale_micro, k, (j - 1) as nat);
    }
}

/// Resumability, second half: a drained traversal is a fixed point;
/// further steps change nothing.
pub proof fn lemma_completed_traversal_stable(
    s: SchedState,
    tree: Map<u128, Shape>,
    area: Rect,
    scale_micro: u64,
    n: nat,
)
    requires
        s.stack.len() == 0,
    ensures
        run_spec(s, tree, area, scale_micro, n) == s,
    decreases n,
{
    if n > 0 {
        lemma_completed_traversal_stable(s, tree, area, scale_micro, (n - 1) as nat);
    }
}

/// Resumability: any two runs from the same state that both drain the
/// stack — however many budgeted resumptions each was split into — end in
/// the same state, with the same command logs on every surface.
pub proof fn lemma_resumption_equivalent(
    s: SchedState,
    tree: Map<u128, Shape>,
    area: Rect,
    scale_micro: u64,
    k1: nat,
    k2: nat,
)
    requires
        run_spec(s, tree, area, scale_micro, k1).stack.len() == 0,
        run_spec(s, tree, area, scale_micro, k2).stack.len() == 0,
    ensures
        run_spec(s, tree, area, scale_micro, k1) == run_spec(s, tree, area, scale_micro, k2),
{
    if k1 <= k2 {
        lemma_run_spec_compose(s, tree, area, scale_micro, k1, (k2 - k1) as nat);
        lemma_completed_traversal_stable(
            run_spec(s, tree, area, scale_micro, k1),
            tree,
            area,
            scale_micro,
            (k2 - k1) as nat,
        );
    } else {
        lemma_run_spec_compose(s, tree, area, scale_micro, k2, (k1 - k2) as nat);
        lemma_completed_traversal_stable(
            run_spec(s, tree, area, scale_micro, k2),
            tree,
            area,
            scale_micro,
            (k1 - k2) as nat,
        );
    }
}

/// Culling: processing an unvisited, non-root frame whose node misses
/// the camera area or is hidden leaves every surface's command log
/// untouched except for one diagnostic mark — zero fill, stroke or
/// shadow draws — and enqueues none of its children, whatever its
/// subtree holds.
pub proof fn lemma_culled_node_renders_nothing(
    s: SchedState,
    tree: Map<u128, Shape>,
    area: Rect,
    scale_micro: u64,
)
    requires
        s.stack.len() > 0,
        !s.stack.last().visited,
        s.stack.last().id != ROOT_NODE_ID,
        tree.contains_key(s.stack.last().id),
        spec_culled(tree[s.stack.last().id], area),
    ensures
        step_spec(s, tree, area, scale_micro) == (SchedState {
            stack: s.stack.drop_last(),
            debug_ops: s.debug_ops.push(
                CanvasOp::Mark { id: s.stack.last().id, visible: false },
            ),
            ..s
        }),
{
}

} // verus!
