use alloy_gc::keep_alive::{BasicBlock, Body, LocalDecl, LocalTy, Terminator};
use alloy_gc::remove_drops::RemoveNoFinalizeDrops;

fn body() -> Body {
    Body {
        blocks: vec![
            BasicBlock { statements: vec![1], terminator: Terminator::Drop { needs_drop: false, target: 1 }, is_cleanup: false },
            BasicBlock { statements: vec![], terminator: Terminator::Drop { needs_drop: true, target: 2 }, is_cleanup: false },
            BasicBlock { statements: vec![2, 3], terminator: Terminator::Return, is_cleanup: true },
        ],
        locals: vec![LocalDecl { is_user_variable: false, ty: LocalTy::Unit }],
    }
}

fn terminators(body: &Body) -> Vec<Terminator> {
    body.blocks.iter().map(|b| b.terminator).collect()
}

#[test]
fn needless_drops_become_jumps_in_finalizer_glue() {
    let mut b = body();
    RemoveNoFinalizeDrops.run_pass(&mut b, true);
    assert_eq!(
        terminators(&b),
        vec![
            Terminator::Goto { target: 1 },
            Terminator::Drop { needs_drop: true, target: 2 },
            Terminator::Return,
        ]
    );
    assert_eq!(b.blocks[0].statements, vec![1]);
    assert!(b.blocks[2].is_cleanup);
    assert_eq!(b.locals.len(), 1);
}

#[test]
fn other_bodies_are_left_alone() {
    let mut b = body();
    RemoveNoFinalizeDrops.run_pass(&mut b, false);
    assert_eq!(terminators(&b), terminators(&body()));
}
