use alloy_gc::keep_alive::{
    is_return, needs_black_box, BasicBlock, PreventEarlyFinalization, Body, LocalDecl, LocalTy, Terminator,
};

fn block(statements: Vec<u64>, terminator: Terminator) -> BasicBlock {
    BasicBlock { statements, terminator, is_cleanup: false }
}
fn user(ty: LocalTy) -> LocalDecl {
    LocalDecl { is_user_variable: true, ty }
}
fn temp(ty: LocalTy) -> LocalDecl {
    LocalDecl { is_user_variable: false, ty }
}
fn finalized_gc() -> LocalTy {
    LocalTy::Gc { no_finalize: false }
}
fn terminators(body: &Body) -> Vec<Terminator> {
    body.blocks.iter().map(|b| b.terminator).collect()
}

#[test]
fn preserve_locals() {
    // let gc = Gc::new(NeedsFinalize(123));
    let mut body = Body {
        blocks: vec![block(vec![1, 2], Terminator::Other(7)), block(vec![3], Terminator::Return)],
        locals: vec![temp(LocalTy::Unit), user(finalized_gc()), temp(LocalTy::OtherAdt)],
    };
    PreventEarlyFinalization.run_pass(&mut body, true);
    assert_eq!(
        terminators(&body),
        vec![
            Terminator::Other(7),
            Terminator::Goto { target: 3 },
            Terminator::Return,
            Terminator::KeepAlive { local: 1, temp: 3, target: 2 },
        ]
    );
    assert_eq!(body.blocks[1].statements, vec![3]);
    assert_eq!(body.blocks[0].statements, vec![1, 2]);
    assert!(body.blocks[2].statements.is_empty());
    assert_eq!(body.locals.len(), 4);
    assert_eq!(body.locals[3], temp(LocalTy::Unit));
}

#[test]
fn preserve_multiple_locals() {
    // let gc1 = Gc::new(..); let gc2 = Gc::new(..);
    let mut body = Body {
        blocks: vec![block(vec![], Terminator::Return)],
        locals: vec![temp(LocalTy::Unit), user(finalized_gc()), user(finalized_gc())],
    };
    PreventEarlyFinalization.run_pass(&mut body, true);
    assert_eq!(
        terminators(&body),
        vec![
            Terminator::Goto { target: 3 },
            Terminator::Return,
            Terminator::KeepAlive { local: 1, temp: 3, target: 1 },
            Terminator::KeepAlive { local: 2, temp: 4, target: 2 },
        ]
    );
    assert_eq!(body.locals.len(), 5);
}

#[test]
fn every_return_is_rewritten() {
    let mut body = Body {
        blocks: vec![
            block(vec![], Terminator::Return),
            block(vec![], Terminator::Other(1)),
            block(vec![9], Terminator::Return),
        ],
        locals: vec![temp(LocalTy::Unit), user(finalized_gc())],
    };
    PreventEarlyFinalization.run_pass(&mut body, true);
    assert_eq!(
        terminators(&body),
        vec![
            Terminator::Goto { target: 4 },
            Terminator::Other(1),
            Terminator::Goto { target: 6 },
            Terminator::Return,
            Terminator::KeepAlive { local: 1, temp: 2, target: 3 },
            Terminator::Return,
            Terminator::KeepAlive { local: 1, temp: 3, target: 5 },
        ]
    );
    // Only the appended group starts return.
    let returns: Vec<usize> = (0..body.blocks.len())
        .filter(|&i| is_return(&body.blocks[i].terminator))
        .collect();
    assert_eq!(returns, vec![3, 5]);
}

#[test]
fn nothing_to_keep_alive_leaves_the_body() {
    // No Gc type in the program.
    let mut body = Body {
        blocks: vec![block(vec![], Terminator::Return)],
        locals: vec![temp(LocalTy::Unit), user(finalized_gc())],
    };
    PreventEarlyFinalization.run_pass(&mut body, false);
    assert_eq!(terminators(&body), vec![Terminator::Return]);
    assert_eq!(body.locals.len(), 2);
    // Only Gc values that need no finalizer, temporaries, and other types.
    let mut body = Body {
        blocks: vec![block(vec![], Terminator::Return)],
        locals: vec![
            temp(LocalTy::Unit),
            user(LocalTy::Gc { no_finalize: true }),
            temp(finalized_gc()),
            user(LocalTy::OtherAdt),
            user(LocalTy::NotAdt),
        ],
    };
    PreventEarlyFinalization.run_pass(&mut body, true);
    assert_eq!(terminators(&body), vec![Terminator::Return]);
    assert_eq!(body.locals.len(), 5);
}

#[test]
fn which_locals_are_kept_alive() {
    assert!(needs_black_box(&user(finalized_gc())));
    assert!(!needs_black_box(&user(LocalTy::Gc { no_finalize: true })));
    assert!(!needs_black_box(&temp(finalized_gc())));
    assert!(!needs_black_box(&user(LocalTy::OtherAdt)));
    assert!(is_return(&Terminator::Return));
    assert!(!is_return(&Terminator::Goto { target: 0 }));
}
