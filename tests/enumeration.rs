use lldb::SBDebugger;

fn drain(debugger: &SBDebugger<u32>, answers: &[(bool, u32)]) -> Vec<Option<u32>> {
    let mut it = debugger.targets();
    answers.iter().map(|&(valid, count)| it.advance(valid, count)).collect()
}

#[test]
fn empty_debugger_yields_nothing() {
    let d = SBDebugger { raw_debugger: 1u32 };
    assert_eq!(drain(&d, &[(true, 0), (true, 0)]), vec![None, None]);
}

#[test]
fn three_targets_in_index_order() {
    let d = SBDebugger { raw_debugger: 1u32 };
    assert_eq!(
        drain(&d, &[(true, 3); 5]),
        vec![Some(0), Some(1), Some(2), None, None]
    );
}

#[test]
fn invalid_debugger_yields_nothing() {
    let d = SBDebugger { raw_debugger: 1u32 };
    assert_eq!(drain(&d, &[(false, 3), (true, 3)]), vec![None, None]);
}

#[test]
fn reentry_gives_the_same_indices() {
    let d = SBDebugger { raw_debugger: 1u32 };
    let first = drain(&d, &[(true, 2); 3]);
    let second = drain(&d, &[(true, 2); 4]);
    assert_eq!(first, vec![Some(0), Some(1), None]);
    assert_eq!(second, vec![Some(0), Some(1), None, None]);
}

#[test]
fn size_is_read_on_every_advance() {
    let d = SBDebugger { raw_debugger: 1u32 };
    assert_eq!(
        drain(&d, &[(true, 1), (true, 3), (true, 3), (true, 3)]),
        vec![Some(0), Some(1), Some(2), None]
    );
}

#[test]
fn shrinking_collection_ends_the_enumeration() {
    let d = SBDebugger { raw_debugger: 1u32 };
    assert_eq!(
        drain(&d, &[(true, 3), (true, 3), (true, 1), (true, 3)]),
        vec![Some(0), Some(1), None, None]
    );
}

#[test]
fn enumeration_borrows_its_debugger() {
    let d = SBDebugger { raw_debugger: 42u32 };
    let it = d.targets();
    assert_eq!(it.debugger().raw_debugger, 42);
}
