use lldb::{SBBreakpointLocation, SBFileSpec, SBLineEntry, SBModule};

#[test]
fn wrap_keeps_the_reference() {
    assert_eq!(SBFileSpec::wrap(7u32).raw, 7);
    assert_eq!(SBModule::wrap(8u32).raw, 8);
    assert_eq!(SBLineEntry::wrap(9u32).raw, 9);
    assert_eq!(SBBreakpointLocation::wrap(10u32).raw, 10);
}

#[test]
fn maybe_wrap_valid_handle() {
    assert_eq!(SBFileSpec::maybe_wrap(1u32, true).map(|f| f.raw), Some(1));
    assert_eq!(SBModule::maybe_wrap(2u32, true).map(|m| m.raw), Some(2));
    assert_eq!(SBLineEntry::maybe_wrap(3u32, true).map(|l| l.raw), Some(3));
    assert_eq!(SBBreakpointLocation::maybe_wrap(4u32, true).map(|b| b.raw), Some(4));
}

#[test]
fn maybe_wrap_invalid_handle() {
    assert!(SBFileSpec::maybe_wrap(1u32, false).is_none());
    assert!(SBModule::maybe_wrap(2u32, false).is_none());
    assert!(SBLineEntry::maybe_wrap(3u32, false).is_none());
    assert!(SBBreakpointLocation::maybe_wrap(4u32, false).is_none());
}
