use lovely_injector_nx::lua_stack::{
    api_call_base, errfunc_offset, gc_step_due, grows_after_push, hookmask_after_pcall, tag_string,
    LJ_TNIL, LJ_TSTR_TAG,
};

#[test]
fn call_base_moves_function_and_arguments_up() {
    // function, two arguments, and the free slot at the top
    let mut slots = [10u64, 11, 12, 99];
    api_call_base(&mut slots);
    assert_eq!(slots, [LJ_TNIL, 10, 11, 12]);
    let mut one = [5u64];
    api_call_base(&mut one);
    assert_eq!(one, [LJ_TNIL]);
}

#[test]
fn error_handler_offsets() {
    assert_eq!(errfunc_offset(0, 4, 9), 0);
    // positive: counted from the base, 1 is the base itself
    assert_eq!(errfunc_offset(1, 4, 9), 32);
    assert_eq!(errfunc_offset(3, 4, 9), 48);
    // negative: counted from the top
    assert_eq!(errfunc_offset(-1, 4, 9), 64);
    assert_eq!(errfunc_offset(-9, 4, 9), 0);
}

#[test]
fn hook_mask_restored_on_failure() {
    assert_eq!(hookmask_after_pcall(0xa5, 0x3c, 0), 0x3c);
    assert_eq!(hookmask_after_pcall(0xa5, 0x3c, 2), 0xac);
    assert_eq!(hookmask_after_pcall(0x0f, 0xf0, -1), 0x00);
}

#[test]
fn string_tag() {
    assert_eq!(tag_string(0x1234_5678), 0xfffd_8000_1234_5678);
    assert_eq!(tag_string(0), LJ_TSTR_TAG);
    assert_eq!(tag_string(0x7fff_ffff_ffff) >> 47, 0x1fffb);
}

#[test]
fn gc_and_growth_decisions() {
    assert!(gc_step_due(100, 100));
    assert!(gc_step_due(101, 100));
    assert!(!gc_step_due(99, 100));
    assert!(grows_after_push(9, 10));
    assert!(!grows_after_push(8, 10));
}
