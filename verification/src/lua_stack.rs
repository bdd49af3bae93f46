//! The parts of the game's Lua C API that the loader supplies itself on top of
//! LuaJIT's internals: how a protected call lays out its stack, how it names its error
//! handler, how it restores the hook mask, and how a pushed string is tagged.
//! Slots are LuaJIT's 8-byte tagged values; positions are counted in slots from the
//! start of the Lua stack.
use vstd::prelude::*;

verus! {

/// The tagged value `nil`.
pub const LJ_TNIL: u64 = 0xffff_ffff_ffff_ffff;

/// Tag bits of a string value.
pub const LJ_TSTR_TAG: u64 = 0xfffd_8000_0000_0000;

/// Low bits of a tagged value that hold the object's address.
pub const LJ_GCPTR_MASK: u64 = 0x7fff_ffff_ffff;

/// Type tag of a string, as it stands in the bits above the address.
pub const LJ_TSTR_ITYPE: u64 = 0x1fffb;

/// Bits of the hook mask that select hook events.
pub const HOOK_EVENTMASK: u8 = 0x0f;

/// Size in bytes of one stack slot.
pub const SLOT_SIZE: usize = 8;

/// Lays out the call base of a protected call. `slots` is the stack from the function
/// below the arguments up to and including the slot at the top: every slot but the
/// last moves one place up, and `nil` is written into the first, so that the function
/// and its arguments sit one slot higher above a `nil` frame slot.
pub fn api_call_base(slots: &mut [u64])
    requires
        old(slots)@.len() >= 1,
    ensures
        final(slots)@ == seq![LJ_TNIL] + old(slots)@.take(old(slots)@.len() - 1),
{
    let n = slots.len();
    let mut o: usize = n - 1;
    while o > 0
        invariant
            n == old(slots)@.len(),
            slots@.len() == n,
            0 <= o < n,
            forall|k: int| 0 <= k <= o ==> #[trigger] slots@[k] == old(slots)@[k],
            forall|k: int| o < k < n ==> #[trigger] slots@[k] == old(slots)@[k - 1],
        decreases o,
    {
        let below = slots[o - 1];
        slots[o] = below;
        o = o - 1;
    }
    slots[0] = LJ_TNIL;
    assert(slots@ =~= seq![LJ_TNIL] + old(slots)@.take(n - 1));
}

/// The slot that names the error handler of a protected call: 0 for none, a positive
/// index counts from the base (1 is the slot at the base), a negative one from the top.
pub open spec fn errfunc_slot(errfunc: i32, base: usize, top: usize) -> int {
    if errfunc > 0 {
        base + errfunc - 1
    } else {
        top + errfunc
    }
}

/// Byte distance from the start of the stack to the error handler's slot, or 0 when
/// the call has no error handler.
pub fn errfunc_offset(errfunc: i32, base: usize, top: usize) -> (r: isize)
    requires
        errfunc != 0 ==> 0 <= errfunc_slot(errfunc, base, top),
        errfunc != 0 ==> errfunc_slot(errfunc, base, top) * 8 <= isize::MAX,
    ensures
        r == (if errfunc == 0 { 0 } else { errfunc_slot(errfunc, base, top) * 8 }),
{
    if errfunc == 0 {
        0
    } else {
        let slot: usize = if errfunc > 0 {
            base + ((errfunc - 1) as usize)
        } else {
            top - ((0 - (errfunc as i64)) as usize)
        };
        (slot * SLOT_SIZE) as isize
    }
}

/// The hook mask after a protected call. When the call failed, its event bits are kept
/// and the other bits are put back as they were before the call; when it succeeded the
/// mask is left as it is.
pub fn hookmask_after_pcall(before: u8, current: u8, status: i32) -> (r: u8)
    ensures
        status == 0 ==> r == current,
        status != 0 ==> r & HOOK_EVENTMASK == current & HOOK_EVENTMASK,
        status != 0 ==> r & !HOOK_EVENTMASK == before & !HOOK_EVENTMASK,
{
    let saved: u8 = before & !HOOK_EVENTMASK;
    if status != 0 {
        let r: u8 = (current & HOOK_EVENTMASK) | saved;
        assert(r & 0x0f == current & 0x0f && r & !0x0fu8 == before & !0x0fu8) by (bit_vector)
            requires
                saved == before & !0x0fu8,
                r == (current & 0x0f) | saved,
        ;
        r
    } else {
        current
    }
}

/// A garbage-collection step is due before a new string is made when the bytes in use
/// have reached the collector's threshold.
pub fn gc_step_due(total: u64, threshold: u64) -> (r: bool)
    ensures
        r == (total >= threshold),
{
    total >= threshold
}

/// The tagged value of the string object at address `gcobj`. For an address that fits
/// the 47 bits that LuaJIT reserves for it, the value gives back that address and
/// carries the string type in the bits above.
pub fn tag_string(gcobj: u64) -> (r: u64)
    ensures
        r == gcobj | LJ_TSTR_TAG,
        gcobj <= LJ_GCPTR_MASK ==> r & LJ_GCPTR_MASK == gcobj,
        gcobj <= LJ_GCPTR_MASK ==> r >> 47u64 == LJ_TSTR_ITYPE,
{
    let r = gcobj | LJ_TSTR_TAG;
    assert(gcobj <= 0x7fff_ffff_ffffu64 ==> (r & 0x7fff_ffff_ffffu64 == gcobj && r >> 47u64 == 0x1fffbu64)) by (bit_vector)
        requires
            r == gcobj | 0xfffd_8000_0000_0000u64,
    ;
    r
}

/// After a value is pushed at slot `top`, the stack must grow when the new top has
/// reached the last usable slot.
pub fn grows_after_push(top: usize, maxstack: usize) -> (r: bool)
    requires
        top < usize::MAX,
    ensures
        r == (top + 1 >= maxstack),
{
    top + 1 >= maxstack
}

} // verus!
