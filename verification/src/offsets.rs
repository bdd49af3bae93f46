//! Offsets, relative to the start of `.text`, of the Lua C API functions in the
//! game's `main`, and the rules that pick the table matching the running build.
use vstd::prelude::*;

verus! {

/// Number of functions an offset table locates.
pub const ENTRY_COUNT: usize = 24;

/// One function: its offset from `.text` and the first instruction word expected there.
#[derive(Clone, Copy, Debug)]
pub struct Fn {
    pub off: usize,
    pub word: u32,
}

/// The offsets of every function the loader needs, for one build of the game.
#[derive(Debug)]
pub struct Offsets {
    pub name: &'static str,
    pub lual_loadbuffer: Fn,
    pub lual_newstate: Fn,
    pub lua_call: Fn,
    pub lj_vm_pcall: Fn,
    pub lua_getfield: Fn,
    pub lua_setfield: Fn,
    pub lua_gettop: Fn,
    pub lua_settop: Fn,
    pub lua_pushvalue: Fn,
    pub lua_pushcclosure: Fn,
    pub lua_tolstring: Fn,
    pub lua_type: Fn,
    pub lua_pushstring: Fn,
    pub lua_pushnumber: Fn,
    pub lua_pushboolean: Fn,
    pub lua_settable: Fn,
    pub lua_createtable: Fn,
    pub lj_err_run: Fn,
    pub lual_register: Fn,
    pub lual_checklstring: Fn,
    pub lua_pushnil: Fn,
    pub lj_str_new: Fn,
    pub lj_gc_step: Fn,
    pub lj_state_growstack: Fn,
}

/// Why a table was found not to fit the running build.
#[derive(Clone, Copy, Debug, PartialEq, Eq)]
pub enum Mismatch {
    /// The entry at `index` has no offset.
    NoOffset { index: usize },
    /// The word read for the entry at `index` is `found`, not the expected one.
    WrongWord { index: usize, found: u32 },
}

impl Mismatch {
    /// Position, in the order of [`Offsets::all`], of the entry that failed.
    pub open spec fn spec_index(self) -> usize {
        match self {
            Mismatch::NoOffset { index } => index,
            Mismatch::WrongWord { index, .. } => index,
        }
    }
}

/// Name of the `i`-th entry, in the order of [`Offsets::all`].
pub open spec fn entry_name(i: int) -> &'static str {
    if i == 0 {
        "luaL_loadbuffer"
    } else if i == 1 {
        "luaL_newstate"
    } else if i == 2 {
        "lua_call"
    } else if i == 3 {
        "lj_vm_pcall"
    } else if i == 4 {
        "lua_getfield"
    } else if i == 5 {
        "lua_setfield"
    } else if i == 6 {
        "lua_gettop"
    } else if i == 7 {
        "lua_settop"
    } else if i == 8 {
        "lua_pushvalue"
    } else if i == 9 {
        "lua_pushcclosure"
    } else if i == 10 {
        "lua_tolstring"
    } else if i == 11 {
        "lua_type"
    } else if i == 12 {
        "lua_pushstring"
    } else if i == 13 {
        "lua_pushnumber"
    } else if i == 14 {
        "lua_pushboolean"
    } else if i == 15 {
        "lua_settable"
    } else if i == 16 {
        "lua_createtable"
    } else if i == 17 {
        "lj_err_run"
    } else if i == 18 {
        "luaL_register"
    } else if i == 19 {
        "luaL_checklstring"
    } else if i == 20 {
        "lua_pushnil"
    } else if i == 21 {
        "lj_str_new"
    } else if i == 22 {
        "lj_gc_step"
    } else {
        "lj_state_growstack"
    }
}

/// An entry fits the build when it has an offset and the word read there is the expected one.
pub open spec fn entry_fits(f: Fn, word: u32) -> bool {
    f.off != 0 && f.word == word
}

impl Offsets {
    /// The entries, in the order in which they are checked.
    pub open spec fn fns(self) -> Seq<Fn> {
        seq![
            self.lual_loadbuffer,
            self.lual_newstate,
            self.lua_call,
            self.lj_vm_pcall,
            self.lua_getfield,
            self.lua_setfield,
            self.lua_gettop,
            self.lua_settop,
            self.lua_pushvalue,
            self.lua_pushcclosure,
            self.lua_tolstring,
            self.lua_type,
            self.lua_pushstring,
            self.lua_pushnumber,
            self.lua_pushboolean,
            self.lua_settable,
            self.lua_createtable,
            self.lj_err_run,
            self.lual_register,
            self.lual_checklstring,
            self.lua_pushnil,
            self.lj_str_new,
            self.lj_gc_step,
            self.lj_state_growstack,
        ]
    }

    /// The table fits a build whose words at the entries' offsets are `words`
    /// (`words[i]` was read at `.text + fns()[i].off`).
    pub open spec fn fits(self, words: Seq<u32>) -> bool {
        forall|i: int| 0 <= i < ENTRY_COUNT ==> #[trigger] entry_fits(self.fns()[i], words[i])
    }

    /// Every entry with its name, in a fixed order.
    pub fn all(&self) -> (r: [(&'static str, Fn); 24])
        ensures
            forall|i: int| 0 <= i < ENTRY_COUNT ==> (#[trigger] r@[i]).0 == entry_name(i) && r@[i].1 == self.fns()[i],
    {
        [
            ("luaL_loadbuffer", self.lual_loadbuffer),
            ("luaL_newstate", self.lual_newstate),
            ("lua_call", self.lua_call),
            ("lj_vm_pcall", self.lj_vm_pcall),
            ("lua_getfield", self.lua_getfield),
            ("lua_setfield", self.lua_setfield),
            ("lua_gettop", self.lua_gettop),
            ("lua_settop", self.lua_settop),
            ("lua_pushvalue", self.lua_pushvalue),
            ("lua_pushcclosure", self.lua_pushcclosure),
            ("lua_tolstring", self.lua_tolstring),
            ("lua_type", self.lua_type),
            ("lua_pushstring", self.lua_pushstring),
            ("lua_pushnumber", self.lua_pushnumber),
            ("lua_pushboolean", self.lua_pushboolean),
            ("lua_settable", self.lua_settable),
            ("lua_createtable", self.lua_createtable),
            ("lj_err_run", self.lj_err_run),
            ("luaL_register", self.lual_register),
            ("luaL_checklstring", self.lual_checklstring),
            ("lua_pushnil", self.lua_pushnil),
            ("lj_str_new", self.lj_str_new),
            ("lj_gc_step", self.lj_gc_step),
            ("lj_state_growstack", self.lj_state_growstack),
        ]
    }
}

/// The table of Balatro 1.1.3 on the Switch.
pub open spec fn spec_v1_1_3() -> Offsets {
    Offsets {
        name: "v1.1.3",
        lual_loadbuffer: Fn { off: 0x146f0, word: 0xd10083ff },
        lual_newstate: Fn { off: 0x16960, word: 0xd100c3ff },
        lua_call: Fn { off: 0x131e0, word: 0xf9401408 },
        lj_vm_pcall: Fn { off: 0x55848, word: 0xd10343ff },
        lua_getfield: Fn { off: 0x11370, word: 0xa9bd7bfd },
        lua_setfield: Fn { off: 0x12660, word: 0xa9bd7bfd },
        lua_gettop: Fn { off: 0xd190, word: 0xa9422009 },
        lua_settop: Fn { off: 0xd1a0, word: 0xa9be7bfd },
        lua_pushvalue: Fn { off: 0xd730, word: 0xf9401408 },
        lua_pushcclosure: Fn { off: 0x10800, word: 0xa9bc7bfd },
        lua_tolstring: Fn { off: 0xf7f0, word: 0xa9bd7bfd },
        lua_type: Fn { off: 0xd810, word: 0x71000428 },
        lua_pushstring: Fn { off: 0x106d0, word: 0xa9be7bfd },
        lua_pushnumber: Fn { off: 0x10620, word: 0xf9401408 },
        lua_pushboolean: Fn { off: 0x10a30, word: 0x7100003f },
        lua_settable: Fn { off: 0x124d0, word: 0xa9be7bfd },
        lua_createtable: Fn { off: 0x10c00, word: 0xa9bd7bfd },
        lj_err_run: Fn { off: 0x17b0, word: 0xa9be7bfd },
        lual_register: Fn { off: 0x15b60, word: 0xa9bc7bfd },
        lual_checklstring: Fn { off: 0xf9b0, word: 0xa9bd7bfd },
        lua_pushnil: Fn { off: 0x105f0, word: 0xf9401408 },
        lj_str_new: Fn { off: 0x2680, word: 0xa9ba7bfd },
        lj_gc_step: Fn { off: 0x760, word: 0xa9bd7bfd },
        lj_state_growstack: Fn { off: 0x8580, word: 0xa9ba7bfd },
    }
}


impl Offsets {
    /// Checks the table against the words read at its entries' offsets, entry by entry
    /// in the order of [`Offsets::all`], and stops at the first entry that does not fit:
    /// one without an offset, or one whose word differs from the expected one.
    /// `words[i]` is the word at `.text + off` of the `i`-th entry; it is not looked at
    /// for an entry without an offset.
    pub fn matches(&self, words: &[u32]) -> (r: Result<(), Mismatch>)
        requires
            words@.len() == ENTRY_COUNT,
        ensures
            r is Ok <==> self.fits(words@),
            r matches Err(m) ==> {
                let i = m.spec_index() as int;
                &&& 0 <= i < ENTRY_COUNT
                &&& forall|j: int| 0 <= j < i ==> #[trigger] entry_fits(self.fns()[j], words@[j])
                &&& !entry_fits(self.fns()[i], words@[i])
                &&& (m is NoOffset <==> self.fns()[i].off == 0)
                &&& (m matches Mismatch::WrongWord { found, .. } ==> found == words@[i])
            },
    {
        let entries = self.all();
        let mut i: usize = 0;
        while i < ENTRY_COUNT
            invariant
                0 <= i <= ENTRY_COUNT,
                words@.len() == ENTRY_COUNT,
                forall|k: int| 0 <= k < ENTRY_COUNT ==> (#[trigger] entries@[k]).1 == self.fns()[k],
                forall|j: int| 0 <= j < i ==> #[trigger] entry_fits(self.fns()[j], words@[j]),
            decreases ENTRY_COUNT - i,
        {
            let f = entries[i].1;
            assert(f == self.fns()[i as int]);
            if f.off == 0 {
                assert(!entry_fits(self.fns()[i as int], words@[i as int]));
                return Err(Mismatch::NoOffset { index: i });
            }
            let word = words[i];
            if word != f.word {
                assert(!entry_fits(self.fns()[i as int], words@[i as int]));
                return Err(Mismatch::WrongWord { index: i, found: word });
            }
            i = i + 1;
        }
        Ok(())
    }
}

/// Index of the first table that fits the running build, if any; `words[t]` holds the
/// words read at the entries of `tables[t]`.
pub fn detect(tables: &[Offsets], words: &[Vec<u32>]) -> (r: Option<usize>)
    requires
        words@.len() == tables@.len(),
        forall|t: int| 0 <= t < words@.len() ==> (#[trigger] words@[t])@.len() == ENTRY_COUNT,
    ensures
        r is None <==> forall|t: int| 0 <= t < tables@.len() ==> !(#[trigger] tables@[t]).fits(words@[t]@),
        r matches Some(t) ==> {
            &&& t < tables@.len()
            &&& tables@[t as int].fits(words@[t as int]@)
            &&& forall|u: int| 0 <= u < t ==> !(#[trigger] tables@[u]).fits(words@[u]@)
        },
{
    let mut t: usize = 0;
    while t < tables.len()
        invariant
            0 <= t <= tables@.len(),
            words@.len() == tables@.len(),
            forall|k: int| 0 <= k < words@.len() ==> (#[trigger] words@[k])@.len() == ENTRY_COUNT,
            forall|u: int| 0 <= u < t ==> !(#[trigger] tables@[u]).fits(words@[u]@),
        decreases tables@.len() - t,
    {
        if tables[t].matches(words[t].as_slice()).is_ok() {
            return Some(t);
        }
        t = t + 1;
    }
    None
}

/// The table that [`detect`] found; only to be asked for once a table was found.
pub fn get(detected: Option<&Offsets>) -> (r: &Offsets)
    requires
        detected is Some,
    ensures
        *r == *detected.unwrap(),
{
    match detected {
        Some(t) => t,
        None => {
            assert(false);
            unreached()
        },
    }
}

/// Absolute runtime address of an entry, given the address where `.text` starts.
pub fn abs(text: usize, f: Fn) -> (r: usize)
    requires
        text + f.off <= usize::MAX,
    ensures
        r == text + f.off,
{
    text + f.off
}

/// The table of Balatro 1.1.3 on the Switch.
pub fn v1_1_3() -> (r: Offsets)
    ensures
        r == spec_v1_1_3(),
        holds_1_1_3_values(r),
{
    Offsets {
        name: "v1.1.3",
        lual_loadbuffer: Fn { off: 0x146f0, word: 0xd10083ff },
        lual_newstate: Fn { off: 0x16960, word: 0xd100c3ff },
        lua_call: Fn { off: 0x131e0, word: 0xf9401408 },
        lj_vm_pcall: Fn { off: 0x55848, word: 0xd10343ff },
        lua_getfield: Fn { off: 0x11370, word: 0xa9bd7bfd },
        lua_setfield: Fn { off: 0x12660, word: 0xa9bd7bfd },
        lua_gettop: Fn { off: 0xd190, word: 0xa9422009 },
        lua_settop: Fn { off: 0xd1a0, word: 0xa9be7bfd },
        lua_pushvalue: Fn { off: 0xd730, word: 0xf9401408 },
        lua_pushcclosure: Fn { off: 0x10800, word: 0xa9bc7bfd },
        lua_tolstring: Fn { off: 0xf7f0, word: 0xa9bd7bfd },
        lua_type: Fn { off: 0xd810, word: 0x71000428 },
        lua_pushstring: Fn { off: 0x106d0, word: 0xa9be7bfd },
        lua_pushnumber: Fn { off: 0x10620, word: 0xf9401408 },
        lua_pushboolean: Fn { off: 0x10a30, word: 0x7100003f },
        lua_settable: Fn { off: 0x124d0, word: 0xa9be7bfd },
        lua_createtable: Fn { off: 0x10c00, word: 0xa9bd7bfd },
        lj_err_run: Fn { off: 0x17b0, word: 0xa9be7bfd },
        lual_register: Fn { off: 0x15b60, word: 0xa9bc7bfd },
        lual_checklstring: Fn { off: 0xf9b0, word: 0xa9bd7bfd },
        lua_pushnil: Fn { off: 0x105f0, word: 0xf9401408 },
        lj_str_new: Fn { off: 0x2680, word: 0xa9ba7bfd },
        lj_gc_step: Fn { off: 0x760, word: 0xa9bd7bfd },
        lj_state_growstack: Fn { off: 0x8580, word: 0xa9ba7bfd },
    }
}

/// The tables of every supported build, in the order in which they are tried.
pub fn tables() -> (r: Vec<Offsets>)
    ensures
        r@ == seq![spec_v1_1_3()],
{
    let mut r = Vec::new();
    r.push(v1_1_3());
    r
}

/// A table with an entry that has no offset fits no build, whatever words are read.
pub proof fn lemma_missing_offset_never_fits(t: Offsets, words: Seq<u32>, i: int)
    requires
        0 <= i < ENTRY_COUNT,
        t.fns()[i].off == 0,
    ensures
        !t.fits(words),
{
    assert(!entry_fits(t.fns()[i], words[i]));
}

/// The 1.1.3 table locates each function at the offset it has in the 1.1.3 binary and
/// expects there the first instruction word of that function in the binary.
pub open spec fn holds_1_1_3_values(t: Offsets) -> bool {
    &&& t.name@ == "v1.1.3"@
    &&& t.lual_loadbuffer.off == 0x146f0 && t.lual_loadbuffer.word == 0xd10083ff
    &&& t.lual_newstate.off == 0x16960 && t.lual_newstate.word == 0xd100c3ff
    &&& t.lua_call.off == 0x131e0 && t.lua_call.word == 0xf9401408
    &&& t.lj_vm_pcall.off == 0x55848 && t.lj_vm_pcall.word == 0xd10343ff
    &&& t.lua_getfield.off == 0x11370 && t.lua_getfield.word == 0xa9bd7bfd
    &&& t.lua_setfield.off == 0x12660 && t.lua_setfield.word == 0xa9bd7bfd
    &&& t.lua_gettop.off == 0xd190 && t.lua_gettop.word == 0xa9422009
    &&& t.lua_settop.off == 0xd1a0 && t.lua_settop.word == 0xa9be7bfd
    &&& t.lua_pushvalue.off == 0xd730 && t.lua_pushvalue.word == 0xf9401408
    &&& t.lua_pushcclosure.off == 0x10800 && t.lua_pushcclosure.word == 0xa9bc7bfd
    &&& t.lua_tolstring.off == 0xf7f0 && t.lua_tolstring.word == 0xa9bd7bfd
    &&& t.lua_type.off == 0xd810 && t.lua_type.word == 0x71000428
    &&& t.lua_pushstring.off == 0x106d0 && t.lua_pushstring.word == 0xa9be7bfd
    &&& t.lua_pushnumber.off == 0x10620 && t.lua_pushnumber.word == 0xf9401408
    &&& t.lua_pushboolean.off == 0x10a30 && t.lua_pushboolean.word == 0x7100003f
    &&& t.lua_settable.off == 0x124d0 && t.lua_settable.word == 0xa9be7bfd
    &&& t.lua_createtable.off == 0x10c00 && t.lua_createtable.word == 0xa9bd7bfd
    &&& t.lj_err_run.off == 0x17b0 && t.lj_err_run.word == 0xa9be7bfd
    &&& t.lual_register.off == 0x15b60 && t.lual_register.word == 0xa9bc7bfd
    &&& t.lual_checklstring.off == 0xf9b0 && t.lual_checklstring.word == 0xa9bd7bfd
    &&& t.lua_pushnil.off == 0x105f0 && t.lua_pushnil.word == 0xf9401408
    &&& t.lj_str_new.off == 0x2680 && t.lj_str_new.word == 0xa9ba7bfd
    &&& t.lj_gc_step.off == 0x760 && t.lj_gc_step.word == 0xa9bd7bfd
    &&& t.lj_state_growstack.off == 0x8580 && t.lj_state_growstack.word == 0xa9ba7bfd
}

/// The table of 1.1.3 holds, for every function, its offset and first instruction word
/// in the 1.1.3 binary; [`abs`] turns each into `.text` plus that offset, for example
/// `lua_getfield` at `.text + 0x11370` and `lua_setfield` at `.text + 0x12660`.
pub proof fn lemma_v1_1_3_values()
    ensures
        holds_1_1_3_values(spec_v1_1_3()),
{
    reveal_strlit("v1.1.3");
}

/// A build whose instruction words at the 1.1.3 offsets are those of the 1.1.3 binary
/// is recognised by the 1.1.3 table: the table fits exactly the words it expects, and
/// the words it expects are the literal words of that binary.
pub proof fn lemma_v1_1_3_fits_its_build(words: Seq<u32>)
    requires
        words.len() == ENTRY_COUNT,
        words[0] == 0xd10083ffu32,
        words[1] == 0xd100c3ffu32,
        words[2] == 0xf9401408u32,
        words[3] == 0xd10343ffu32,
        words[4] == 0xa9bd7bfdu32,
        words[5] == 0xa9bd7bfdu32,
        words[6] == 0xa9422009u32,
        words[7] == 0xa9be7bfdu32,
        words[8] == 0xf9401408u32,
        words[9] == 0xa9bc7bfdu32,
        words[10] == 0xa9bd7bfdu32,
        words[11] == 0x71000428u32,
        words[12] == 0xa9be7bfdu32,
        words[13] == 0xf9401408u32,
        words[14] == 0x7100003fu32,
        words[15] == 0xa9be7bfdu32,
        words[16] == 0xa9bd7bfdu32,
        words[17] == 0xa9be7bfdu32,
        words[18] == 0xa9bc7bfdu32,
        words[19] == 0xa9bd7bfdu32,
        words[20] == 0xf9401408u32,
        words[21] == 0xa9ba7bfdu32,
        words[22] == 0xa9bd7bfdu32,
        words[23] == 0xa9ba7bfdu32,
    ensures
        spec_v1_1_3().fits(words),
{
    assert forall|i: int| 0 <= i < ENTRY_COUNT implies #[trigger] entry_fits(spec_v1_1_3().fns()[i], words[i]) by {
    }
}

} // verus!
