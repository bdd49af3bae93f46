use lovely_injector_nx::offsets::{abs, detect, get, tables, v1_1_3, Mismatch, Offsets, ENTRY_COUNT};

fn words_of(t: &Offsets) -> Vec<u32> {
    t.all().iter().map(|(_, f)| f.word).collect()
}

#[test]
fn all_lists_every_entry_in_order() {
    let t = v1_1_3();
    let all = t.all();
    assert_eq!(all.len(), ENTRY_COUNT);
    assert_eq!(all[0].0, "luaL_loadbuffer");
    assert_eq!(all[0].1.off, 0x146f0);
    assert_eq!(all[0].1.word, 0xd10083ff);
    assert_eq!(all[3].0, "lj_vm_pcall");
    assert_eq!(all[3].1.off, 0x55848);
    assert_eq!(all[18].0, "luaL_register");
    assert_eq!(all[18].1.off, 0x15b60);
    assert_eq!(all[23].0, "lj_state_growstack");
    assert_eq!(all[23].1.off, 0x8580);
    assert_eq!(all[23].1.word, 0xa9ba7bfd);
}

#[test]
fn table_of_1_1_3() {
    let t = v1_1_3();
    assert_eq!(t.name, "v1.1.3");
    assert_eq!(t.lua_gettop.off, 0xd190);
    assert_eq!(t.lua_gettop.word, 0xa9422009);
    assert_eq!(t.lj_gc_step.off, 0x760);
    let ts = tables();
    assert_eq!(ts.len(), 1);
    assert_eq!(ts[0].name, "v1.1.3");
}

#[test]
fn matches_when_every_word_fits() {
    let t = v1_1_3();
    let words = words_of(&t);
    assert_eq!(t.matches(&words), Ok(()));
}

#[test]
fn first_wrong_word_is_reported() {
    let t = v1_1_3();
    let mut words = words_of(&t);
    words[5] = 0xdeadbeef;
    words[9] = 0;
    assert_eq!(t.matches(&words), Err(Mismatch::WrongWord { index: 5, found: 0xdeadbeef }));
}

#[test]
fn entry_without_offset_never_fits() {
    let mut t = v1_1_3();
    t.lua_call.off = 0;
    let words = words_of(&t);
    assert_eq!(t.matches(&words), Err(Mismatch::NoOffset { index: 2 }));
    // an earlier wrong word is reported first
    let mut words = words_of(&t);
    words[1] = 1;
    assert_eq!(t.matches(&words), Err(Mismatch::WrongWord { index: 1, found: 1 }));
}

#[test]
fn detect_picks_first_fitting_table() {
    let ts = vec![v1_1_3(), v1_1_3()];
    let good = words_of(&ts[0]);
    let mut bad = good.clone();
    bad[0] = 0;
    assert_eq!(detect(&ts, &[bad.clone(), good.clone()]), Some(1));
    assert_eq!(detect(&ts, &[good.clone(), good.clone()]), Some(0));
    assert_eq!(detect(&ts, &[bad.clone(), bad.clone()]), None);
    assert_eq!(detect(&[], &[]), None);
}

#[test]
fn get_returns_the_detected_table() {
    let t = v1_1_3();
    let g = get(Some(&t));
    assert_eq!(g.name, "v1.1.3");
    assert_eq!(g.lj_str_new.off, 0x2680);
}

#[test]
fn abs_adds_text_base() {
    let t = v1_1_3();
    assert_eq!(abs(0x7100_0000_0000, t.lual_loadbuffer), 0x7100_0001_46f0);
    assert_eq!(abs(0, t.lj_err_run), 0x17b0);
}
