use lovely_injector_nx::loader::{ChunkRoute, FirstChunk, LoaderState};
use lovely_injector_nx::MOD_DIR;

#[test]
fn first_chunk_starts_lovely_then_patches() {
    let mut s = LoaderState::new();
    assert_eq!(s.route(), ChunkRoute::ProbeSd);
    assert_eq!(s.sd_probed(true), FirstChunk::StartLovely);
    assert_eq!(s.route(), ChunkRoute::Patch);
    assert_eq!(s.route(), ChunkRoute::Patch);
}

#[test]
fn unusable_sd_sends_everything_to_the_game() {
    let mut s = LoaderState::new();
    assert_eq!(s.route(), ChunkRoute::ProbeSd);
    assert_eq!(s.sd_probed(false), FirstChunk::SdUnusable);
    assert_eq!(s.route(), ChunkRoute::Original);
    assert_eq!(s.route(), ChunkRoute::Original);
}

#[test]
fn mod_dir() {
    assert_eq!(MOD_DIR, "sd:/Balatro/Mods");
}
