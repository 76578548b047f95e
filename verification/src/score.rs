//! Stage 3: adjusting beliefs from the density of the content and the tags.
use vstd::prelude::*;
use crate::fixed::{SCORE_SCALE, clamp_score, clamp_unit};
use crate::stage::Stage;
use crate::text::{byte_len, count_words, word_count};
use crate::tile::{Tile, TileView, tile_views};

verus! {

/// Raises confidence, trust and relevance from content signals.
pub struct ScoreStage;

impl Default for ScoreStage {
    fn default() -> (s: Self) {
        ScoreStage
    }
}

/// Confidence and trust gained by a tile tagged `seed`: 0.1.
pub const SEED_TAG_BOOST: i64 = 100_000;

/// Word density of `content` on the unit scale: five times words per byte,
/// limited to `[0, 1]`; 0 for empty content. A density of 0.1–0.2 words per
/// byte is "normal prose" and scores about 0.5 or more.
pub open spec fn density(content: Seq<char>) -> int {
    let bytes = byte_len(content);
    if bytes == 0 {
        0
    } else {
        clamp_unit((word_count(content) * 5 * SCORE_SCALE) / (bytes as int))
    }
}

/// The boost for the tags of a tile: 0.1 when one of them is `seed`.
pub open spec fn tag_boost(tags: Seq<Seq<char>>) -> int {
    if tags.contains("seed"@) {
        SEED_TAG_BOOST as int
    } else {
        0
    }
}

/// A tile after scoring: confidence gains a fifth of the density and the
/// tag boost, trust gains the tag boost, relevance gains 0.15 of the
/// density; each is then limited to `[0, 1]`. Nothing else changes.
pub open spec fn scored(t: TileView) -> TileView {
    let d = density(t.content);
    let boost = tag_boost(t.tags);
    TileView {
        confidence: clamp_unit(t.confidence + d / 5 + boost) as i64,
        trust: clamp_unit(t.trust + boost) as i64,
        relevance: clamp_unit(t.relevance + (d * 3) / 20) as i64,
        ..t
    }
}

/// Every tile of `s`, scored.
pub open spec fn score_spec(s: Seq<TileView>) -> Seq<TileView> {
    s.map_values(|t: TileView| scored(t))
}

/// Computes `density(content)`.
fn content_density_score(content: &str) -> (d: i64)
    ensures
        d == density(content@),
{
    let words = count_words(content);
    let chars = content.len();
    if chars == 0 {
        return 0;
    }
    let ratio: u128 = (words as u128 * 5 * (SCORE_SCALE as u128)) / (chars as u128);
    if ratio > SCORE_SCALE as u128 {
        SCORE_SCALE
    } else {
        ratio as i64
    }
}

fn has_seed_tag(tags: &Vec<String>) -> (b: bool)
    ensures
        b == crate::tile::string_views(tags@).contains("seed"@),
{
    let seed = "seed".to_owned();
    let ghost views = crate::tile::string_views(tags@);
    let mut k: usize = 0;
    while k < tags.len()
        invariant
            0 <= k <= tags.len(),
            views == crate::tile::string_views(tags@),
            seed@ == "seed"@,
            forall|m: int| 0 <= m < k ==> views[m] != "seed"@,
        decreases tags.len() - k,
    {
        if tags[k] == seed {
            assert(views[k as int] == "seed"@);
            return true;
        }
        k = k + 1;
    }
    false
}

impl Stage for ScoreStage {
    type Input = Vec<Tile>;
    type Output = Vec<Tile>;

    fn name(&self) -> (s: &'static str)
        ensures
            s@ == "SCORE"@,
    {
        "SCORE"
    }

    fn process(&self, tiles: Vec<Tile>) -> (out: Vec<Tile>)
        ensures
            tile_views(out@) == score_spec(tile_views(tiles@)),
    {
        let ghost all = tile_views(tiles@);
        let mut out: Vec<Tile> = Vec::new();
        for tile in it: tiles
            invariant
                it.seq() == tiles@,
                all == tile_views(tiles@),
                tile_views(out@) == score_spec(all.take(it.index() as int)),
        {
            let ghost i = it.index() as int;
            let ghost before = out@;
            let mut t = tile;
            // Belief scoring: adjust based on content signals
            let content_density = content_density_score(t.content.as_str());
            let tag_boost: i64 = if has_seed_tag(&t.tags) { SEED_TAG_BOOST } else { 0 };
            t.confidence = clamp_score(
                t.confidence as i128 + (content_density / 5) as i128 + tag_boost as i128,
            );
            t.trust = clamp_score(t.trust as i128 + tag_boost as i128);
            t.relevance = clamp_score(t.relevance as i128 + ((content_density * 3) / 20) as i128);
            out.push(t);
            proof {
                assert(all.take(i + 1) =~= all.take(i).push(tile@));
                assert(t@ == scored(tile@));
                assert(tile_views(out@) =~= tile_views(before).push(t@));
                assert(score_spec(all.take(i + 1)) =~= score_spec(all.take(i)).push(scored(tile@)));
            }
        }
        proof {
            assert(all.take(all.len() as int) =~= all);
        }
        out
    }
}

} // verus!
