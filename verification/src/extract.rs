//! Stage 1: expanding each seed into a seed tile and its derived variants.
use vstd::prelude::*;
use vstd::string::StringExecFns;
use crate::fixed::{SCORE_SCALE, clamp_unit, ramp, ramp_score};
use crate::ids::{nano_id_seeded, seeded_id};
use crate::stage::Stage;
use crate::text::{byte_len, decimal, fits_in_memory, push_decimal};
use crate::tile::{SeedInput, SeedView, Tile, TileView, seed_views, tile_views};

verus! {

/// Expands seeds into tiles.
pub struct ExtractStage {
    /// Tiles generated per seed (controls expansion ratio)
    pub expansion_factor: usize,
}

impl Default for ExtractStage {
    fn default() -> (s: Self)
        ensures
            s.expansion_factor == 43,
    {
        // 59 seeds × 43 ≈ 2537 ≥ 2501
        ExtractStage { expansion_factor: 43 }
    }
}

/// Trust and relevance of a seed tile: 0.5.
pub const SEED_SCORE: i64 = 500_000;

/// Base confidence of a derived tile: 0.3.
pub const DERIVED_CONFIDENCE_BASE: i64 = 300_000;

/// Confidence gained per variant step, scaled by the weight: 0.015.
pub const DERIVED_CONFIDENCE_RATE: i64 = 15_000;

/// Base trust of a derived tile: 0.4.
pub const DERIVED_TRUST_BASE: i64 = 400_000;

/// Trust gained per variant step: 0.01.
pub const DERIVED_TRUST_RATE: i64 = 10_000;

/// Base relevance of a derived tile: 0.35.
pub const DERIVED_RELEVANCE_BASE: i64 = 350_000;

/// Relevance gained per variant step, scaled by the weight: 0.012.
pub const DERIVED_RELEVANCE_RATE: i64 = 12_000;

/// The number of tiles one seed expands into.
pub open spec fn tiles_per_seed(factor: usize) -> int {
    if factor == 0 {
        1
    } else {
        factor as int
    }
}

/// The identifier of the `n`-th extracted tile: the counter starts at 1 and
/// steps by one, modulo 2^64, per tile.
pub open spec fn counter_id(n: int) -> u64 {
    seeded_id(((n + 1) % 0x1_0000_0000_0000_0000) as u64)
}

/// The content of variant `j` of a seed.
pub open spec fn variant_text(raw: Seq<char>, j: nat, source: Seq<char>) -> Seq<char> {
    raw + " [variant:"@ + decimal(j) + " src:"@ + source + "]"@
}

/// The tag of variant `j`.
pub open spec fn derived_tag(j: nat) -> Seq<char> {
    "derived:"@ + decimal(j)
}

/// The tile that stands for the seed itself.
pub open spec fn seed_tile(s: SeedView, id: u64) -> TileView {
    TileView {
        id,
        content: s.raw,
        source: s.source,
        confidence: (s.weight / 2) as i64,
        trust: SEED_SCORE,
        relevance: SEED_SCORE,
        tier: None,
        tags: seq!["seed"@],
        byte_size: byte_len(s.raw),
    }
}

/// Variant `j` of a seed.
pub open spec fn derived_tile(s: SeedView, j: nat, id: u64) -> TileView {
    let content = variant_text(s.raw, j, s.source);
    TileView {
        id,
        content,
        source: s.source,
        confidence: ramp_score(
            DERIVED_CONFIDENCE_BASE as int,
            j as int,
            DERIVED_CONFIDENCE_RATE as int,
            s.weight as int,
        ) as i64,
        trust: clamp_unit(DERIVED_TRUST_BASE + j * DERIVED_TRUST_RATE) as i64,
        relevance: ramp_score(
            DERIVED_RELEVANCE_BASE as int,
            j as int,
            DERIVED_RELEVANCE_RATE as int,
            s.weight as int,
        ) as i64,
        tier: None,
        tags: seq![derived_tag(j)],
        byte_size: byte_len(content),
    }
}

/// The `n`-th tile extracted from `seeds`: each seed gives its seed tile
/// followed by its variants 1, 2, ... up to `factor - 1`.
pub open spec fn extracted_tile(seeds: Seq<SeedView>, factor: usize, n: int) -> TileView {
    let per = tiles_per_seed(factor);
    let j = n % per;
    if j == 0 {
        seed_tile(seeds[n / per], counter_id(n))
    } else {
        derived_tile(seeds[n / per], j as nat, counter_id(n))
    }
}

/// All tiles extracted from `seeds`, in order.
pub open spec fn extract_spec(seeds: Seq<SeedView>, factor: usize) -> Seq<TileView> {
    Seq::new(
        (seeds.len() * tiles_per_seed(factor)) as nat,
        |n: int| extracted_tile(seeds, factor, n),
    )
}

fn seed_tile_of(seed: &SeedInput, id: u64) -> (t: Tile)
    ensures
        t@ == seed_tile(seed@, id),
        fits_in_memory(t@.content),
{
    crate::text::char_count_fits(seed.raw.as_str());
    let mut tags: Vec<String> = Vec::new();
    tags.push("seed".to_owned());
    let half = crate::fixed::div_floor(seed.weight as i128, 2);
    let t = Tile {
        id,
        content: seed.raw.clone(),
        source: seed.source.clone(),
        confidence: half as i64,
        trust: SEED_SCORE,
        relevance: SEED_SCORE,
        tier: None,
        tags,
        byte_size: seed.raw.as_str().len(),
    };
    proof {
        assert(t@.tags =~= seq!["seed"@]);
    }
    t
}

fn derived_tile_of(seed: &SeedInput, j: usize, id: u64) -> (t: Tile)
    ensures
        t@ == derived_tile(seed@, j as nat, id),
        t.trust == (if 400_000 + 10_000 * j >= 1_000_000 { 1_000_000 } else { 400_000 + 10_000
            * j }),
        fits_in_memory(t@.content),
{
    let mut content = seed.raw.clone();
    content.append(" [variant:");
    push_decimal(&mut content, j);
    content.append(" src:");
    content.append(seed.source.as_str());
    content.append("]");
    let mut tag = "derived:".to_owned();
    push_decimal(&mut tag, j);
    let mut tags: Vec<String> = Vec::new();
    tags.push(tag);
    let confidence = ramp(DERIVED_CONFIDENCE_BASE, j, DERIVED_CONFIDENCE_RATE, seed.weight);
    let trust = ramp(DERIVED_TRUST_BASE, j, DERIVED_TRUST_RATE, SCORE_SCALE);
    let relevance = ramp(DERIVED_RELEVANCE_BASE, j, DERIVED_RELEVANCE_RATE, seed.weight);
    proof {
        assert((j * DERIVED_TRUST_RATE * SCORE_SCALE) / (SCORE_SCALE as int) == j
            * DERIVED_TRUST_RATE) by (nonlinear_arith);
    }
    let byte_size = content.as_str().len();
    crate::text::char_count_fits(content.as_str());
    let t = Tile {
        id,
        content,
        source: seed.source.clone(),
        confidence,
        trust,
        relevance,
        tier: None,
        tags,
        byte_size,
    };
    proof {
        assert(t@.content =~= variant_text(seed@.raw, j as nat, seed@.source));
        assert(t@.tags =~= seq![derived_tag(j as nat)]);
    }
    t
}

proof fn lemma_position(n: int, per: int, k: int, j: int)
    requires
        per > 0,
        0 <= j < per,
        n == k * per + j,
    ensures
        n / per == k,
        n % per == j,
{
    vstd::arithmetic::div_mod::lemma_fundamental_div_mod_converse(n, per, k, j);
}

impl Stage for ExtractStage {
    type Input = Vec<SeedInput>;
    type Output = Vec<Tile>;

    fn name(&self) -> (s: &'static str)
        ensures
            s@ == "EXTRACT"@,
    {
        "EXTRACT"
    }

    fn process(&self, seeds: Vec<SeedInput>) -> (tiles: Vec<Tile>)
        ensures
            tile_views(tiles@) == extract_spec(seed_views(seeds@), self.expansion_factor),
            forall|n: int| 0 <= n < tiles@.len() ==> fits_in_memory(#[trigger] tiles@[n]@.content),
    {
        let ghost sv = seed_views(seeds@);
        let ghost factor = self.expansion_factor;
        let ghost per = tiles_per_seed(factor);
        let mut tiles: Vec<Tile> = Vec::new();
        let mut counter: u64 = 1;
        let mut k: usize = 0;
        while k < seeds.len()
            invariant
                sv == seed_views(seeds@),
                factor == self.expansion_factor,
                per == tiles_per_seed(factor),
                0 <= k <= seeds.len(),
                tiles@.len() == k * per,
                counter == (k * per + 1) % 0x1_0000_0000_0000_0000,
                forall|n: int|
                    0 <= n < tiles@.len() ==> #[trigger] tiles@[n]@ == extracted_tile(
                        sv,
                        factor,
                        n,
                    ),
                forall|n: int| 0 <= n < tiles@.len() ==> fits_in_memory(#[trigger] tiles@[n]@.content),
            decreases seeds.len() - k,
        {
            let seed = &seeds[k];
            let ghost start = k * per;
            proof {
                lemma_position(start, per, k as int, 0);
            }
            let base_id = nano_id_seeded(counter);
            counter = counter.wrapping_add(1);
            tiles.push(seed_tile_of(seed, base_id));
            proof {
                vstd::arithmetic::div_mod::lemma_add_mod_noop(start + 1, 1, 0x1_0000_0000_0000_0000);
                vstd::arithmetic::div_mod::lemma_mod_twice(start + 1, 0x1_0000_0000_0000_0000);
                vstd::arithmetic::div_mod::lemma_small_mod(1, 0x1_0000_0000_0000_0000);
            }
            let mut i: usize = 1;
            while i < self.expansion_factor
                invariant
                    sv == seed_views(seeds@),
                    factor == self.expansion_factor,
                    per == tiles_per_seed(factor),
                    0 <= k < seeds.len(),
                    seed == &seeds@[k as int],
                    start == k * per,
                    1 <= i <= per,
                    tiles@.len() == start + i,
                    counter == (start + i + 1) % 0x1_0000_0000_0000_0000,
                    forall|n: int|
                        0 <= n < tiles@.len() ==> #[trigger] tiles@[n]@ == extracted_tile(
                            sv,
                            factor,
                            n,
                        ),
                    forall|n: int| 0 <= n < tiles@.len() ==> fits_in_memory(#[trigger] tiles@[n]@.content),
                decreases self.expansion_factor - i,
            {
                proof {
                    lemma_position(start + i, per, k as int, i as int);
                }
                let derived_id = nano_id_seeded(counter);
                counter = counter.wrapping_add(1);
                tiles.push(derived_tile_of(seed, i, derived_id));
                proof {
                    vstd::arithmetic::div_mod::lemma_add_mod_noop(
                        start + i + 1,
                        1,
                        0x1_0000_0000_0000_0000,
                    );
                    vstd::arithmetic::div_mod::lemma_mod_twice(
                        start + i + 1,
                        0x1_0000_0000_0000_0000,
                    );
                    vstd::arithmetic::div_mod::lemma_small_mod(1, 0x1_0000_0000_0000_0000);
                }
                i = i + 1;
            }
            proof {
                assert((k + 1) * per == start + per) by (nonlinear_arith)
                    requires
                        start == k * per,
                ;
            }
            k = k + 1;
        }
        proof {
            assert(tile_views(tiles@) =~= extract_spec(sv, factor));
        }
        tiles
    }
}

} // verus!
