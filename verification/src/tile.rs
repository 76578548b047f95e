//! The data that flows through the pipeline: tiles, seeds and deploy tiers.
use vstd::prelude::*;
use crate::fixed::SCORE_SCALE;
use crate::ids::nano_id;
use crate::text::byte_len;

verus! {

/// How a tile may be deployed, from most to least trusted.
#[derive(Debug, Clone, Copy, PartialEq, Eq, Structural)]
pub enum DeployTier {
    Live,
    Monitored,
    HumanGated,
}

/// The display name of a tier.
pub open spec fn tier_name(t: DeployTier) -> Seq<char> {
    match t {
        DeployTier::Live => "Live"@,
        DeployTier::Monitored => "Monitored"@,
        DeployTier::HumanGated => "HumanGated"@,
    }
}

/// The rank of a tier: 2 for `Live`, 1 for `Monitored`, 0 for `HumanGated`.
pub open spec fn tier_rank(t: DeployTier) -> nat {
    match t {
        DeployTier::Live => 2,
        DeployTier::Monitored => 1,
        DeployTier::HumanGated => 0,
    }
}

impl DeployTier {
    /// The tier's display name.
    pub fn to_string(&self) -> (s: String)
        ensures
            s@ == tier_name(*self),
    {
        match self {
            DeployTier::Live => "Live".to_owned(),
            DeployTier::Monitored => "Monitored".to_owned(),
            DeployTier::HumanGated => "HumanGated".to_owned(),
        }
    }
}

/// A unit of extracted knowledge. Scores are fixed point: `SCORE_SCALE`
/// stands for 1.0.
#[derive(Debug, Clone)]
pub struct Tile {
    pub id: u64,
    pub content: String,
    pub source: String,
    pub confidence: i64,
    pub trust: i64,
    pub relevance: i64,
    pub tier: Option<DeployTier>,
    pub tags: Vec<String>,
    pub byte_size: usize,
}

/// A tile as a mathematical value.
pub struct TileView {
    pub id: u64,
    pub content: Seq<char>,
    pub source: Seq<char>,
    pub confidence: i64,
    pub trust: i64,
    pub relevance: i64,
    pub tier: Option<DeployTier>,
    pub tags: Seq<Seq<char>>,
    pub byte_size: usize,
}

/// The views of a sequence of strings.
pub open spec fn string_views(v: Seq<String>) -> Seq<Seq<char>> {
    v.map_values(|s: String| s@)
}

impl View for Tile {
    type V = TileView;

    open spec fn view(&self) -> TileView {
        TileView {
            id: self.id,
            content: self.content@,
            source: self.source@,
            confidence: self.confidence,
            trust: self.trust,
            relevance: self.relevance,
            tier: self.tier,
            tags: string_views(self.tags@),
            byte_size: self.byte_size,
        }
    }
}

/// The views of a sequence of tiles.
pub open spec fn tile_views(v: Seq<Tile>) -> Seq<TileView> {
    v.map_values(|t: Tile| t@)
}

/// The views of a sequence of rejected tiles with their reasons.
pub open spec fn rejection_views(v: Seq<(Tile, String)>) -> Seq<(TileView, Seq<char>)> {
    v.map_values(|p: (Tile, String)| (p.0@, p.1@))
}

/// The mean of a tile's three scores, rounded down.
pub open spec fn belief(t: TileView) -> int {
    (t.confidence + t.trust + t.relevance) / 3
}

impl Tile {
    /// A fresh tile with all scores zero, no tier, no tags, its byte size
    /// taken from `content` and a clock-based identifier.
    pub fn new(content: &str, source: &str) -> (t: Tile)
        ensures
            t@.content == content@,
            t@.source == source@,
            t.confidence == 0,
            t.trust == 0,
            t.relevance == 0,
            t.tier is None,
            t@.tags == Seq::<Seq<char>>::empty(),
            t.byte_size == byte_len(content@),
    {
        let c = content.to_owned();
        let byte_size = content.len();
        let t = Tile {
            id: nano_id(),
            content: c,
            source: source.to_owned(),
            confidence: 0,
            trust: 0,
            relevance: 0,
            tier: None,
            tags: Vec::new(),
            byte_size,
        };
        proof {
            assert(t@.tags =~= Seq::<Seq<char>>::empty());
        }
        t
    }

    /// The tile with its identifier replaced by `id`.
    pub fn with_id(self, id: u64) -> (t: Tile)
        ensures
            t@ == (TileView { id, ..self@ }),
    {
        let mut t = self;
        t.id = id;
        t
    }

    /// The mean of confidence, trust and relevance, rounded down.
    pub fn belief_score(&self) -> (s: i64)
        ensures
            s == belief(self@),
    {
        let sum: i128 = self.confidence as i128 + self.trust as i128 + self.relevance as i128;
        let q = crate::fixed::div_floor(sum, 3);
        q as i64
    }
}

/// Raw input from which tiles are extracted. The weight is fixed point:
/// `SCORE_SCALE` stands for 1.0.
#[derive(Debug, Clone)]
pub struct SeedInput {
    pub raw: String,
    pub source: String,
    pub weight: i64,
}

/// A seed as a mathematical value.
pub struct SeedView {
    pub raw: Seq<char>,
    pub source: Seq<char>,
    pub weight: i64,
}

impl View for SeedInput {
    type V = SeedView;

    open spec fn view(&self) -> SeedView {
        SeedView { raw: self.raw@, source: self.source@, weight: self.weight }
    }
}

/// The views of a sequence of seeds.
pub open spec fn seed_views(v: Seq<SeedInput>) -> Seq<SeedView> {
    v.map_values(|s: SeedInput| s@)
}

impl SeedInput {
    /// A seed of weight 1.0.
    pub fn new(raw: &str, source: &str) -> (s: SeedInput)
        ensures
            s@ == (SeedView { raw: raw@, source: source@, weight: SCORE_SCALE }),
    {
        SeedInput { raw: raw.to_owned(), source: source.to_owned(), weight: SCORE_SCALE }
    }

    /// The seed with its weight replaced by `weight`.
    pub fn with_weight(self, weight: i64) -> (s: SeedInput)
        ensures
            s@ == (SeedView { weight, ..self@ }),
    {
        let mut s = self;
        s.weight = weight;
        s
    }
}

/// A tile that failed validation, with the reason.
#[derive(Debug)]
pub struct ValidationError {
    pub tile_id: u64,
    pub reason: String,
}

} // verus!
