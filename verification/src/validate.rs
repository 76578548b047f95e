//! Stage 2: separating well-formed tiles from those that break a rule.
use vstd::prelude::*;
use vstd::string::StringExecFns;
use crate::stage::Stage;
use crate::text::{blank, byte_len, contains_nul, decimal, has_nul, is_blank, push_decimal};
use crate::tile::{Tile, TileView, rejection_views, tile_views};

verus! {

/// Checks each tile against content-length bounds and well-formedness rules.
pub struct ValidateStage {
    pub min_content_len: usize,
    pub max_content_len: usize,
}

impl Default for ValidateStage {
    fn default() -> (s: Self)
        ensures
            s.min_content_len == 3,
            s.max_content_len == 4096,
    {
        ValidateStage { min_content_len: 3, max_content_len: 4096 }
    }
}

/// Why `t` breaks a rule of `stage`, or `None` when it breaks none. Rules
/// are tried in order: blank content, blank source, content shorter or
/// longer (in UTF-8 bytes) than the bounds, a NUL character in the content.
pub open spec fn rejection_reason(stage: ValidateStage, t: TileView) -> Option<Seq<char>> {
    let len = byte_len(t.content);
    if blank(t.content) {
        Some("empty content"@)
    } else if blank(t.source) {
        Some("missing source"@)
    } else if len < stage.min_content_len {
        Some("content too short ("@ + decimal(len as nat) + ")"@)
    } else if len > stage.max_content_len {
        Some("content too long ("@ + decimal(len as nat) + ")"@)
    } else if has_nul(t.content) {
        Some("null byte in content"@)
    } else {
        None
    }
}

/// The tiles of `s` that pass every rule, in order.
pub open spec fn accepted(stage: ValidateStage, s: Seq<TileView>) -> Seq<TileView>
    decreases s.len(),
{
    if s.len() == 0 {
        Seq::empty()
    } else {
        let rest = accepted(stage, s.drop_last());
        if rejection_reason(stage, s.last()) is None {
            rest.push(s.last())
        } else {
            rest
        }
    }
}

/// The tiles of `s` that break a rule, each with its reason, in order.
pub open spec fn refused(stage: ValidateStage, s: Seq<TileView>) -> Seq<(TileView, Seq<char>)>
    decreases s.len(),
{
    if s.len() == 0 {
        Seq::empty()
    } else {
        let rest = refused(stage, s.drop_last());
        match rejection_reason(stage, s.last()) {
            Some(r) => rest.push((s.last(), r)),
            None => rest,
        }
    }
}

fn reason_with_len(prefix: &str, len: usize) -> (r: String)
    ensures
        r@ == prefix@ + decimal(len as nat) + ")"@,
{
    let mut r = prefix.to_owned();
    push_decimal(&mut r, len);
    r.append(")");
    r
}

impl ValidateStage {
    /// Why `tile` breaks a rule, or `None` when it is well formed.
    fn check(&self, tile: &Tile) -> (r: Option<String>)
        ensures
            match r {
                Some(s) => rejection_reason(*self, tile@) == Some(s@),
                None => rejection_reason(*self, tile@) is None,
            },
    {
        let len = tile.content.as_str().len();
        if is_blank(tile.content.as_str()) {
            return Some("empty content".to_owned());
        }
        if is_blank(tile.source.as_str()) {
            return Some("missing source".to_owned());
        }
        if len < self.min_content_len {
            return Some(reason_with_len("content too short (", len));
        }
        if len > self.max_content_len {
            return Some(reason_with_len("content too long (", len));
        }
        // Constraint gate: no null bytes
        if contains_nul(tile.content.as_str()) {
            return Some("null byte in content".to_owned());
        }
        None
    }
}

impl Stage for ValidateStage {
    type Input = Vec<Tile>;
    type Output = (Vec<Tile>, Vec<(Tile, String)>);

    fn name(&self) -> (s: &'static str)
        ensures
            s@ == "VALIDATE"@,
    {
        "VALIDATE"
    }

    fn process(&self, tiles: Vec<Tile>) -> (r: (Vec<Tile>, Vec<(Tile, String)>))
        ensures
            tile_views(r.0@) == accepted(*self, tile_views(tiles@)),
            rejection_views(r.1@) == refused(*self, tile_views(tiles@)),
    {
        let ghost all = tile_views(tiles@);
        let mut valid: Vec<Tile> = Vec::new();
        let mut rejected: Vec<(Tile, String)> = Vec::new();
        for tile in it: tiles
            invariant
                it.seq() == tiles@,
                all == tile_views(tiles@),
                tile_views(valid@) == accepted(*self, all.take(it.index() as int)),
                rejection_views(rejected@) == refused(*self, all.take(it.index() as int)),
        {
            let ghost i = it.index() as int;
            proof {
                assert(all.take(i + 1).drop_last() =~= all.take(i));
                assert(all.take(i + 1).last() == tile@);
            }
            let ghost before_valid = valid@;
            let ghost before_rejected = rejected@;
            match self.check(&tile) {
                Some(reason) => {
                    rejected.push((tile, reason));
                    proof {
                        assert(rejection_views(rejected@) =~= rejection_views(before_rejected).push(
                            (tile@, reason@),
                        ));
                        assert(tile_views(valid@) =~= tile_views(before_valid));
                    }
                },
                None => {
                    valid.push(tile);
                    proof {
                        assert(tile_views(valid@) =~= tile_views(before_valid).push(tile@));
                    }
                },
            }
        }
        proof {
            assert(all.take(all.len() as int) =~= all);
        }
        (valid, rejected)
    }
}

} // verus!
