use vstd::prelude::*;
use crate::faction::{faction_code, faction_formal_title, faction_name_ja, FactionId};
use crate::hex::HexCoord;
use crate::terrain::{passable_ground, TerrainType};
use crate::territory::FactionOutpost;
use crate::text::{decimal, push_decimal, string_append};

verus! {

/// The owner line of the tile panel: the faction's code, short name and
/// formal title, or the neutral note.
pub open spec fn owner_text(owner: Option<FactionId>) -> Seq<char> {
    match owner {
        Some(f) => "国"@ + faction_code(f) + "【"@ + faction_name_ja(f) + "】("@ + faction_formal_title(f)
            + ")"@,
        None => "未領有・未開拓域 (Neutral Territory)"@,
    }
}

/// The owner line of the tile panel, as `owner_text` states.
pub fn owner_line(owner: Option<FactionId>) -> (t: String)
    ensures
        t@ == owner_text(owner),
{
    match owner {
        Some(f) => {
            let mut t = String::from_str("国");
            string_append(&mut t, f.code());
            string_append(&mut t, "【");
            string_append(&mut t, f.name_ja());
            string_append(&mut t, "】(");
            string_append(&mut t, f.formal_title());
            string_append(&mut t, ")");
            t
        },
        None => String::from_str("未領有・未開拓域 (Neutral Territory)"),
    }
}

/// Whether ground units can enter the tile, in words.
pub open spec fn passability_text(t: TerrainType) -> Seq<char> {
    if passable_ground(t) {
        "通行可能"@
    } else {
        "通行不能 (特殊部隊/航空機のみ)"@
    }
}

/// Whether ground units can enter the tile, as `passability_text` states.
pub fn passability_line(t: TerrainType) -> (s: &'static str)
    ensures
        s@ == passability_text(t),
{
    if t.is_passable_ground() {
        "通行可能"
    } else {
        "通行不能 (特殊部隊/航空機のみ)"
    }
}

/// The outpost part of the tile panel: its name and level, and the hint to
/// open the city window when the outpost's faction owns the tile.
pub open spec fn outpost_text(name: Seq<char>, level: u32, owned_by_its_faction: bool) -> Seq<char> {
    let head = "\n\n【都市・前哨基地】\n  "@ + name + " (Lv."@ + decimal(level as nat) + ")"@;
    if owned_by_its_faction {
        head + "\n  ※[C]キーで都市管理・部隊生産画面を開く"@
    } else {
        head
    }
}

/// Position of the first outpost on `coord`, if any.
pub open spec fn first_outpost_on(outposts: Seq<FactionOutpost>, coord: HexCoord) -> Option<int> {
    if exists|i: int| 0 <= i < outposts.len() && #[trigger] outposts[i].coord == coord {
        Some(
            choose|i: int|
                0 <= i < outposts.len() && #[trigger] outposts[i].coord == coord && forall|j: int|
                    0 <= j < i ==> #[trigger] outposts[j].coord != coord,
        )
    } else {
        None
    }
}

/// The outpost part of the tile panel for the tile `coord` owned by
/// `owner`: the first outpost on the tile as `outpost_text` states, or
/// nothing when the tile has none.
pub fn outpost_line(outposts: &Vec<FactionOutpost>, coord: HexCoord, owner: Option<FactionId>) -> (t:
    String)
    ensures
        t@ == match first_outpost_on(outposts@, coord) {
            Some(i) => outpost_text(
                outposts@[i].name@,
                outposts@[i].level,
                owner == Some(outposts@[i].faction),
            ),
            None => Seq::<char>::empty(),
        },
{
    let mut i: usize = 0;
    while i < outposts.len()
        invariant
            i <= outposts@.len(),
            forall|j: int| 0 <= j < i ==> #[trigger] outposts@[j].coord != coord,
        decreases outposts@.len() - i,
    {
        if outposts[i].coord == coord {
            proof {
                let w = choose|w: int|
                    0 <= w < outposts@.len() && #[trigger] outposts@[w].coord == coord && forall|j: int|
                        0 <= j < w ==> #[trigger] outposts@[j].coord != coord;
                assert(w == i) by {
                    if w < i {
                        assert(outposts@[w].coord != coord);
                    }
                    if w > i {
                        assert(outposts@[i as int].coord != coord);
                    }
                }
            }
            let o = &outposts[i];
            let mut t = String::from_str("\n\n【都市・前哨基地】\n  ");
            string_append(&mut t, o.name.as_str());
            string_append(&mut t, " (Lv.");
            push_decimal(&mut t, o.level as u64);
            string_append(&mut t, ")");
            if owner == Some(o.faction) {
                string_append(&mut t, "\n  ※[C]キーで都市管理・部隊生産画面を開く");
            }
            return t;
        }
        i = i + 1;
    }
    String::new()
}

} // verus!
