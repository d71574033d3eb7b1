//! Players found in a server's console log.
use vstd::prelude::*;
use vstd::string::*;

use crate::bindings::{regex_captures2, uuid_parse};
use crate::ids::{hyphenated_uuid_value, is_hyphenated_uuid_text};
use crate::text::next_index_of;

verus! {

/// The pattern of a console log line that names a player.
pub const PLAYER_PATTERN: &'static str =
    "identityId=(?P<uuid>[0-9a-f]{8}-[0-9a-f]{4}-[0-9a-f]{4}-[0-9a-f]{4}-[0-9a-f]{12}) name=(?P<name>.*)";

/// `identityId=`
pub open spec fn identity_marker() -> Seq<char> {
    seq!['i', 'd', 'e', 'n', 't', 'i', 't', 'y', 'I', 'd', '=']
}

/// ` name=`
pub open spec fn name_marker() -> Seq<char> {
    seq![' ', 'n', 'a', 'm', 'e', '=']
}

/// Whether a player mention starts at `i`: `identityId=`, a lowercase hyphenated UUID,
/// then ` name=`.
pub open spec fn player_match_at(t: Seq<char>, i: int) -> bool {
    &&& 0 <= i
    &&& i + 53 <= t.len()
    &&& t.subrange(i, i + 11) == identity_marker()
    &&& is_hyphenated_uuid_text(t.subrange(i + 11, i + 47))
    &&& t.subrange(i + 47, i + 53) == name_marker()
}

/// The first position at or after `i` where a player mention starts.
pub open spec fn first_player_match_from(t: Seq<char>, i: int) -> Option<int>
    decreases t.len() - i,
{
    if i < 0 || i + 53 > t.len() {
        None
    } else if player_match_at(t, i) {
        Some(i)
    } else {
        first_player_match_from(t, i + 1)
    }
}

/// The UUID text and the name of the first player mention in `t`; the name runs to the
/// end of its line.
pub open spec fn spec_player_captures(t: Seq<char>) -> Option<
    (Option<Seq<char>>, Option<Seq<char>>),
> {
    match first_player_match_from(t, 0) {
        Some(i) => Some(
            (
                Some(t.subrange(i + 11, i + 47)),
                Some(t.subrange(i + 53, next_index_of(t, '\n', i + 53))),
            ),
        ),
        None => None,
    }
}

/// The identity and the name of the first player mention in `t`.
pub open spec fn spec_player_line(t: Seq<char>) -> Option<(u128, Seq<char>)> {
    match first_player_match_from(t, 0) {
        Some(i) => Some(
            (
                hyphenated_uuid_value(t.subrange(i + 11, i + 47)) as u128,
                t.subrange(i + 53, next_index_of(t, '\n', i + 53)),
            ),
        ),
        None => None,
    }
}

/// The identity and name as plain values.
pub open spec fn player_view(r: Option<(u128, String)>) -> Option<(u128, Seq<char>)> {
    match r {
        Some((id, name)) => Some((id, name@)),
        None => None,
    }
}

/// The player named first in `text`, if any.
pub fn parse_player_line(text: &str) -> (r: Option<(u128, String)>)
    ensures
        player_view(r) == spec_player_line(text@),
{
    let uuid_group = "uuid";
    let name_group = "name";
    proof {
        reveal_strlit("uuid");
        reveal_strlit("name");
        assert(uuid_group@ =~= seq!['u', 'u', 'i', 'd']);
        assert(name_group@ =~= seq!['n', 'a', 'm', 'e']);
    }
    let caps = regex_captures2(PLAYER_PATTERN, text, uuid_group, name_group);
    proof {
        lemma_first_player_match_sound(text@, 0);
    }
    match caps {
        Some((Some(u), Some(n))) => {
            proof {
                let i = first_player_match_from(text@, 0)->0;
                assert(u@ == text@.subrange(i + 11, i + 47));
            }
            match uuid_parse(u.as_str()) {
                Some(id) => Some((id, n)),
                None => None,
            }
        },
        _ => None,
    }
}

/// A position found by the search is the start of a player mention.
pub proof fn lemma_first_player_match_sound(t: Seq<char>, k: int)
    ensures
        first_player_match_from(t, k) matches Some(i) ==> k <= i && player_match_at(t, i),
    decreases t.len() - k,
{
    if !(k < 0 || k + 53 > t.len()) && !player_match_at(t, k) {
        lemma_first_player_match_sound(t, k + 1);
    }
}

/// The characters of each line.
pub open spec fn lines_view(lines: Seq<String>) -> Seq<Seq<char>> {
    lines.map_values(|s: String| s@)
}

/// The players recorded after reading `k` lines: each line's first player mention is
/// recorded, a later record of the same identity replacing the name.
pub open spec fn spec_players_after(lines: Seq<Seq<char>>, k: int) -> Map<u128, Seq<char>>
    decreases k,
{
    if k <= 0 {
        Map::empty()
    } else {
        let m = spec_players_after(lines, k - 1);
        match spec_player_line(lines[k - 1]) {
            Some((id, name)) => m.insert(id, name),
            None => m,
        }
    }
}

/// Whether line `j` of `lines` names the player `id` first.
pub open spec fn line_names(lines: Seq<Seq<char>>, j: int, id: u128) -> bool {
    spec_player_line(lines[j]) matches Some((x, _)) && x == id
}

/// The name that line `j` of `lines` gives its first player (empty if it names none).
pub open spec fn line_name(lines: Seq<Seq<char>>, j: int) -> Seq<char> {
    match spec_player_line(lines[j]) {
        Some((_, n)) => n,
        None => seq![],
    }
}

/// A player named by some line stays recorded whatever lines follow.
proof fn lemma_player_kept(lines: Seq<Seq<char>>, i: int, id: u128, k: int)
    requires
        0 <= i < k <= lines.len(),
        line_names(lines, i, id),
    ensures
        spec_players_after(lines, k).contains_key(id),
    decreases k,
{
    if k > i + 1 {
        lemma_player_kept(lines, i, id, k - 1);
    }
}

/// The name recorded for a player is the one its last mention gives.
proof fn lemma_player_last_name(lines: Seq<Seq<char>>, i: int, id: u128, name: Seq<char>, k: int)
    requires
        0 <= i < k <= lines.len(),
        spec_player_line(lines[i]) == Some((id, name)),
        forall|j: int| i < j < lines.len() ==> !line_names(lines, j, id),
    ensures
        spec_players_after(lines, k).contains_key(id),
        spec_players_after(lines, k)[id] == name,
    decreases k,
{
    if k > i + 1 {
        lemma_player_last_name(lines, i, id, name, k - 1);
        assert(!line_names(lines, k - 1, id));
    }
}

/// Only players that some line names are recorded.
proof fn lemma_player_named(lines: Seq<Seq<char>>, id: u128, k: int)
    requires
        0 <= k <= lines.len(),
        spec_players_after(lines, k).contains_key(id),
    ensures
        exists|j: int| 0 <= j < k && #[trigger] line_names(lines, j, id),
    decreases k,
{
    if k > 0 {
        if line_names(lines, k - 1, id) {
        } else {
            lemma_player_named(lines, id, k - 1);
            let j = choose|j: int| 0 <= j < k - 1 && #[trigger] line_names(lines, j, id);
            assert(line_names(lines, j, id));
        }
    }
}

/// Every line counts, wherever it stands: the players recorded from `lines` are exactly
/// those some line names first, each under the name of its last such line.
pub proof fn lemma_players_recorded(lines: Seq<Seq<char>>)
    ensures
        forall|i: int, id: u128|
            0 <= i < lines.len() && #[trigger] line_names(lines, i, id) ==> spec_players_after(
                lines,
                lines.len() as int,
            ).contains_key(id),
        forall|i: int, id: u128|
            0 <= i < lines.len() && #[trigger] line_names(lines, i, id) && (forall|j: int|
                i < j < lines.len() ==> !line_names(lines, j, id)) ==> spec_players_after(
                lines,
                lines.len() as int,
            )[id] == line_name(lines, i),
        forall|id: u128|
            #[trigger] spec_players_after(lines, lines.len() as int).contains_key(id) ==> exists|
                j: int,
            | 0 <= j < lines.len() && #[trigger] line_names(lines, j, id),
{
    assert forall|i: int, id: u128|
        0 <= i < lines.len() && #[trigger] line_names(lines, i, id) implies spec_players_after(
        lines,
        lines.len() as int,
    ).contains_key(id) by {
        lemma_player_kept(lines, i, id, lines.len() as int);
    }
    assert forall|i: int, id: u128|
        0 <= i < lines.len() && #[trigger] line_names(lines, i, id) && (forall|j: int|
            i < j < lines.len() ==> !line_names(lines, j, id)) implies spec_players_after(
        lines,
        lines.len() as int,
    )[id] == line_name(lines, i) by {
        lemma_player_last_name(lines, i, id, line_name(lines, i), lines.len() as int);
    }
    assert forall|id: u128|
        #[trigger] spec_players_after(lines, lines.len() as int).contains_key(id) implies exists|
        j: int,
    | 0 <= j < lines.len() && #[trigger] line_names(lines, j, id) by {
        lemma_player_named(lines, id, lines.len() as int);
    }
}

/// Whether the pairs name each identity once and hold exactly the map `m`.
pub open spec fn pairs_hold(r: Seq<(u128, String)>, m: Map<u128, Seq<char>>) -> bool {
    &&& forall|i: int, j: int| 0 <= i < j < r.len() ==> #[trigger] r[i].0 != #[trigger] r[j].0
    &&& forall|i: int|
        0 <= i < r.len() ==> m.contains_key(#[trigger] r[i].0) && m[r[i].0] == r[i].1@
    &&& forall|id: u128| m.contains_key(id) ==> exists|i: int| 0 <= i < r.len() && #[trigger] r[i].0 == id
}

fn record_player(r: &mut Vec<(u128, String)>, id: u128, name: String, Ghost(m): Ghost<Map<u128, Seq<char>>>)
    requires
        pairs_hold(old(r)@, m),
    ensures
        pairs_hold(final(r)@, m.insert(id, name@)),
{
    let ghost nm = name@;
    let mut i: usize = 0;
    while i < r.len()
        invariant
            0 <= i <= r@.len(),
            nm == name@,
            pairs_hold(r@, m),
            forall|j: int| 0 <= j < i ==> #[trigger] r@[j].0 != id,
        decreases r@.len() - i,
    {
        if r[i].0 == id {
            let ghost before = r@;
            r.set(i, (id, name));
            proof {
                let mm = m.insert(id, nm);
                assert forall|a: int, b: int| 0 <= a < b < r@.len() implies #[trigger] r@[a].0
                    != #[trigger] r@[b].0 by {
                    assert(before[a].0 != before[b].0);
                }
                assert forall|a: int| 0 <= a < r@.len() implies mm.contains_key(
                    #[trigger] r@[a].0,
                ) && mm[r@[a].0] == r@[a].1@ by {
                    if a == i {
                        assert(r@[a].0 == id);
                        assert(r@[a].1@ == nm);
                    } else {
                        assert(before[a] == r@[a]);
                        assert(m.contains_key(before[a].0));
                        if a < i {
                            assert(before[a].0 != before[i as int].0);
                        } else {
                            assert(before[i as int].0 != before[a].0);
                        }
                    }
                }
                assert forall|k: u128| mm.contains_key(k) implies exists|a: int|
                    0 <= a < r@.len() && #[trigger] r@[a].0 == k by {
                    if k == id {
                        assert(r@[i as int].0 == k);
                    } else {
                        let a = choose|a: int| 0 <= a < before.len() && #[trigger] before[a].0 == k;
                        assert(r@[a].0 == k);
                    }
                }
            }
            return;
        }
        i = i + 1;
    }
    let ghost before = r@;
    r.push((id, name));
    proof {
        let mm = m.insert(id, nm);
        assert forall|a: int, b: int| 0 <= a < b < r@.len() implies #[trigger] r@[a].0
            != #[trigger] r@[b].0 by {
            if b < before.len() {
                assert(before[a].0 != before[b].0);
            } else {
                assert(r@[a] == before[a]);
            }
        }
        assert forall|a: int| 0 <= a < r@.len() implies mm.contains_key(#[trigger] r@[a].0)
            && mm[r@[a].0] == r@[a].1@ by {
            if a < before.len() {
                assert(r@[a] == before[a]);
            }
        }
        assert forall|k: u128| mm.contains_key(k) implies exists|a: int|
            0 <= a < r@.len() && #[trigger] r@[a].0 == k by {
            if k == id {
                assert(r@[before.len() as int].0 == k);
            } else {
                let a = choose|a: int| 0 <= a < before.len() && #[trigger] before[a].0 == k;
                assert(r@[a] == before[a]);
            }
        }
    }
}

/// The players named in `lines`, each line's first mention counted, one pair per identity.
pub fn collect_new_players(lines: &Vec<String>) -> (r: Vec<(u128, String)>)
    ensures
        pairs_hold(r@, spec_players_after(lines_view(lines@), lines@.len() as int)),
{
    let mut found: Vec<(u128, String)> = Vec::new();
    let mut k: usize = 0;
    while k < lines.len()
        invariant
            k <= lines@.len(),
            pairs_hold(found@, spec_players_after(lines_view(lines@), k as int)),
        decreases lines@.len() - k,
    {
        let ghost m = spec_players_after(lines_view(lines@), k as int);
        proof {
            assert(lines_view(lines@)[k as int] == lines@[k as int]@);
        }
        match parse_player_line(lines[k].as_str()) {
            Some((id, name)) => {
                record_player(&mut found, id, name, Ghost(m));
            },
            None => {},
        }
        k = k + 1;
    }
    found
}

} // verus!
