//! The leaderboard.

use crate::ids::DocId;
use vstd::prelude::*;

verus! {

/// One line of the leaderboard.
#[derive(Debug, PartialEq, Eq)]
pub struct LeaderboardEntry {
    pub user_id: DocId,
    pub username: String,
    pub coins_earned: i32,
    /// The place on the board, counted from one.
    pub rank: i32,
}

/// The mathematical content of a [`LeaderboardEntry`].
pub struct LeaderboardEntryView {
    pub user_id: DocId,
    pub username: Seq<char>,
    pub coins_earned: i32,
    pub rank: i32,
}

impl View for LeaderboardEntry {
    type V = LeaderboardEntryView;

    open spec fn view(&self) -> LeaderboardEntryView {
        LeaderboardEntryView {
            user_id: self.user_id,
            username: self.username@,
            coins_earned: self.coins_earned,
            rank: self.rank,
        }
    }
}

/// The views of a list of entries.
pub open spec fn board_view(entries: Seq<LeaderboardEntry>) -> Seq<LeaderboardEntryView> {
    entries.map_values(|e: LeaderboardEntry| e@)
}

/// Who stands on the board with how many coins: an entry without its place.
pub open spec fn standing(entry: LeaderboardEntryView) -> (DocId, Seq<char>, i32) {
    (entry.user_id, entry.username, entry.coins_earned)
}

/// Whether `board` is `entries` in the order of the board, where `origin`
/// tells for each place which entry stands there: every entry stands on
/// exactly one place, those with more coins stand first, those with equal
/// coins in the order they came in, and the places are numbered from one.
pub open spec fn ranks(
    entries: Seq<LeaderboardEntryView>,
    board: Seq<LeaderboardEntryView>,
    origin: Seq<int>,
) -> bool {
    &&& board.len() == entries.len()
    &&& origin.len() == entries.len()
    &&& forall|i: int| 0 <= i < origin.len() ==> 0 <= #[trigger] origin[i] < entries.len()
    &&& forall|i: int, j: int|
        0 <= i < j < origin.len() ==> #[trigger] origin[i] != #[trigger] origin[j]
    &&& forall|i: int|
        0 <= i < board.len() ==> standing(#[trigger] board[i]) == standing(entries[origin[i]])
    &&& forall|i: int, j: int|
        0 <= i < j < board.len() ==> (#[trigger] board[i]).coins_earned > (
        #[trigger] board[j]).coins_earned || (board[i].coins_earned == board[j].coins_earned
            && origin[i] < origin[j])
    &&& forall|i: int| 0 <= i < board.len() ==> (#[trigger] board[i]).rank == i + 1
}

/// Whether `board` is the leaderboard of `entries`.
pub open spec fn is_leaderboard(
    entries: Seq<LeaderboardEntryView>,
    board: Seq<LeaderboardEntryView>,
) -> bool {
    exists|origin: Seq<int>| ranks(entries, board, origin)
}

/// Puts entries in the order of the board and numbers their places. The board
/// has room for as many places as a place number can count.
pub fn rank_leaderboard(entries: Vec<LeaderboardEntry>) -> (board: Vec<LeaderboardEntry>)
    requires
        entries@.len() < i32::MAX,
    ensures
        is_leaderboard(board_view(entries@), board_view(board@)),
{
    let ghost given = board_view(entries@);
    let mut rest = entries;
    let mut sorted: Vec<LeaderboardEntry> = Vec::new();
    let ghost mut origin: Seq<int> = Seq::empty();
    assert(board_view(rest@) =~= given.skip(0));
    while rest.len() > 0
        invariant
            sorted@.len() + rest@.len() == given.len(),
            origin.len() == sorted@.len(),
            board_view(rest@) == given.skip(sorted@.len() as int),
            forall|i: int| 0 <= i < origin.len() ==> 0 <= #[trigger] origin[i] < sorted@.len(),
            forall|i: int, j: int|
                0 <= i < j < origin.len() ==> #[trigger] origin[i] != #[trigger] origin[j],
            forall|i: int|
                0 <= i < sorted@.len() ==> standing((#[trigger] sorted@[i])@) == standing(
                    given[origin[i]],
                ),
            forall|i: int, j: int|
                0 <= i < j < sorted@.len() ==> (#[trigger] sorted@[i]).coins_earned > (
                #[trigger] sorted@[j]).coins_earned || (sorted@[i].coins_earned
                    == sorted@[j].coins_earned && origin[i] < origin[j]),
        decreases rest@.len(),
    {
        let ghost taken = sorted@.len() as int;
        let ghost old_sorted = sorted@;
        let ghost old_origin = origin;
        let ghost old_rest = board_view(rest@);
        let entry = rest.remove(0);
        let mut k: usize = 0;
        while k < sorted.len() && sorted[k].coins_earned >= entry.coins_earned
            invariant
                k <= sorted@.len(),
                forall|j: int| 0 <= j < k ==> (#[trigger] sorted@[j]).coins_earned >= entry.coins_earned,
            decreases sorted@.len() - k,
        {
            k += 1;
        }
        sorted.insert(k, entry);
        proof {
            origin = old_origin.insert(k as int, taken);
            assert(board_view(rest@) =~= old_rest.remove(0));
            assert(old_rest.remove(0) =~= given.skip(taken + 1));
            assert(entry@ == old_rest[0]);
            assert(old_rest[0] == given[taken]);
            assert forall|i: int| 0 <= i < origin.len() implies 0 <= #[trigger] origin[i]
                < sorted@.len() by {
                if i < k {
                    assert(origin[i] == old_origin[i]);
                } else if i > k {
                    assert(origin[i] == old_origin[i - 1]);
                }
            }
            assert forall|i: int, j: int| 0 <= i < j < origin.len() implies #[trigger] origin[i]
                != #[trigger] origin[j] by {
                let a = if i < k { i } else { i - 1 };
                let b = if j < k { j } else { j - 1 };
                if i != k {
                    assert(origin[i] == old_origin[a]);
                }
                if j != k {
                    assert(origin[j] == old_origin[b]);
                }
            }
            assert forall|i: int| 0 <= i < sorted@.len() implies standing(
                (#[trigger] sorted@[i])@,
            ) == standing(given[origin[i]]) by {
                if i < k {
                    assert(sorted@[i] == old_sorted[i]);
                    assert(origin[i] == old_origin[i]);
                } else if i > k {
                    assert(sorted@[i] == old_sorted[i - 1]);
                    assert(origin[i] == old_origin[i - 1]);
                }
            }
            assert forall|i: int, j: int| 0 <= i < j < sorted@.len() implies (
            #[trigger] sorted@[i]).coins_earned > (#[trigger] sorted@[j]).coins_earned || (
            sorted@[i].coins_earned == sorted@[j].coins_earned && origin[i] < origin[j]) by {
                let a = if i < k { i } else { i - 1 };
                let b = if j < k { j } else { j - 1 };
                if i != k {
                    assert(sorted@[i] == old_sorted[a]);
                    assert(origin[i] == old_origin[a]);
                }
                if j != k {
                    assert(sorted@[j] == old_sorted[b]);
                    assert(origin[j] == old_origin[b]);
                }
                if i == k {
                    assert(old_sorted[k as int].coins_earned < entry.coins_earned);
                    if b > k {
                        assert(old_sorted[k as int].coins_earned >= old_sorted[b].coins_earned);
                    }
                } else if j == k {
                    assert(old_sorted[a].coins_earned >= entry.coins_earned);
                    assert(old_origin[a] < taken);
                }
            }
        }
    }
    let ghost ordered = sorted@;
    let mut board: Vec<LeaderboardEntry> = Vec::new();
    let mut place: i32 = 0;
    while sorted.len() > 0
        invariant
            board@.len() + sorted@.len() == ordered.len(),
            ordered.len() < i32::MAX,
            place == board@.len(),
            sorted@ == ordered.skip(board@.len() as int),
            forall|i: int|
                0 <= i < board@.len() ==> (#[trigger] board@[i])@ == (LeaderboardEntryView {
                    rank: (i + 1) as i32,
                    ..ordered[i]@
                }),
        decreases sorted@.len(),
    {
        let ghost done = board@.len() as int;
        let ghost old_sorted = sorted@;
        let entry = sorted.remove(0);
        place = place + 1;
        board.push(
            LeaderboardEntry {
                user_id: entry.user_id,
                username: entry.username,
                coins_earned: entry.coins_earned,
                rank: place,
            },
        );
        proof {
            assert(entry == old_sorted[0]);
            assert(old_sorted[0] == ordered[done]);
            assert(sorted@ =~= ordered.skip(done + 1));
        }
    }
    proof {
        let b = board_view(board@);
        assert forall|i: int| 0 <= i < b.len() implies standing(#[trigger] b[i]) == standing(
            given[origin[i]],
        ) by {
            assert(b[i] == board@[i]@);
            assert(standing(ordered[i]@) == standing(given[origin[i]]));
        }
        assert forall|i: int, j: int| 0 <= i < j < b.len() implies (#[trigger] b[i]).coins_earned
            > (#[trigger] b[j]).coins_earned || (b[i].coins_earned == b[j].coins_earned
            && origin[i] < origin[j]) by {
            assert(b[i] == board@[i]@);
            assert(b[j] == board@[j]@);
            assert(ordered[i].coins_earned > ordered[j].coins_earned || (
            ordered[i].coins_earned == ordered[j].coins_earned && origin[i] < origin[j]));
        }
        assert forall|i: int| 0 <= i < b.len() implies (#[trigger] b[i]).rank == i + 1 by {
            assert(b[i] == board@[i]@);
        }
        assert(ranks(given, b, origin));
    }
    board
}

} // verus!
