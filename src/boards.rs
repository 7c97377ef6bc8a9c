//! The closed set of supported boards and their canonical names.
use vstd::prelude::*;

verus! {

/// A board that the tooling supports.
#[derive(Debug, Clone, Copy, PartialEq, Eq, Structural)]
pub enum KnownBoardNames {
    NucleoF4,
    MicrobitV2,
}

/// The canonical lowercase, hyphenated name of a board.
pub open spec fn board_name(board: KnownBoardNames) -> Seq<char> {
    match board {
        KnownBoardNames::NucleoF4 => "nucleo-f4"@,
        KnownBoardNames::MicrobitV2 => "microbit-v2"@,
    }
}

/// The board whose canonical name is exactly `name`, if any.
pub open spec fn board_named(name: Seq<char>) -> Option<KnownBoardNames> {
    if name == "nucleo-f4"@ {
        Some(KnownBoardNames::NucleoF4)
    } else if name == "microbit-v2"@ {
        Some(KnownBoardNames::MicrobitV2)
    } else {
        None
    }
}

/// Every board, in declaration order.
pub open spec fn all_boards() -> Seq<KnownBoardNames> {
    seq![KnownBoardNames::NucleoF4, KnownBoardNames::MicrobitV2]
}

/// Whether two strings hold the same characters.
fn same_chars(a: &str, b: &str) -> (r: bool)
    ensures
        r == (a@ == b@),
{
    let n = a.unicode_len();
    if n != b.unicode_len() {
        return false;
    }
    let mut i: usize = 0;
    while i < n
        invariant
            n == a@.len(),
            n == b@.len(),
            i <= n,
            a@.subrange(0, i as int) == b@.subrange(0, i as int),
        decreases n - i,
    {
        if a.get_char(i) != b.get_char(i) {
            return false;
        }
        assert(a@.subrange(0, i + 1) == a@.subrange(0, i as int).push(a@[i as int]));
        assert(b@.subrange(0, i + 1) == b@.subrange(0, i as int).push(b@[i as int]));
        i = i + 1;
    }
    assert(a@ == a@.subrange(0, n as int));
    assert(b@ == b@.subrange(0, n as int));
    true
}

impl KnownBoardNames {
    /// Looks up a board by its canonical name; the match is exact and
    /// case-sensitive.
    pub fn from_str(name: &str) -> (r: Option<KnownBoardNames>)
        ensures
            r == board_named(name@),
    {
        if same_chars(name, "nucleo-f4") {
            Some(KnownBoardNames::NucleoF4)
        } else if same_chars(name, "microbit-v2") {
            Some(KnownBoardNames::MicrobitV2)
        } else {
            None
        }
    }

    /// The canonical name of this board.
    pub fn to_str(&self) -> (r: &'static str)
        ensures
            r@ == board_name(*self),
    {
        match self {
            KnownBoardNames::NucleoF4 => "nucleo-f4",
            KnownBoardNames::MicrobitV2 => "microbit-v2",
        }
    }
}

/// Every supported board, each once, in declaration order.
pub fn list_known_board_names() -> (r: Vec<KnownBoardNames>)
    ensures
        r@ == all_boards(),
{
    vec![KnownBoardNames::NucleoF4, KnownBoardNames::MicrobitV2]
}

/// The canonical names of distinct boards are distinct.
pub proof fn lemma_board_names_distinct()
    ensures
        board_name(KnownBoardNames::NucleoF4) != board_name(KnownBoardNames::MicrobitV2),
{
    reveal_strlit("nucleo-f4");
    reveal_strlit("microbit-v2");
    assert(board_name(KnownBoardNames::NucleoF4).len() != board_name(KnownBoardNames::MicrobitV2).len());
}

/// Looking up the canonical name of any board gives that board back.
pub proof fn lemma_round_trip(board: KnownBoardNames)
    ensures
        board_named(board_name(board)) == Some(board),
{
    lemma_board_names_distinct();
}

/// The listing holds every board exactly once, and has as many entries as
/// there are boards.
pub proof fn lemma_listing_exhaustive()
    ensures
        forall|b: KnownBoardNames| #[trigger] all_boards().contains(b),
        all_boards().no_duplicates(),
        all_boards().len() == 2,
{
    assert forall|b: KnownBoardNames| #[trigger] all_boards().contains(b) by {
        match b {
            KnownBoardNames::NucleoF4 => assert(all_boards()[0] == b),
            KnownBoardNames::MicrobitV2 => assert(all_boards()[1] == b),
        }
    }
}

/// Lookups keep no state: equal inputs give equal results, in both
/// directions.
pub proof fn lemma_lookups_deterministic(a: Seq<char>, b: Seq<char>, x: KnownBoardNames, y: KnownBoardNames)
    ensures
        a == b ==> board_named(a) == board_named(b),
        x == y ==> board_name(x) == board_name(y),
{
}

} // verus!
