//! The numerals that remake themselves as they decline, stated cell by cell:
//! `два`, `три`, `четыре`, `оба`; and the twofold ones that say one word in
//! the nominative and another everywhere else: `сорок — сорока`.

use vstd::prelude::*;

use crate::grammar::case::Case;
use crate::grammar::gender::Animacy;
use crate::text::{among, ends_with, lower_cyrillic, eq_str, is_among, joined, lowercase, lowered, owned, seen, starts_with, starts_with_str, rest_of, strip_suffix};

verus! {

/// The five cells of a numeral stated whole; the accusative repeats the
/// nominative for things and the genitive for living beings.
#[derive(Debug, Clone, Copy, PartialEq, Eq, Hash)]
pub struct Cells {
    /// Nominative.
    pub nominative: &'static str,
    /// Genitive.
    pub genitive: &'static str,
    /// Dative.
    pub dative: &'static str,
    /// Instrumental.
    pub instrumental: &'static str,
    /// Prepositional.
    pub prepositional: &'static str,
}

impl Cells {
    /// The form of a case.
    #[verifier::allow_in_spec]
    pub fn of(&self, case: Case, animacy: Animacy) -> &'static str
        returns
            match case.merged() {
                Case::Genitive => self.genitive,
                Case::Dative => self.dative,
                Case::Instrumental => self.instrumental,
                Case::Prepositional => self.prepositional,
                Case::Accusative => match animacy {
                    Animacy::Animate => self.genitive,
                    Animacy::Inanimate => self.nominative,
                },
                _ => self.nominative,
            },
    {
        match case.merged() {
            Case::Genitive => self.genitive,
            Case::Dative => self.dative,
            Case::Instrumental => self.instrumental,
            Case::Prepositional => self.prepositional,
            Case::Accusative => match animacy {
                Animacy::Animate => self.genitive,
                Animacy::Inanimate => self.nominative,
            },
            _ => self.nominative,
        }
    }
}

/// The numerals stated whole.
pub const WHOLE: [&'static str; 6] = ["два", "две", "три", "четыре", "оба", "обе"];

/// The cells of the numeral at a position of [`WHOLE`].
pub open spec fn whole_at(i: int) -> Cells {
    if i == 0 {
        Cells { nominative: "два", genitive: "двух", dative: "двум", instrumental: "двумя", prepositional: "двух" }
    } else if i == 1 {
        Cells { nominative: "две", genitive: "двух", dative: "двум", instrumental: "двумя", prepositional: "двух" }
    } else if i == 2 {
        Cells { nominative: "три", genitive: "трёх", dative: "трём", instrumental: "тремя", prepositional: "трёх" }
    } else if i == 3 {
        Cells {
            nominative: "четыре",
            genitive: "четырёх",
            dative: "четырём",
            instrumental: "четырьмя",
            prepositional: "четырёх",
        }
    } else if i == 4 {
        Cells { nominative: "оба", genitive: "обоих", dative: "обоим", instrumental: "обоими", prepositional: "обоих" }
    } else {
        Cells { nominative: "обе", genitive: "обеих", dative: "обеим", instrumental: "обеими", prepositional: "обеих" }
    }
}

/// The cells of the numeral at a position of [`WHOLE`].
fn whole(i: usize) -> (res: Cells)
    requires
        i < 6,
    ensures
        res == whole_at(i as int),
{
    if i == 0 {
        Cells { nominative: "два", genitive: "двух", dative: "двум", instrumental: "двумя", prepositional: "двух" }
    } else if i == 1 {
        Cells { nominative: "две", genitive: "двух", dative: "двум", instrumental: "двумя", prepositional: "двух" }
    } else if i == 2 {
        Cells { nominative: "три", genitive: "трёх", dative: "трём", instrumental: "тремя", prepositional: "трёх" }
    } else if i == 3 {
        Cells {
            nominative: "четыре",
            genitive: "четырёх",
            dative: "четырём",
            instrumental: "четырьмя",
            prepositional: "четырёх",
        }
    } else if i == 4 {
        Cells { nominative: "оба", genitive: "обоих", dative: "обоим", instrumental: "обоими", prepositional: "обоих" }
    } else {
        Cells { nominative: "обе", genitive: "обеих", dative: "обеим", instrumental: "обеими", prepositional: "обеих" }
    }
}

/// The first numeral stated whole from a position on that is the word.
pub open spec fn whole_from(word: Seq<char>, i: int) -> Option<Cells>
    decreases 6 - i,
{
    if i < 0 || i >= 6 {
        None
    } else if WHOLE@[i]@ == word {
        Some(whole_at(i))
    } else {
        whole_from(word, i + 1)
    }
}

/// The cells of a numeral stated whole, by a word already lowered.
pub fn cells_lowered(held: &str) -> (res: Option<Cells>)
    ensures
        res == whole_from(held@, 0),
{
    let mut i: usize = 0;
    while i < 6
        invariant
            i <= 6,
            whole_from(held@, 0) == whole_from(held@, i as int),
        decreases 6 - i,
    {
        if eq_str(WHOLE[i], held) {
            return Some(whole(i));
        }
        i = i + 1;
    }
    None
}

/// The cells a numeral stated whole has, by its dictionary form in any
/// case: `два` — `двух`, `двум`, `двумя`. Any other word has none.
pub fn cells_of(dictionary: &str) -> (res: Option<Cells>)
    ensures
        res == whole_from(lowercase(dictionary@), 0),
        lower_cyrillic(dictionary@) ==> res == whole_from(dictionary@, 0),
{
    let held = lowered(dictionary);
    cells_lowered(held.as_str())
}

/// The twofold numerals that close their oblique on `-а`.
pub const TWOFOLD: [&'static str; 3] = ["сорок", "девяносто", "сто"];

/// The oblique form of a twofold numeral, by a word already lowered.
pub open spec fn oblique_of(held: Seq<char>) -> Option<Seq<char>> {
    if starts_with(held, "полтор"@) {
        let rest = held.subrange(6, held.len() as int);
        if rest == "а"@ || rest == "ы"@ {
            Some("полутора"@)
        } else if rest == "аста"@ {
            Some("полутораста"@)
        } else {
            None
        }
    } else if among(held, TWOFOLD@) {
        let stem = if ends_with(held, "о"@) { held.drop_last() } else { held };
        Some(stem + "а"@)
    } else {
        None
    }
}

/// The oblique of a word already lowered.
pub fn oblique_lowered(held: &str) -> (res: Option<String>)
    ensures
        seen(res) == oblique_of(held@),
{
    proof {
        reveal_strlit("полтор");
    }
    if starts_with_str(held, "полтор") {
        let rest = rest_of(held, 6);
        if eq_str(rest, "а") || eq_str(rest, "ы") {
            return Some(owned("полутора"));
        }
        if eq_str(rest, "аста") {
            return Some(owned("полутораста"));
        }
        return None;
    }
    if !is_among(held, &TWOFOLD) {
        return None;
    }
    let stem = match strip_suffix(held, "о") {
        Some(stem) => {
            proof {
                reveal_strlit("о");
            }
            assert(stem@ =~= held@.drop_last());
            stem
        },
        None => held,
    };
    Some(joined(stem, "а"))
}

/// The one word a twofold numeral says in every case but the nominative and
/// the accusative: `сорок — сорока`, `сто — ста`, `полтора — полутора`.
pub fn oblique(dictionary: &str) -> (res: Option<String>)
    ensures
        seen(res) == oblique_of(lowercase(dictionary@)),
        lower_cyrillic(dictionary@) ==> seen(res) == oblique_of(dictionary@),
{
    let held = lowered(dictionary);
    oblique_lowered(held.as_str())
}

/// Reports whether a numeral is twofold.
pub fn is_twofold(dictionary: &str) -> (res: bool)
    ensures
        res == oblique_of(lowercase(dictionary@)) is Some,
{
    oblique(dictionary).is_some()
}

/// How the cells of a numeral stated whole hang together.
pub open spec fn cells_hang_together(cells: Cells) -> bool {
    &&& cells.genitive@.len() > 1
    &&& cells.genitive@.last() == 'х'
    &&& cells.dative@ == cells.genitive@.drop_last().push('м')
    &&& cells.prepositional == cells.genitive
}

/// The cells of every numeral stated whole hang together: the genitive and
/// the prepositional are one form in `-х`, and the dative trades that `-х`
/// for `-м` — `трёх`, `трём`; `двух`, `двум`; `обоих`, `обоим`.
pub proof fn whole_cells_hang_together(i: int)
    requires
        0 <= i < 6,
    ensures
        cells_hang_together(whole_at(i)),
{
    reveal_strlit("двух");
    reveal_strlit("двум");
    reveal_strlit("двумя");
    reveal_strlit("трёх");
    reveal_strlit("трём");
    reveal_strlit("тремя");
    reveal_strlit("четырёх");
    reveal_strlit("четырём");
    reveal_strlit("четырьмя");
    reveal_strlit("обоих");
    reveal_strlit("обоим");
    reveal_strlit("обоими");
    reveal_strlit("обеих");
    reveal_strlit("обеим");
    reveal_strlit("обеими");
    let cells = whole_at(i);
    assert(cells.dative@ =~= cells.genitive@.drop_last().push('м'));
}

/// A numeral found among those stated whole has cells that hang together.
pub proof fn found_whole_cells_hang_together(word: Seq<char>, i: int)
    requires
        0 <= i,
        whole_from(word, i) is Some,
    ensures
        cells_hang_together(whole_from(word, i).unwrap()),
    decreases 6 - i,
{
    if WHOLE@[i]@ == word {
        whole_cells_hang_together(i);
    } else {
        found_whole_cells_hang_together(word, i + 1);
    }
}

} // verus!
