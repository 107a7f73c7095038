//! From the creatures as an image stores them to creatures with the names
//! of their species and moves, looked up in the catalogs.

use vstd::prelude::*;
use crate::creature_data::pokemon::{Pokemon, PokemonView, moves_view};
use crate::creature_data::pokemon_move::{
    Move,
    MoveView,
    empty_move,
    move_entry,
    move_not_found_text,
};
use crate::creature_data::pokemon_species::{species_entry, species_not_found_text};
use crate::decoder::{CreatureRecord, CreatureView, MoveSlot, boxes_view, records_view};

verus! {

/// The values of a list of results if all of them are `Ok`, and else the
/// first error of the list.
pub open spec fn collected<T>(results: Seq<Result<T, Seq<char>>>) -> Result<Seq<T>, Seq<char>>
    decreases results.len(),
{
    if results.len() == 0 {
        Ok(Seq::empty())
    } else {
        match collected(results.drop_last()) {
            Err(error) => Err(error),
            Ok(front) => match results.last() {
                Err(error) => Err(error),
                Ok(value) => Ok(front.push(value)),
            },
        }
    }
}

/// A list of results that are all `Ok` collects to their values, in order.
pub proof fn lemma_collected_ok<T>(results: Seq<Result<T, Seq<char>>>)
    requires
        forall|i: int| 0 <= i < results.len() ==> (#[trigger] results[i]) is Ok,
    ensures
        collected(results) is Ok,
        collected(results)->Ok_0.len() == results.len(),
        forall|i: int|
            0 <= i < results.len() ==> #[trigger] collected(results)->Ok_0[i]
                == results[i]->Ok_0,
    decreases results.len(),
{
    if results.len() > 0 {
        lemma_collected_ok(results.drop_last());
        assert(results.last() is Ok);
    }
}

/// A list of results whose first error stands at `k` collects to that
/// error.
pub proof fn lemma_collected_err<T>(results: Seq<Result<T, Seq<char>>>, k: int)
    requires
        0 <= k < results.len(),
        results[k] is Err,
        forall|i: int| 0 <= i < k ==> (#[trigger] results[i]) is Ok,
    ensures
        collected(results) == Err::<Seq<T>, Seq<char>>(results[k]->Err_0),
    decreases results.len(),
{
    if k == results.len() - 1 {
        lemma_collected_ok(results.drop_last());
    } else {
        lemma_collected_err(results.drop_last(), k);
    }
}

/// The move of a slot: the empty move for the number 0, and else the move
/// that the catalog describes under the slot's number, with the slot's PP
/// and PP-Up count.
pub open spec fn resolved_move(slot: MoveSlot, moves: Seq<char>) -> Result<MoveView, Seq<char>> {
    if slot.index == 0 {
        Ok(empty_move())
    } else {
        match move_entry(moves, slot.index, slot.pp, slot.ppup) {
            Some(entry) => Ok(entry),
            None => Err(move_not_found_text(slot.index)),
        }
    }
}

/// The moves of a list of slots, or the message for the first of them that
/// the catalog does not describe.
pub open spec fn resolved_moves(slots: Seq<MoveSlot>, moves: Seq<char>) -> Result<
    Seq<MoveView>,
    Seq<char>,
> {
    collected(Seq::new(slots.len(), |k: int| resolved_move(slots[k], moves)))
}

/// The creature of a record: its moves are looked up first, in order, and
/// then its species.
pub open spec fn resolved(record: CreatureView, species: Seq<char>, moves: Seq<char>) -> Result<
    PokemonView,
    Seq<char>,
> {
    match resolved_moves(record.moves, moves) {
        Err(error) => Err(error),
        Ok(known) => match species_entry(species, record.species) {
            None => Err(species_not_found_text(record.species)),
            Some(entry) => Ok(
                PokemonView {
                    nickname: record.nickname,
                    species: entry,
                    level: record.level,
                    moves: known,
                    ot: record.ot,
                    otn: record.otn,
                    hp: record.hp,
                    evs: record.evs,
                    ivs: record.ivs,
                    stats: record.stats,
                },
            ),
        },
    }
}

/// The creatures of a list of records, or the message for the first lookup
/// that fails.
pub open spec fn resolved_all(
    records: Seq<CreatureView>,
    species: Seq<char>,
    moves: Seq<char>,
) -> Result<Seq<PokemonView>, Seq<char>> {
    collected(Seq::new(records.len(), |i: int| resolved(records[i], species, moves)))
}

/// The creatures of a list of boxes, or the message for the first lookup
/// that fails.
pub open spec fn resolved_boxes(
    boxes: Seq<Seq<CreatureView>>,
    species: Seq<char>,
    moves: Seq<char>,
) -> Result<Seq<Seq<PokemonView>>, Seq<char>> {
    collected(Seq::new(boxes.len(), |b: int| resolved_all(boxes[b], species, moves)))
}

/// What a list of creatures is.
pub open spec fn party_view(party: Seq<Pokemon>) -> Seq<PokemonView> {
    Seq::new(party.len(), |i: int| party[i]@)
}

/// What a list of boxes of creatures is.
pub open spec fn pc_view(pc: Seq<Vec<Pokemon>>) -> Seq<Seq<PokemonView>> {
    Seq::new(pc.len(), |b: int| party_view(pc[b]@))
}

/// Looks up the move of a slot in the text of the move catalog.
pub fn resolveMove(slot: &MoveSlot, moveCatalog: &str) -> (found: Result<Move, String>)
    ensures
        match resolved_move(*slot, moveCatalog@) {
            Ok(entry) => found is Ok && found->Ok_0@ == entry,
            Err(error) => found is Err && found->Err_0@ == error,
        },
{
    if slot.index == 0 {
        Ok(Move::empty())
    } else {
        Move::get(moveCatalog, slot.index, slot.pp, slot.ppup)
    }
}

/// Looks up the moves of the four slots of a creature in the text of the
/// move catalog.
pub fn resolveMoves(slots: &[MoveSlot; 4], moveCatalog: &str) -> (found: Result<Vec<Move>, String>)
    ensures
        match resolved_moves(slots@, moveCatalog@) {
            Ok(known) => found is Ok && moves_view(found->Ok_0@) == known && found->Ok_0@.len()
                == 4,
            Err(error) => found is Err && found->Err_0@ == error,
        },
{
    let ghost results = Seq::new(slots@.len(), |k: int| resolved_move(slots@[k], moveCatalog@));
    let mut returnVec: Vec<Move> = Vec::new();
    let mut moves: usize = 0;
    while moves < 4
        invariant
            moves <= 4,
            returnVec@.len() == moves,
            results == Seq::new(slots@.len(), |k: int| resolved_move(slots@[k], moveCatalog@)),
            forall|k: int|
                0 <= k < moves ==> (#[trigger] results[k]) == Ok::<MoveView, Seq<char>>(
                    returnVec@[k]@,
                ),
        decreases 4 - moves,
    {
        match resolveMove(&slots[moves], moveCatalog) {
            Ok(entry) => {
                returnVec.push(entry);
            },
            Err(message) => {
                proof {
                    lemma_collected_err(results, moves as int);
                }
                return Err(message);
            },
        }
        moves += 1;
    }
    proof {
        lemma_collected_ok(results);
        assert(moves_view(returnVec@) =~= collected(results)->Ok_0);
    }
    Ok(returnVec)
}

/// Looks up the moves and the species of a stored creature in the texts of
/// the two catalogs.
pub fn resolveRecord(record: &CreatureRecord, speciesCatalog: &str, moveCatalog: &str) -> (found:
    Result<Pokemon, String>)
    ensures
        match resolved(record@, speciesCatalog@, moveCatalog@) {
            Ok(creature) => found is Ok && found->Ok_0@ == creature,
            Err(error) => found is Err && found->Err_0@ == error,
        },
{
    let moves = match resolveMoves(&record.moves, moveCatalog) {
        Ok(known) => known,
        Err(message) => {
            return Err(message);
        },
    };
    Pokemon::get(
        speciesCatalog,
        record.species,
        record.level,
        record.nickname.clone(),
        moves,
        record.ot,
        record.otn.clone(),
        record.hp,
        record.evs,
        record.ivs,
        record.stats,
    )
}

/// Looks up the moves and the species of a list of stored creatures.
pub fn resolveAll(records: &Vec<CreatureRecord>, speciesCatalog: &str, moveCatalog: &str) -> (found:
    Result<Vec<Pokemon>, String>)
    ensures
        match resolved_all(records_view(records@), speciesCatalog@, moveCatalog@) {
            Ok(creatures) => found is Ok && party_view(found->Ok_0@) == creatures,
            Err(error) => found is Err && found->Err_0@ == error,
        },
{
    let ghost results = Seq::new(
        records@.len(),
        |i: int| resolved(records_view(records@)[i], speciesCatalog@, moveCatalog@),
    );
    let mut party: Vec<Pokemon> = Vec::new();
    let mut creature: usize = 0;
    while creature < records.len()
        invariant
            creature <= records.len(),
            party@.len() == creature,
            results == Seq::new(
                records@.len(),
                |i: int| resolved(records_view(records@)[i], speciesCatalog@, moveCatalog@),
            ),
            forall|i: int|
                0 <= i < creature ==> (#[trigger] results[i]) == Ok::<PokemonView, Seq<char>>(
                    party@[i]@,
                ),
        decreases records.len() - creature,
    {
        match resolveRecord(&records[creature], speciesCatalog, moveCatalog) {
            Ok(pokemon) => {
                party.push(pokemon);
            },
            Err(message) => {
                proof {
                    lemma_collected_err(results, creature as int);
                }
                return Err(message);
            },
        }
        creature += 1;
    }
    proof {
        lemma_collected_ok(results);
        assert(party_view(party@) =~= collected(results)->Ok_0);
    }
    Ok(party)
}

/// Looks up the moves and the species of the stored creatures of a list of
/// boxes.
pub fn resolveBoxes(
    stored: &Vec<Vec<CreatureRecord>>,
    speciesCatalog: &str,
    moveCatalog: &str,
) -> (found: Result<Vec<Vec<Pokemon>>, String>)
    ensures
        match resolved_boxes(boxes_view(stored@), speciesCatalog@, moveCatalog@) {
            Ok(creatures) => found is Ok && pc_view(found->Ok_0@) == creatures,
            Err(error) => found is Err && found->Err_0@ == error,
        },
{
    let ghost results = Seq::new(
        stored@.len(),
        |b: int| resolved_all(boxes_view(stored@)[b], speciesCatalog@, moveCatalog@),
    );
    let mut boxes: Vec<Vec<Pokemon>> = Vec::new();
    let mut pcBox: usize = 0;
    while pcBox < stored.len()
        invariant
            pcBox <= stored.len(),
            boxes@.len() == pcBox,
            results == Seq::new(
                stored@.len(),
                |b: int| resolved_all(boxes_view(stored@)[b], speciesCatalog@, moveCatalog@),
            ),
            forall|b: int|
                0 <= b < pcBox ==> (#[trigger] results[b]) == Ok::<Seq<PokemonView>, Seq<char>>(
                    party_view(boxes@[b]@),
                ),
        decreases stored.len() - pcBox,
    {
        match resolveAll(&stored[pcBox], speciesCatalog, moveCatalog) {
            Ok(currBox) => {
                boxes.push(currBox);
            },
            Err(message) => {
                proof {
                    lemma_collected_err(results, pcBox as int);
                }
                return Err(message);
            },
        }
        pcBox += 1;
    }
    proof {
        lemma_collected_ok(results);
        assert(pc_view(boxes@) =~= collected(results)->Ok_0);
    }
    Ok(boxes)
}

} // verus!
