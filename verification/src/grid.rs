//! The fretboard grid: for every position its note and whether the note lies
//! in the selected scale, together with the inlay markers and the guard that
//! keeps a recomputation from being entered twice.

use vstd::prelude::*;
use crate::pitch::{key_of, lemma_note_round_trip, lemma_octave_up, representable, Key, Note};
use crate::scale::{in_scale, is_note_in_scale, Scale};
use crate::tuning::{note_at, playable, position_semitones, sounded};

verus! {

/// One position of the fretboard grid.
#[derive(Clone, Copy, Debug, PartialEq, Eq, Structural)]
pub struct FretCell {
    pub string: usize,
    pub fret: u32,
    pub note: Note,
    pub is_in_scale: bool,
}

/// The cell at `fret` of string `string`: the note sounded there and its
/// membership in the scale of type `scale` rooted at `key`.
pub open spec fn cell_at(tuning: Seq<Note>, key: Key, scale: Scale, string: int, fret: int) -> FretCell {
    FretCell {
        string: string as usize,
        fret: fret as u32,
        note: sounded(tuning, string, fret),
        is_in_scale: in_scale(sounded(tuning, string, fret), key, scale),
    }
}

/// The cells of one string, fret 0 first.
pub open spec fn string_row(tuning: Seq<Note>, key: Key, scale: Scale, string: int, frets: nat) -> Seq<FretCell> {
    Seq::new(frets, |f: int| cell_at(tuning, key, scale, string, f))
}

/// The whole grid: one row per string of the tuning, each with `frets`
/// cells.
pub open spec fn fretboard_table(tuning: Seq<Note>, key: Key, scale: Scale, frets: nat) -> Seq<Seq<FretCell>> {
    Seq::new(tuning.len(), |s: int| string_row(tuning, key, scale, s, frets))
}

/// The rows of a grid held in vectors.
pub open spec fn rows_of(table: Vec<Vec<FretCell>>) -> Seq<Seq<FretCell>> {
    Seq::new(table@.len(), |s: int| table@[s]@)
}

/// Computes the cells of string `string` for frets `0..fret_count`.
pub fn generate_string_data(tuning: &[Note], string: usize, key: Key, scale: Scale, fret_count: u32) -> (row: Vec<FretCell>)
    requires
        string < tuning@.len(),
        playable(tuning@, fret_count as int),
    ensures
        row@ == string_row(tuning@, key, scale, string as int, fret_count as nat),
{
    let mut row: Vec<FretCell> = Vec::new();
    let mut fret: u32 = 0;
    while fret < fret_count
        invariant
            fret <= fret_count,
            string < tuning@.len(),
            playable(tuning@, fret_count as int),
            row@.len() == fret,
            forall|f: int| 0 <= f < fret ==> #[trigger] row@[f] == cell_at(tuning@, key, scale, string as int, f),
        decreases fret_count - fret,
    {
        assert(representable(position_semitones(tuning@, string as int, fret as int)));
        let note = note_at(tuning, string, fret);
        let is_in_scale = is_note_in_scale(note, key, scale);
        row.push(FretCell { string, fret, note, is_in_scale });
        fret += 1;
    }
    assert(row@ =~= string_row(tuning@, key, scale, string as int, fret_count as nat));
    row
}

/// Computes the whole grid for an instrument tuned to `tuning`, with the
/// scale of type `scale` rooted at `key` marked, over frets `0..fret_count`.
///
/// The result depends on the arguments alone and replaces any earlier grid.
pub fn generate_fretboard_table(tuning: &[Note], key: Key, scale: Scale, fret_count: u32) -> (table: Vec<Vec<FretCell>>)
    requires
        playable(tuning@, fret_count as int),
    ensures
        rows_of(table) == fretboard_table(tuning@, key, scale, fret_count as nat),
{
    let mut table: Vec<Vec<FretCell>> = Vec::new();
    let mut string: usize = 0;
    while string < tuning.len()
        invariant
            string <= tuning@.len(),
            playable(tuning@, fret_count as int),
            table@.len() == string,
            forall|s: int| 0 <= s < string ==> (#[trigger] table@[s])@ == string_row(tuning@, key, scale, s, fret_count as nat),
        decreases tuning@.len() - string,
    {
        let row = generate_string_data(tuning, string, key, scale, fret_count);
        table.push(row);
        string += 1;
    }
    assert(rows_of(table) =~= fretboard_table(tuning@, key, scale, fret_count as nat));
    table
}

/// Frets shown by the full fretboard display: the open string and frets 1
/// to 24.
pub const DISPLAYED_FRETS: u32 = 25;

/// Guard that lets one recomputation of the grid run at a time. A request
/// that arrives while one is in flight is dropped, not queued.
pub struct RecomputeGuard {
    in_flight: bool,
}

impl RecomputeGuard {
    /// Whether a recomputation is in flight.
    pub closed spec fn busy(&self) -> bool {
        self.in_flight
    }

    /// A guard with nothing in flight.
    pub fn new() -> (guard: RecomputeGuard)
        ensures
            !guard.busy(),
    {
        RecomputeGuard { in_flight: false }
    }

    /// Whether a recomputation is in flight.
    pub fn is_busy(&self) -> (busy: bool)
        ensures
            busy == self.busy(),
    {
        self.in_flight
    }

    /// Asks to start a recomputation. Granted exactly when none is in
    /// flight; either way one is in flight afterwards.
    pub fn try_begin(&mut self) -> (granted: bool)
        ensures
            granted == !old(self).busy(),
            final(self).busy(),
    {
        let granted = !self.in_flight;
        self.in_flight = true;
        granted
    }

    /// Marks the recomputation in flight as finished.
    pub fn finish(&mut self)
        ensures
            !final(self).busy(),
    {
        self.in_flight = false;
    }
}

/// Starts a recomputation of the grid for the selected key and scale
/// numbers, unless one is already in flight: then the request is dropped,
/// nothing is computed and the guard stays taken by the one in flight.
///
/// A recomputation that was started stays in flight until the caller, having
/// put the new grid in place of the old one, calls `finish` on the guard.
pub fn update_fret_data(
    guard: &mut RecomputeGuard,
    tuning: &[Note],
    selected_key: i32,
    selected_scale: i32,
    fret_count: u32,
) -> (table: Option<Vec<Vec<FretCell>>>)
    requires
        playable(tuning@, fret_count as int),
    ensures
        final(guard).busy(),
        old(guard).busy() ==> table is None,
        !old(guard).busy() ==> table is Some && rows_of(table->0) == fretboard_table(
            tuning@,
            key_of(selected_key as int),
            Scale::of_tag(selected_scale as int),
            fret_count as nat,
        ),
{
    if !guard.try_begin() {
        return None;
    }
    let key = Key::from_int(selected_key);
    let scale = Scale::from_int(selected_scale);
    Some(generate_fretboard_table(tuning, key, scale, fret_count))
}

/// The frets that carry an inlay marker, in rising order.
pub open spec fn marked_frets() -> Seq<u8> {
    seq![3u8, 5, 7, 9, 12, 15, 17, 19, 21]
}

/// Whether `fret` is one of the marked frets.
pub open spec fn is_marked(fret: int) -> bool {
    fret == 3 || fret == 5 || fret == 7 || fret == 9 || fret == 12 || fret == 15 || fret == 17
        || fret == 19 || fret == 21
}

/// The frets that carry an inlay marker.
pub fn get_marked_frets() -> (frets: Vec<u8>)
    ensures
        frets@ == marked_frets(),
{
    let frets = vec![3u8, 5, 7, 9, 12, 15, 17, 19, 21];
    assert(frets@ =~= marked_frets());
    frets
}

/// Whether `fret` carries an inlay marker. The answer does not depend on key
/// or scale.
pub fn is_fret_marked(fret: u8) -> (marked: bool)
    ensures
        marked == is_marked(fret as int),
        marked == marked_frets().contains(fret),
{
    let frets = get_marked_frets();
    let mut i: usize = 0;
    while i < frets.len()
        invariant
            i <= frets@.len(),
            frets@ == marked_frets(),
            forall|j: int| 0 <= j < i ==> #[trigger] frets@[j] != fret,
        decreases frets@.len() - i,
    {
        if frets[i] == fret {
            assert(marked_frets()[i as int] == fret);
            return true;
        }
        i += 1;
    }
    false
}

/// The number of cells in a grid, row by row.
pub open spec fn cell_count(rows: Seq<Seq<FretCell>>) -> nat
    decreases rows.len(),
{
    if rows.len() == 0 {
        0
    } else {
        cell_count(rows.drop_last()) + rows.last().len()
    }
}

/// A grid whose rows all have `width` cells has `rows * width` cells.
pub proof fn lemma_cell_count_of_rectangle(rows: Seq<Seq<FretCell>>, width: nat)
    requires
        forall|s: int| 0 <= s < rows.len() ==> (#[trigger] rows[s]).len() == width,
    ensures
        cell_count(rows) == rows.len() * width,
    decreases rows.len(),
{
    if rows.len() > 0 {
        lemma_cell_count_of_rectangle(rows.drop_last(), width);
        assert(rows.len() * width == (rows.len() - 1) * width + width) by (nonlinear_arith);
    } else {
        assert(rows.len() * width == 0) by (nonlinear_arith)
            requires
                rows.len() == 0,
        ;
    }
}

/// The grid is a rectangle of one row per string and one cell per fret, so
/// it has exactly `strings * frets` cells, and each cell is the one its
/// position calls for.
pub proof fn lemma_table_shape(tuning: Seq<Note>, key: Key, scale: Scale, frets: nat)
    ensures
        fretboard_table(tuning, key, scale, frets).len() == tuning.len(),
        forall|s: int|
            0 <= s < tuning.len() ==> (#[trigger] fretboard_table(tuning, key, scale, frets)[s]).len()
                == frets,
        forall|s: int, f: int|
            0 <= s < tuning.len() && 0 <= f < frets ==> #[trigger] fretboard_table(
                tuning,
                key,
                scale,
                frets,
            )[s][f] == cell_at(tuning, key, scale, s, f),
        cell_count(fretboard_table(tuning, key, scale, frets)) == tuning.len() * frets,
{
    lemma_cell_count_of_rectangle(fretboard_table(tuning, key, scale, frets), frets);
}

/// Two grids computed from the same inputs are the same grid.
pub proof fn lemma_table_is_pure(
    first: Vec<Vec<FretCell>>,
    second: Vec<Vec<FretCell>>,
    tuning: Seq<Note>,
    key: Key,
    scale: Scale,
    frets: nat,
)
    requires
        rows_of(first) == fretboard_table(tuning, key, scale, frets),
        rows_of(second) == fretboard_table(tuning, key, scale, frets),
    ensures
        rows_of(first) == rows_of(second),
        first@.len() == second@.len(),
        forall|s: int| 0 <= s < first@.len() ==> (#[trigger] first@[s])@ == second@[s]@,
{
    assert(rows_of(first).len() == first@.len());
    assert(rows_of(second).len() == second@.len());
    assert forall|s: int| 0 <= s < first@.len() implies (#[trigger] first@[s])@ == second@[s]@ by {
        assert(rows_of(first)[s] == first@[s]@);
        assert(rows_of(second)[s] == second@[s]@);
    }
}

/// The open string sounds its tuning note, and twelve frets up sounds the
/// same pitch class one octave higher.
pub proof fn lemma_fret_steps(tuning: Seq<Note>, string: int, fret: int)
    requires
        0 <= string < tuning.len(),
        representable(position_semitones(tuning, string, fret)),
        representable(position_semitones(tuning, string, fret + 12)),
    ensures
        sounded(tuning, string, 0) == tuning[string],
        sounded(tuning, string, fret + 12).note == sounded(tuning, string, fret).note,
        sounded(tuning, string, fret + 12).octave == sounded(tuning, string, fret).octave + 1,
{
    lemma_note_round_trip(tuning[string]);
    lemma_octave_up(position_semitones(tuning, string, fret));
}

/// The marked frets are exactly 3, 5, 7, 9, 12, 15, 17, 19 and 21.
pub proof fn lemma_marked_frets(fret: u8)
    ensures
        marked_frets().contains(fret) <==> is_marked(fret as int),
{
    let frets = marked_frets();
    assert(frets[0] == 3 && frets[1] == 5 && frets[2] == 7 && frets[3] == 9 && frets[4] == 12
        && frets[5] == 15 && frets[6] == 17 && frets[7] == 19 && frets[8] == 21);
}

} // verus!
