//! The players sheet: one player per row, the user id in column A, the display
//! name in column B and the track the player has chosen in column C.
use vstd::prelude::*;
use crate::decimal::decimal;
use crate::sheets::errors::DeserializeValueError;
use crate::sheets::utils::{cell_string, cell_u64, range_rows, rows_range_text, DataRanges};
use crate::sheets::value::Value;

verus! {

/// The players sheet.
#[derive(Debug)]
pub struct Players;

impl DataRanges for Players {
    open spec fn sheet_name_spec() -> Seq<char> {
        "Players"@
    }

    open spec fn first_column_spec() -> Seq<char> {
        "A"@
    }

    open spec fn last_column_spec() -> Seq<char> {
        "C"@
    }

    fn sheet_name() -> (r: &'static str) {
        "Players"
    }

    fn first_column() -> (r: &'static str) {
        "A"
    }

    fn last_column() -> (r: &'static str) {
        "C"
    }
}

impl Players {
    /// The column of a player's user id.
    pub const USER_ID_COLUMN: &'static str = "A";

    /// The column of a player's display name.
    pub const DISPLAY_NAME_COLUMN: &'static str = "B";

    /// The column of the track a player has chosen.
    pub const CURRENT_TRACK_COLUMN: &'static str = "C";
}

/// Why a row of the players sheet does not read as a player.
#[derive(Debug, PartialEq, Eq)]
pub enum PlayerRowError {
    /// An item that a player needs is missing from the row.
    Missing(&'static str),
    /// An item is not of the kind a player needs.
    Value(DeserializeValueError),
}

/// The message when a row has no user id.
pub const MISSING_USER_ID: &'static str = "Failed to get first value";

/// The message when a row has no display name.
pub const MISSING_DISPLAY_NAME: &'static str = "Failed to get display name value";

/// One player of the sheet, with the number of the row that holds it.
#[derive(Debug)]
pub struct Player {
    pub rownum: usize,
    pub user_id: u64,
    pub display_name: String,
    pub current_track: Option<String>,
}

/// The track a player has chosen, as column C holds it: a text cell gives it;
/// any other cell, or none, gives no track.
pub open spec fn track_cell(values: Seq<Value>) -> Option<Seq<char>> {
    if values.len() >= 3 {
        match values[2] {
            Value::String(t) => Some(t@),
            _ => None,
        }
    } else {
        None
    }
}

/// What a row of the players sheet holds: the user id, the display name and the
/// chosen track; or why it does not read.
pub open spec fn player_row(values: Seq<Value>) -> Result<(u64, Seq<char>, Option<Seq<char>>), PlayerRowError> {
    if values.len() < 1 {
        Err(PlayerRowError::Missing(MISSING_USER_ID))
    } else {
        match cell_u64(values[0]) {
            Err(e) => Err(PlayerRowError::Value(e)),
            Ok(id) => if values.len() < 2 {
                Err(PlayerRowError::Missing(MISSING_DISPLAY_NAME))
            } else {
                match cell_string(values[1]) {
                    Err(e) => Err(PlayerRowError::Value(e)),
                    Ok(name) => Ok((id, name@, track_cell(values))),
                }
            },
        }
    }
}

/// An optional text by its characters.
pub open spec fn opt_view(o: Option<String>) -> Option<Seq<char>> {
    match o {
        Some(s) => Some(s@),
        None => None,
    }
}

/// The players that the rows before `k` hold, the first row being the header:
/// the row at index `i` is the sheet's row `i + 1`.
pub open spec fn players_in(rows: Seq<Vec<Value>>, k: int) -> Seq<(nat, u64, Seq<char>, Option<Seq<char>>)>
    decreases k,
{
    if k <= 1 || k > rows.len() {
        Seq::empty()
    } else {
        let before = players_in(rows, k - 1);
        match player_row(rows[k - 1]@) {
            Ok((u, n, t)) => before.push((k as nat, u, n, t)),
            Err(_) => before,
        }
    }
}

/// `row` with the item at `i` set to `v`; a shorter row grows by empty cells up to it.
pub open spec fn with_cell(row: Seq<Value>, i: int, v: Value) -> Seq<Value> {
    if i < row.len() {
        row.update(i, v)
    } else {
        row + Seq::new((i - row.len()) as nat, |k: int| Value::Null) + seq![v]
    }
}

impl Player {
    /// The row number, user id, display name and chosen track of the player.
    pub open spec fn model(&self) -> (nat, u64, Seq<char>, Option<Seq<char>>) {
        (self.rownum as nat, self.user_id, self.display_name@, opt_view(self.current_track))
    }

    /// Reads a player from the row `rownum` of the sheet: the user id from column
    /// A, the display name from column B, and the chosen track from column C,
    /// where that cell holds a text.
    pub fn from_row(rownum: usize, values: Vec<Value>) -> (r: Result<Player, PlayerRowError>)
        ensures
            match player_row(values@) {
                Ok((u, n, t)) => r matches Ok(p) && p.model() == (rownum as nat, u, n, t),
                Err(e) => r == Err::<Player, PlayerRowError>(e),
            },
    {
        if values.len() < 1 {
            return Err(PlayerRowError::Missing(MISSING_USER_ID));
        }
        let user_id = match crate::sheets::utils::get_u64(&values[0]) {
            Ok(v) => v,
            Err(e) => {
                return Err(PlayerRowError::Value(e));
            },
        };
        if values.len() < 2 {
            return Err(PlayerRowError::Missing(MISSING_DISPLAY_NAME));
        }
        let display_name = match crate::sheets::utils::get_string(&values[1]) {
            Ok(v) => v,
            Err(e) => {
                return Err(PlayerRowError::Value(e));
            },
        };
        let current_track = if values.len() >= 3 {
            match crate::sheets::utils::get_string(&values[2]) {
                Ok(t) => Some(t),
                Err(_) => None,
            }
        } else {
            None
        };
        Ok(Player { rownum, user_id, display_name, current_track })
    }

    /// The row that the sheet holds for this player: the user id as text, the
    /// display name, and the chosen track, or an empty cell without one.
    pub fn to_row(&self) -> (r: Vec<Value>)
        ensures
            r@.len() == 3,
            r@[0] matches Value::String(u) && u@ == decimal(self.user_id as nat),
            r@[1] matches Value::String(n) && n@ == self.display_name@,
            match self.current_track {
                Some(t) => r@[2] matches Value::String(c) && c@ == t@,
                None => r@[2] is Null,
            },
    {
        let user_id = Value::String(crate::decimal::u64_to_string(self.user_id));
        let display_name = Value::String(self.display_name.clone());
        let current_track = match &self.current_track {
            Some(track_name) => Value::String(track_name.clone()),
            None => Value::Null,
        };
        vec![user_id, display_name, current_track]
    }

    /// The cell that holds this player's chosen track, and the value to write
    /// there to choose `track_name`.
    pub fn current_track_write(&self, track_name: &String) -> (r: (String, Value))
        ensures
            r.0@ == rows_range_text(
                Players::sheet_name_spec(),
                "C"@,
                "C"@,
                self.rownum as nat,
                self.rownum as nat,
            ),
            r.1 matches Value::String(t) && t@ == track_name@,
    {
        (Players::cell_range(self.rownum, Players::CURRENT_TRACK_COLUMN), Value::String(track_name.clone()))
    }

    /// Takes note that `track_name` was written as this player's chosen track.
    pub fn set_current_track(&mut self, track_name: String)
        ensures
            final(self).rownum == old(self).rownum,
            final(self).user_id == old(self).user_id,
            final(self).display_name@ == old(self).display_name@,
            final(self).current_track matches Some(t) && t@ == track_name@,
    {
        self.current_track = Some(track_name);
    }

    /// The cell that holds this player's display name, and the value to write
    /// there to set it to `display_name`.
    pub fn display_name_write(&self, display_name: &String) -> (r: (String, Value))
        ensures
            r.0@ == rows_range_text(
                Players::sheet_name_spec(),
                "B"@,
                "B"@,
                self.rownum as nat,
                self.rownum as nat,
            ),
            r.1 matches Value::String(t) && t@ == display_name@,
    {
        (Players::cell_range(self.rownum, Players::DISPLAY_NAME_COLUMN), Value::String(display_name.clone()))
    }

    /// Takes note that `display_name` was written as this player's display name.
    pub fn set_display_name(&mut self, display_name: String)
        ensures
            final(self).rownum == old(self).rownum,
            final(self).user_id == old(self).user_id,
            final(self).display_name@ == display_name@,
            opt_view(final(self).current_track) == opt_view(old(self).current_track),
    {
        self.display_name = display_name;
    }
}

/// Why a player could not be created.
#[derive(Debug, PartialEq, Eq)]
pub enum CreatePlayerError {
    /// The sheet already holds a player with that user id.
    AlreadyExists,
    /// The sheet did not say where it put the new row.
    MissingSheetsReturn,
    /// The range where the sheet put the new row does not name a row.
    MissingRowNumber,
    /// The new row does not read as a player.
    Row(PlayerRowError),
}

impl Players {
    /// The players of the sheet: every row after the header that reads as a
    /// player, in order, each with its row number; rows that do not read are left out.
    pub fn players_from_rows(rows: Vec<Vec<Value>>) -> (r: Vec<Player>)
        ensures
            r@.map_values(|p: Player| p.model()) == players_in(rows@, rows@.len() as int),
    {
        let mut out: Vec<Player> = Vec::new();
        if rows.len() == 0 {
            assert(out@.map_values(|p: Player| p.model()) =~= players_in(rows@, 0));
            return out;
        }
        assert(out@.map_values(|p: Player| p.model()) =~= players_in(rows@, 1));
        let mut i: usize = 1;
        while i < rows.len()
            invariant
                1 <= i <= rows@.len(),
                out@.map_values(|p: Player| p.model()) == players_in(rows@, i as int),
            decreases rows@.len() - i,
        {
            let row = crate::sheets::value::clone_row(&rows[i]);
            let ghost before = out@;
            match Player::from_row(i + 1, row) {
                Ok(p) => {
                    out.push(p);
                    assert(out@.map_values(|p: Player| p.model()) =~= before.map_values(
                        |p: Player| p.model(),
                    ).push(out@[out@.len() - 1].model()));
                },
                Err(_) => {},
            }
            i = i + 1;
        }
        out
    }

    /// The first player with the user id `user_id`, if any.
    pub fn find_by_user_id(players: Vec<Player>, user_id: u64) -> (r: Option<Player>)
        ensures
            match r {
                Some(p) => exists|i: int|
                    0 <= i < players@.len() && players@[i].model() == p.model() && p.user_id
                        == user_id && forall|j: int| 0 <= j < i ==> players@[j].user_id != user_id,
                None => forall|j: int| 0 <= j < players@.len() ==> players@[j].user_id != user_id,
            },
    {
        let ghost all = players@;
        let mut rest = players;
        let mut i: usize = 0;
        let n = rest.len();
        while i < n
            invariant
                n == all.len(),
                all == players@,
                rest@.len() == n - i,
                forall|k: int| 0 <= k < rest@.len() ==> #[trigger] rest@[k] == all[k + i],
                forall|j: int| 0 <= j < i ==> all[j].user_id != user_id,
            decreases n - i,
        {
            let p = rest.remove(0);
            assert(p == all[i as int]);
            if p.user_id == user_id {
                assert(all[i as int].model() == p.model());
                return Some(p);
            }
            i = i + 1;
        }
        None
    }

    /// Refuses to create a player that the sheet already holds.
    pub fn check_new(existing: &Option<Player>) -> (r: Result<(), CreatePlayerError>)
        ensures
            existing is Some ==> r matches Err(CreatePlayerError::AlreadyExists),
            existing is None ==> r is Ok,
    {
        match existing {
            Some(_) => Err(CreatePlayerError::AlreadyExists),
            None => Ok(()),
        }
    }

    /// The row to append for a new player: the user id as text, the display name,
    /// and the chosen track, an empty text without one.
    pub fn create_row(user_id: u64, display_name: String, track_name: Option<String>) -> (r: Vec<Value>)
        ensures
            r@.len() == 3,
            r@[0] matches Value::String(u) && u@ == decimal(user_id as nat),
            r@[1] matches Value::String(n) && n@ == display_name@,
            r@[2] matches Value::String(t) && t@ == (match track_name {
                Some(t) => t@,
                None => Seq::<char>::empty(),
            }),
    {
        let track = match track_name {
            Some(t) => t,
            None => String::new(),
        };
        vec![
            Value::String(crate::decimal::u64_to_string(user_id)),
            Value::String(display_name),
            Value::String(track),
        ]
    }

    /// The player that an appended row became: read from the row that the sheet
    /// reports it wrote, the first row of `updated_range`.
    pub fn player_after_append(updated_range: Option<String>, row: Vec<Value>) -> (r: Result<Player, CreatePlayerError>)
        ensures
            match updated_range {
                None => r matches Err(CreatePlayerError::MissingSheetsReturn),
                Some(range) => match range_rows(range@) {
                    None => r matches Err(CreatePlayerError::MissingRowNumber),
                    Some((first, _)) => match player_row(row@) {
                        Ok((u, n, t)) => r matches Ok(p) && p.model() == (first, u, n, t),
                        Err(e) => r == Err::<Player, CreatePlayerError>(CreatePlayerError::Row(e)),
                    },
                },
            },
    {
        let range = match updated_range {
            None => {
                return Err(CreatePlayerError::MissingSheetsReturn);
            },
            Some(range) => range,
        };
        let rownum = match Players::extract_rows_from_range(range.as_str()) {
            None => {
                return Err(CreatePlayerError::MissingRowNumber);
            },
            Some((first, _)) => first,
        };
        match Player::from_row(rownum, row) {
            Ok(p) => Ok(p),
            Err(e) => Err(CreatePlayerError::Row(e)),
        }
    }
}

/// A new player's row reads back as that player; without a chosen track the
/// empty text it holds reads as the empty track name.
pub proof fn lemma_create_row_reads_back(
    row: Seq<Value>,
    user_id: u64,
    display_name: Seq<char>,
    track: Seq<char>,
)
    requires
        row.len() == 3,
        row[0] matches Value::String(u) && u@ == decimal(user_id as nat),
        row[1] matches Value::String(n) && n@ == display_name,
        row[2] matches Value::String(t) && t@ == track,
    ensures
        player_row(row) == Ok::<_, PlayerRowError>((user_id, display_name, Some(track))),
{
    crate::decimal::lemma_parse_decimal(user_id as nat, u64::MAX as nat);
}

/// Writing a track into column C of a player's row and reading the row again
/// gives the same player with that track chosen.
pub proof fn lemma_track_write_reads_back(row: Seq<Value>, track: String)
    requires
        player_row(row) is Ok,
    ensures
        player_row(with_cell(row, 2, Value::String(track))) == Ok::<_, PlayerRowError>(
            (player_row(row)->Ok_0.0, player_row(row)->Ok_0.1, Some(track@)),
        ),
{
    let r2 = with_cell(row, 2, Value::String(track));
    assert(r2[0] == row[0]);
    assert(r2[1] == row[1]);
    assert(r2[2] == Value::String(track));
}

/// Writing a display name into column B of a player's row and reading the row
/// again gives the same player with that display name.
pub proof fn lemma_display_name_write_reads_back(row: Seq<Value>, name: String)
    requires
        player_row(row) is Ok,
    ensures
        player_row(with_cell(row, 1, Value::String(name))) == Ok::<_, PlayerRowError>(
            (player_row(row)->Ok_0.0, name@, player_row(row)->Ok_0.2),
        ),
{
    let r2 = with_cell(row, 1, Value::String(name));
    assert(r2[0] == row[0]);
    assert(r2.len() == row.len());
    if row.len() >= 3 {
        assert(r2[2] == row[2]);
    }
}

/// The row that `to_row` gives for a player reads back as that player: the user
/// id, the display name, and the chosen track or none.
pub proof fn lemma_to_row_reads_back(
    row: Seq<Value>,
    user_id: u64,
    display_name: Seq<char>,
    track: Option<Seq<char>>,
)
    requires
        row.len() == 3,
        row[0] matches Value::String(u) && u@ == decimal(user_id as nat),
        row[1] matches Value::String(n) && n@ == display_name,
        match track {
            Some(t) => row[2] matches Value::String(c) && c@ == t,
            None => row[2] is Null,
        },
    ensures
        player_row(row) == Ok::<_, PlayerRowError>((user_id, display_name, track)),
{
    crate::decimal::lemma_parse_decimal(user_id as nat, u64::MAX as nat);
}

} // verus!
