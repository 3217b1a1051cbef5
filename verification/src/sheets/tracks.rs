//! The tracks sheet: one track per row, its name in column A and the address of
//! its icon in column B.
use vstd::prelude::*;
use crate::sheets::errors::DeserializeValueError;
use crate::sheets::utils::DataRanges;
use crate::sheets::value::Value;

verus! {

/// The icon shown for a track that the tracks sheet does not list.
pub const DEFAULT_ICON_URL: &'static str = "https://mario.wiki.gallery/images/thumb/4/47/MKWorldFreeroamWarioWaluigi.png/1600px-MKWorldFreeroamWarioWaluigi.png";

/// The tracks sheet.
#[derive(Debug)]
pub struct Tracks;

impl DataRanges for Tracks {
    open spec fn sheet_name_spec() -> Seq<char> {
        "Tracks"@
    }

    open spec fn first_column_spec() -> Seq<char> {
        "A"@
    }

    open spec fn last_column_spec() -> Seq<char> {
        "B"@
    }

    fn sheet_name() -> (r: &'static str) {
        "Tracks"
    }

    fn first_column() -> (r: &'static str) {
        "A"
    }

    fn last_column() -> (r: &'static str) {
        "B"
    }
}

impl Tracks {
    /// The column of a track's name.
    pub const NAME_COLUMN: &'static str = "A";

    /// The column of the address of a track's icon.
    pub const ICON_FILE_URL_COLUMN: &'static str = "B";
}

/// One track of the sheet, with the number of the row that holds it.
#[derive(Debug)]
pub struct Track {
    pub rownum: usize,
    pub name: String,
    pub icon_url: String,
}

/// What a row of the tracks sheet holds: its name and the address of its icon,
/// both text cells; or the first item that is missing or not a text.
pub open spec fn track_row(values: Seq<Value>) -> Result<(Seq<char>, Seq<char>), DeserializeValueError> {
    if values.len() < 1 {
        Err(DeserializeValueError::MissingItem { missing_index: 0, expected_item_count: 2 })
    } else {
        match values[0] {
            Value::String(name) => if values.len() < 2 {
                Err(DeserializeValueError::MissingItem { missing_index: 1, expected_item_count: 2 })
            } else {
                match values[1] {
                    Value::String(url) => Ok((name@, url@)),
                    v => Err(
                        DeserializeValueError::UnexpectedValueType {
                            input_value: v,
                            allowed_inputs: "String",
                            intended_output: "String",
                        },
                    ),
                }
            },
            v => Err(
                DeserializeValueError::UnexpectedValueType {
                    input_value: v,
                    allowed_inputs: "String",
                    intended_output: "String",
                },
            ),
        }
    }
}

/// The tracks that the rows before `k` hold, the first row being the header:
/// the row at index `i` is the sheet's row `i + 1`.
pub open spec fn tracks_in(rows: Seq<Vec<Value>>, k: int) -> Seq<(nat, Seq<char>, Seq<char>)>
    decreases k,
{
    if k <= 1 || k > rows.len() {
        Seq::empty()
    } else {
        let before = tracks_in(rows, k - 1);
        match track_row(rows[k - 1]@) {
            Ok((n, u)) => before.push((k as nat, n, u)),
            Err(_) => before,
        }
    }
}

impl Track {
    /// The row number, name and icon address of the track.
    pub open spec fn model(&self) -> (nat, Seq<char>, Seq<char>) {
        (self.rownum as nat, self.name@, self.icon_url@)
    }

    /// Reads a track from the row `rownum` of the sheet.
    pub fn from_row(rownum: usize, values: Vec<Value>) -> (r: Result<Track, DeserializeValueError>)
        ensures
            match track_row(values@) {
                Ok((n, u)) => r matches Ok(t) && t.rownum == rownum && t.name@ == n
                    && t.icon_url@ == u,
                Err(e) => r == Err::<Track, DeserializeValueError>(e),
            },
    {
        if values.len() < 1 {
            return Err(DeserializeValueError::MissingItem { missing_index: 0, expected_item_count: 2 });
        }
        let name = match &values[0] {
            Value::String(name) => name.clone(),
            val => {
                return Err(
                    DeserializeValueError::UnexpectedValueType {
                        input_value: val.deep_clone(),
                        allowed_inputs: "String",
                        intended_output: "String",
                    },
                );
            },
        };
        if values.len() < 2 {
            return Err(DeserializeValueError::MissingItem { missing_index: 1, expected_item_count: 2 });
        }
        let icon_url = match &values[1] {
            Value::String(url) => url.clone(),
            val => {
                return Err(
                    DeserializeValueError::UnexpectedValueType {
                        input_value: val.deep_clone(),
                        allowed_inputs: "String",
                        intended_output: "String",
                    },
                );
            },
        };
        Ok(Track { rownum, name, icon_url })
    }

    /// The row that the sheet holds for this track.
    pub fn to_row(&self) -> (r: Vec<Value>)
        ensures
            r@.len() == 2,
            r@[0] matches Value::String(n) && n@ == self.name@,
            r@[1] matches Value::String(u) && u@ == self.icon_url@,
    {
        vec![Value::String(self.name.clone()), Value::String(self.icon_url.clone())]
    }
}

impl Tracks {
    /// The tracks of the sheet: every row after the header that reads as a track,
    /// in order, each with its row number; rows that do not read are left out.
    pub fn tracks_from_rows(rows: Vec<Vec<Value>>) -> (r: Vec<Track>)
        ensures
            r@.map_values(|t: Track| t.model()) == tracks_in(rows@, rows@.len() as int),
    {
        let mut out: Vec<Track> = Vec::new();
        let mut i: usize = 1;
        if rows.len() == 0 {
            assert(out@.map_values(|t: Track| t.model()) =~= tracks_in(rows@, 0));
            return out;
        }
        assert(out@.map_values(|t: Track| t.model()) =~= tracks_in(rows@, 1));
        while i < rows.len()
            invariant
                1 <= i <= rows@.len(),
                out@.map_values(|t: Track| t.model()) == tracks_in(rows@, i as int),
            decreases rows@.len() - i,
        {
            let row = crate::sheets::value::clone_row(&rows[i]);
            let ghost before = out@;
            match Track::from_row(i + 1, row) {
                Ok(t) => {
                    out.push(t);
                    assert(out@.map_values(|t: Track| t.model()) =~= before.map_values(
                        |t: Track| t.model(),
                    ).push(out@[out@.len() - 1].model()));
                },
                Err(_) => {},
            }
            i = i + 1;
        }
        out
    }

    /// Whether one of the tracks has the name `name`.
    pub fn has_track(tracks: &Vec<Track>, name: &String) -> (r: bool)
        ensures
            r == exists|i: int| 0 <= i < tracks@.len() && tracks@[i].name@ == name@,
    {
        let mut i: usize = 0;
        while i < tracks.len()
            invariant
                i <= tracks@.len(),
                forall|j: int| 0 <= j < i ==> tracks@[j].name@ != name@,
            decreases tracks@.len() - i,
        {
            if tracks[i].name == *name {
                return true;
            }
            i = i + 1;
        }
        false
    }

    /// The names of the tracks, in order.
    pub fn names(tracks: &Vec<Track>) -> (r: Vec<String>)
        ensures
            r@.len() == tracks@.len(),
            forall|i: int| 0 <= i < tracks@.len() ==> #[trigger] r@[i]@ == tracks@[i].name@,
    {
        let mut out: Vec<String> = Vec::new();
        let mut i: usize = 0;
        while i < tracks.len()
            invariant
                i <= tracks@.len(),
                out@.len() == i,
                forall|j: int| 0 <= j < i ==> #[trigger] out@[j]@ == tracks@[j].name@,
            decreases tracks@.len() - i,
        {
            out.push(tracks[i].name.clone());
            i = i + 1;
        }
        out
    }

    /// The icon address of the first track named `name`, or the default icon.
    pub fn icon_url_for(tracks: &Vec<Track>, name: &String) -> (r: String)
        ensures
            (exists|i: int| 0 <= i < tracks@.len() && tracks@[i].name@ == name@) ==> exists|i: int|
                0 <= i < tracks@.len() && tracks@[i].name@ == name@ && r@ == tracks@[i].icon_url@
                    && forall|j: int| 0 <= j < i ==> tracks@[j].name@ != name@,
            !(exists|i: int| 0 <= i < tracks@.len() && tracks@[i].name@ == name@) ==> r@
                == DEFAULT_ICON_URL@,
    {
        let mut i: usize = 0;
        while i < tracks.len()
            invariant
                i <= tracks@.len(),
                forall|j: int| 0 <= j < i ==> tracks@[j].name@ != name@,
            decreases tracks@.len() - i,
        {
            if tracks[i].name == *name {
                return tracks[i].icon_url.clone();
            }
            i = i + 1;
        }
        DEFAULT_ICON_URL.to_string()
    }
}

/// The row that `to_row` gives for a track reads back as that track.
pub proof fn lemma_to_row_reads_back(row: Seq<Value>, name: Seq<char>, icon_url: Seq<char>)
    requires
        row.len() == 2,
        row[0] matches Value::String(n) && n@ == name,
        row[1] matches Value::String(u) && u@ == icon_url,
    ensures
        track_row(row) == Ok::<_, DeserializeValueError>((name, icon_url)),
{
}

} // verus!
