//! The PID list screen's table: the raw data last received for each PID,
//! one row per PID in the order the PIDs first arrived, at most sixteen rows.

use vstd::prelude::*;
use vstd::string::StringSliceAdditionalSpecFns;

verus! {

/// Raw data of a PID for the PID list: the PID's name and the bytes of its
/// last answer, if it had one.
#[derive(Clone, Debug)]
pub struct Obd2Debug {
    pub type_id: &'static str,
    pub data: Option<Vec<u8>>,
}

/// The bytes of an optional answer.
pub open spec fn data_view(data: Option<Vec<u8>>) -> Option<Seq<u8>> {
    match data {
        Some(v) => Some(v@),
        None => None,
    }
}

/// Rows of the PID list.
pub const PID_LIST_CAPACITY: usize = 16;

/// A `heapless::FnvIndexMap<&'static str, Obd2Debug, 16>`: insertion-ordered,
/// keyed by the PID's name.
#[verifier::external_body]
pub struct PidTable {
    map: heapless::FnvIndexMap<&'static str, Obd2Debug, 16>,
}

/// The rows of a table in order: each key with the data of its value.
pub uninterp spec fn pid_table_rows(t: PidTable) -> Seq<(Seq<char>, Option<Seq<u8>>)>;

/// Whether some row has name `key`.
pub open spec fn has_row(rows: Seq<(Seq<char>, Option<Seq<u8>>)>, key: Seq<char>) -> bool {
    exists|i: int| 0 <= i < rows.len() && rows[i].0 == key
}

/// `heapless::FnvIndexMap::new`: an empty table.
#[verifier::external_body]
fn pid_table_new() -> (r: PidTable)
    ensures
        pid_table_rows(r) == Seq::<(Seq<char>, Option<Seq<u8>>)>::empty(),
{
    PidTable { map: heapless::FnvIndexMap::new() }
}

/// `heapless::FnvIndexMap::insert`: when a row has the key, its value is
/// replaced in place and `true` returned; otherwise the pair is appended and
/// `true` returned, unless the table holds sixteen rows already, in which
/// case it is unchanged and `false` returned.
#[verifier::external_body]
fn pid_table_insert(t: &mut PidTable, key: &'static str, value: Obd2Debug) -> (r: bool)
    ensures
        has_row(pid_table_rows(*old(t)), key@) ==> r && exists|i: int|
            0 <= i < pid_table_rows(*old(t)).len() && pid_table_rows(*old(t))[i].0 == key@
                && pid_table_rows(*final(t)) == pid_table_rows(*old(t)).update(
                i,
                (key@, data_view(value.data)),
            ),
        !has_row(pid_table_rows(*old(t)), key@) && pid_table_rows(*old(t)).len() < 16 ==> r
            && pid_table_rows(*final(t)) == pid_table_rows(*old(t)).push((key@, data_view(value.data))),
        !has_row(pid_table_rows(*old(t)), key@) && pid_table_rows(*old(t)).len() >= 16 ==> !r
            && pid_table_rows(*final(t)) == pid_table_rows(*old(t)),
{
    t.map.insert(key, value).is_ok()
}

/// Iterating a `heapless::FnvIndexMap`: the rows in order, each key with a
/// copy of its value's data.
#[verifier::external_body]
fn pid_table_list(t: &PidTable) -> (r: Vec<(&'static str, Option<Vec<u8>>)>)
    ensures
        r@.len() == pid_table_rows(*t).len(),
        forall|i: int|
            0 <= i < r@.len() ==> (#[trigger] r@[i]).0@ == pid_table_rows(*t)[i].0 && data_view(
                r@[i].1,
            ) == pid_table_rows(*t)[i].1,
{
    t.map.iter().map(|(k, v)| (*k, v.data.clone())).collect()
}

/// No two rows have the same name.
pub open spec fn names_unique(rows: Seq<(Seq<char>, Option<Seq<u8>>)>) -> bool {
    forall|i: int, j: int| 0 <= i < j < rows.len() ==> rows[i].0 != rows[j].0
}

/// The rows after recording `data` for PID `key`: the PID's row gets the
/// data; a new PID gets a row at the end while there is room, and is dropped
/// otherwise.
pub open spec fn record(rows: Seq<(Seq<char>, Option<Seq<u8>>)>, key: Seq<char>, data: Option<Seq<u8>>) -> Seq<(Seq<char>, Option<Seq<u8>>)> {
    if has_row(rows, key) {
        let i = choose|i: int| 0 <= i < rows.len() && rows[i].0 == key;
        rows.update(i, (key, data))
    } else if rows.len() < PID_LIST_CAPACITY {
        rows.push((key, data))
    } else {
        rows
    }
}

/// Recording keeps one row per PID and at most sixteen rows; the PID has a
/// row afterwards unless the list was full without it, and the other rows
/// keep their place and data.
pub proof fn lemma_record_keeps_rows(
    rows: Seq<(Seq<char>, Option<Seq<u8>>)>,
    key: Seq<char>,
    data: Option<Seq<u8>>,
)
    requires
        names_unique(rows),
        rows.len() <= PID_LIST_CAPACITY,
    ensures
        names_unique(record(rows, key, data)),
        record(rows, key, data).len() <= PID_LIST_CAPACITY,
        has_row(record(rows, key, data), key) <==> (has_row(rows, key) || rows.len() < PID_LIST_CAPACITY),
        forall|i: int|
            0 <= i < rows.len() && rows[i].0 != key ==> record(rows, key, data)[i] == rows[i],
{
    let r = record(rows, key, data);
    if has_row(rows, key) {
        let i = choose|i: int| 0 <= i < rows.len() && rows[i].0 == key;
        assert(r[i].0 == key);
    } else if rows.len() < PID_LIST_CAPACITY {
        assert(r[rows.len() as int].0 == key);
    }
}

/// The PID list: its rows and whether it must be redrawn.
pub struct Obd2DebugSelector {
    pids: PidTable,
    redraw: bool,
}

impl Obd2DebugSelector {
    #[verifier::type_invariant]
    spec fn inv(self) -> bool {
        &&& names_unique(pid_table_rows(self.pids))
        &&& pid_table_rows(self.pids).len() <= PID_LIST_CAPACITY
    }

    /// The rows, in the order the PIDs first arrived.
    pub closed spec fn rows(self) -> Seq<(Seq<char>, Option<Seq<u8>>)> {
        pid_table_rows(self.pids)
    }

    /// Whether the list must be redrawn.
    pub closed spec fn needs_redraw(self) -> bool {
        self.redraw
    }

    /// An empty list, nothing to redraw.
    pub fn new() -> (r: Obd2DebugSelector)
        ensures
            r.rows() == Seq::<(Seq<char>, Option<Seq<u8>>)>::empty(),
            !r.needs_redraw(),
            names_unique(r.rows()),
            r.rows().len() == 0,
    {
        Obd2DebugSelector { pids: pid_table_new(), redraw: false }
    }

    /// Records the data of a PID and marks the list for redrawing.
    pub fn handle_obd2_debug(&mut self, debug: &Obd2Debug)
        ensures
            final(self).rows() == record(old(self).rows(), debug.type_id@, data_view(debug.data)),
            final(self).needs_redraw(),
            names_unique(final(self).rows()),
            final(self).rows().len() <= PID_LIST_CAPACITY,
    {
        proof {
            use_type_invariant(&*self);
        }
        let ghost rows = pid_table_rows(self.pids);
        let mut pids = pid_table_new();
        std::mem::swap(&mut pids, &mut self.pids);
        let value = Obd2Debug { type_id: debug.type_id, data: debug.data.clone() };
        assert(data_view(value.data) == data_view(debug.data));
        pid_table_insert(&mut pids, debug.type_id, value);
        let ghost new_rows = pid_table_rows(pids);
        proof {
            if has_row(rows, debug.type_id@) {
                let k = choose|i: int| 0 <= i < rows.len() && rows[i].0 == debug.type_id@;
                let i = choose|i: int|
                    0 <= i < rows.len() && rows[i].0 == debug.type_id@ && new_rows == rows.update(
                        i,
                        (debug.type_id@, data_view(debug.data)),
                    );
                assert(i == k);
            }
        }
        self.pids = pids;
        self.redraw = true;
    }

    /// One row per PID, at most sixteen rows.
    pub fn row_count(&self) -> (r: usize)
        ensures
            r == self.rows().len(),
            r <= PID_LIST_CAPACITY,
            names_unique(self.rows()),
    {
        proof {
            use_type_invariant(self);
        }
        pid_table_list(&self.pids).len()
    }

    /// When the list must be redrawn, the rows to draw, in order, row `i` at
    /// `text_row_y(i)` of the first display.  The mark stays until
    /// `finish_redraw` reports the list drawn.
    pub fn pending_redraw(&self) -> (r: Option<Vec<(&'static str, Option<Vec<u8>>)>>)
        ensures
            self.needs_redraw() ==> (r matches Some(v) && v@.len() == self.rows().len() && forall|
                i: int,
            |
                0 <= i < v@.len() ==> (#[trigger] v@[i]).0@ == self.rows()[i].0 && data_view(v@[i].1)
                    == self.rows()[i].1),
            !self.needs_redraw() ==> r is None,
            names_unique(self.rows()),
            self.rows().len() <= PID_LIST_CAPACITY,
    {
        proof {
            use_type_invariant(self);
        }
        if !self.redraw {
            return None;
        }
        Some(pid_table_list(&self.pids))
    }

    /// After drawing: a list that was drawn counts as drawn; after a failed
    /// drawing it stays marked, to be drawn again.
    pub fn finish_redraw(&mut self, drawn: bool)
        ensures
            final(self).rows() == old(self).rows(),
            final(self).needs_redraw() == (old(self).needs_redraw() && !drawn),
            names_unique(final(self).rows()),
            final(self).rows().len() <= PID_LIST_CAPACITY,
    {
        proof {
            use_type_invariant(&*self);
        }
        if drawn {
            self.redraw = false;
        }
    }
}

} // verus!
