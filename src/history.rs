//! The log of past conversions, oldest first. Records are only ever
//! appended.

use vstd::prelude::*;
use crate::text::{decimal_text, spec_decimal};

verus! {

/// One completed conversion, as the line that was shown for it.
#[derive(PartialEq, Eq, Clone, Debug)]
pub struct HistoryRecord {
    pub value: String,
}

/// Every recorded conversion, in the order they were made.
#[derive(PartialEq, Eq, Clone, Debug)]
pub struct History {
    pub list: Vec<HistoryRecord>,
}

/// The history listing is asked for while nothing has been recorded.
#[derive(PartialEq, Eq, Structural, Clone, Copy, Debug)]
pub struct EmptyHistory;

impl View for History {
    type V = Seq<Seq<char>>;

    open spec fn view(&self) -> Seq<Seq<char>> {
        self.list@.map_values(|r: HistoryRecord| r.value@)
    }
}

/// The listing line of the record at `index`, counting from zero.
pub open spec fn spec_history_line(index: int, text: Seq<char>) -> Seq<char> {
    spec_decimal((index + 1) as nat) + ". "@ + text
}

/// The numbered listing of `records`, one line per record, numbered from one.
pub open spec fn spec_history_listing(records: Seq<Seq<char>>) -> Seq<Seq<char>> {
    Seq::new(records.len(), |i: int| spec_history_line(i, records[i]))
}

impl EmptyHistory {
    pub open spec fn spec_message(self) -> Seq<char> {
        "No conversion history found."@
    }

    /// The message shown to the user.
    pub fn message(&self) -> (r: String)
        ensures
            r@ == self.spec_message(),
    {
        String::from_str("No conversion history found.")
    }
}

impl History {
    /// A history with no records.
    pub fn new() -> (r: History)
        ensures
            r@ == Seq::<Seq<char>>::empty(),
    {
        let r = History { list: Vec::new() };
        assert(r@ =~= Seq::<Seq<char>>::empty());
        r
    }

    /// Appends `record` after every record already present.
    pub fn add(&mut self, record: String)
        ensures
            final(self)@ == old(self)@.push(record@),
    {
        let ghost before = self.list@;
        self.list.push(HistoryRecord { value: record });
        assert(self@ =~= old(self)@.push(record@)) by {
            assert(self.list@ == before.push(HistoryRecord { value: record }));
        }
    }

    /// The number of records.
    pub fn len(&self) -> (r: usize)
        ensures
            r == self@.len(),
    {
        self.list.len()
    }

    /// The numbered listing, one line per record in insertion order; there is
    /// nothing to list in an empty history.
    pub fn render(&self) -> (r: Result<Vec<String>, EmptyHistory>)
        ensures
            r is Err <==> self@.len() == 0,
            r matches Ok(lines) ==> lines@.map_values(|l: String| l@) == spec_history_listing(
                self@,
            ),
    {
        let n = self.list.len();
        if n == 0 {
            return Err(EmptyHistory);
        }
        let mut lines: Vec<String> = Vec::new();
        let mut i: usize = 0;
        while i < n
            invariant
                n == self.list@.len(),
                0 <= i <= n,
                lines@.len() == i,
                forall|j: int|
                    0 <= j < i ==> #[trigger] lines@[j]@ == spec_history_line(j, self@[j]),
            decreases n - i,
        {
            let mut line = decimal_text(i + 1);
            line.append(". ");
            line.append(self.list[i].value.as_str());
            lines.push(line);
            i = i + 1;
        }
        assert(lines@.map_values(|l: String| l@) =~= spec_history_listing(self@));
        Ok(lines)
    }
}

impl Default for History {
    fn default() -> (r: History)
        ensures
            r@ == Seq::<Seq<char>>::empty(),
    {
        History::new()
    }
}

} // verus!
