//! A sliding window over an ordered, filterable result set that is fetched one page at a time.
//!
//! The cache keeps the rows of one window and asks its source for more only when a request
//! cannot be answered from what it holds.

use crate::text::same_text;
use vstd::prelude::*;

verus! {

/// The reason a backing store gave for not answering a request.
#[derive(Debug, PartialEq, Eq)]
pub struct StoreError {
    pub message: String,
}

/// An ordered, filterable result set that is read one page at a time.
pub trait DataSource<T> {
    /// At most `limit` entries of the set filtered by `filter`, starting at position `offset`.
    fn list(&self, offset: usize, limit: usize, filter: &str) -> Result<Vec<T>, StoreError>;
}

/// The half-open range `[first, first + length)` of the result set filtered by `filter`.
pub struct Window {
    pub first: nat,
    pub length: nat,
    pub filter: Seq<char>,
}

/// One request sent to a source, with what the source answered (`None` for a failure).
pub struct Fetch<T> {
    pub offset: nat,
    pub limit: nat,
    pub filter: Seq<char>,
    pub answer: Option<Seq<T>>,
}

/// What the cache does with the answer to a request.
pub enum Verdict {
    /// The cache stays as it is.
    Keep,
    /// The answered rows become the cache.
    Accept,
    /// The cache is emptied.
    Clear,
}

/// The rows held for one window.
pub struct Cache<T> {
    pub entries: Option<Seq<T>>,
    pub window: Window,
}

impl<T> Cache<T> {
    /// The cache before anything was fetched.
    pub open spec fn empty() -> Self {
        Cache { entries: None, window: Window { first: 0, length: 0, filter: Seq::empty() } }
    }

    /// The rows agree in number with the window; without rows the window has no length.
    pub open spec fn wf(self) -> bool {
        match self.entries {
            Some(rows) => rows.len() == self.window.length,
            None => self.window.length == 0,
        }
    }

    /// The range `[first, first + length)` under `filter` lies inside the cached window.
    pub open spec fn covers(self, first: nat, length: nat, filter: Seq<char>) -> bool {
        &&& self.entries is Some
        &&& first >= self.window.first
        &&& first + length <= self.window.first + self.window.length
        &&& filter == self.window.filter
    }

    /// The cache cut down to the range `[first, first + length)` of its own window.
    pub open spec fn narrowed(self, first: nat, length: nat) -> Self {
        let skip = first - self.window.first;
        Cache {
            entries: Some(self.entries->0.subrange(skip, skip + length)),
            window: Window { first, length, filter: self.window.filter },
        }
    }

    /// A cache that holds exactly `rows`, found at `first` under `filter`.
    pub open spec fn holding(first: nat, filter: Seq<char>, rows: Seq<T>) -> Self {
        Cache { entries: Some(rows), window: Window { first, length: rows.len(), filter } }
    }

    /// The cache that shows "no results" for `filter`.
    pub open spec fn cleared(filter: Seq<char>) -> Self {
        Cache { entries: None, window: Window { first: 0, length: 0, filter } }
    }

    /// The rows of an answer that fall inside the requested length.
    pub open spec fn page(length: nat, rows: Seq<T>) -> Seq<T> {
        if rows.len() > length {
            rows.take(length as int)
        } else {
            rows
        }
    }

    /// How the answer to the request `(first, length, filter)` is judged.
    ///
    /// A failure changes nothing. A full page is accepted. A short page that the cache already
    /// covers changes nothing; any other short page with rows is accepted; an empty one clears
    /// the cache when `force` is set and changes nothing otherwise.
    pub open spec fn verdict(
        self,
        first: nat,
        length: nat,
        filter: Seq<char>,
        force: bool,
        answer: Option<Seq<T>>,
    ) -> Verdict {
        match answer {
            None => Verdict::Keep,
            Some(rows) => {
                let found = Self::page(length, rows).len();
                if found == length {
                    Verdict::Accept
                } else if self.covers(first, found, filter) {
                    Verdict::Keep
                } else if found > 0 {
                    Verdict::Accept
                } else if force {
                    Verdict::Clear
                } else {
                    Verdict::Keep
                }
            },
        }
    }

    /// The cache after the answer to the request `(first, length, filter)` was taken in.
    pub open spec fn absorbed(
        self,
        first: nat,
        length: nat,
        filter: Seq<char>,
        force: bool,
        answer: Option<Seq<T>>,
    ) -> Self {
        match self.verdict(first, length, filter, force, answer) {
            Verdict::Keep => self,
            Verdict::Accept => Self::holding(first, filter, Self::page(length, answer->0)),
            Verdict::Clear => Self::cleared(filter),
        }
    }
}

/// The rows of an answer, or `None` where the store failed.
pub open spec fn answer_rows<T>(answer: Result<Vec<T>, StoreError>) -> Option<Seq<T>> {
    match answer {
        Ok(rows) => Some(rows@),
        Err(_) => None,
    }
}

/// A window of cached rows over a source, refilled only when a request leaves the window.
pub struct DataViewModel<T, S> {
    entries: Option<Vec<T>>,
    source: S,
    first: usize,
    length: u16,
    filter: String,
    log: Ghost<Seq<Fetch<T>>>,
}

impl<T, S> View for DataViewModel<T, S> {
    type V = Cache<T>;

    closed spec fn view(&self) -> Cache<T> {
        Cache {
            entries: match self.entries {
                Some(rows) => Some(rows@),
                None => None,
            },
            window: Window {
                first: self.first as nat,
                length: self.length as nat,
                filter: self.filter@,
            },
        }
    }
}

impl<T, S: DataSource<T>> DataViewModel<T, S> {
    /// The invariant of the cache, see [`Cache::wf`], within the limits of the machine.
    pub open spec fn wf(&self) -> bool {
        &&& self@.wf()
        &&& self@.window.first <= usize::MAX
        &&& self@.window.length <= u16::MAX
    }

    /// Every request that this cache has sent to its source, oldest first.
    pub closed spec fn log(&self) -> Seq<Fetch<T>> {
        self.log@
    }

    /// The source that the cache reads.
    pub closed spec fn source(&self) -> S {
        self.source
    }

    /// An empty cache over `source`.
    pub fn new(source: S) -> (model: Self)
        ensures
            model.wf(),
            model@ == Cache::<T>::empty(),
            model.log() == Seq::<Fetch<T>>::empty(),
            model.source() == source,
    {
        DataViewModel {
            entries: None,
            source,
            first: 0,
            length: 0,
            filter: String::new(),
            log: Ghost(Seq::empty()),
        }
    }

    /// The cached rows, if any.
    pub fn entries(&self) -> (rows: Option<&Vec<T>>)
        ensures
            match rows {
                Some(held) => self@.entries == Some(held@),
                None => self@.entries is None,
            },
    {
        self.entries.as_ref()
    }

    /// The position of the first cached row in the filtered result set.
    pub fn first(&self) -> (first: usize)
        ensures
            first == self@.window.first,
    {
        self.first
    }

    /// The length of the cached window.
    pub fn length(&self) -> (length: u16)
        ensures
            length == self@.window.length,
    {
        self.length
    }

    /// The filter under which the cached window was fetched.
    pub fn filter(&self) -> (filter: &str)
        ensures
            filter@ == self@.window.filter,
    {
        self.filter.as_str()
    }

    /// Whether the range `[first, first + length)` under the filter `text` lies inside the
    /// cached window. Filters are compared character by character, with no normalization.
    pub fn is_a_subset_of(&self, first: usize, length: u16, text: &str) -> (covered: bool)
        ensures
            covered == self@.covers(first as nat, length as nat, text@),
    {
        if self.entries.is_none() || first < self.first {
            return false;
        }
        let skip: usize = first - self.first;
        if skip > self.length as usize {
            return false;
        }
        if length as usize > self.length as usize - skip {
            return false;
        }
        same_text(self.filter.as_str(), text)
    }

    /// Cuts the cache down to the requested range where the cache covers it, and reports
    /// whether it did.
    fn update_into_subset(&mut self, first: usize, length: u16, text: &str) -> (narrowed: bool)
        requires
            old(self).wf(),
        ensures
            final(self).wf(),
            narrowed == old(self)@.covers(first as nat, length as nat, text@),
            narrowed ==> final(self)@ == old(self)@.narrowed(first as nat, length as nat),
            !narrowed ==> final(self)@ == old(self)@,
            final(self).log() == old(self).log(),
            final(self).source() == old(self).source(),
    {
        if !self.is_a_subset_of(first, length, text) {
            return false;
        }
        let skip: usize = first - self.first;
        let held = self.entries.take();
        if let Some(mut rows) = held {
            let mut kept = rows.split_off(skip);
            kept.truncate(length as usize);
            assert(kept@ =~= old(self)@.entries->0.subrange(
                skip as int,
                skip as int + length as int,
            ));
            self.entries = Some(kept);
        }
        self.first = first;
        self.length = length;
        true
    }

    /// Sends the request `(first, length, text)` to the source and records it with its answer.
    fn fetch(&mut self, first: usize, length: u16, text: &str) -> (answer: Result<
        Vec<T>,
        StoreError,
    >)
        ensures
            final(self)@ == old(self)@,
            final(self).source() == old(self).source(),
            final(self).log() == old(self).log().push(
                Fetch {
                    offset: first as nat,
                    limit: length as nat,
                    filter: text@,
                    answer: answer_rows(answer),
                },
            ),
    {
        let answer = self.source.list(first, length as usize, text);
        proof {
            self.log@ = self.log@.push(
                Fetch {
                    offset: first as nat,
                    limit: length as nat,
                    filter: text@,
                    answer: answer_rows(answer),
                },
            );
        }
        answer
    }

    /// Takes in the answer that a source gave to the request `(first, length, text)`.
    ///
    /// Rows beyond the requested length are dropped. What becomes of the rest is decided by
    /// [`Cache::verdict`]; the result says whether the cache changed.
    pub fn absorb(
        &mut self,
        first: usize,
        length: u16,
        text: &str,
        force: bool,
        answer: Result<Vec<T>, StoreError>,
    ) -> (changed: bool)
        requires
            old(self).wf(),
        ensures
            final(self).wf(),
            final(self)@ == old(self)@.absorbed(
                first as nat,
                length as nat,
                text@,
                force,
                answer_rows(answer),
            ),
            changed == !(old(self)@.verdict(
                first as nat,
                length as nat,
                text@,
                force,
                answer_rows(answer),
            ) is Keep),
            final(self).log() == old(self).log(),
            final(self).source() == old(self).source(),
    {
        match answer {
            Err(_) => false,
            Ok(mut rows) => {
                let ghost answered = rows@;
                rows.truncate(length as usize);
                assert(rows@ =~= Cache::<T>::page(length as nat, answered));
                let found: usize = rows.len();
                let full: bool = found == length as usize;
                if !full && self.is_a_subset_of(first, found as u16, text) {
                    return false;
                }
                if full || found > 0 {
                    self.entries = Some(rows);
                    self.first = first;
                    self.length = found as u16;
                    self.filter = text.to_owned();
                    true
                } else if force {
                    self.entries = None;
                    self.first = 0;
                    self.length = 0;
                    self.filter = text.to_owned();
                    true
                } else {
                    false
                }
            },
        }
    }

    /// What one call of [`Self::update`] makes of the cache: `after` is the cache that the call
    /// leaves.
    ///
    /// A covered request narrows the cache and sends nothing to the source. Any other request
    /// is sent once, and its answer is taken in as [`Cache::absorbed`] says.
    pub open spec fn update_step(
        &self,
        after: Self,
        first: nat,
        length: nat,
        filter: Seq<char>,
        force: bool,
    ) -> bool {
        if self@.covers(first, length, filter) {
            &&& after@ == self@.narrowed(first, length)
            &&& after.log() == self.log()
            &&& after.source() == self.source()
        } else {
            let sent = after.log().last();
            &&& after.source() == self.source()
            &&& after.log() == self.log().push(sent)
            &&& sent.offset == first
            &&& sent.limit == length
            &&& sent.filter == filter
            &&& after@ == self@.absorbed(first, length, filter, force, sent.answer)
        }
    }

    /// What one call of [`Self::update`] that leaves the cache `after` returns: whether rows
    /// from the source replaced the cache or the cache was emptied.
    pub open spec fn update_changes(
        &self,
        after: Self,
        first: nat,
        length: nat,
        filter: Seq<char>,
        force: bool,
    ) -> bool {
        &&& !self@.covers(first, length, filter)
        &&& !(self@.verdict(first, length, filter, force, after.log().last().answer) is Keep)
    }

    /// Brings the cache to the window `[first, first + length)` under the filter `text`.
    ///
    /// The cache is narrowed where it covers the request, and then nothing is sent to the
    /// source; a request under another filter is never covered. Returns `true` when rows from
    /// the source replaced the cache or the cache was emptied.
    pub fn update(&mut self, first: usize, length: u16, text: &str, force: bool) -> (changed:
        bool)
        requires
            old(self).wf(),
        ensures
            final(self).wf(),
            old(self).update_step(*final(self), first as nat, length as nat, text@, force),
            changed == old(self).update_changes(
                *final(self),
                first as nat,
                length as nat,
                text@,
                force,
            ),
            old(self)@.covers(first as nat, length as nat, text@) ==> !changed && final(self).log() == old(self).log(),
            text@ != old(self)@.window.filter ==> final(self).log().len() == old(self).log().len() + 1,
    {
        if self.update_into_subset(first, length, text) {
            return false;
        }
        let answer = self.fetch(first, length, text);
        self.absorb(first, length, text, force, answer)
    }

    /// The start of the window that lies `offset` rows from the cached one, never below 0.
    pub open spec fn shifted_first(&self, offset: int) -> nat {
        if self@.window.first + offset < 0 {
            0
        } else {
            (self@.window.first + offset) as nat
        }
    }

    /// Moves the window by `offset` rows, stopping at the start of the result set, and brings
    /// the cache to it without force.
    pub fn update_to_offset(&mut self, offset: i64, length: u16, text: &str) -> (changed: bool)
        requires
            old(self).wf(),
            old(self)@.window.first + offset <= usize::MAX,
        ensures
            final(self).wf(),
            old(self).update_step(
                *final(self),
                old(self).shifted_first(offset as int),
                length as nat,
                text@,
                false,
            ),
            changed == old(self).update_changes(
                *final(self),
                old(self).shifted_first(offset as int),
                length as nat,
                text@,
                false,
            ),
    {
        let target: i128 = self.first as i128 + offset as i128;
        let first: usize = if target < 0 {
            0
        } else {
            target as usize
        };
        self.update(first, length, text, false)
    }
}

/// A request that the cache covers is answered from the cache: nothing is sent to the source,
/// the cache is narrowed to the request, and the update reports no change.
pub proof fn lemma_covered_request_is_reused<T, S: DataSource<T>>(
    before: DataViewModel<T, S>,
    after: DataViewModel<T, S>,
    first: nat,
    length: nat,
    filter: Seq<char>,
    force: bool,
)
    requires
        before.update_step(after, first, length, filter, force),
        before@.covers(first, length, filter),
    ensures
        after.log() == before.log(),
        after@ == before@.narrowed(first, length),
        !before.update_changes(after, first, length, filter, force),
{
}

/// A request under another filter than the cached one is sent to the source, whatever range
/// it asks for: filters are equal only where they are the same characters.
pub proof fn lemma_other_filter_is_fetched<T, S: DataSource<T>>(
    before: DataViewModel<T, S>,
    after: DataViewModel<T, S>,
    first: nat,
    length: nat,
    filter: Seq<char>,
    force: bool,
)
    requires
        before.update_step(after, first, length, filter, force),
        filter != before@.window.filter,
    ensures
        after.log().len() == before.log().len() + 1,
        after.log().drop_last() == before.log(),
        after.log().last().offset == first,
        after.log().last().limit == length,
        after.log().last().filter == filter,
{
    assert(after.log().drop_last() =~= before.log());
}

/// Of two equal updates in a row, which the source answers alike, the second reports no
/// change, unless the first emptied the cache.
pub proof fn lemma_second_update_changes_nothing<T, S: DataSource<T>>(
    before: DataViewModel<T, S>,
    between: DataViewModel<T, S>,
    after: DataViewModel<T, S>,
    first: nat,
    length: nat,
    filter: Seq<char>,
    force: bool,
)
    requires
        before.update_step(between, first, length, filter, force),
        between.update_step(after, first, length, filter, force),
        !before@.covers(first, length, filter) && !between@.covers(first, length, filter)
            ==> after.log().last().answer == between.log().last().answer,
        !before@.covers(first, length, filter) ==> !(before@.verdict(
            first,
            length,
            filter,
            force,
            between.log().last().answer,
        ) is Clear),
    ensures
        !between.update_changes(after, first, length, filter, force),
{
}

/// A page shorter than asked for, whose range the cache covers already, leaves the cache as
/// it is, and the update reports no change.
pub proof fn lemma_short_page_already_held<T, S: DataSource<T>>(
    before: DataViewModel<T, S>,
    after: DataViewModel<T, S>,
    first: nat,
    length: nat,
    filter: Seq<char>,
    force: bool,
    rows: Seq<T>,
)
    requires
        before.update_step(after, first, length, filter, force),
        !before@.covers(first, length, filter),
        after.log().last().answer == Some(rows),
        rows.len() < length,
        before@.covers(first, rows.len(), filter),
    ensures
        after@ == before@,
        !before.update_changes(after, first, length, filter, force),
{
}

/// A movement of the window asks the source for no position below 0: where the cached window
/// starts less than `-offset` rows from the start, the request starts at 0.
pub proof fn lemma_offset_stops_at_start<T, S: DataSource<T>>(
    before: DataViewModel<T, S>,
    after: DataViewModel<T, S>,
    offset: int,
    length: nat,
    filter: Seq<char>,
)
    requires
        before.update_step(after, before.shifted_first(offset), length, filter, false),
        after.log() != before.log(),
    ensures
        after.log().last().offset >= 0,
        before@.window.first + offset <= 0 ==> after.log().last().offset == 0,
        before@.window.first + offset >= 0 ==> after.log().last().offset == before@.window.first
            + offset,
{
}

} // verus!
