//! The keyboard-driven list view over one cached result set.
//!
//! A view owns a cache, a search string, a selected row and the number of rows that fit on the
//! screen. Every input event is a transition of that state; what is to be drawn is computed from
//! the state and handed out as plain values.

use crate::layout::{split_adjacent, split_stacked, Area};
use crate::model::{Cache, DataSource, DataViewModel, Fetch};
use vstd::prelude::*;
use vstd::string::StringExecFns;

verus! {

/// The number of lines that the header of the table takes.
pub const TABLE_HEADER_LENGTH: u16 = 1;

/// The number of rows that a jump moves the selection.
pub const JUMP_OFFSET: usize = 10;

/// The colors of a view, as the strings of the configuration.
#[derive(Debug, PartialEq, Eq)]
pub struct Colors {
    pub date: String,
    pub path: String,
    pub highlight: String,
    pub shortcut_name: String,
}

impl Clone for Colors {
    fn clone(&self) -> (copy: Self)
        ensures
            copy == *self,
    {
        Colors {
            date: self.date.clone(),
            path: self.path.clone(),
            highlight: self.highlight.clone(),
            shortcut_name: self.shortcut_name.clone(),
        }
    }
}

/// The color of dates where the configuration names none.
pub fn default_color_date() -> (color: String)
    ensures
        color@ == "#000080"@,
{
    String::from_str("#000080")
}

/// The color of paths where the configuration names none.
pub fn default_color_path() -> (color: String)
    ensures
        color@ == "#000000"@,
{
    String::from_str("#000000")
}

/// The color of the highlighted row where the configuration names none.
pub fn default_color_highlight() -> (color: String)
    ensures
        color@ == "#FFDD51"@,
{
    String::from_str("#FFDD51")
}

/// The color of shortcut names where the configuration names none.
pub fn default_color_shortcut_name() -> (color: String)
    ensures
        color@ == "Green"@,
{
    String::from_str("Green")
}

/// How a view hands control back.
#[derive(Debug, PartialEq, Eq)]
pub enum GuiResult {
    /// The session ends without a selection.
    Quit,
    /// The session ends with this text.
    Print(String),
    /// The next view takes over.
    Next,
}

/// An entry that can be turned into the text that a committed selection yields.
pub trait Stringify {
    /// The text that stands for the entry.
    spec fn text(&self) -> Seq<char>;

    /// The text that stands for the entry.
    fn stringify(&self) -> (text: String)
        ensures
            text@ == self.text(),
    ;
}

/// The keys that a view tells apart.
#[derive(Clone, Copy, Debug, PartialEq, Eq)]
pub enum Key {
    Enter,
    Home,
    Down,
    Up,
    PageDown,
    PageUp,
    Tab,
    Esc,
    Backspace,
    Char(char),
    Other,
}

/// The modifier keys that a view tells apart, as they are held down with a key.
#[derive(Clone, Copy, Debug, PartialEq, Eq)]
pub struct Modifiers {
    pub shift: bool,
    pub control: bool,
}

/// A key with its modifiers.
#[derive(Clone, Copy, Debug, PartialEq, Eq)]
pub struct KeyPress {
    pub code: Key,
    pub modifiers: Modifiers,
}

/// An event of the terminal.
#[derive(Clone, Copy, Debug, PartialEq, Eq)]
pub enum Input {
    Key(KeyPress),
    Mouse,
    Resize(u16, u16),
    Other,
}

/// What the event loop does after an event.
#[derive(Debug, PartialEq, Eq)]
pub enum Reaction {
    /// Wait for the next event.
    Wait,
    /// Draw the view, then wait for the next event.
    Redraw,
    /// Leave the view with this result.
    Leave(GuiResult),
}

/// The result with which a reaction leaves the view, if it leaves it.
pub open spec fn leaving(reaction: Reaction) -> Option<GuiResult> {
    match reaction {
        Reaction::Leave(result) => Some(result),
        _ => None,
    }
}

/// Where the table is drawn and which of its rows is highlighted.
#[derive(Clone, Copy, Debug, PartialEq, Eq)]
pub struct TablePane {
    pub area: Area,
    pub selected: Option<usize>,
}

/// What one frame shows besides the rows themselves.
#[derive(Debug, PartialEq, Eq)]
pub struct Screen {
    /// The table and its highlighted row.
    pub table: TablePane,
    /// Where the search prompt is drawn.
    pub prompt_area: Area,
    /// Where the status is drawn.
    pub status_area: Area,
    /// The search prompt.
    pub prompt: String,
    /// Whether the status says that there is no entry.
    pub empty: bool,
}

/// The index of the last of `length` rows, 0 where there is none.
pub open spec fn last_row(length: nat) -> nat {
    if length == 0 {
        0
    } else {
        (length - 1) as nat
    }
}

/// The search string after its last character was erased.
pub open spec fn erased(search: Seq<char>) -> Seq<char> {
    if search.len() > 0 {
        search.drop_last()
    } else {
        search
    }
}

/// A list view over the result set of one source.
pub struct TableView<T, S> {
    data_model: DataViewModel<T, S>,
    column_names: Vec<String>,
    selection: usize,
    table_rows_count: u16,
    search_string: String,
    colors: Colors,
}

impl<T: Stringify, S: DataSource<T>> TableView<T, S> {
    /// The cache of the view.
    pub closed spec fn model(&self) -> DataViewModel<T, S> {
        self.data_model
    }

    /// The selected row.
    pub closed spec fn selected(&self) -> nat {
        self.selection as nat
    }

    /// The number of rows that fit on the screen.
    pub closed spec fn rows(&self) -> nat {
        self.table_rows_count as nat
    }

    /// The search string.
    pub closed spec fn search(&self) -> Seq<char> {
        self.search_string@
    }

    /// The column names and colors that the view was made with.
    pub closed spec fn dress(&self) -> (Vec<String>, Colors) {
        (self.column_names, self.colors)
    }

    /// The number of cached rows.
    pub open spec fn cached(&self) -> nat {
        self.model()@.window.length
    }

    /// The cache is well formed and the selection lies in `[0, max(0, cached - 1)]`.
    pub open spec fn wf(&self) -> bool {
        &&& self.model().wf()
        &&& self.selected() <= last_row(self.cached())
    }

    /// The highlighted row: the selection where there are rows, none otherwise.
    pub open spec fn active_row(&self) -> Option<usize> {
        if self.cached() > 0 {
            Some(self.selected() as usize)
        } else {
            None
        }
    }

    /// A view over `source` with an empty cache, an empty search string and row 0 selected.
    pub fn new(column_names: Vec<String>, source: S, colors: Colors) -> (view: Self)
        ensures
            view.wf(),
            view.model()@ == Cache::<T>::empty(),
            view.model().log() == Seq::<Fetch<T>>::empty(),
            view.model().source() == source,
            view.selected() == 0,
            view.rows() == 0,
            view.search() == Seq::<char>::empty(),
            view.dress() == (column_names, colors),
    {
        TableView {
            data_model: DataViewModel::new(source),
            column_names,
            selection: 0,
            table_rows_count: 0,
            search_string: String::new(),
            colors,
        }
    }

    /// The cached rows, if any.
    pub fn entries(&self) -> (rows: Option<&Vec<T>>)
        ensures
            match rows {
                Some(held) => self.model()@.entries == Some(held@),
                None => self.model()@.entries is None,
            },
    {
        self.data_model.entries()
    }

    /// The cache of the view.
    pub fn data_model(&self) -> (model: &DataViewModel<T, S>)
        ensures
            *model == self.model(),
    {
        &self.data_model
    }

    /// The names of the columns.
    pub fn column_names(&self) -> (names: &Vec<String>)
        ensures
            *names == self.dress().0,
    {
        &self.column_names
    }

    /// The colors of the view.
    pub fn colors(&self) -> (colors: &Colors)
        ensures
            *colors == self.dress().1,
    {
        &self.colors
    }

    /// The search string.
    pub fn search_string(&self) -> (search: &str)
        ensures
            search@ == self.search(),
    {
        self.search_string.as_str()
    }

    /// The number of rows that fit on the screen.
    pub fn table_rows_count(&self) -> (rows: u16)
        ensures
            rows == self.rows(),
    {
        self.table_rows_count
    }

    /// The highlighted row, if there is one.
    pub fn selected_row(&self) -> (row: Option<usize>)
        ensures
            row == self.active_row(),
    {
        if self.data_model.length() > 0 {
            Some(self.selection)
        } else {
            None
        }
    }

    /// The view after the cache was refetched at position 0 with force under `search`, which
    /// becomes the search string; row 0 is selected.
    pub open spec fn reset_step(&self, after: Self, search: Seq<char>) -> bool {
        &&& self.model().update_step(after.model(), 0, self.rows(), search, true)
        &&& after.search() == search
        &&& after.selected() == 0
        &&& after.rows() == self.rows()
        &&& after.dress() == self.dress()
    }

    /// Refetches at position 0 with force under the current search string and selects row 0.
    fn reset(&mut self)
        requires
            old(self).wf(),
        ensures
            final(self).wf(),
            old(self).reset_step(*final(self), old(self).search()),
    {
        self.data_model.update(0, self.table_rows_count, self.search_string.as_str(), true);
        self.selection = 0;
    }

    /// The text of the selected entry, where a row is selected.
    pub fn handle_chosen(&self) -> (chosen: Option<String>)
        requires
            self.wf(),
        ensures
            match chosen {
                Some(text) => self.cached() > 0 && text@ == self.model()@.entries->0[self.selected() as int].text(),
                None => self.cached() == 0,
            },
    {
        match self.data_model.entries() {
            Some(items) => {
                if self.selection < items.len() {
                    Some(items[self.selection].stringify())
                } else {
                    None
                }
            },
            None => None,
        }
    }

    /// The number of rows that a movement covers: a page is as long as the screen, a jump is
    /// `JUMP_OFFSET` rows, a step is one row.
    pub open spec fn step_size(&self, jump: bool, page: bool) -> nat {
        if page {
            self.rows()
        } else if jump {
            JUMP_OFFSET as nat
        } else {
            1
        }
    }

    /// A movement down asks the cache for a later window: there are rows, and the movement
    /// is a page or starts on the last row.
    pub open spec fn scrolls_down(&self, page: bool) -> bool {
        self.cached() > 0 && (page || self.selected() + 1 == self.cached())
    }

    /// A movement up asks the cache for an earlier window: there are rows, and the movement
    /// is a page or starts on the first row.
    pub open spec fn scrolls_up(&self, page: bool) -> bool {
        self.cached() > 0 && (page || self.selected() == 0)
    }

    /// The start of the window that a movement down asks for can be held in a `usize`.
    pub open spec fn can_go_down(&self, jump: bool, page: bool) -> bool {
        self.scrolls_down(page) ==> self.model()@.window.first + self.step_size(jump, page)
            <= usize::MAX
    }

    /// The view after a movement down.
    ///
    /// Without rows nothing happens. Otherwise the window moves by the step where
    /// [`Self::scrolls_down`] holds, and the selection moves by the step, as far as the last
    /// cached row.
    pub open spec fn down_step(&self, after: Self, jump: bool, page: bool) -> bool {
        let step = self.step_size(jump, page);
        if self.cached() == 0 {
            after == *self
        } else {
            &&& if self.scrolls_down(page) {
                self.model().update_step(
                    after.model(),
                    self.model().shifted_first(step as int),
                    self.rows(),
                    self.search(),
                    false,
                )
            } else {
                after.model() == self.model()
            }
            &&& after.selected() == if self.selected() + step <= last_row(after.cached()) {
                self.selected() + step
            } else {
                last_row(after.cached())
            }
            &&& after.search() == self.search()
            &&& after.rows() == self.rows()
            &&& after.dress() == self.dress()
        }
    }

    /// The view after a movement up.
    ///
    /// Without rows nothing happens. Otherwise the window moves back by the step, not below
    /// position 0, where [`Self::scrolls_up`] holds, and the selection moves back by the step,
    /// not below row 0 and not beyond the last cached row.
    pub open spec fn up_step(&self, after: Self, jump: bool, page: bool) -> bool {
        let step = self.step_size(jump, page);
        let target = if self.selected() >= step {
            (self.selected() - step) as nat
        } else {
            0
        };
        if self.cached() == 0 {
            after == *self
        } else {
            &&& if self.scrolls_up(page) {
                self.model().update_step(
                    after.model(),
                    self.model().shifted_first(-(step as int)),
                    self.rows(),
                    self.search(),
                    false,
                )
            } else {
                after.model() == self.model()
            }
            &&& after.selected() == if target <= last_row(after.cached()) {
                target
            } else {
                last_row(after.cached())
            }
            &&& after.search() == self.search()
            &&& after.rows() == self.rows()
            &&& after.dress() == self.dress()
        }
    }

    /// The executable form of [`Self::step_size`].
    fn step(&self, jump: bool, page: bool) -> (step: usize)
        ensures
            step == self.step_size(jump, page),
    {
        if page {
            self.table_rows_count as usize
        } else if jump {
            JUMP_OFFSET
        } else {
            1
        }
    }

    /// Moves the selection down by a step, a jump or a page.
    pub fn handle_down(&mut self, jump: bool, page: bool)
        requires
            old(self).wf(),
            old(self).can_go_down(jump, page),
        ensures
            final(self).wf(),
            old(self).down_step(*final(self), jump, page),
    {
        let length: usize = self.data_model.length() as usize;
        if length == 0 {
            return ;
        }
        let step: usize = self.step(jump, page);
        if page || self.selection == length - 1 {
            self.data_model.update_to_offset(
                step as i64,
                self.table_rows_count,
                self.search_string.as_str(),
            );
        }
        let length: usize = self.data_model.length() as usize;
        let mut next: usize = self.selection + step;
        if length == 0 {
            next = 0;
        } else if next >= length {
            next = length - 1;
        }
        self.selection = next;
    }

    /// Moves the selection up by a step, a jump or a page.
    pub fn handle_up(&mut self, jump: bool, page: bool)
        requires
            old(self).wf(),
        ensures
            final(self).wf(),
            old(self).up_step(*final(self), jump, page),
    {
        let length: usize = self.data_model.length() as usize;
        if length == 0 {
            return ;
        }
        let step: usize = self.step(jump, page);
        if page || self.selection == 0 {
            self.data_model.update_to_offset(
                -(step as i64),
                self.table_rows_count,
                self.search_string.as_str(),
            );
        }
        let length: usize = self.data_model.length() as usize;
        let mut next: usize = if self.selection >= step {
            self.selection - step
        } else {
            0
        };
        if length == 0 {
            next = 0;
        } else if next >= length {
            next = length - 1;
        }
        self.selection = next;
    }

    /// The result of a commit: the text of the selected entry, or `Quit` where no row is
    /// selected.
    pub open spec fn commits(&self, result: GuiResult) -> bool {
        if self.cached() > 0 {
            result matches GuiResult::Print(text) && text@ == self.model()@.entries->0[self.selected() as int].text()
        } else {
            result is Quit
        }
    }

    /// The transition that a key makes: from this view and `flag` to the view `after` and
    /// `flag_after`, leaving the view with `outcome` where that is not `None`.
    ///
    /// `flag` is the one switch that all views share.
    pub open spec fn key_step(
        &self,
        after: Self,
        key: KeyPress,
        flag: bool,
        flag_after: bool,
        outcome: Option<GuiResult>,
    ) -> bool {
        match key.code {
            Key::Enter => {
                &&& after == *self
                &&& flag_after == flag
                &&& outcome matches Some(result) && self.commits(result)
            },
            Key::Home => {
                &&& self.reset_step(after, self.search())
                &&& flag_after == flag
                &&& outcome is None
            },
            Key::Down => {
                &&& self.down_step(after, key.modifiers.shift, false)
                &&& flag_after == flag
                &&& outcome is None
            },
            Key::Up => {
                &&& self.up_step(after, key.modifiers.shift, false)
                &&& flag_after == flag
                &&& outcome is None
            },
            Key::PageDown => {
                &&& self.down_step(after, key.modifiers.shift, true)
                &&& flag_after == flag
                &&& outcome is None
            },
            Key::PageUp => {
                &&& self.up_step(after, key.modifiers.shift, true)
                &&& flag_after == flag
                &&& outcome is None
            },
            Key::Tab => {
                &&& after == *self
                &&& flag_after == flag
                &&& outcome == Some(GuiResult::Next)
            },
            Key::Esc => {
                &&& after == *self
                &&& flag_after == flag
                &&& outcome == Some(GuiResult::Quit)
            },
            Key::Backspace => {
                &&& self.reset_step(after, erased(self.search()))
                &&& flag_after == flag
                &&& outcome is None
            },
            Key::Char(c) => {
                if !key.modifiers.control {
                    &&& self.reset_step(after, self.search().push(c))
                    &&& flag_after == flag
                    &&& outcome is None
                } else if c == 'q' {
                    &&& after == *self
                    &&& flag_after == flag
                    &&& outcome == Some(GuiResult::Quit)
                } else if c == 'a' {
                    &&& after == *self
                    &&& flag_after == !flag
                    &&& outcome is None
                } else {
                    &&& after == *self
                    &&& flag_after == flag
                    &&& outcome is None
                }
            },
            Key::Other => {
                &&& after == *self
                &&& flag_after == flag
                &&& outcome is None
            },
        }
    }

    /// The view can take the key: where the key moves the window down, the start of the new
    /// window can be held in a `usize`.
    pub open spec fn takes_key(&self, key: KeyPress) -> bool {
        match key.code {
            Key::Down => self.can_go_down(key.modifiers.shift, false),
            Key::PageDown => self.can_go_down(key.modifiers.shift, true),
            _ => true,
        }
    }

    /// The view can take the event, see [`Self::takes_key`].
    pub open spec fn takes(&self, event: Input) -> bool {
        match event {
            Input::Key(key) => self.takes_key(key),
            _ => true,
        }
    }

    /// Whether the view can take the event.
    pub fn can_handle(&self, event: &Input) -> (able: bool)
        requires
            self.wf(),
        ensures
            able == self.takes(*event),
    {
        match event {
            Input::Key(key) => {
                let page: bool = match key.code {
                    Key::Down => false,
                    Key::PageDown => true,
                    _ => { return true; },
                };
                let length: usize = self.data_model.length() as usize;
                if length == 0 || !(page || self.selection + 1 == length) {
                    return true;
                }
                let step: usize = self.step(key.modifiers.shift, page);
                self.data_model.first() <= usize::MAX - step
            },
            _ => true,
        }
    }

    /// Takes one key. The result is `None` while the view goes on, and the result of the view
    /// once the key ends it. `view_state` is the switch that all views share.
    pub fn handle_key(&mut self, key: KeyPress, view_state: &mut bool) -> (outcome: Option<
        GuiResult,
    >)
        requires
            old(self).wf(),
            old(self).takes_key(key),
        ensures
            final(self).wf(),
            old(self).key_step(*final(self), key, *old(view_state), *final(view_state), outcome),
    {
        match key.code {
            Key::Enter => {
                match self.handle_chosen() {
                    Some(text) => Some(GuiResult::Print(text)),
                    None => Some(GuiResult::Quit),
                }
            },
            Key::Home => {
                self.reset();
                None
            },
            Key::Down => {
                self.handle_down(key.modifiers.shift, false);
                None
            },
            Key::Up => {
                self.handle_up(key.modifiers.shift, false);
                None
            },
            Key::PageDown => {
                self.handle_down(key.modifiers.shift, true);
                None
            },
            Key::PageUp => {
                self.handle_up(key.modifiers.shift, true);
                None
            },
            Key::Tab => Some(GuiResult::Next),
            Key::Esc => Some(GuiResult::Quit),
            Key::Backspace => {
                self.search_string.pop();
                self.reset();
                None
            },
            Key::Char(c) => {
                if !key.modifiers.control {
                    self.search_string.push(c);
                    self.reset();
                    None
                } else if c == 'q' {
                    Some(GuiResult::Quit)
                } else if c == 'a' {
                    *view_state = !*view_state;
                    None
                } else {
                    None
                }
            },
            Key::Other => None,
        }
    }

    /// The transition that an event of the terminal makes, and the reaction to it.
    ///
    /// A key is a transition of the view, see [`Self::key_step`]; the view is drawn again
    /// unless the key ends it. A change of the terminal's size draws the view again. Nothing
    /// else has an effect.
    pub open spec fn event_step(
        &self,
        after: Self,
        event: Input,
        flag: bool,
        flag_after: bool,
        reaction: Reaction,
    ) -> bool {
        match event {
            Input::Key(key) => {
                &&& self.key_step(after, key, flag, flag_after, leaving(reaction))
                &&& !(reaction is Wait)
            },
            Input::Resize(_, _) => {
                &&& after == *self
                &&& flag_after == flag
                &&& reaction is Redraw
            },
            _ => {
                &&& after == *self
                &&& flag_after == flag
                &&& reaction is Wait
            },
        }
    }

    /// Takes one event of the terminal and says what the event loop does next.
    /// `view_state` is the switch that all views share.
    pub fn handle_event(&mut self, event: Input, view_state: &mut bool) -> (reaction: Reaction)
        requires
            old(self).wf(),
            old(self).takes(event),
        ensures
            final(self).wf(),
            old(self).event_step(
                *final(self),
                event,
                *old(view_state),
                *final(view_state),
                reaction,
            ),
    {
        match event {
            Input::Key(key) => {
                match self.handle_key(key, view_state) {
                    Some(result) => Reaction::Leave(result),
                    None => Reaction::Redraw,
                }
            },
            Input::Resize(_, _) => Reaction::Redraw,
            _ => Reaction::Wait,
        }
    }

    /// The view after it was fitted to a screen of `rows` rows.
    ///
    /// Where the cached window has another length, the cache is brought to `rows` rows from
    /// the start of its window, with force. The selection stays within the cached rows.
    pub open spec fn fit_step(&self, after: Self, rows: nat) -> bool {
        &&& if self.cached() != rows {
            self.model().update_step(
                after.model(),
                self.model()@.window.first,
                rows,
                self.search(),
                true,
            )
        } else {
            after.model() == self.model()
        }
        &&& after.selected() == if self.selected() <= last_row(after.cached()) {
            self.selected()
        } else {
            last_row(after.cached())
        }
        &&& after.rows() == rows
        &&& after.search() == self.search()
        &&& after.dress() == self.dress()
    }

    /// Brings the cache to the number of rows that fit on the screen.
    fn fit(&mut self, rows: u16)
        requires
            old(self).wf(),
        ensures
            final(self).model().wf(),
            final(self).selected() == old(self).selected(),
            if old(self).cached() != rows {
                old(self).model().update_step(
                    final(self).model(),
                    old(self).model()@.window.first,
                    rows as nat,
                    old(self).search(),
                    true,
                )
            } else {
                final(self).model() == old(self).model()
            },
            final(self).rows() == rows,
            final(self).search() == old(self).search(),
            final(self).dress() == old(self).dress(),
    {
        self.table_rows_count = rows;
        if self.data_model.length() != rows {
            let first: usize = self.data_model.first();
            self.data_model.update(first, rows, self.search_string.as_str(), true);
        }
    }

    /// Says where the table is drawn and which row is highlighted, after bringing the
    /// selection back within the cached rows.
    pub fn render_table(&mut self, area: Area) -> (pane: TablePane)
        requires
            old(self).model().wf(),
        ensures
            final(self).wf(),
            final(self).model() == old(self).model(),
            final(self).selected() == if old(self).selected() <= last_row(old(self).cached()) {
                old(self).selected()
            } else {
                last_row(old(self).cached())
            },
            final(self).rows() == old(self).rows(),
            final(self).search() == old(self).search(),
            final(self).dress() == old(self).dress(),
            pane.area == area,
            pane.selected == final(self).active_row(),
    {
        let length: usize = self.data_model.length() as usize;
        if length == 0 {
            self.selection = 0;
        } else if self.selection >= length {
            self.selection = length - 1;
        }
        TablePane { area, selected: self.selected_row() }
    }

    /// What composing a frame makes of the view, and what the frame shows.
    ///
    /// `table` is the part of the frame for the table, whose first line is the header;
    /// `prompt_area` and `status_area` are the two parts of the input line. The view is fitted
    /// to the rows that the table has below its header, see [`Self::fit_step`]. Where the table
    /// has no line for the header, nothing is fitted and there is no screen.
    pub open spec fn compose_step(
        &self,
        after: Self,
        table: Area,
        prompt_area: Area,
        status_area: Area,
        screen: Option<Screen>,
    ) -> bool {
        if table.height < TABLE_HEADER_LENGTH {
            &&& screen is None
            &&& after == *self
        } else {
            &&& screen matches Some(screen)
            &&& self.fit_step(after, (table.height - TABLE_HEADER_LENGTH) as nat)
            &&& screen.table.area == table
            &&& screen.table.selected == after.active_row()
            &&& screen.prompt_area == prompt_area
            &&& screen.status_area == status_area
            &&& screen.prompt@ == seq!['>', ' '] + after.search()
            &&& screen.empty == (after.cached() == 0)
        }
    }

    /// Fits the view to a frame that is divided into `table`, `prompt_area` and `status_area`,
    /// and says what the frame shows.
    pub fn compose(&mut self, table: Area, prompt_area: Area, status_area: Area) -> (screen:
        Option<Screen>)
        requires
            old(self).wf(),
        ensures
            final(self).wf(),
            old(self).compose_step(*final(self), table, prompt_area, status_area, screen),
    {
        if table.height < TABLE_HEADER_LENGTH {
            return None;
        }
        self.fit(table.height - TABLE_HEADER_LENGTH);
        let table = self.render_table(table);
        let mut prompt = String::from_str("> ");
        proof {
            reveal_strlit("> ");
            assert(prompt@ =~= seq!['>', ' ']);
        }
        prompt.append(self.search_string.as_str());
        let empty: bool = self.data_model.length() == 0;
        Some(Screen { table, prompt_area, status_area, prompt, empty })
    }

    /// What drawing into the frame `area` makes of the view.
    ///
    /// Without a screen the view is as it was. With one, the view was composed into the parts
    /// that the screen names, see [`Self::compose_step`]; the table spans the columns of the
    /// frame, and the prompt and the status share the lines of the input line, which spans the
    /// columns of the frame too.
    pub open spec fn draw_step(&self, after: Self, area: Area, screen: Option<Screen>) -> bool {
        match screen {
            None => after == *self,
            Some(shown) => {
                &&& self.compose_step(
                    after,
                    shown.table.area,
                    shown.prompt_area,
                    shown.status_area,
                    screen,
                )
                &&& shown.table.area.x == area.x
                &&& shown.table.area.width == area.width
                &&& shown.prompt_area.y == shown.status_area.y
                &&& shown.prompt_area.height == shown.status_area.height
            },
        }
    }

    /// Divides the frame `area` into the table, the prompt and the status, fits the view to it
    /// and says what the frame shows; see [`Self::compose`] for a frame that is divided already.
    ///
    /// The layout of the terminal library decides how many lines each part gets, and with it
    /// whether there is a screen at all: there is none where the table gets no line for its
    /// header.
    pub fn draw(&mut self, area: Area) -> (screen: Option<Screen>)
        requires
            old(self).wf(),
        ensures
            final(self).wf(),
            old(self).draw_step(*final(self), area, screen),
    {
        let (table, input) = split_stacked(area);
        let (prompt_area, status_area) = split_adjacent(input);
        self.compose(table, prompt_area, status_area)
    }
}

} // verus!
