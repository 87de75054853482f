//! The session: two views, of which one has the focus, and the rows of the history view.

use crate::layout::Area;
use crate::model::{Cache, DataSource, Fetch};
use crate::store::{Path, Shortcut};
use crate::tableview::{
    leaving, Colors, GuiResult, Input, Key, KeyPress, Modifiers, Reaction, Screen, TableView,
};
use crate::text::{is_under, tail, under};
use vstd::prelude::*;
use vstd::string::{StrSliceExecFns, StringExecFns, StringSliceAdditionalSpecFns};
use vstd::utf8::encode_utf8;

verus! {

/// How a path is shown.
#[derive(Debug, PartialEq, Eq)]
pub enum PathLabel {
    /// The name of a shortcut, then what lies below the shortcut's directory.
    Shortcut { name: String, rest: String },
    /// The marker of the home directory, then what lies below the home directory.
    Home { rest: String },
    /// The path as it is.
    Plain { path: String },
}

/// A [`PathLabel`] as characters.
pub enum Label {
    Shortcut { name: Seq<char>, rest: Seq<char> },
    Home { rest: Seq<char> },
    Plain { path: Seq<char> },
}

impl View for PathLabel {
    type V = Label;

    open spec fn view(&self) -> Label {
        match *self {
            PathLabel::Shortcut { name, rest } => Label::Shortcut { name: name@, rest: rest@ },
            PathLabel::Home { rest } => Label::Home { rest: rest@ },
            PathLabel::Plain { path } => Label::Plain { path: path@ },
        }
    }
}

/// One row of the history view: the time of the visit and the path as it is shown.
#[derive(Debug, PartialEq, Eq)]
pub struct HistoryRow {
    pub date: i64,
    pub label: PathLabel,
}

/// The length of a text in bytes of UTF-8.
pub open spec fn byte_length(text: Seq<char>) -> nat {
    encode_utf8(text).len()
}

/// The shortcut can stand for `path`: `path` is the shortcut's directory or lies below it.
pub open spec fn fits(shortcut: Shortcut, path: Seq<char>) -> bool {
    under(shortcut.path@, path)
}

/// Among the first `count` shortcuts, the one at `i` is the first of those with the longest
/// directory that can stand for `path`.
pub open spec fn leads(shortcuts: Seq<Shortcut>, count: int, path: Seq<char>, i: int) -> bool {
    &&& 0 <= i < count <= shortcuts.len()
    &&& fits(shortcuts[i], path)
    &&& forall|j: int|
        0 <= j < count && fits(#[trigger] shortcuts[j], path) ==> byte_length(shortcuts[j].path@)
            <= byte_length(shortcuts[i].path@)
    &&& forall|j: int|
        0 <= j < i && fits(#[trigger] shortcuts[j], path) ==> byte_length(shortcuts[j].path@)
            < byte_length(shortcuts[i].path@)
}

/// The shortcut at `i` is the one that stands for `path`: the first of those with the longest
/// directory that can.
pub open spec fn wins(shortcuts: Seq<Shortcut>, path: Seq<char>, i: int) -> bool {
    leads(shortcuts, shortcuts.len() as int, path, i)
}

/// At most one shortcut stands for a path.
pub proof fn lemma_one_winner(shortcuts: Seq<Shortcut>, path: Seq<char>, i: int, j: int)
    requires
        wins(shortcuts, path, i),
        wins(shortcuts, path, j),
    ensures
        i == j,
{
}

/// `path` with the shortcut's name in place of the shortcut's directory.
pub open spec fn shortened_by(shortcut: Shortcut, path: Seq<char>) -> Label {
    Label::Shortcut { name: shortcut.name@, rest: path.skip(shortcut.path@.len() as int) }
}

/// `path` with the marker of the home directory in place of `home`, where `path` is `home` or
/// lies below it; else `path` as it is.
pub open spec fn reduced(home: Option<Seq<char>>, path: Seq<char>) -> Label {
    match home {
        Some(home) => if under(home, path) {
            Label::Home { rest: path.skip(home.len() as int) }
        } else {
            Label::Plain { path }
        },
        None => Label::Plain { path },
    }
}

/// `label` shows `path`: by the shortcut that stands for it, where shortcuts are asked for
/// and one does; else by [`reduced`].
pub open spec fn shows(
    shortcuts: Seq<Shortcut>,
    home: Option<Seq<char>>,
    path: Seq<char>,
    shorten: bool,
    label: Label,
) -> bool {
    if shorten && exists|i: int| wins(shortcuts, path, i) {
        exists|i: int| wins(shortcuts, path, i) && label == shortened_by(shortcuts[i], path)
    } else {
        label == reduced(home, path)
    }
}

/// The characters of a home directory, if there is one.
pub open spec fn home_text(home: Option<&str>) -> Option<Seq<char>> {
    match home {
        Some(home) => Some(home@),
        None => None,
    }
}

/// The label that puts a shortcut's name in place of its directory, where a shortcut stands
/// for the path.
pub fn shorten_path(shortcuts: &Vec<Shortcut>, path: &Path) -> (label: Option<PathLabel>)
    ensures
        match label {
            Some(label) => exists|i: int|
                wins(shortcuts@, path.path@, i) && label@ == shortened_by(
                    shortcuts@[i],
                    path.path@,
                ),
            None => forall|i: int| !wins(shortcuts@, path.path@, i),
        },
{
    let mut best: Option<usize> = None;
    let mut best_length: usize = 0;
    let mut i: usize = 0;
    while i < shortcuts.len()
        invariant
            i <= shortcuts.len(),
            match best {
                Some(b) => leads(shortcuts@, i as int, path.path@, b as int) && best_length
                    == byte_length(shortcuts@[b as int].path@),
                None => forall|j: int| 0 <= j < i ==> !fits(#[trigger] shortcuts@[j], path.path@),
            },
        decreases shortcuts.len() - i,
    {
        let shortcut = &shortcuts[i];
        let length: usize = shortcut.path.as_str().as_bytes().len();
        if (best.is_none() || length > best_length) && is_under(
            shortcut.path.as_str(),
            path.path.as_str(),
        ) {
            best = Some(i);
            best_length = length;
        }
        i += 1;
    }
    match best {
        Some(b) => {
            let shortcut = &shortcuts[b];
            let skip: usize = shortcut.path.as_str().unicode_len();
            let label = PathLabel::Shortcut {
                name: shortcut.name.clone(),
                rest: tail(path.path.as_str(), skip),
            };
            assert(wins(shortcuts@, path.path@, b as int));
            Some(label)
        },
        None => None,
    }
}

/// The label that puts the marker of the home directory in place of `home`, where the path is
/// `home` or lies below it; else the path as it is.
pub fn reduce_path(home: Option<&str>, path: &Path) -> (label: PathLabel)
    ensures
        label@ == reduced(home_text(home), path.path@),
{
    match home {
        Some(home) => {
            if is_under(home, path.path.as_str()) {
                let skip: usize = home.unicode_len();
                PathLabel::Home { rest: tail(path.path.as_str(), skip) }
            } else {
                PathLabel::Plain { path: path.path.clone() }
            }
        },
        None => PathLabel::Plain { path: path.path.clone() },
    }
}

/// The row of one visited path.
pub fn format_history_row(
    shortcuts: &Vec<Shortcut>,
    home: Option<&str>,
    path: &Path,
    shorten: bool,
) -> (row: HistoryRow)
    ensures
        row.date == path.date,
        shows(shortcuts@, home_text(home), path.path@, shorten, row.label@),
{
    let shortened = if shorten {
        shorten_path(shortcuts, path)
    } else {
        None
    };
    let label = match shortened {
        Some(label) => label,
        None => reduce_path(home, path),
    };
    HistoryRow { date: path.date, label }
}

/// The rows of the visited paths, in their order.
pub fn format_history_rows(
    shortcuts: &Vec<Shortcut>,
    home: Option<&str>,
    paths: &Vec<Path>,
    shorten: bool,
) -> (rows: Vec<HistoryRow>)
    ensures
        rows.len() == paths.len(),
        forall|k: int|
            0 <= k < paths.len() ==> (#[trigger] rows@[k]).date == paths@[k].date && shows(
                shortcuts@,
                home_text(home),
                paths@[k].path@,
                shorten,
                rows@[k].label@,
            ),
{
    let mut rows: Vec<HistoryRow> = Vec::new();
    let mut k: usize = 0;
    while k < paths.len()
        invariant
            k <= paths.len(),
            rows.len() == k,
            forall|n: int|
                0 <= n < k ==> (#[trigger] rows@[n]).date == paths@[n].date && shows(
                    shortcuts@,
                    home_text(home),
                    paths@[n].path@,
                    shorten,
                    rows@[n].label@,
                ),
        decreases paths.len() - k,
    {
        rows.push(format_history_row(shortcuts, home, &paths[k], shorten));
        k += 1;
    }
    rows
}

/// The views of a session, in the order in which the focus passes through them.
#[derive(Clone, Copy, Debug, PartialEq, Eq, Structural)]
pub enum Focus {
    History,
    Shortcuts,
}

impl Focus {
    /// The view that gets the focus after this one; after the last comes the first.
    pub open spec fn following(self) -> Focus {
        match self {
            Focus::History => Focus::Shortcuts,
            Focus::Shortcuts => Focus::History,
        }
    }

    /// The view that gets the focus after this one.
    pub fn next(self) -> (next: Focus)
        ensures
            next == self.following(),
    {
        match self {
            Focus::History => Focus::Shortcuts,
            Focus::Shortcuts => Focus::History,
        }
    }
}

/// What the event loop of a session does after an event.
#[derive(Debug, PartialEq, Eq)]
pub enum Progress {
    /// Wait for the next event.
    Wait,
    /// Draw the view that has the focus, then wait for the next event.
    Redraw,
    /// End the session, with the selected text if there is one.
    Done(Option<String>),
}

/// The texts of a list of names.
pub open spec fn texts(names: Vec<String>) -> Seq<Seq<char>> {
    names@.map_values(|name: String| name@)
}

/// A session: the history view and the shortcut view, the view that has the focus, and the
/// switch that both views share.
pub struct Gui<H, S> {
    current_view: Focus,
    history_view: TableView<Path, H>,
    shortcut_view: TableView<Shortcut, S>,
    view_state: bool,
}

impl<H: DataSource<Path>, S: DataSource<Shortcut>> Gui<H, S> {
    /// The view that has the focus.
    pub closed spec fn current(&self) -> Focus {
        self.current_view
    }

    /// The history view.
    pub closed spec fn history(&self) -> TableView<Path, H> {
        self.history_view
    }

    /// The shortcut view.
    pub closed spec fn shortcuts(&self) -> TableView<Shortcut, S> {
        self.shortcut_view
    }

    /// The switch that both views share: whether shortcuts stand for paths.
    pub closed spec fn flag(&self) -> bool {
        self.view_state
    }

    /// Both views are well formed.
    pub open spec fn wf(&self) -> bool {
        self.history().wf() && self.shortcuts().wf()
    }

    /// The view that has the focus can take the event.
    pub open spec fn takes(&self, event: Input) -> bool {
        match self.current() {
            Focus::History => self.history().takes(event),
            Focus::Shortcuts => self.shortcuts().takes(event),
        }
    }

    /// A session over the two sources: both views are empty, the history view has the focus,
    /// and shortcuts stand for paths.
    pub fn new(history: H, shortcuts: S, colors: &Colors) -> (gui: Self)
        ensures
            gui.wf(),
            gui.current() == Focus::History,
            gui.flag(),
            gui.history().model()@ == Cache::<Path>::empty(),
            gui.history().model().log() == Seq::<Fetch<Path>>::empty(),
            gui.history().model().source() == history,
            gui.history().selected() == 0,
            gui.history().rows() == 0,
            gui.history().search() == Seq::<char>::empty(),
            texts(gui.history().dress().0) == seq!["date"@, "path"@],
            gui.history().dress().1 == *colors,
            gui.shortcuts().model()@ == Cache::<Shortcut>::empty(),
            gui.shortcuts().model().log() == Seq::<Fetch<Shortcut>>::empty(),
            gui.shortcuts().model().source() == shortcuts,
            gui.shortcuts().selected() == 0,
            gui.shortcuts().rows() == 0,
            gui.shortcuts().search() == Seq::<char>::empty(),
            texts(gui.shortcuts().dress().0) == seq!["shortcut"@, "path"@],
            gui.shortcuts().dress().1 == *colors,
    {
        let mut history_columns: Vec<String> = Vec::new();
        history_columns.push(String::from_str("date"));
        history_columns.push(String::from_str("path"));
        let mut shortcut_columns: Vec<String> = Vec::new();
        shortcut_columns.push(String::from_str("shortcut"));
        shortcut_columns.push(String::from_str("path"));
        assert(texts(history_columns) =~= seq!["date"@, "path"@]);
        assert(texts(shortcut_columns) =~= seq!["shortcut"@, "path"@]);
        Gui {
            current_view: Focus::History,
            history_view: TableView::new(history_columns, history, colors.clone()),
            shortcut_view: TableView::new(shortcut_columns, shortcuts, colors.clone()),
            view_state: true,
        }
    }

    /// The view that has the focus.
    pub fn current_view(&self) -> (view: Focus)
        ensures
            view == self.current(),
    {
        self.current_view
    }

    /// The history view.
    pub fn history_view(&self) -> (view: &TableView<Path, H>)
        ensures
            *view == self.history(),
    {
        &self.history_view
    }

    /// The shortcut view.
    pub fn shortcut_view(&self) -> (view: &TableView<Shortcut, S>)
        ensures
            *view == self.shortcuts(),
    {
        &self.shortcut_view
    }

    /// Whether shortcuts stand for paths.
    pub fn view_state(&self) -> (flag: bool)
        ensures
            flag == self.flag(),
    {
        self.view_state
    }

    /// Whether the view that has the focus can take the event.
    pub fn can_handle(&self, event: &Input) -> (able: bool)
        requires
            self.wf(),
        ensures
            able == self.takes(*event),
    {
        match self.current_view {
            Focus::History => self.history_view.can_handle(event),
            Focus::Shortcuts => self.shortcut_view.can_handle(event),
        }
    }

    /// What the view that had the focus answered to an event, read off what the session did:
    /// the session ends with the view's result, and passes the focus on where the view asked
    /// for the next one.
    pub open spec fn answer(&self, after: Self, progress: Progress) -> Reaction {
        match progress {
            Progress::Wait => Reaction::Wait,
            Progress::Redraw => if after.current() == self.current() {
                Reaction::Redraw
            } else {
                Reaction::Leave(GuiResult::Next)
            },
            Progress::Done(None) => Reaction::Leave(GuiResult::Quit),
            Progress::Done(Some(text)) => Reaction::Leave(GuiResult::Print(text)),
        }
    }

    /// The transition that an event makes of the session.
    ///
    /// The event goes to the view that has the focus, see [`TableView::event_step`]; the other
    /// view stays as it is. The focus moves to the following view where the view asked for it,
    /// and stays otherwise.
    pub open spec fn event_step(&self, after: Self, event: Input, progress: Progress) -> bool {
        let reaction = self.answer(after, progress);
        &&& match self.current() {
            Focus::History => {
                &&& self.history().event_step(
                    after.history(),
                    event,
                    self.flag(),
                    after.flag(),
                    reaction,
                )
                &&& after.shortcuts() == self.shortcuts()
            },
            Focus::Shortcuts => {
                &&& self.shortcuts().event_step(
                    after.shortcuts(),
                    event,
                    self.flag(),
                    after.flag(),
                    reaction,
                )
                &&& after.history() == self.history()
            },
        }
        &&& after.current() == if leaving(reaction) == Some(GuiResult::Next) {
            self.current().following()
        } else {
            self.current()
        }
    }

    /// Takes one event of the terminal and says what the event loop does next.
    pub fn handle_event(&mut self, event: Input) -> (progress: Progress)
        requires
            old(self).wf(),
            old(self).takes(event),
        ensures
            final(self).wf(),
            old(self).event_step(*final(self), event, progress),
    {
        let reaction = match self.current_view {
            Focus::History => self.history_view.handle_event(event, &mut self.view_state),
            Focus::Shortcuts => self.shortcut_view.handle_event(event, &mut self.view_state),
        };
        match reaction {
            Reaction::Wait => Progress::Wait,
            Reaction::Redraw => Progress::Redraw,
            Reaction::Leave(GuiResult::Next) => {
                self.current_view = self.current_view.next();
                Progress::Redraw
            },
            Reaction::Leave(GuiResult::Quit) => Progress::Done(None),
            Reaction::Leave(GuiResult::Print(text)) => Progress::Done(Some(text)),
        }
    }

    /// What drawing into the frame `area` makes of the session: the view that has the focus
    /// is drawn into it, see [`TableView::draw_step`], and nothing else changes.
    pub open spec fn draw_step(&self, after: Self, area: Area, screen: Option<Screen>) -> bool {
        &&& after.current() == self.current()
        &&& after.flag() == self.flag()
        &&& match self.current() {
            Focus::History => {
                &&& self.history().draw_step(after.history(), area, screen)
                &&& after.shortcuts() == self.shortcuts()
            },
            Focus::Shortcuts => {
                &&& self.shortcuts().draw_step(after.shortcuts(), area, screen)
                &&& after.history() == self.history()
            },
        }
    }

    /// Fits the view that has the focus to the frame `area` and says what the frame shows.
    ///
    /// The layout of the terminal library decides whether there is a screen, see
    /// [`TableView::draw`].
    pub fn draw(&mut self, area: Area) -> (screen: Option<Screen>)
        requires
            old(self).wf(),
        ensures
            final(self).wf(),
            old(self).draw_step(*final(self), area, screen),
    {
        match self.current_view {
            Focus::History => self.history_view.draw(area),
            Focus::Shortcuts => self.shortcut_view.draw(area),
        }
    }

    /// The rows of the history view: one for each cached path, shown with the shortcuts where
    /// the switch of the session is on.
    pub fn history_rows(&self, shortcuts: &Vec<Shortcut>, home: Option<&str>) -> (rows: Vec<
        HistoryRow,
    >)
        ensures
            match self.history().model()@.entries {
                Some(paths) => {
                    &&& rows.len() == paths.len()
                    &&& forall|k: int|
                        0 <= k < paths.len() ==> (#[trigger] rows@[k]).date == paths[k].date
                            && shows(
                            shortcuts@,
                            home_text(home),
                            paths[k].path@,
                            self.flag(),
                            rows@[k].label@,
                        )
                },
                None => rows.len() == 0,
            },
    {
        match self.history_view.entries() {
            Some(paths) => format_history_rows(shortcuts, home, paths, self.view_state),
            None => Vec::new(),
        }
    }
}

/// The focus that is passed on twice is back where it was, and on the way neither view nor the
/// switch has changed: a view that is left is found again as it was.
pub proof fn lemma_focus_comes_back<H: DataSource<Path>, S: DataSource<Shortcut>>(
    before: Gui<H, S>,
    between: Gui<H, S>,
    after: Gui<H, S>,
    modifiers: Modifiers,
    first: Progress,
    second: Progress,
)
    requires
        before.event_step(between, Input::Key(KeyPress { code: Key::Tab, modifiers }), first),
        between.event_step(after, Input::Key(KeyPress { code: Key::Tab, modifiers }), second),
    ensures
        between.current() == before.current().following(),
        after.current() == before.current(),
        after.history() == before.history(),
        after.shortcuts() == before.shortcuts(),
        after.flag() == before.flag(),
        first is Redraw,
        second is Redraw,
{
}

} // verus!
