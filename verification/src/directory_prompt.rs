//! The directory prompt: a text input with filesystem directory suggestions,
//! refreshed after a short quiet period, navigable with Up/Down and accepted
//! with Tab. This module holds the prompt's state and every decision it makes;
//! the caller owns the text area, the clock, the filesystem and the screen, and
//! carries out the actions that the decisions name.

use std::path::PathBuf;
use vstd::prelude::*;

use crate::paths::{path_display, path_display_text, path_file_name, path_file_name_text};
use crate::text::{
    key_is_less, key_less, lemma_key_less_asymmetric, lemma_key_less_total,
    lemma_key_less_transitive,
    ascii_lower, seq_starts_with, starts_with, to_ascii_lowercase, trim, trim_ws,
};

verus! {

/// At most this many suggestions are shown.
pub const DIRECTORY_SUGGESTION_LIMIT: usize = 6;

/// Quiet period, in milliseconds, between an edit and the refresh of the suggestions.
pub const DIRECTORY_SUGGESTION_DEBOUNCE_MS: u64 = 120;

/// What the suggestion list holds.
#[verifier::ext_equal]
pub struct SuggestionStateView {
    pub items: Seq<PathBuf>,
    pub selected: Option<usize>,
    pub pending_refresh_at: Option<u64>,
}

/// The suggestions under the input: the directories offered, which one is
/// selected, and when (in milliseconds of the caller's monotonic clock) they are
/// due to be refreshed.
pub struct DirectorySuggestionState {
    items: Vec<PathBuf>,
    selected: Option<usize>,
    pending_refresh_at: Option<u64>,
}

impl View for DirectorySuggestionState {
    type V = SuggestionStateView;

    closed spec fn view(&self) -> SuggestionStateView {
        SuggestionStateView {
            items: self.items@,
            selected: self.selected,
            pending_refresh_at: self.pending_refresh_at,
        }
    }
}

/// The selection that a fresh list of suggestions starts with: the first one, if any.
pub open spec fn initial_selection(len: nat) -> Option<usize> {
    if len == 0 {
        None
    } else {
        Some(0)
    }
}

/// The selection after moving `step` places from `current` in a list of `len`
/// suggestions, wrapping around at both ends.
pub open spec fn moved_selection(current: Option<usize>, step: int, len: nat) -> int {
    let start: int = match current {
        Some(i) => i as int,
        None => 0,
    };
    (start + step) % (len as int)
}

/// What a refresh check asks of the caller.
#[derive(Debug, Clone, Copy, PartialEq, Eq)]
pub enum RefreshCheck {
    /// No refresh is pending.
    Idle,
    /// A refresh is pending but not yet due: ask for a frame after this many milliseconds.
    NotYetDue(u64),
    /// A refresh is due: list the suggestions for the current input and hand
    /// them to `replace_items`.
    Due,
}

impl DirectorySuggestionState {
    #[verifier::type_invariant]
    spec fn selection_in_range(self) -> bool {
        self.selected matches Some(i) ==> i < self.items.len()
    }

    /// A suggestion list holding `items`, with the first one selected.
    pub fn new(items: Vec<PathBuf>) -> (s: Self)
        ensures
            s@.items == items@,
            s@.selected == initial_selection(items@.len()),
            items@.len() > 0 ==> s@.selected == Some(0usize),
            items@.len() == 0 ==> s@.selected is None,
            s@.pending_refresh_at is None,
    {
        let selected = if items.len() == 0 {
            None
        } else {
            Some(0)
        };
        DirectorySuggestionState { items, selected, pending_refresh_at: None }
    }

    /// The suggestions offered.
    pub fn items(&self) -> (r: &Vec<PathBuf>)
        ensures
            r@ == self@.items,
    {
        &self.items
    }

    /// The selected suggestion's index, always within the list.
    pub fn selected(&self) -> (r: Option<usize>)
        ensures
            r == self@.selected,
            r matches Some(i) ==> i < self@.items.len(),
    {
        proof {
            use_type_invariant(self);
        }
        self.selected
    }

    /// When the suggestions are due to be refreshed, if a refresh is pending.
    pub fn pending_refresh_at(&self) -> (r: Option<u64>)
        ensures
            r == self@.pending_refresh_at,
    {
        self.pending_refresh_at
    }

    /// Replaces the suggestions with a freshly listed set, selects the first one
    /// and clears the pending refresh.
    pub fn replace_items(&mut self, items: Vec<PathBuf>)
        ensures
            final(self)@.items == items@,
            final(self)@.selected == initial_selection(items@.len()),
            items@.len() > 0 ==> final(self)@.selected == Some(0usize),
            items@.len() == 0 ==> final(self)@.selected is None,
            final(self)@.pending_refresh_at is None,
    {
        *self = DirectorySuggestionState::new(items);
    }

    /// Schedules a refresh `DIRECTORY_SUGGESTION_DEBOUNCE_MS` after `now`.
    pub fn schedule_refresh(&mut self, now: u64)
        requires
            now + DIRECTORY_SUGGESTION_DEBOUNCE_MS <= u64::MAX,
        ensures
            final(self)@.items == old(self)@.items,
            final(self)@.selected == old(self)@.selected,
            final(self)@.pending_refresh_at == Some((now + DIRECTORY_SUGGESTION_DEBOUNCE_MS) as u64),
    {
        proof {
            use_type_invariant(&*self);
        }
        let refresh_at = now + DIRECTORY_SUGGESTION_DEBOUNCE_MS;
        self.pending_refresh_at = Some(refresh_at);
    }

    /// Whether the pending refresh is due at `now`; the state is left as it is.
    pub fn refresh_check(&self, now: u64) -> (r: RefreshCheck)
        ensures
            match self@.pending_refresh_at {
                None => r == RefreshCheck::Idle,
                Some(at) => if now < at {
                    r == RefreshCheck::NotYetDue((at - now) as u64)
                } else {
                    r == RefreshCheck::Due
                },
            },
    {
        match self.pending_refresh_at {
            None => RefreshCheck::Idle,
            Some(at) => if now < at {
                RefreshCheck::NotYetDue(at - now)
            } else {
                RefreshCheck::Due
            },
        }
    }

    /// Moves the selection `step` places, wrapping around at both ends; false,
    /// with nothing changed, when there are no suggestions.
    pub fn move_selection(&mut self, step: isize) -> (moved: bool)
        requires
            old(self)@.items.len() <= isize::MAX,
            isize::MIN <= (match old(self)@.selected {
                Some(i) => i as int,
                None => 0,
            }) + step <= isize::MAX,
        ensures
            moved == (old(self)@.items.len() > 0),
            final(self)@.items == old(self)@.items,
            final(self)@.pending_refresh_at == old(self)@.pending_refresh_at,
            moved ==> final(self)@.selected == Some(
                moved_selection(old(self)@.selected, step as int, old(self)@.items.len()) as usize,
            ),
            !moved ==> final(self)@.selected == old(self)@.selected,
            final(self)@.selected matches Some(i) ==> i < final(self)@.items.len(),
    {
        proof {
            use_type_invariant(&*self);
        }
        if self.items.len() == 0 {
            return false;
        }
        let len = self.items.len() as isize;
        let current: isize = match self.selected {
            Some(i) => i as isize,
            None => 0,
        };
        let next = match (current + step).checked_rem_euclid(len) {
            Some(r) => r,
            None => 0,
        };
        assert(0 <= next < len);
        self.selected = Some(next as usize);
        true
    }

    /// A copy of the selected suggestion, if any.
    pub fn selected_item(&self) -> (r: Option<PathBuf>)
        ensures
            match self@.selected {
                Some(i) => r == Some(self@.items[i as int]),
                None => r is None,
            },
    {
        proof {
            use_type_invariant(self);
        }
        match self.selected {
            Some(i) => Some(self.items[i].clone()),
            None => None,
        }
    }
}

/// Which key was pressed, as far as the prompt tells keys apart.
#[derive(Debug, Clone, Copy, PartialEq, Eq, Structural)]
pub enum PromptKeyCode {
    Enter,
    Tab,
    Up,
    Down,
    Other,
}

/// A key press: its code and whether it came with no modifier at all.
#[derive(Debug, Clone, Copy, PartialEq, Eq, Structural)]
pub struct PromptKey {
    pub code: PromptKeyCode,
    pub no_modifiers: bool,
}

/// What a key press asks of the caller.
#[derive(Debug, PartialEq, Eq)]
pub enum KeyAction {
    /// Hand this (trimmed) text to the submit callback; the prompt is now complete.
    Submit(String),
    /// Nothing to do.
    Ignore,
    /// Accept the selected suggestion (see `DirectoryPromptView::selected_suggestion_text`).
    ApplySuggestion,
    /// Move the selection by this step (see `DirectoryPromptView::move_selection`);
    /// when nothing moved, forward the key to the text area instead.
    MoveSelection(isize),
    /// Forward the key to the text area; if that changed the text, call
    /// `DirectoryPromptView::queue_suggestion_refresh`.
    ForwardToInput,
}

/// What the prompt holds.
#[verifier::ext_equal]
pub struct DirectoryPromptModel {
    pub title: Seq<char>,
    pub placeholder: Seq<char>,
    pub context_label: Option<Seq<char>>,
    pub cwd: PathBuf,
    pub suggestions: SuggestionStateView,
    pub complete: bool,
}

/// A prompt for a directory path, with suggestions.
pub struct DirectoryPromptView {
    title: String,
    placeholder: String,
    context_label: Option<String>,
    cwd: PathBuf,
    suggestions: DirectorySuggestionState,
    complete: bool,
}

impl View for DirectoryPromptView {
    type V = DirectoryPromptModel;

    closed spec fn view(&self) -> DirectoryPromptModel {
        DirectoryPromptModel {
            title: self.title@,
            placeholder: self.placeholder@,
            context_label: match self.context_label {
                Some(l) => Some(l@),
                None => None,
            },
            cwd: self.cwd,
            suggestions: self.suggestions@,
            complete: self.complete,
        }
    }
}

/// A call on the prompt, as far as completion is concerned.
pub enum PromptEvent {
    /// `handle_key_event` with this key while the input holds this text.
    Key { key: PromptKey, text: Seq<char> },
    /// `on_ctrl_c`.
    CtrlC,
    /// Any other call (paste, refresh, selection, layout, queries).
    Other,
}

/// Whether a call completes the prompt: Enter with no modifier on input that is
/// not blank once trimmed, or Ctrl-C.
pub open spec fn event_completes(ev: PromptEvent) -> bool {
    match ev {
        PromptEvent::Key { key, text } => key.code == PromptKeyCode::Enter && key.no_modifiers
            && trim_ws(text).len() > 0,
        PromptEvent::CtrlC => true,
        PromptEvent::Other => false,
    }
}

/// The action for a key press while the input holds `text`.
pub open spec fn key_action_spec(key: PromptKey, text: Seq<char>) -> KeyAction {
    match key.code {
        PromptKeyCode::Enter if key.no_modifiers => if trim_ws(text).len() > 0 {
            KeyAction::Submit(arbitrary())
        } else {
            KeyAction::Ignore
        },
        PromptKeyCode::Tab => KeyAction::ApplySuggestion,
        PromptKeyCode::Up if key.no_modifiers => KeyAction::MoveSelection(-1isize),
        PromptKeyCode::Down if key.no_modifiers => KeyAction::MoveSelection(1isize),
        _ => KeyAction::ForwardToInput,
    }
}

impl DirectoryPromptView {
    /// A prompt that starts out offering `initial_suggestions` (the directories
    /// listed for an empty input in `cwd`).
    pub fn new(
        title: String,
        placeholder: String,
        context_label: Option<String>,
        cwd: PathBuf,
        initial_suggestions: Vec<PathBuf>,
    ) -> (v: Self)
        ensures
            v@.title == title@,
            v@.placeholder == placeholder@,
            v@.context_label == (match context_label {
                Some(l) => Some(l@),
                None => None::<Seq<char>>,
            }),
            v@.cwd == cwd,
            v@.suggestions.items == initial_suggestions@,
            v@.suggestions.selected == initial_selection(initial_suggestions@.len()),
            v@.suggestions.pending_refresh_at is None,
            !v@.complete,
    {
        DirectoryPromptView {
            title,
            placeholder,
            context_label,
            cwd,
            suggestions: DirectorySuggestionState::new(initial_suggestions),
            complete: false,
        }
    }

    /// The prompt's title.
    pub fn title(&self) -> (r: &String)
        ensures
            r@ == self@.title,
    {
        &self.title
    }

    /// The text shown while the input is empty.
    pub fn placeholder(&self) -> (r: &String)
        ensures
            r@ == self@.placeholder,
    {
        &self.placeholder
    }

    /// The optional line shown under the title.
    pub fn context_label(&self) -> (r: &Option<String>)
        ensures
            self@.context_label == (match *r {
                Some(l) => Some(l@),
                None => None::<Seq<char>>,
            }),
    {
        &self.context_label
    }

    /// The directory that relative input is resolved against.
    pub fn cwd(&self) -> (r: &PathBuf)
        ensures
            *r == self@.cwd,
    {
        &self.cwd
    }

    /// The suggestions.
    pub fn suggestions(&self) -> (r: &DirectorySuggestionState)
        ensures
            r@ == self@.suggestions,
    {
        &self.suggestions
    }

    /// Whether the prompt was submitted or cancelled.
    pub fn is_complete(&self) -> (r: bool)
        ensures
            r == self@.complete,
    {
        self.complete
    }

    /// After the input text changed at `now`: schedules a refresh of the
    /// suggestions and returns after how many milliseconds the caller should
    /// ask for a frame.
    pub fn queue_suggestion_refresh(&mut self, now: u64) -> (frame_in: u64)
        requires
            now + DIRECTORY_SUGGESTION_DEBOUNCE_MS <= u64::MAX,
        ensures
            frame_in == DIRECTORY_SUGGESTION_DEBOUNCE_MS,
            final(self)@ == (DirectoryPromptModel {
                suggestions: SuggestionStateView {
                    pending_refresh_at: Some((now + DIRECTORY_SUGGESTION_DEBOUNCE_MS) as u64),
                    ..old(self)@.suggestions
                },
                ..old(self)@
            }),
    {
        self.suggestions.schedule_refresh(now);
        DIRECTORY_SUGGESTION_DEBOUNCE_MS
    }

    /// Whether the pending refresh of the suggestions is due at `now`. When it is,
    /// the caller lists the suggestions for the current input and hands them to
    /// `apply_refreshed_suggestions`; when it is not yet, the caller asks for a frame
    /// after the given delay.
    pub fn refresh_suggestions_if_due(&self, now: u64) -> (r: RefreshCheck)
        ensures
            match self@.suggestions.pending_refresh_at {
                None => r == RefreshCheck::Idle,
                Some(at) => if now < at {
                    r == RefreshCheck::NotYetDue((at - now) as u64)
                } else {
                    r == RefreshCheck::Due
                },
            },
    {
        self.suggestions.refresh_check(now)
    }

    /// Installs freshly listed suggestions: the first is selected and no refresh
    /// is pending any more.
    pub fn apply_refreshed_suggestions(&mut self, items: Vec<PathBuf>)
        ensures
            final(self)@ == (DirectoryPromptModel {
                suggestions: SuggestionStateView {
                    items: items@,
                    selected: initial_selection(items@.len()),
                    pending_refresh_at: None,
                },
                ..old(self)@
            }),
    {
        self.suggestions.replace_items(items);
    }

    /// Moves the selected suggestion `step` places, wrapping around; false when
    /// there are no suggestions.
    pub fn move_selection(&mut self, step: isize) -> (moved: bool)
        requires
            old(self)@.suggestions.items.len() <= isize::MAX,
            isize::MIN <= (match old(self)@.suggestions.selected {
                Some(i) => i as int,
                None => 0,
            }) + step <= isize::MAX,
        ensures
            moved == (old(self)@.suggestions.items.len() > 0),
            final(self)@ == (DirectoryPromptModel {
                suggestions: SuggestionStateView {
                    selected: if moved {
                        Some(
                            moved_selection(
                                old(self)@.suggestions.selected,
                                step as int,
                                old(self)@.suggestions.items.len(),
                            ) as usize,
                        )
                    } else {
                        old(self)@.suggestions.selected
                    },
                    ..old(self)@.suggestions
                },
                ..old(self)@
            }),
    {
        self.suggestions.move_selection(step)
    }

    /// The text that accepting the selected suggestion puts in the input (the
    /// suggestion's display text), or `None` when nothing is selected. The caller
    /// then lists the suggestions for that text and hands them to
    /// `apply_refreshed_suggestions`.
    pub fn selected_suggestion_text(&self) -> (r: Option<String>)
        ensures
            r is Some <==> self@.suggestions.selected is Some,
            r matches Some(t) ==> t@ == path_display_text(
                self@.suggestions.items[self@.suggestions.selected->0 as int],
            ),
    {
        match self.suggestions.selected_item() {
            Some(p) => Some(path_display(&p)),
            None => None,
        }
    }

    /// For each suggestion, whether it is the selected one.
    pub fn suggestion_selection_marks(&self) -> (r: Vec<bool>)
        ensures
            r@.len() == self@.suggestions.items.len(),
            forall|i: int|
                0 <= i < r@.len() ==> #[trigger] r@[i] == (self@.suggestions.selected == Some(
                    i as usize,
                )),
    {
        let n = self.suggestions.items().len();
        let selected = self.suggestions.selected();
        let mut marks: Vec<bool> = Vec::new();
        let mut i: usize = 0;
        while i < n
            invariant
                n == self@.suggestions.items.len(),
                selected == self@.suggestions.selected,
                i <= n,
                marks@.len() == i,
                forall|j: int|
                    0 <= j < i ==> #[trigger] marks@[j] == (selected == Some(j as usize)),
            decreases n - i,
        {
            let mark = match selected {
                Some(s) => s == i,
                None => false,
            };
            marks.push(mark);
            i = i + 1;
        }
        marks
    }

    /// Decides what a key press does while the input holds `text`. Enter with no
    /// modifier submits the trimmed text, unless it is empty, and completes the
    /// prompt; Tab accepts the selected suggestion; Up and Down with no modifier
    /// move the selection; any other key goes to the text area.
    pub fn handle_key_event(&mut self, key: PromptKey, text: &str) -> (r: KeyAction)
        ensures
            match key_action_spec(key, text@) {
                KeyAction::Submit(_) => r matches KeyAction::Submit(t) && t@ == trim_ws(text@),
                other => r == other,
            },
            final(self)@ == (DirectoryPromptModel {
                complete: old(self)@.complete || r is Submit,
                ..old(self)@
            }),
            final(self)@.complete == (old(self)@.complete || event_completes(
                PromptEvent::Key { key, text: text@ },
            )),
            key.code == PromptKeyCode::Other || (!key.no_modifiers && key.code
                != PromptKeyCode::Tab) ==> r == KeyAction::ForwardToInput,
            r is Ignore ==> key.code == PromptKeyCode::Enter && key.no_modifiers && trim_ws(
                text@,
            ).len() == 0,
    {
        match key.code {
            PromptKeyCode::Enter => {
                if !key.no_modifiers {
                    return KeyAction::ForwardToInput;
                }
                let trimmed = trim(text);
                if trimmed.unicode_len() > 0 {
                    self.complete = true;
                    KeyAction::Submit(String::from_str(trimmed))
                } else {
                    KeyAction::Ignore
                }
            },
            PromptKeyCode::Tab => KeyAction::ApplySuggestion,
            PromptKeyCode::Up => if key.no_modifiers {
                KeyAction::MoveSelection(-1)
            } else {
                KeyAction::ForwardToInput
            },
            PromptKeyCode::Down => if key.no_modifiers {
                KeyAction::MoveSelection(1)
            } else {
                KeyAction::ForwardToInput
            },
            PromptKeyCode::Other => KeyAction::ForwardToInput,
        }
    }

    /// Ctrl-C: the prompt is cancelled, and complete. The caller runs the cancel
    /// callback and reports the event as handled.
    pub fn on_ctrl_c(&mut self)
        ensures
            final(self)@ == (DirectoryPromptModel { complete: true, ..old(self)@ }),
            final(self)@.complete == (old(self)@.complete || event_completes(PromptEvent::CtrlC)),
    {
        self.complete = true;
    }

    /// A paste at `now`: nothing happens to an empty paste (false); otherwise the
    /// caller inserts the text and the suggestions are due for a refresh (true).
    pub fn handle_paste(&mut self, pasted: &str, now: u64) -> (r: bool)
        requires
            now + DIRECTORY_SUGGESTION_DEBOUNCE_MS <= u64::MAX,
        ensures
            r == (pasted@.len() > 0),
            !r ==> final(self)@ == old(self)@,
            r ==> final(self)@ == (DirectoryPromptModel {
                suggestions: SuggestionStateView {
                    pending_refresh_at: Some((now + DIRECTORY_SUGGESTION_DEBOUNCE_MS) as u64),
                    ..old(self)@.suggestions
                },
                ..old(self)@
            }),
    {
        if pasted.unicode_len() == 0 {
            return false;
        }
        self.queue_suggestion_refresh(now);
        true
    }

    /// The height the prompt asks for, with an input block of `input_height` rows.
    pub fn desired_height(&self, input_height: u16) -> (r: u16)
        requires
            1 + (if self@.context_label is Some {
                1int
            } else {
                0int
            }) + input_height + (self@.suggestions.items.len() as u16) + 3 <= u16::MAX,
        ensures
            r == 1 + (if self@.context_label is Some {
                1int
            } else {
                0int
            }) + input_height + (self@.suggestions.items.len() as u16) + 3,
    {
        prompt_desired_height(
            self.context_label.is_some(),
            input_height,
            self.suggestions.items().len(),
        )
    }

    /// Where each part of the prompt is drawn in `area`, with an input block of
    /// `input_height` rows; `None` when the area is empty.
    pub fn layout(&self, area: Rect, input_height: u16) -> (r: Option<PromptLayout>)
        ensures
            (area.height == 0 || area.width == 0) <==> r is None,
            r matches Some(l) ==> layout_matches(
                l,
                area,
                self@.context_label is Some,
                input_height,
                self@.suggestions.items.len(),
            ),
    {
        prompt_layout(area, self.context_label.is_some(), input_height, self.suggestions.items().len())
    }

    /// The text area that the cursor is placed in, when `area` can hold one.
    pub fn cursor_area(&self, area: Rect, input_height: u16) -> (r: Option<Rect>)
        ensures
            r == (if area.height < 2 || area.width <= 2 || sat_sub(input_height as int, 1) == 0 {
                None
            } else {
                text_area_of(area, self@.context_label is Some, input_height)
            }),
    {
        cursor_text_area(area, self.context_label.is_some(), input_height)
    }
}

/// A directory that may be suggested: its path, its final component as text
/// (if any), and its display text.
pub struct SuggestionCandidate {
    pub path: PathBuf,
    pub file_name: Option<String>,
    pub display: String,
}

/// The candidate for a listed directory.
pub fn suggestion_candidate(path: PathBuf) -> (c: SuggestionCandidate)
    ensures
        c.path == path,
        match c.file_name {
            Some(n) => path_file_name_text(path) == Some(n@),
            None => path_file_name_text(path) is None,
        },
        c.display@ == path_display_text(path),
{
    let file_name = path_file_name(&path);
    let display = path_display(&path);
    SuggestionCandidate { path, file_name, display }
}

/// Whether a candidate is offered for the lower-cased prefix: every one is for
/// an empty prefix; otherwise one whose name, lower-cased, starts with it.
pub open spec fn candidate_matches(c: SuggestionCandidate, prefix_lower: Seq<char>) -> bool {
    prefix_lower.len() == 0 || (c.file_name matches Some(n) && seq_starts_with(
        ascii_lower(n@),
        prefix_lower,
    ))
}

/// The key that suggestions are ordered by: the lower-cased name, or the
/// display text for a path without a textual name.
pub open spec fn candidate_key(c: SuggestionCandidate) -> Seq<char> {
    match c.file_name {
        Some(n) => ascii_lower(n@),
        None => c.display@,
    }
}

/// `item` inserted into `sorted` after every entry whose key is not greater.
pub open spec fn insert_by_key(sorted: Seq<(Seq<char>, PathBuf)>, item: (Seq<char>, PathBuf)) -> Seq<
    (Seq<char>, PathBuf),
>
    decreases sorted.len(),
{
    if sorted.len() == 0 {
        seq![item]
    } else if key_less(item.0, sorted[0].0) {
        seq![item] + sorted
    } else {
        seq![sorted[0]] + insert_by_key(sorted.drop_first(), item)
    }
}

/// The matching candidates with their keys, stably sorted by key.
pub open spec fn sorted_matches(cands: Seq<SuggestionCandidate>, prefix_lower: Seq<char>) -> Seq<
    (Seq<char>, PathBuf),
>
    decreases cands.len(),
{
    if cands.len() == 0 {
        Seq::empty()
    } else {
        let rest = sorted_matches(cands.drop_last(), prefix_lower);
        let c = cands.last();
        if candidate_matches(c, prefix_lower) {
            insert_by_key(rest, (candidate_key(c), c.path))
        } else {
            rest
        }
    }
}

/// The suggestions for the candidates and the typed prefix: the matching
/// directories sorted by key, at most `DIRECTORY_SUGGESTION_LIMIT` of them.
pub open spec fn directory_suggestions(cands: Seq<SuggestionCandidate>, prefix: Seq<char>) -> Seq<
    PathBuf,
> {
    let sorted = sorted_matches(cands, ascii_lower(prefix));
    let shown = if sorted.len() < DIRECTORY_SUGGESTION_LIMIT {
        sorted.len() as int
    } else {
        DIRECTORY_SUGGESTION_LIMIT as int
    };
    sorted.take(shown).map_values(|kp: (Seq<char>, PathBuf)| kp.1)
}

/// The keyed entries' view.
pub open spec fn keyed_view(v: Seq<(String, PathBuf)>) -> Seq<(Seq<char>, PathBuf)> {
    v.map_values(|p: (String, PathBuf)| (p.0@, p.1))
}

/// Inserts `item` into `sorted` after every entry whose key is not greater.
fn insert_keyed(sorted: &mut Vec<(String, PathBuf)>, item: (String, PathBuf))
    ensures
        keyed_view(final(sorted)@) == insert_by_key(keyed_view(old(sorted)@), (item.0@, item.1)),
{
    let ghost old_view = keyed_view(sorted@);
    let ghost it = (item.0@, item.1);
    let n = sorted.len();
    let mut i: usize = 0;
    assert(old_view.skip(0) =~= old_view);
    while i < n && !key_is_less(item.0.as_str(), sorted[i].0.as_str())
        invariant
            n == sorted@.len(),
            old_view == keyed_view(sorted@),
            it == (item.0@, item.1),
            i <= n,
            insert_by_key(old_view, it) == old_view.take(i as int) + insert_by_key(
                old_view.skip(i as int),
                it,
            ),
        decreases n - i,
    {
        assert(old_view.skip(i as int)[0] == old_view[i as int]);
        assert(old_view.skip(i as int).drop_first() =~= old_view.skip(i + 1));
        assert(old_view.take(i + 1) =~= old_view.take(i as int) + seq![old_view[i as int]]);
        i = i + 1;
    }
    if i == n {
        assert(old_view.skip(i as int) =~= Seq::<(Seq<char>, PathBuf)>::empty());
    } else {
        assert(old_view.skip(i as int)[0] == old_view[i as int]);
    }
    sorted.insert(i, item);
    assert(keyed_view(sorted@) =~= old_view.take(i as int) + seq![it] + old_view.skip(i as int));
    assert(insert_by_key(old_view, it) =~= old_view.take(i as int) + seq![it] + old_view.skip(
        i as int,
    ));
}

/// The directories to suggest among `candidates` for the typed `prefix`: those
/// whose name starts with the prefix, ignoring ASCII case (all of them for an
/// empty prefix), sorted by lower-cased name (or display text), at most
/// `DIRECTORY_SUGGESTION_LIMIT`.
pub fn select_directory_suggestions(candidates: Vec<SuggestionCandidate>, prefix: &str) -> (r: Vec<
    PathBuf,
>)
    ensures
        r@ == directory_suggestions(candidates@, prefix@),
{
    let prefix_lower = to_ascii_lowercase(prefix);
    let n = candidates.len();
    let mut sorted: Vec<(String, PathBuf)> = Vec::new();
    let mut i: usize = 0;
    while i < n
        invariant
            n == candidates@.len(),
            prefix_lower@ == ascii_lower(prefix@),
            i <= n,
            keyed_view(sorted@) == sorted_matches(candidates@.take(i as int), prefix_lower@),
        decreases n - i,
    {
        let c = &candidates[i];
        let matches = if prefix_lower.unicode_len() == 0 {
            true
        } else {
            match &c.file_name {
                Some(name) => starts_with(to_ascii_lowercase(name.as_str()).as_str(), prefix_lower.as_str()),
                None => false,
            }
        };
        assert(candidates@.take(i + 1).drop_last() =~= candidates@.take(i as int));
        assert(candidates@.take(i + 1).last() == candidates@[i as int]);
        if matches {
            let key = match &c.file_name {
                Some(name) => to_ascii_lowercase(name.as_str()),
                None => c.display.clone(),
            };
            insert_keyed(&mut sorted, (key, c.path.clone()));
        }
        i = i + 1;
    }
    assert(candidates@.take(n as int) =~= candidates@);
    let shown = if sorted.len() < DIRECTORY_SUGGESTION_LIMIT {
        sorted.len()
    } else {
        DIRECTORY_SUGGESTION_LIMIT
    };
    let mut result: Vec<PathBuf> = Vec::new();
    let mut k: usize = 0;
    while k < shown
        invariant
            shown <= sorted@.len(),
            k <= shown,
            result@ == keyed_view(sorted@).take(k as int).map_values(
                |kp: (Seq<char>, PathBuf)| kp.1,
            ),
        decreases shown - k,
    {
        result.push(sorted[k].1.clone());
        assert(keyed_view(sorted@).take(k + 1).map_values(|kp: (Seq<char>, PathBuf)| kp.1)
            =~= keyed_view(sorted@).take(k as int).map_values(|kp: (Seq<char>, PathBuf)| kp.1).push(
            sorted@[k as int].1,
        ));
        k = k + 1;
    }
    result
}

/// Where suggestions for the typed text are looked for.
#[derive(Debug, Clone, Copy, PartialEq, Eq, Structural)]
pub enum SuggestionRoot {
    /// Nothing typed: the working directory (`.` resolved against it), every
    /// entry offered.
    CurrentDir,
    /// The typed path resolved, every entry offered: it ends with a separator
    /// or is `~`, `.` or `..`.
    ResolvedInput,
    /// The parent of the resolved typed path, offering the entries whose names
    /// start with its final component.
    ParentOfResolvedInput,
}

/// Where suggestions for `input` (already trimmed) are looked for.
pub open spec fn suggestion_root_spec(input: Seq<char>) -> SuggestionRoot {
    if input.len() == 0 {
        SuggestionRoot::CurrentDir
    } else if input.last() == '/' || input.last() == '\\' || input == "~"@ || input == "."@ || input
        == ".."@ {
        SuggestionRoot::ResolvedInput
    } else {
        SuggestionRoot::ParentOfResolvedInput
    }
}

/// Where suggestions for `input` (already trimmed) are looked for.
pub fn suggestion_root(input: &str) -> (r: SuggestionRoot)
    ensures
        r == suggestion_root_spec(input@),
{
    let n = input.unicode_len();
    if n == 0 {
        return SuggestionRoot::CurrentDir;
    }
    proof {
        reveal_strlit("~");
        reveal_strlit(".");
        reveal_strlit("..");
    }
    let last = input.get_char(n - 1);
    if last == '/' || last == '\\' {
        return SuggestionRoot::ResolvedInput;
    }
    let is_tilde = n == 1 && last == '~';
    let is_dot = n == 1 && last == '.';
    let is_dot_dot = n == 2 && last == '.' && input.get_char(0) == '.';
    assert(is_tilde == (input@ == "~"@)) by {
        if n == 1 && last == '~' {
            assert(input@ =~= "~"@);
        }
    }
    assert(is_dot == (input@ == "."@)) by {
        if n == 1 && last == '.' {
            assert(input@ =~= "."@);
        }
    }
    assert(is_dot_dot == (input@ == ".."@)) by {
        if n == 2 && last == '.' && input@[0] == '.' {
            assert(input@ =~= ".."@);
        }
    }
    if is_tilde || is_dot || is_dot_dot {
        SuggestionRoot::ResolvedInput
    } else {
        SuggestionRoot::ParentOfResolvedInput
    }
}

/// A screen rectangle, in terminal cells.
#[derive(Debug, Clone, Copy, PartialEq, Eq, Structural)]
pub struct Rect {
    pub x: u16,
    pub y: u16,
    pub width: u16,
    pub height: u16,
}

/// `a + b`, saturating at `u16::MAX`.
pub open spec fn sat_add(a: int, b: int) -> int {
    if a + b > u16::MAX {
        u16::MAX as int
    } else {
        a + b
    }
}

/// `a - b`, saturating at zero.
pub open spec fn sat_sub(a: int, b: int) -> int {
    if a - b < 0 {
        0
    } else {
        a - b
    }
}

/// `count` one-cell-high rows of width `width` at column `x`, the `i`-th at
/// `start + i`, saturating at `u16::MAX`.
pub open spec fn stacked_rows(x: u16, start: int, width: u16, count: nat) -> Seq<Rect> {
    Seq::new(count, |i: int| Rect { x, y: sat_add(start, i) as u16, width, height: 1 })
}

/// How many of `wanted` rows starting at `start` fit above `bottom`.
pub open spec fn fitting_rows(start: int, bottom: int, wanted: nat) -> nat {
    if start >= bottom {
        0
    } else if bottom - start < wanted {
        (bottom - start) as nat
    } else {
        wanted
    }
}

/// Lines of key hints under the suggestions.
pub const PROMPT_HINT_LINES: usize = 2;

/// Where each part of the prompt is drawn.
pub struct PromptLayout {
    /// The title line.
    pub title: Rect,
    /// The context label line, when there is a label.
    pub context: Option<Rect>,
    /// The input block: a blank line above the text area, then the text area.
    pub input: Rect,
    /// The gutter cells at the start of each input row.
    pub gutter_rows: Vec<Rect>,
    /// The cells cleared on the input's first row, right of the gutter.
    pub clear: Option<Rect>,
    /// The text area (and, while the input is empty, the placeholder).
    pub text_area: Option<Rect>,
    /// One row per suggestion shown, in order, as many as fit.
    pub suggestion_rows: Vec<Rect>,
    /// One row per key-hint line shown, as many as still fit.
    pub hint_rows: Vec<Rect>,
}

/// The row of the input block in an area whose top row is `y`.
pub open spec fn input_row(y: u16, has_context: bool) -> int {
    if has_context {
        sat_add(sat_add(y as int, 1), 1)
    } else {
        sat_add(y as int, 1)
    }
}

/// The first row below the input block.
pub open spec fn rows_start(area: Rect, has_context: bool, input_height: u16) -> int {
    sat_add(input_row(area.y, has_context), input_height as int)
}

/// The row below the area.
pub open spec fn area_bottom(area: Rect) -> int {
    sat_add(area.y as int, area.height as int)
}

/// The text area inside the input block, when there is room for it.
pub open spec fn text_area_of(area: Rect, has_context: bool, input_height: u16) -> Option<Rect> {
    let text_height = sat_sub(input_height as int, 1);
    if area.width >= 2 && text_height > 0 {
        Some(
            Rect {
                x: sat_add(area.x as int, 2) as u16,
                y: sat_add(input_row(area.y, has_context), 1) as u16,
                width: sat_sub(area.width as int, 2) as u16,
                height: text_height as u16,
            },
        )
    } else {
        None
    }
}

/// The layout of the prompt in a non-empty `area`, with an input block of
/// `input_height` rows and `suggestions` suggestions to show.
pub open spec fn layout_matches(
    l: PromptLayout,
    area: Rect,
    has_context: bool,
    input_height: u16,
    suggestions: nat,
) -> bool {
    let iy = input_row(area.y, has_context);
    let start = rows_start(area, has_context, input_height);
    let bottom = area_bottom(area);
    let shown = fitting_rows(start, bottom, suggestions);
    let hints_start = start + shown;
    &&& l.title == Rect { x: area.x, y: area.y, width: area.width, height: 1 }
    &&& l.context == (if has_context {
        Some(Rect { x: area.x, y: sat_add(area.y as int, 1) as u16, width: area.width, height: 1 })
    } else {
        None
    })
    &&& l.input == Rect { x: area.x, y: iy as u16, width: area.width, height: input_height }
    &&& l.gutter_rows@ == (if area.width >= 2 {
        stacked_rows(area.x, iy, 2, input_height as nat)
    } else {
        Seq::empty()
    })
    &&& l.clear == (if area.width > 2 && sat_sub(input_height as int, 1) > 0 {
        Some(
            Rect {
                x: sat_add(area.x as int, 2) as u16,
                y: iy as u16,
                width: sat_sub(area.width as int, 2) as u16,
                height: 1,
            },
        )
    } else {
        None
    })
    &&& l.text_area == text_area_of(area, has_context, input_height)
    &&& l.suggestion_rows@ == stacked_rows(area.x, start, area.width, shown)
    &&& l.hint_rows@ == stacked_rows(
        area.x,
        hints_start,
        area.width,
        fitting_rows(hints_start, bottom, PROMPT_HINT_LINES as nat),
    )
}

/// Rows `start`, `start + 1`, ... (saturating) while they stay above `bottom`,
/// at most `wanted` of them; returns them with the row after the last one.
fn stack_rows(x: u16, start: u16, width: u16, wanted: usize, bottom: u16) -> (r: (Vec<Rect>, u16))
    ensures
        r.0@ == stacked_rows(x, start as int, width, fitting_rows(start as int, bottom as int, wanted as nat)),
        r.1 == start + fitting_rows(start as int, bottom as int, wanted as nat),
{
    let mut rows: Vec<Rect> = Vec::new();
    let mut row_y = start;
    let mut k: usize = 0;
    while k < wanted
        invariant
            k <= wanted,
            row_y == start + k,
            k <= fitting_rows(start as int, bottom as int, wanted as nat),
            rows@ == stacked_rows(x, start as int, width, k as nat),
            k < fitting_rows(start as int, bottom as int, wanted as nat) ==> row_y < bottom,
        ensures
            rows@ == stacked_rows(x, start as int, width, fitting_rows(start as int, bottom as int, wanted as nat)),
            row_y == start + fitting_rows(start as int, bottom as int, wanted as nat),
        decreases wanted - k,
    {
        if row_y >= bottom {
            break;
        }
        rows.push(Rect { x, y: row_y, width, height: 1 });
        assert(rows@ =~= stacked_rows(x, start as int, width, (k + 1) as nat));
        row_y = row_y.saturating_add(1);
        k = k + 1;
    }
    (rows, row_y)
}

/// Where each part of the prompt goes in `area`, or `None` when the area is empty.
pub fn prompt_layout(area: Rect, has_context: bool, input_height: u16, suggestions: usize) -> (r:
    Option<PromptLayout>)
    ensures
        (area.height == 0 || area.width == 0) <==> r is None,
        r matches Some(l) ==> layout_matches(l, area, has_context, input_height, suggestions as nat),
{
    if area.height == 0 || area.width == 0 {
        return None;
    }
    let title = Rect { x: area.x, y: area.y, width: area.width, height: 1 };
    let mut input_y = area.y.saturating_add(1);
    let mut context: Option<Rect> = None;
    if has_context {
        context = Some(Rect { x: area.x, y: input_y, width: area.width, height: 1 });
        input_y = input_y.saturating_add(1);
    }
    let input = Rect { x: area.x, y: input_y, width: area.width, height: input_height };
    let mut gutter_rows: Vec<Rect> = Vec::new();
    let mut clear: Option<Rect> = None;
    let mut text_area: Option<Rect> = None;
    if input.width >= 2 {
        let mut row: u16 = 0;
        while row < input.height
            invariant
                row <= input.height,
                input == (Rect { x: area.x, y: input_y, width: area.width, height: input_height }),
                gutter_rows@ == stacked_rows(area.x, input_y as int, 2, row as nat),
            decreases input.height - row,
        {
            gutter_rows.push(Rect { x: input.x, y: input.y.saturating_add(row), width: 2, height: 1 });
            assert(gutter_rows@ =~= stacked_rows(area.x, input_y as int, 2, (row + 1) as nat));
            row = row + 1;
        }
        let text_area_height = input.height.saturating_sub(1);
        if text_area_height > 0 {
            if input.width > 2 {
                clear = Some(
                    Rect {
                        x: input.x.saturating_add(2),
                        y: input.y,
                        width: input.width.saturating_sub(2),
                        height: 1,
                    },
                );
            }
            text_area = Some(
                Rect {
                    x: input.x.saturating_add(2),
                    y: input.y.saturating_add(1),
                    width: input.width.saturating_sub(2),
                    height: text_area_height,
                },
            );
        }
    }
    let bottom = area.y.saturating_add(area.height);
    let start = input.y.saturating_add(input_height);
    let (suggestion_rows, hints_start) = stack_rows(area.x, start, area.width, suggestions, bottom);
    let (hint_rows, _) = stack_rows(area.x, hints_start, area.width, PROMPT_HINT_LINES, bottom);
    let l = PromptLayout {
        title,
        context,
        input,
        gutter_rows,
        clear,
        text_area,
        suggestion_rows,
        hint_rows,
    };
    Some(l)
}

/// The text area that the cursor is placed in, or `None` when the area is too
/// small to hold one.
pub fn cursor_text_area(area: Rect, has_context: bool, input_height: u16) -> (r: Option<Rect>)
    ensures
        r == (if area.height < 2 || area.width <= 2 || sat_sub(input_height as int, 1) == 0 {
            None
        } else {
            text_area_of(area, has_context, input_height)
        }),
{
    if area.height < 2 || area.width <= 2 {
        return None;
    }
    let text_area_height = input_height.saturating_sub(1);
    if text_area_height == 0 {
        return None;
    }
    let extra_offset: u16 = if has_context {
        1
    } else {
        0
    };
    let top_line_count = 1u16 + extra_offset;
    Some(
        Rect {
            x: area.x.saturating_add(2),
            y: area.y.saturating_add(top_line_count).saturating_add(1),
            width: area.width.saturating_sub(2),
            height: text_area_height,
        },
    )
}

/// The height of the input block for a text area that wants `text_height` rows:
/// one blank row plus between one and four text rows.
pub fn input_height_for_text(text_height: u16) -> (r: u16)
    ensures
        r == (if text_height < 1 {
            2
        } else if text_height > 4 {
            5
        } else {
            text_height + 1
        }),
{
    let clamped = if text_height < 1 {
        1
    } else if text_height > 4 {
        4
    } else {
        text_height
    };
    let h = clamped.saturating_add(1);
    if h < 5 {
        h
    } else {
        5
    }
}

/// The width that the text area is measured at, two cells narrower than the
/// prompt for the gutter.
pub fn input_text_width(width: u16) -> (r: u16)
    ensures
        r == sat_sub(width as int, 2),
{
    width.saturating_sub(2)
}

/// The height the prompt asks for: title, optional context label, input block,
/// one row per suggestion and three more for the hints.
pub fn prompt_desired_height(has_context: bool, input_height: u16, suggestions: usize) -> (r: u16)
    requires
        1 + (if has_context {
            1int
        } else {
            0int
        }) + input_height + (suggestions as u16) + 3 <= u16::MAX,
    ensures
        r == 1 + (if has_context {
            1int
        } else {
            0int
        }) + input_height + (suggestions as u16) + 3,
{
    let extra_top: u16 = if has_context {
        1
    } else {
        0
    };
    #[verifier::truncate]
    let suggestions_height = suggestions as u16;
    1u16 + extra_top + input_height + suggestions_height + 3u16
}

} // verus!

verus! {

/// Law: moving the selection `step` places and then `step` places back leaves
/// it where it was, whatever the step.
pub proof fn lemma_move_and_back(current: usize, step: int, len: nat)
    requires
        current < len,
        len <= usize::MAX,
    ensures
        moved_selection(Some(moved_selection(Some(current), step, len) as usize), -step, len)
            == current,
{
    let l = len as int;
    let c = current as int;
    let a = (c + step) % l;
    assert(0 <= a < l) by {
        vstd::arithmetic::div_mod::lemma_mod_bound(c + step, l);
    }
    vstd::arithmetic::div_mod::lemma_add_mod_noop(c + step, -step, l);
    vstd::arithmetic::div_mod::lemma_add_mod_noop_right(a, -step, l);
    assert(c + step + -step == c);
    vstd::arithmetic::div_mod::lemma_small_mod(c as nat, len);
}

/// Law: over any sequence of calls on a prompt, where each call changes
/// completion as its contract says (Enter on non-blank input and Ctrl-C set it,
/// nothing clears it, every other call keeps it), completion never goes back
/// to false, and a prompt that started incomplete ends complete exactly when
/// one of the calls completed it.
pub proof fn lemma_completion_over_calls(completion: Seq<bool>, events: Seq<PromptEvent>)
    requires
        completion.len() == events.len() + 1,
        forall|i: int|
            0 <= i < events.len() ==> #[trigger] completion[i + 1] == (completion[i]
                || event_completes(events[i])),
    ensures
        forall|i: int, j: int|
            0 <= i <= j < completion.len() && #[trigger] completion[i] ==> #[trigger] completion[j],
        completion.last() == (completion[0] || exists|i: int|
            0 <= i < events.len() && #[trigger] event_completes(events[i])),
    decreases events.len(),
{
    if events.len() > 0 {
        let c = completion.drop_last();
        let e = events.drop_last();
        assert forall|i: int| 0 <= i < e.len() implies #[trigger] c[i + 1] == (c[i]
            || event_completes(e[i])) by {
            assert(completion[i + 1] == (completion[i] || event_completes(events[i])));
        }
        lemma_completion_over_calls(c, e);
        let n = events.len() as int;
        let m = n - 1;
        assert(completion[m + 1] == (completion[m] || event_completes(events[m])));
        assert(m + 1 == n);
        assert forall|i: int, j: int|
            0 <= i <= j < completion.len() && #[trigger] completion[i] implies #[trigger] completion[j] by {
            if i < n {
                assert(c[i] == completion[i]);
                if j < n {
                    assert(c[j] == completion[j]);
                } else {
                    assert(c[n - 1] == completion[n - 1]);
                }
            }
        }
        if completion.last() {
            if !completion[0] && !event_completes(events[n - 1]) {
                let w = choose|i: int| 0 <= i < e.len() && #[trigger] event_completes(e[i]);
                assert(event_completes(events[w]));
            }
        } else {
            assert forall|i: int| 0 <= i < events.len() implies !#[trigger] event_completes(events[i]) by {
                if i < n - 1 {
                    assert(e[i] == events[i]);
                    if event_completes(events[i]) {
                        assert(event_completes(e[i]));
                    }
                }
            }
        }
    }
}

/// Law: every suggestion row and every hint row that the layout places lies
/// inside the area, no more suggestion rows than suggestions are placed, and
/// no more hint rows than hint lines.
pub proof fn lemma_layout_rows_inside(
    l: PromptLayout,
    area: Rect,
    has_context: bool,
    input_height: u16,
    suggestions: nat,
)
    requires
        layout_matches(l, area, has_context, input_height, suggestions),
    ensures
        l.suggestion_rows@.len() <= suggestions,
        l.hint_rows@.len() <= PROMPT_HINT_LINES,
        forall|i: int|
            0 <= i < l.suggestion_rows@.len() ==> area.y <= (#[trigger] l.suggestion_rows@[i]).y
                < area_bottom(area),
        forall|i: int|
            0 <= i < l.hint_rows@.len() ==> area.y <= (#[trigger] l.hint_rows@[i]).y < area_bottom(
                area,
            ),
{
    let start = rows_start(area, has_context, input_height);
    assert(start >= area.y);
}

/// Law: where the cursor is placed is where the layout draws the text area.
pub proof fn lemma_cursor_in_text_area(
    l: PromptLayout,
    area: Rect,
    has_context: bool,
    input_height: u16,
    suggestions: nat,
)
    requires
        layout_matches(l, area, has_context, input_height, suggestions),
        area.height >= 2,
        area.width > 2,
        sat_sub(input_height as int, 1) > 0,
    ensures
        l.text_area is Some,
        l.text_area == text_area_of(area, has_context, input_height),
{
}

/// Whether the entries' keys never decrease.
pub open spec fn sorted_by_key(s: Seq<(Seq<char>, PathBuf)>) -> bool {
    forall|i: int, j: int| 0 <= i < j < s.len() ==> !key_less(#[trigger] s[j].0, #[trigger] s[i].0)
}

proof fn lemma_insert_elements(s: Seq<(Seq<char>, PathBuf)>, x: (Seq<char>, PathBuf))
    ensures
        insert_by_key(s, x).len() == s.len() + 1,
        insert_by_key(s, x).contains(x),
        forall|e| #[trigger] insert_by_key(s, x).contains(e) ==> e == x || s.contains(e),
        s.to_multiset().insert(x) == insert_by_key(s, x).to_multiset(),
    decreases s.len(),
{
    broadcast use vstd::seq_lib::group_seq_properties;
    broadcast use vstd::multiset::group_multiset_axioms;

    if s.len() == 0 {
        assert(insert_by_key(s, x) == seq![x]);
        assert(seq![x].contains(x)) by {
            assert(seq![x][0] == x);
        }
        assert(seq![x] =~= Seq::<(Seq<char>, PathBuf)>::empty().push(x));
    } else if key_less(x.0, s[0].0) {
        assert(insert_by_key(s, x) == seq![x] + s);
        assert((seq![x] + s)[0] == x);
        assert forall|e| #[trigger] (seq![x] + s).contains(e) implies e == x || s.contains(e) by {
            let k = choose|k: int| 0 <= k < (seq![x] + s).len() && (seq![x] + s)[k] == e;
            if k > 0 {
                assert(s[k - 1] == e);
            }
        }
        vstd::seq_lib::lemma_multiset_commutative(seq![x], s);
        assert(seq![x] =~= Seq::<(Seq<char>, PathBuf)>::empty().push(x));
    } else {
        let rest = s.drop_first();
        lemma_insert_elements(rest, x);
        let ins = insert_by_key(rest, x);
        assert(insert_by_key(s, x) == seq![s[0]] + ins);
        let w = choose|k: int| 0 <= k < ins.len() && ins[k] == x;
        assert((seq![s[0]] + ins)[w + 1] == x);
        assert forall|e| #[trigger] (seq![s[0]] + ins).contains(e) implies e == x || s.contains(e) by {
            let k = choose|k: int| 0 <= k < (seq![s[0]] + ins).len() && (seq![s[0]] + ins)[k] == e;
            if k == 0 {
                assert(s[0] == e);
            } else {
                assert(ins[k - 1] == e);
                assert(ins.contains(e));
                if e != x {
                    assert(rest.contains(e));
                    let m = choose|m: int| 0 <= m < rest.len() && rest[m] == e;
                    assert(s[m + 1] == e);
                }
            }
        }
        vstd::seq_lib::lemma_multiset_commutative(seq![s[0]], ins);
        vstd::seq_lib::lemma_multiset_commutative(seq![s[0]], rest);
        assert(s =~= seq![s[0]] + rest);
    }
}

proof fn lemma_insert_sorted(s: Seq<(Seq<char>, PathBuf)>, x: (Seq<char>, PathBuf))
    requires
        sorted_by_key(s),
    ensures
        sorted_by_key(insert_by_key(s, x)),
    decreases s.len(),
{
    if s.len() == 0 {
    } else if key_less(x.0, s[0].0) {
        let r = seq![x] + s;
        assert forall|i: int, j: int| 0 <= i < j < r.len() implies !key_less(
            #[trigger] r[j].0,
            #[trigger] r[i].0,
        ) by {
            if i == 0 {
                assert(r[j] == s[j - 1]);
                lemma_key_less_total(s[0].0, s[j - 1].0);
                lemma_key_less_transitive(x.0, s[0].0, s[j - 1].0);
                lemma_key_less_asymmetric(x.0, s[j - 1].0);
                if j - 1 > 0 {
                    assert(!key_less(s[j - 1].0, s[0].0));
                }
            } else {
                assert(r[i] == s[i - 1] && r[j] == s[j - 1]);
            }
        }
    } else {
        let rest = s.drop_first();
        assert(sorted_by_key(rest)) by {
            assert forall|i: int, j: int| 0 <= i < j < rest.len() implies !key_less(
                #[trigger] rest[j].0,
                #[trigger] rest[i].0,
            ) by {
                assert(rest[i] == s[i + 1] && rest[j] == s[j + 1]);
            }
        }
        lemma_insert_sorted(rest, x);
        lemma_insert_elements(rest, x);
        let ins = insert_by_key(rest, x);
        let r = seq![s[0]] + ins;
        assert forall|i: int, j: int| 0 <= i < j < r.len() implies !key_less(
            #[trigger] r[j].0,
            #[trigger] r[i].0,
        ) by {
            if i == 0 {
                let e = r[j];
                assert(e == ins[j - 1]);
                assert(ins.contains(e));
                if e != x {
                    let m = choose|m: int| 0 <= m < rest.len() && rest[m] == e;
                    assert(s[m + 1] == e);
                }
            } else {
                assert(r[i] == ins[i - 1] && r[j] == ins[j - 1]);
            }
        }
    }
}

/// Law: the matching candidates come out sorted by key, each exactly once:
/// the keyed entries are the matching candidates' entries, rearranged.
pub proof fn lemma_suggestions_sorted(cands: Seq<SuggestionCandidate>, prefix_lower: Seq<char>)
    ensures
        sorted_by_key(sorted_matches(cands, prefix_lower)),
        sorted_matches(cands, prefix_lower).to_multiset() == cands.filter(
            |c: SuggestionCandidate| candidate_matches(c, prefix_lower),
        ).map_values(|c: SuggestionCandidate| (candidate_key(c), c.path)).to_multiset(),
    decreases cands.len(),
{
    broadcast use vstd::seq_lib::group_seq_properties;
    broadcast use vstd::multiset::group_multiset_axioms;

    reveal(Seq::filter);
    let pred = |c: SuggestionCandidate| candidate_matches(c, prefix_lower);
    let f = |c: SuggestionCandidate| (candidate_key(c), c.path);
    if cands.len() == 0 {
        assert(cands.filter(pred) =~= Seq::<SuggestionCandidate>::empty());
        assert(cands.filter(pred).map_values(f) =~= Seq::<(Seq<char>, PathBuf)>::empty());
    } else {
        let rest = cands.drop_last();
        lemma_suggestions_sorted(rest, prefix_lower);
        let c = cands.last();
        let prev = sorted_matches(rest, prefix_lower);
        if candidate_matches(c, prefix_lower) {
            lemma_insert_sorted(prev, (candidate_key(c), c.path));
            lemma_insert_elements(prev, (candidate_key(c), c.path));
            assert(cands.filter(pred) == rest.filter(pred).push(c));
            assert(cands.filter(pred).map_values(f) =~= rest.filter(pred).map_values(f).push(f(c)));
        } else {
            assert(cands.filter(pred) == rest.filter(pred));
        }
    }
}

} // verus!

verus! {

/// Law: what each key press asks for. A key other than Enter, Tab, Up and
/// Down, and Enter, Up or Down with any modifier, goes to the text input,
/// whatever its modifiers; Tab always accepts the selected suggestion; Up and
/// Down with no modifier move the selection one place up or down; Enter with no
/// modifier submits the input when its trimmed text is not blank, and is
/// ignored only when it is blank.
pub proof fn lemma_key_actions(key: PromptKey, text: Seq<char>)
    ensures
        key_action_spec(key, text) is ForwardToInput <==> (key.code == PromptKeyCode::Other || (
        !key.no_modifiers && key.code != PromptKeyCode::Tab)),
        key_action_spec(key, text) is ApplySuggestion <==> key.code == PromptKeyCode::Tab,
        key_action_spec(key, text) == KeyAction::MoveSelection(-1isize) <==> key.code
            == PromptKeyCode::Up && key.no_modifiers,
        key_action_spec(key, text) == KeyAction::MoveSelection(1isize) <==> key.code
            == PromptKeyCode::Down && key.no_modifiers,
        key_action_spec(key, text) is Submit <==> key.code == PromptKeyCode::Enter
            && key.no_modifiers && trim_ws(text).len() > 0,
        key_action_spec(key, text) is Ignore <==> key.code == PromptKeyCode::Enter
            && key.no_modifiers && trim_ws(text).len() == 0,
{
}

/// Law: a freshly built or refreshed suggestion list selects its first entry
/// whenever it has one, and selects nothing only when it is empty.
pub proof fn lemma_initial_selection(len: nat)
    ensures
        len > 0 ==> initial_selection(len) == Some(0usize),
        initial_selection(len) is None <==> len == 0,
{
}

proof fn lemma_sorted_matches_come_from_matching(cands: Seq<SuggestionCandidate>, prefix_lower: Seq<char>)
    ensures
        forall|e: (Seq<char>, PathBuf)| #[trigger]
            sorted_matches(cands, prefix_lower).contains(e) ==> exists|j: int|
                0 <= j < cands.len() && candidate_matches(#[trigger] cands[j], prefix_lower)
                    && cands[j].path == e.1 && e.0 == candidate_key(cands[j]),
    decreases cands.len(),
{
    if cands.len() > 0 {
        let rest = cands.drop_last();
        lemma_sorted_matches_come_from_matching(rest, prefix_lower);
        let c = cands.last();
        let prev = sorted_matches(rest, prefix_lower);
        if candidate_matches(c, prefix_lower) {
            lemma_insert_elements(prev, (candidate_key(c), c.path));
        }
        assert forall|e: (Seq<char>, PathBuf)| #[trigger]
            sorted_matches(cands, prefix_lower).contains(e) implies exists|j: int|
                0 <= j < cands.len() && candidate_matches(#[trigger] cands[j], prefix_lower)
                    && cands[j].path == e.1 && e.0 == candidate_key(cands[j]) by {
            if prev.contains(e) {
                let j = choose|j: int|
                    0 <= j < rest.len() && candidate_matches(#[trigger] rest[j], prefix_lower)
                        && rest[j].path == e.1 && e.0 == candidate_key(rest[j]);
                assert(cands[j] == rest[j]);
            } else {
                assert(cands[cands.len() - 1] == c);
            }
        }
    }
}

/// Law: every suggested directory is a candidate whose name, lower-cased,
/// starts with the whole lower-cased typed prefix (any candidate when nothing is
/// typed); and as many are suggested as match, up to the limit.
pub proof fn lemma_suggestions_match_prefix(cands: Seq<SuggestionCandidate>, prefix: Seq<char>)
    ensures
        forall|i: int|
            0 <= i < directory_suggestions(cands, prefix).len() ==> exists|j: int|
                0 <= j < cands.len() && cands[j].path == #[trigger] directory_suggestions(
                    cands,
                    prefix,
                )[i] && (prefix.len() == 0 || (cands[j].file_name matches Some(n)
                    && seq_starts_with(ascii_lower(n@), ascii_lower(prefix)))),
        directory_suggestions(cands, prefix).len() == (if cands.filter(
            |c: SuggestionCandidate| candidate_matches(c, ascii_lower(prefix)),
        ).len() < DIRECTORY_SUGGESTION_LIMIT {
            cands.filter(|c: SuggestionCandidate| candidate_matches(c, ascii_lower(prefix))).len()
        } else {
            DIRECTORY_SUGGESTION_LIMIT as nat
        }),
{
    broadcast use vstd::multiset::group_multiset_axioms;
    broadcast use vstd::seq_lib::group_seq_properties;

    let pl = ascii_lower(prefix);
    let sorted = sorted_matches(cands, pl);
    lemma_sorted_matches_come_from_matching(cands, pl);
    lemma_suggestions_sorted(cands, pl);
    let f = |c: SuggestionCandidate| (candidate_key(c), c.path);
    let pred = |c: SuggestionCandidate| candidate_matches(c, pl);
    assert(sorted.len() == cands.filter(pred).len()) by {
        sorted.to_multiset_ensures();
        cands.filter(pred).map_values(f).to_multiset_ensures();
    }
    let result = directory_suggestions(cands, prefix);
    assert forall|i: int| 0 <= i < result.len() implies exists|j: int|
        0 <= j < cands.len() && cands[j].path == #[trigger] result[i] && (prefix.len() == 0 || (
        cands[j].file_name matches Some(n) && seq_starts_with(ascii_lower(n@), pl))) by {
        assert(sorted.contains(sorted[i]));
        let j = choose|j: int|
            0 <= j < cands.len() && candidate_matches(#[trigger] cands[j], pl) && cands[j].path
                == sorted[i].1;
        assert(pl.len() == prefix.len());
    }
}

/// The order of suggestions: the name lower-cased (ASCII), or the display text
/// for a directory without a textual name.
pub open spec fn name_order_key(c: SuggestionCandidate) -> Seq<char> {
    match c.file_name {
        Some(n) => n@.map_values(|ch: char| if 'A' <= ch <= 'Z' {
            ((ch as u32) + 32) as char
        } else {
            ch
        }),
        None => c.display@,
    }
}

} // verus!

verus! {

/// Law: a move lands on a suggestion of the list; moving down from the last
/// suggestion wraps to the first, moving up from the first wraps to the last,
/// and any other single step moves to the neighbour.
pub proof fn lemma_move_wraps(current: usize, len: nat)
    requires
        current < len,
    ensures
        0 <= moved_selection(Some(current), 1, len) < len,
        0 <= moved_selection(Some(current), -1, len) < len,
        current + 1 == len ==> moved_selection(Some(current), 1, len) == 0,
        current + 1 < len ==> moved_selection(Some(current), 1, len) == current + 1,
        current == 0 ==> moved_selection(Some(current), -1, len) == len - 1,
        current > 0 ==> moved_selection(Some(current), -1, len) == current - 1,
        moved_selection(None, 1, len) == moved_selection(Some(0), 1, len),
{
    let l = len as int;
    let c = current as int;
    vstd::arithmetic::div_mod::lemma_mod_bound(c + 1, l);
    vstd::arithmetic::div_mod::lemma_mod_bound(c - 1, l);
    if c + 1 < l {
        vstd::arithmetic::div_mod::lemma_small_mod((c + 1) as nat, len);
    } else {
        vstd::arithmetic::div_mod::lemma_mod_self_0(l);
    }
    if c > 0 {
        vstd::arithmetic::div_mod::lemma_small_mod((c - 1) as nat, len);
    } else {
        vstd::arithmetic::div_mod::lemma_mod_add_multiples_vanish(-1, l);
        vstd::arithmetic::div_mod::lemma_small_mod((l - 1) as nat, len);
    }
}

} // verus!

verus! {

proof fn lemma_key_is_name_order(c: SuggestionCandidate)
    ensures
        candidate_key(c) == name_order_key(c),
{
    if let Some(n) = c.file_name {
        assert(ascii_lower(n@) =~= name_order_key(c));
    }
}

/// The `i`-th and `k`-th suggestions come from candidates whose names are in
/// order: the `k`-th one's does not order before the `i`-th one's.
pub open spec fn suggestions_ordered_at(
    cands: Seq<SuggestionCandidate>,
    prefix: Seq<char>,
    i: int,
    k: int,
) -> bool {
    exists|a: int, b: int|
        #![trigger cands[a], cands[b]]
        0 <= a < cands.len() && 0 <= b < cands.len() && cands[a].path == directory_suggestions(
            cands,
            prefix,
        )[i] && cands[b].path == directory_suggestions(cands, prefix)[k] && !key_less(
            name_order_key(cands[b]),
            name_order_key(cands[a]),
        )
}

proof fn lemma_suggestion_pair_in_name_order(
    cands: Seq<SuggestionCandidate>,
    prefix: Seq<char>,
    i: int,
    k: int,
)
    requires
        0 <= i < k < directory_suggestions(cands, prefix).len(),
    ensures
        suggestions_ordered_at(cands, prefix, i, k),
{
    broadcast use vstd::seq_lib::group_seq_properties;

    let pl = ascii_lower(prefix);
    let sorted = sorted_matches(cands, pl);
    lemma_sorted_matches_come_from_matching(cands, pl);
    lemma_suggestions_sorted(cands, pl);
    let result = directory_suggestions(cands, prefix);
    assert(sorted.contains(sorted[i]));
    assert(sorted.contains(sorted[k]));
    let a = choose|j: int|
        0 <= j < cands.len() && candidate_matches(#[trigger] cands[j], pl) && cands[j].path
            == sorted[i].1 && sorted[i].0 == candidate_key(cands[j]);
    let b = choose|j: int|
        0 <= j < cands.len() && candidate_matches(#[trigger] cands[j], pl) && cands[j].path
            == sorted[k].1 && sorted[k].0 == candidate_key(cands[j]);
    assert(!key_less(sorted[k].0, sorted[i].0));
    lemma_key_is_name_order(cands[a]);
    lemma_key_is_name_order(cands[b]);
    assert(result[i] == sorted[i].1 && result[k] == sorted[k].1);
    assert(cands[a].path == result[i] && cands[b].path == result[k]);
}

/// Law: suggestions come in order of lower-cased name (display text for a
/// directory without a textual name): of any two suggestions, the later one's
/// candidate does not order before the earlier one's.
pub proof fn lemma_suggestions_in_name_order(cands: Seq<SuggestionCandidate>, prefix: Seq<char>)
    ensures
        forall|i: int, k: int|
            0 <= i < k < directory_suggestions(cands, prefix).len() ==> #[trigger] suggestions_ordered_at(
                cands,
                prefix,
                i,
                k,
            ),
{
    assert forall|i: int, k: int|
        0 <= i < k < directory_suggestions(cands, prefix).len() implies #[trigger] suggestions_ordered_at(
            cands,
            prefix,
            i,
            k,
        ) by {
        lemma_suggestion_pair_in_name_order(cands, prefix, i, k);
    }
}

proof fn lemma_matching_in_sorted(cands: Seq<SuggestionCandidate>, prefix_lower: Seq<char>)
    ensures
        forall|j: int|
            0 <= j < cands.len() && candidate_matches(#[trigger] cands[j], prefix_lower)
                ==> sorted_matches(cands, prefix_lower).contains(
                (candidate_key(cands[j]), cands[j].path),
            ),
    decreases cands.len(),
{
    broadcast use vstd::seq_lib::group_seq_properties;
    broadcast use vstd::multiset::group_multiset_axioms;

    if cands.len() > 0 {
        let rest = cands.drop_last();
        lemma_matching_in_sorted(rest, prefix_lower);
        let c = cands.last();
        let prev = sorted_matches(rest, prefix_lower);
        let x = (candidate_key(c), c.path);
        if candidate_matches(c, prefix_lower) {
            lemma_insert_elements(prev, x);
        }
        assert forall|j: int|
            0 <= j < cands.len() && candidate_matches(#[trigger] cands[j], prefix_lower)
                implies sorted_matches(cands, prefix_lower).contains(
            (candidate_key(cands[j]), cands[j].path),
        ) by {
            let e = (candidate_key(cands[j]), cands[j].path);
            if j < rest.len() {
                assert(rest[j] == cands[j]);
                assert(prev.contains(e));
                if candidate_matches(c, prefix_lower) {
                    prev.to_multiset_ensures();
                    insert_by_key(prev, x).to_multiset_ensures();
                    assert(prev.to_multiset().count(e) > 0);
                    assert(insert_by_key(prev, x).to_multiset().count(e) > 0);
                }
            }
        }
    }
}

/// The candidate's name, lower-cased (ASCII), starts with the whole typed
/// prefix lower-cased; any candidate qualifies when nothing is typed.
pub open spec fn name_starts_with_typed(c: SuggestionCandidate, prefix: Seq<char>) -> bool {
    prefix.len() == 0 || (c.file_name matches Some(n) && seq_starts_with(
        ascii_lower(n@),
        ascii_lower(prefix),
    ))
}

/// The `i`-th suggestion comes from a qualifying candidate that does not order
/// after candidate `j` by name.
pub open spec fn suggestion_not_after(
    cands: Seq<SuggestionCandidate>,
    prefix: Seq<char>,
    i: int,
    j: int,
) -> bool {
    exists|a: int|
        0 <= a < cands.len() && cands[a].path == directory_suggestions(cands, prefix)[i]
            && #[trigger] name_starts_with_typed(cands[a], prefix) && !key_less(
            name_order_key(cands[j]),
            name_order_key(cands[a]),
        )
}

proof fn lemma_first_matches_pair(cands: Seq<SuggestionCandidate>, prefix: Seq<char>, j: int)
    requires
        0 <= j < cands.len(),
        name_starts_with_typed(cands[j], prefix),
        !directory_suggestions(cands, prefix).contains(cands[j].path),
    ensures
        directory_suggestions(cands, prefix).len() == DIRECTORY_SUGGESTION_LIMIT,
        forall|i: int|
            0 <= i < directory_suggestions(cands, prefix).len() ==> #[trigger] suggestion_not_after(
                cands,
                prefix,
                i,
                j,
            ),
{
    broadcast use vstd::seq_lib::group_seq_properties;

    let pl = ascii_lower(prefix);
    let sorted = sorted_matches(cands, pl);
    let result = directory_suggestions(cands, prefix);
    lemma_matching_in_sorted(cands, pl);
    lemma_sorted_matches_come_from_matching(cands, pl);
    lemma_suggestions_sorted(cands, pl);
    assert(candidate_matches(cands[j], pl));
    let e = (candidate_key(cands[j]), cands[j].path);
    assert(sorted.contains(e));
    let p = choose|p: int| 0 <= p < sorted.len() && sorted[p] == e;
    let shown = result.len() as int;
    if p < shown {
        assert(result[p] == e.1);
        assert(result.contains(cands[j].path));
    }
    assert(p >= shown);
    lemma_key_is_name_order(cands[j]);
    assert forall|i: int| 0 <= i < result.len() implies #[trigger] suggestion_not_after(
        cands,
        prefix,
        i,
        j,
    ) by {
        assert(sorted.contains(sorted[i]));
        let a = choose|a: int|
            0 <= a < cands.len() && candidate_matches(#[trigger] cands[a], pl) && cands[a].path
                == sorted[i].1 && sorted[i].0 == candidate_key(cands[a]);
        assert(!key_less(sorted[p].0, sorted[i].0));
        lemma_key_is_name_order(cands[a]);
        assert(result[i] == sorted[i].1);
        assert(name_starts_with_typed(cands[a], prefix));
    }
}

/// Law: the suggestions are the first qualifying candidates in name order:
/// every candidate whose name starts with the typed prefix is suggested, unless
/// the list is already full and each suggestion comes from a qualifying
/// candidate that does not order after it.
pub proof fn lemma_suggestions_are_first_in_order(cands: Seq<SuggestionCandidate>, prefix: Seq<char>)
    ensures
        forall|j: int|
            0 <= j < cands.len() && #[trigger] name_starts_with_typed(cands[j], prefix)
                ==> directory_suggestions(cands, prefix).contains(cands[j].path) || (
            directory_suggestions(cands, prefix).len() == DIRECTORY_SUGGESTION_LIMIT && forall|
                i: int,
            |
                0 <= i < directory_suggestions(cands, prefix).len() ==> #[trigger] suggestion_not_after(
                    cands,
                    prefix,
                    i,
                    j,
                )),
{
    assert forall|j: int|
        0 <= j < cands.len() && #[trigger] name_starts_with_typed(cands[j], prefix)
            implies directory_suggestions(cands, prefix).contains(cands[j].path) || (
        directory_suggestions(cands, prefix).len() == DIRECTORY_SUGGESTION_LIMIT && forall|i: int|
            0 <= i < directory_suggestions(cands, prefix).len() ==> #[trigger] suggestion_not_after(
                cands,
                prefix,
                i,
                j,
            )) by {
        if !directory_suggestions(cands, prefix).contains(cands[j].path) {
            lemma_first_matches_pair(cands, prefix, j);
        }
    }
}

/// No two entries carry the same path.
pub open spec fn entry_paths_distinct(s: Seq<(Seq<char>, PathBuf)>) -> bool {
    forall|i: int, j: int| 0 <= i < j < s.len() ==> #[trigger] s[i].1 != #[trigger] s[j].1
}

proof fn lemma_insert_keeps_paths_distinct(s: Seq<(Seq<char>, PathBuf)>, x: (Seq<char>, PathBuf))
    requires
        entry_paths_distinct(s),
        forall|i: int| 0 <= i < s.len() ==> #[trigger] s[i].1 != x.1,
    ensures
        entry_paths_distinct(insert_by_key(s, x)),
    decreases s.len(),
{
    broadcast use vstd::seq_lib::group_seq_properties;

    if s.len() == 0 {
    } else if key_less(x.0, s[0].0) {
        let r = seq![x] + s;
        assert forall|i: int, j: int| 0 <= i < j < r.len() implies #[trigger] r[i].1
            != #[trigger] r[j].1 by {
            if i == 0 {
                assert(r[j] == s[j - 1]);
            } else {
                assert(r[i] == s[i - 1] && r[j] == s[j - 1]);
            }
        }
    } else {
        let t = s.drop_first();
        lemma_insert_keeps_paths_distinct(t, x);
        lemma_insert_elements(t, x);
        let ins = insert_by_key(t, x);
        let r = seq![s[0]] + ins;
        assert forall|i: int, j: int| 0 <= i < j < r.len() implies #[trigger] r[i].1
            != #[trigger] r[j].1 by {
            if i == 0 {
                let e = r[j];
                assert(e == ins[j - 1]);
                assert(ins.contains(e));
                if e != x {
                    let m = choose|m: int| 0 <= m < t.len() && t[m] == e;
                    assert(s[m + 1] == e);
                }
            } else {
                assert(r[i] == ins[i - 1] && r[j] == ins[j - 1]);
            }
        }
    }
}

proof fn lemma_sorted_paths_distinct(cands: Seq<SuggestionCandidate>, prefix_lower: Seq<char>)
    requires
        forall|a: int, b: int|
            0 <= a < b < cands.len() ==> #[trigger] cands[a].path != #[trigger] cands[b].path,
    ensures
        entry_paths_distinct(sorted_matches(cands, prefix_lower)),
    decreases cands.len(),
{
    broadcast use vstd::seq_lib::group_seq_properties;

    if cands.len() > 0 {
        let rest = cands.drop_last();
        assert forall|a: int, b: int| 0 <= a < b < rest.len() implies #[trigger] rest[a].path
            != #[trigger] rest[b].path by {
            assert(rest[a] == cands[a] && rest[b] == cands[b]);
        }
        lemma_sorted_paths_distinct(rest, prefix_lower);
        let c = cands.last();
        let prev = sorted_matches(rest, prefix_lower);
        let x = (candidate_key(c), c.path);
        if candidate_matches(c, prefix_lower) {
            lemma_sorted_matches_come_from_matching(rest, prefix_lower);
            assert forall|i: int| 0 <= i < prev.len() implies #[trigger] prev[i].1 != x.1 by {
                assert(prev.contains(prev[i]));
                let j = choose|j: int|
                    0 <= j < rest.len() && candidate_matches(#[trigger] rest[j], prefix_lower)
                        && rest[j].path == prev[i].1 && prev[i].0 == candidate_key(rest[j]);
                assert(rest[j] == cands[j]);
                assert(cands[cands.len() - 1] == c);
            }
            lemma_insert_keeps_paths_distinct(prev, x);
        }
    }
}

/// Law: when no two candidates share a path, no directory is suggested twice.
pub proof fn lemma_suggestions_distinct(cands: Seq<SuggestionCandidate>, prefix: Seq<char>)
    requires
        forall|a: int, b: int|
            0 <= a < b < cands.len() ==> #[trigger] cands[a].path != #[trigger] cands[b].path,
    ensures
        forall|i: int, k: int|
            0 <= i < k < directory_suggestions(cands, prefix).len() ==> #[trigger] directory_suggestions(
                cands,
                prefix,
            )[i] != #[trigger] directory_suggestions(cands, prefix)[k],
{
    let pl = ascii_lower(prefix);
    let sorted = sorted_matches(cands, pl);
    lemma_sorted_paths_distinct(cands, pl);
    let result = directory_suggestions(cands, prefix);
    assert forall|i: int, k: int| 0 <= i < k < result.len() implies #[trigger] result[i]
        != #[trigger] result[k] by {
        assert(result[i] == sorted[i].1 && result[k] == sorted[k].1);
    }
}

} // verus!
