//! What every view is built from: the input mode, the list with one selected
//! entry, and the capabilities that popups and views offer.

use crate::keys::Key;
use tui::widgets::ListState;
use vstd::prelude::*;

verus! {

/// Where a view sends the keys it receives.
#[derive(Clone, Copy, Debug, PartialEq, Eq, Structural)]
pub enum InputMode {
    /// Keys are commands of the view.
    CommandMode,
    /// Keys go to the popup that is open.
    WriteMode,
    /// Keys go to a view nested in this one.
    SubWindowInputs,
}

impl Default for InputMode {
    fn default() -> (mode: InputMode)
        ensures
            mode == InputMode::CommandMode,
    {
        InputMode::CommandMode
    }
}

/// Something that receives keys.
pub trait InputReceptor {
    /// Takes one key and says whether it was consumed.
    fn handle_input_key(&mut self, key_code: Key) -> bool;

    /// One line that tells the user which keys mean something now.
    fn get_controls_description(&self) -> String;

    fn get_input_mode(&self) -> InputMode;
}

/// Something that hands back what the user typed.
pub trait InputReturn {
    /// What has been typed so far.
    spec fn input_data(&self) -> Seq<char>;

    fn get_input_data(&self) -> (data: String)
        ensures
            data@ == self.input_data(),
    ;
}

/// Something that the user finishes, and that is shown while active. The two
/// flags are independent of each other.
pub trait Completable {
    spec fn completed(&self) -> bool;

    spec fn active(&self) -> bool;

    fn is_completed(&self) -> (completed: bool)
        ensures
            completed == self.completed(),
    ;

    fn reset_completion(&mut self)
        ensures
            !final(self).completed(),
            final(self).active() == old(self).active(),
    ;

    fn is_active(&self) -> (active: bool)
        ensures
            active == self.active(),
    ;

    fn set_active(&mut self, new_active: bool)
        ensures
            final(self).active() == new_active,
            final(self).completed() == old(self).completed(),
    ;
}

#[verifier::external_type_specification]
#[verifier::external_body]
pub struct ExListState(ListState);

/// The index that a `ListState` holds as selected.
pub uninterp spec fn list_selection(state: ListState) -> Option<usize>;

/// `ListState::default`: nothing is selected.
pub assume_specification[ <ListState as core::default::Default>::default ]() -> (state: ListState)
    ensures
        list_selection(state) is None,
;

/// `ListState::clone`: the copy has the same selection.
pub assume_specification[ <ListState as Clone>::clone ](state: &ListState) -> (copy: ListState)
    ensures
        list_selection(copy) == list_selection(*state),
;

/// `ListState::selected` returns the selection.
pub assume_specification[ ListState::selected ](state: &ListState) -> (index: Option<usize>)
    ensures
        index == list_selection(*state),
;

/// `ListState::select` replaces the selection by its argument.
pub assume_specification[ ListState::select ](state: &mut ListState, index: Option<usize>)
    ensures
        list_selection(*final(state)) == index,
;

/// A list with its selection, as a mathematical value.
pub ghost struct ListView<T> {
    pub items: Seq<T>,
    pub selected: Option<usize>,
}

impl<T> ListView<T> {
    /// The selection is an index into the items, and is `None` only where
    /// there are no items.
    pub open spec fn wf(self) -> bool {
        match self.selected {
            Some(i) => i < self.items.len(),
            None => self.items.len() == 0,
        }
    }

    /// The list made from a sequence: the first item is selected if there
    /// is one.
    pub open spec fn of(items: Seq<T>) -> ListView<T> {
        ListView {
            items,
            selected: if items.len() > 0 {
                Some(0usize)
            } else {
                None
            },
        }
    }

    /// The selection moved one down, held at the last item.
    pub open spec fn next(self) -> ListView<T> {
        if self.items.len() == 0 {
            self
        } else {
            ListView {
                selected: Some(
                    match self.selected {
                        Some(i) => if i + 1 < self.items.len() {
                            (i + 1) as usize
                        } else {
                            i
                        },
                        None => 0usize,
                    },
                ),
                ..self
            }
        }
    }

    /// The selection moved one up, held at the first item.
    pub open spec fn previous(self) -> ListView<T> {
        if self.items.len() == 0 {
            self
        } else {
            ListView {
                selected: Some(
                    match self.selected {
                        Some(i) => if i > 0 {
                            (i - 1) as usize
                        } else {
                            0usize
                        },
                        None => 0usize,
                    },
                ),
                ..self
            }
        }
    }

    /// The selection moved to an index, if that is an index into the items.
    pub open spec fn select(self, index: usize) -> ListView<T> {
        if index < self.items.len() {
            ListView { selected: Some(index), ..self }
        } else {
            self
        }
    }

    /// The item that is selected.
    pub open spec fn selected_item(self) -> Option<T> {
        match self.selected {
            Some(i) => if i < self.items.len() {
                Some(self.items[i as int])
            } else {
                None
            },
            None => None,
        }
    }

    /// The list after a run of moves: `true` moves down, `false` moves up.
    pub open spec fn moved(self, moves: Seq<bool>) -> ListView<T>
        decreases moves.len(),
    {
        if moves.len() == 0 {
            self
        } else if moves.last() {
            self.moved(moves.drop_last()).next()
        } else {
            self.moved(moves.drop_last()).previous()
        }
    }
}

/// Whatever sequence a list is made from and however often the selection is
/// moved up and down after that, the items stay as they are and the
/// selection stays an index into them: `None` if and only if there are none.
pub proof fn lemma_moves_keep_selection_valid<T>(items: Seq<T>, moves: Seq<bool>)
    ensures
        ListView::of(items).moved(moves).items == items,
        ListView::of(items).moved(moves).wf(),
        ListView::of(items).moved(moves).selected is None <==> items.len() == 0,
    decreases moves.len(),
{
    if moves.len() > 0 {
        lemma_moves_keep_selection_valid(items, moves.drop_last());
    }
}

/// An ordered collection in which at most one entry is selected.
pub struct DisplayList<T> {
    state: ListState,
    array: Vec<T>,
}

impl<T> View for DisplayList<T> {
    type V = ListView<T>;

    closed spec fn view(&self) -> ListView<T> {
        ListView { items: self.array@, selected: list_selection(self.state) }
    }
}

impl<T> DisplayList<T> {
    #[verifier::type_invariant]
    spec fn valid(&self) -> bool {
        self@.wf()
    }

    /// The list of the given items, with the first one selected if there is
    /// one.
    pub fn from(content: Vec<T>) -> (list: DisplayList<T>)
        ensures
            list@ == ListView::of(content@),
            list@.wf(),
    {
        let content_len = content.len();
        let mut state = ListState::default();
        if content_len > 0 {
            state.select(Some(0));
        }
        DisplayList { state, array: content }
    }

    /// Moves the selection one entry down; at the last entry it stays.
    pub fn next(&mut self)
        ensures
            final(self)@ == old(self)@.next(),
            final(self)@.wf(),
    {
        proof {
            use_type_invariant(&*self);
        }
        let len = self.array.len();
        if len > 0 {
            let i = match self.state.selected() {
                Some(i) => if i + 1 < len {
                    i + 1
                } else {
                    i
                },
                None => 0,
            };
            let mut state = self.state.clone();
            state.select(Some(i));
            self.state = state;
        }
    }

    /// Moves the selection one entry up; at the first entry it stays.
    pub fn previous(&mut self)
        ensures
            final(self)@ == old(self)@.previous(),
            final(self)@.wf(),
    {
        proof {
            use_type_invariant(&*self);
        }
        if self.array.len() > 0 {
            let i = match self.state.selected() {
                Some(i) => if i > 0 {
                    i - 1
                } else {
                    0
                },
                None => 0,
            };
            let mut state = self.state.clone();
            state.select(Some(i));
            self.state = state;
        }
    }

    /// Selects the entry at an index; an index past the end changes nothing.
    pub fn select(&mut self, index: usize)
        ensures
            final(self)@ == old(self)@.select(index),
            final(self)@.wf(),
    {
        proof {
            use_type_invariant(&*self);
        }
        if index < self.array.len() {
            let mut state = self.state.clone();
            state.select(Some(index));
            self.state = state;
        }
    }

    /// The index of the selected entry: an index into the entries, and
    /// `None` only where there are no entries.
    pub fn selected(&self) -> (index: Option<usize>)
        ensures
            index == self@.selected,
            self@.wf(),
    {
        proof {
            use_type_invariant(self);
        }
        self.state.selected()
    }

    /// The selected entry.
    pub fn selected_item(&self) -> (item: Option<&T>)
        ensures
            self@.wf(),
            match item {
                Some(entry) => self@.selected_item() == Some(*entry),
                None => self@.selected_item() is None,
            },
    {
        proof {
            use_type_invariant(self);
        }
        match self.state.selected() {
            Some(i) => Some(&self.array[i]),
            None => None,
        }
    }

    /// The entries, in order.
    pub fn items(&self) -> (entries: &Vec<T>)
        ensures
            entries@ == self@.items,
    {
        &self.array
    }

    /// The number of entries.
    pub fn len(&self) -> (count: usize)
        ensures
            count == self@.items.len(),
    {
        self.array.len()
    }

    /// The selection as the drawing code needs it.
    pub fn state(&self) -> (state: ListState)
        ensures
            list_selection(state) == self@.selected,
    {
        self.state.clone()
    }
}

impl<T> Default for DisplayList<T> {
    /// The list without entries.
    fn default() -> (list: DisplayList<T>)
        ensures
            list@ == ListView::<T>::of(Seq::empty()),
            list@.wf(),
    {
        DisplayList::from(Vec::new())
    }
}

} // verus!
