use crate::channel::{copy_channels, Channel};
use crate::event::{BoolChoice, Event, MoveDirection, MoveEnd};
use crate::exit::Exit;
use crate::home::{apply_statuses, opens_popup, popup_for, popup_reaction, with_statuses, StatusUpdate};
use crate::input::{bound_action, lists_inputs, same_action, spec_home_inputs, Handler, KeyBind, KeyEvent};
use crate::panel::{Lists as ListsPanel, Panel};
use crate::popup::{chat_popup, is_chat_popup};
use crate::state::{channels_reaction, reaction_view, AppState};
use crate::transition::{Effect, Need, Reaction, Transition};
use crate::util::{index_add, index_subtract, next_index, previous_index};
use vstd::prelude::*;

verus! {

/// A named list of channels, read from a file of its own.
pub struct List {
    pub name: String,
    pub path: String,
    pub channels: Vec<Channel>,
}

pub struct ListView {
    pub name: String,
    pub path: String,
    pub channels: Seq<Channel>,
}

impl View for List {
    type V = ListView;

    open spec fn view(&self) -> ListView {
        ListView { name: self.name, path: self.path, channels: self.channels@ }
    }
}

impl List {
    /// A copy of the list.
    pub fn copy(&self) -> (r: List)
        ensures
            r@ == self@,
    {
        List {
            name: self.name.clone(),
            path: self.path.clone(),
            channels: copy_channels(&self.channels),
        }
    }
}

/// A copy of a sequence of lists.
pub fn copy_lists(lists: &Vec<List>) -> (r: Vec<List>)
    ensures
        r@.map_values(|l: List| l@) == lists@.map_values(|l: List| l@),
{
    let mut r: Vec<List> = Vec::new();
    let mut i: usize = 0;
    while i < lists.len()
        invariant
            i <= lists.len(),
            r@.len() == i,
            forall|j: int| 0 <= j < i ==> (#[trigger] r@[j])@ == lists@[j]@,
        decreases lists.len() - i,
    {
        r.push(lists[i].copy());
        i = i + 1;
    }
    assert(r@.map_values(|l: List| l@) =~= lists@.map_values(|l: List| l@));
    r
}

pub struct ListsView {
    pub lists: Seq<ListView>,
    pub highlight: usize,
    pub focused_panel: ListsPanel,
    pub open_list: Option<usize>,
    pub channel_highlight: usize,
}

impl ListsView {
    /// The channels of the open list, if one is open.
    pub open spec fn open_channels(self) -> Option<Seq<Channel>> {
        match self.open_list {
            Some(i) => if i < self.lists.len() {
                Some(self.lists[i as int].channels)
            } else {
                None
            },
            None => None,
        }
    }

    /// Each highlight stands on an entry of its list whenever there is one.
    pub open spec fn wf(self) -> bool {
        &&& self.lists.len() > 0 ==> self.highlight < self.lists.len()
        &&& match self.open_channels() {
            Some(c) => c.len() > 0 ==> self.channel_highlight < c.len(),
            None => true,
        }
    }

    /// The screen after a navigation event.
    pub open spec fn after(self, action: Event) -> ListsView {
        match action {
            Event::CycleHighlight(d) => match self.focused_panel {
                ListsPanel::Lists => ListsView {
                    highlight: match d {
                        MoveDirection::Down => next_index(
                            self.highlight as int,
                            self.lists.len() as int,
                        ) as usize,
                        MoveDirection::Up => previous_index(
                            self.highlight as int,
                            self.lists.len() as int,
                        ) as usize,
                        _ => self.highlight,
                    },
                    ..self
                },
                ListsPanel::ListContent => match self.open_channels() {
                    Some(c) => ListsView {
                        channel_highlight: match d {
                            MoveDirection::Down => next_index(
                                self.channel_highlight as int,
                                c.len() as int,
                            ) as usize,
                            MoveDirection::Up => previous_index(
                                self.channel_highlight as int,
                                c.len() as int,
                            ) as usize,
                            _ => self.channel_highlight,
                        },
                        ..self
                    },
                    None => self,
                },
            },
            Event::HomeEndHighlight(e) => ListsView {
                highlight: match e {
                    MoveEnd::First => 0,
                    MoveEnd::Last => if self.lists.len() > 0 {
                        (self.lists.len() - 1) as usize
                    } else {
                        self.highlight
                    },
                },
                ..self
            },
            Event::Selected => if self.focused_panel == ListsPanel::Lists {
                ListsView { open_list: Some(self.highlight), channel_highlight: 0, ..self }
            } else {
                self
            },
            Event::CyclePanel(d) => ListsView {
                focused_panel: match d {
                    MoveDirection::Left => self.focused_panel.spec_left(),
                    MoveDirection::Right => if self.open_list is Some {
                        self.focused_panel.spec_right()
                    } else {
                        self.focused_panel
                    },
                    _ => self.focused_panel,
                },
                ..self
            },
            _ => self,
        }
    }
}

/// The events that the lists screen sends while it processes `action`.
pub open spec fn lists_sends(v: ListsView, action: Event, sent: Seq<Event>) -> bool {
    match action {
        Event::Exited => sent == seq![Event::Exited],
        Event::CycleTab(d) => sent == seq![Event::CycleTab(d)],
        Event::Selected => if v.focused_panel == ListsPanel::ListContent {
            sent.len() == 1 && is_chat_popup(sent[0], crate::event::Callback::ChatChoice)
        } else {
            sent.len() == 0
        },
        _ => sent.len() == 0,
    }
}

/// The lists screen: channel lists, and the channels of the open one.
pub struct Lists {
    pub lists: Vec<List>,
    pub highlight: usize,
    pub focused_panel: ListsPanel,
    pub open_list: Option<usize>,
    pub channel_highlight: usize,
}

impl View for Lists {
    type V = ListsView;

    open spec fn view(&self) -> ListsView {
        ListsView {
            lists: self.lists@.map_values(|l: List| l@),
            highlight: self.highlight,
            focused_panel: self.focused_panel,
            open_list: self.open_list,
            channel_highlight: self.channel_highlight,
        }
    }
}

impl Lists {
    pub fn new(
        highlight: usize,
        lists: &Vec<List>,
        open_list: Option<usize>,
        channel_highlight: usize,
    ) -> (r: Lists)
        requires
            (ListsView {
                lists: lists@.map_values(|l: List| l@),
                highlight,
                focused_panel: ListsPanel::Lists,
                open_list,
                channel_highlight,
            }).wf(),
        ensures
            r@ == (ListsView {
                lists: lists@.map_values(|l: List| l@),
                highlight,
                focused_panel: ListsPanel::Lists,
                open_list,
                channel_highlight,
            }),
    {
        Lists {
            lists: copy_lists(lists),
            highlight,
            focused_panel: ListsPanel::Lists,
            open_list,
            channel_highlight,
        }
    }

    /// A fresh screen with the lists, highlights and open list of a cached one.
    pub fn from_existing(state: &Lists) -> (r: Lists)
        requires
            state@.wf(),
        ensures
            r@ == (ListsView { focused_panel: ListsPanel::Lists, ..state@ }),
    {
        Lists::new(state.highlight, &state.lists, state.open_list, state.channel_highlight)
    }

    /// The lists screen over the given lists, none open.
    pub fn init(lists: &Vec<List>) -> (r: Lists)
        ensures
            r@ == (ListsView {
                lists: lists@.map_values(|l: List| l@),
                highlight: 0,
                focused_panel: ListsPanel::Lists,
                open_list: None,
                channel_highlight: 0,
            }),
    {
        Lists::new(0, lists, None, 0)
    }

    /// Applies the status results that came back for the open list.
    pub fn channel_check(&mut self, updates: &Vec<StatusUpdate>)
        requires
            old(self)@.wf(),
        ensures
            final(self)@.wf(),
            match old(self)@.open_channels() {
                Some(c) => final(self)@ == (ListsView {
                    lists: old(self)@.lists.update(
                        old(self).open_list.unwrap() as int,
                        ListView {
                            channels: with_statuses(c, updates@),
                            ..old(self)@.lists[old(self).open_list.unwrap() as int]
                        },
                    ),
                    ..old(self)@
                }),
                None => final(self)@ == old(self)@,
            },
    {
        if let Some(index) = self.open_list {
            if index < self.lists.len() {
                let mut list = self.lists[index].copy();
                apply_statuses(&mut list.channels, updates);
                self.lists.set(index, list);
                assert(self@.lists =~= old(self)@.lists.update(
                    index as int,
                    ListView {
                        channels: with_statuses(old(self)@.lists[index as int].channels, updates@),
                        ..old(self)@.lists[index as int]
                    },
                ));
            }
        }
    }

    pub fn inputs(&self) -> (r: Vec<KeyBind>)
        ensures
            r@ == spec_home_inputs(),
    {
        lists_inputs()
    }

    pub fn handle(&self, key_event: KeyEvent) -> (r: Option<Event>)
        ensures
            same_action(r, bound_action(spec_home_inputs(), key_event)),
    {
        Handler::new(self.inputs()).handle(key_event)
    }

    pub fn transition(&self, event: Event, tx: &mut Vec<Event>) -> (r: Reaction)
        requires
            self@.wf(),
        ensures
            match event {
                Event::Exited => r == Reaction::Go(Transition::To(AppState::Exit(Exit))),
                Event::CheckChannels(c) => r == Reaction::Run(Effect::CheckChannels(c)),
                Event::ChannelSelected(c, chat) => r == Reaction::Run(Effect::Launch(c, chat)),
                Event::CycleTab(d) => if d == MoveDirection::Left || d == MoveDirection::Right {
                    r == Reaction::Load(Need::Favourites)
                } else {
                    r is Stay
                },
                _ => if opens_popup(event) {
                    popup_reaction(event, r)
                } else {
                    r is Stay
                },
            },
            match (event, self@.open_channels()) {
                (Event::ChatChoice(choice), Some(c)) => if self.channel_highlight < c.len() {
                    final(tx)@ == old(tx)@.push(
                        Event::ChannelSelected(c[self.channel_highlight as int], choice == 1),
                    )
                } else {
                    final(tx)@ == old(tx)@
                },
                _ => final(tx)@ == old(tx)@,
            },
            reaction_view(r) == channels_reaction(event, Need::Favourites),
    {
        match event {
            Event::Exited => Reaction::Go(Transition::To(AppState::Exit(Exit::new()))),
            Event::CheckChannels(channels) => Reaction::Run(Effect::CheckChannels(channels)),
            Event::ChoicePopupStarted(_) => popup_for(event),
            Event::InputPopupStarted(_) => popup_for(event),
            Event::TimedInfoPopupStarted(_) => popup_for(event),
            Event::ChatChoice(choice) => {
                let chat_choice = BoolChoice::from(choice).is_true();
                if let Some(list_index) = self.open_list {
                    if list_index < self.lists.len() {
                        let list = &self.lists[list_index];
                        if self.channel_highlight < list.channels.len() {
                            let channel = list.channels[self.channel_highlight].clone();
                            tx.push(Event::ChannelSelected(channel, chat_choice));
                        }
                    }
                }
                Reaction::Stay
            },
            Event::ChannelSelected(channel, chat) => Reaction::Run(Effect::Launch(channel, chat)),
            Event::CycleTab(direction) => match direction {
                MoveDirection::Left | MoveDirection::Right => Reaction::Load(Need::Favourites),
                _ => Reaction::Stay,
            },
            _ => Reaction::Stay,
        }
    }

    /// Applies a navigation event; events that replace the screen are sent on
    /// for the transition.
    pub fn process(&mut self, action: Event, tx: &mut Vec<Event>)
        requires
            old(self)@.wf(),
        ensures
            final(self)@ == old(self)@.after(action),
            final(self)@.wf(),
            final(tx)@.len() >= old(tx)@.len(),
            final(tx)@.subrange(0, old(tx)@.len() as int) == old(tx)@,
            lists_sends(
                old(self)@,
                action,
                final(tx)@.subrange(old(tx)@.len() as int, final(tx)@.len() as int),
            ),
    {
        let ghost before = tx@;
        match action {
            Event::Exited => {
                tx.push(Event::Exited);
            },
            Event::CycleTab(d) => {
                tx.push(Event::CycleTab(d));
            },
            Event::CycleHighlight(direction) => {
                match self.focused_panel {
                    ListsPanel::Lists => {
                        self.highlight = match direction {
                            MoveDirection::Down => index_add(self.highlight, self.lists.len()),
                            MoveDirection::Up => index_subtract(self.highlight, self.lists.len()),
                            _ => self.highlight,
                        };
                    },
                    ListsPanel::ListContent => {
                        if let Some(open_list_index) = self.open_list {
                            if open_list_index < self.lists.len() {
                                let count = self.lists[open_list_index].channels.len();
                                self.channel_highlight = match direction {
                                    MoveDirection::Down => index_add(self.channel_highlight, count),
                                    MoveDirection::Up => index_subtract(
                                        self.channel_highlight,
                                        count,
                                    ),
                                    _ => self.channel_highlight,
                                };
                            }
                        }
                    },
                }
            },
            Event::HomeEndHighlight(end) => {
                self.highlight = match end {
                    MoveEnd::First => 0,
                    MoveEnd::Last => if self.lists.len() > 0 {
                        self.lists.len() - 1
                    } else {
                        self.highlight
                    },
                };
            },
            Event::Selected => {
                match self.focused_panel {
                    ListsPanel::Lists => {
                        self.open_list = Some(self.highlight);
                        self.channel_highlight = 0;
                    },
                    ListsPanel::ListContent => {
                        chat_popup(tx);
                    },
                }
            },
            Event::CyclePanel(direction) => {
                self.focused_panel = match direction {
                    MoveDirection::Left => self.focused_panel.left(),
                    MoveDirection::Right => match self.open_list {
                        Some(_) => self.focused_panel.right(),
                        None => self.focused_panel,
                    },
                    _ => self.focused_panel,
                };
            },
            _ => {},
        }
        proof {
            assert(tx@.subrange(0, before.len() as int) =~= before);
            if tx@.len() == before.len() + 1 {
                assert(tx@.subrange(before.len() as int, tx@.len() as int) =~= seq![tx@.last()]);
            } else {
                assert(tx@.subrange(before.len() as int, tx@.len() as int) =~= Seq::<Event>::empty());
            }
        }
    }
}

} // verus!
