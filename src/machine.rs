use crate::cache::Cache;
use crate::channel::{Account, Channel};
use crate::event::Event;
use crate::home::{Home, StatusUpdate};
use crate::input::KeyEvent;
use crate::lists::{List, Lists};
use crate::startup::{AccountMissing, AccountRequest, Startup};
use crate::exit::Exit;
use crate::startup::account_tick_sends;
use crate::state::{
    effect_view, effects_view, extends, lemma_after_same, sends, AppState, EffectView, ReactionView,
    StateKind,
};
use crate::transition::{Effect, Need, Reaction, Transition};
use vstd::prelude::*;

verus! {

/// Where the stack of screens stands, by kind: the current screen and the
/// screens kept under it, the last one on top.
pub struct NavView {
    pub current: StateKind,
    pub pushed: Seq<StateKind>,
}

/// A change of the stack of screens, by kind.
pub enum Move {
    Push(StateKind),
    Pop,
    To(StateKind),
}

/// The stack after a move: a push keeps the current screen under the new
/// one; a pop brings back the screen on top, or changes nothing when none
/// is kept; a replacement keeps the stack as it is.
pub open spec fn nav_step(v: NavView, m: Move) -> NavView {
    match m {
        Move::Push(k) => NavView { current: k, pushed: v.pushed.push(v.current) },
        Move::Pop => if v.pushed.len() > 0 {
            NavView { current: v.pushed.last(), pushed: v.pushed.drop_last() }
        } else {
            v
        },
        Move::To(k) => NavView { current: k, pushed: v.pushed },
    }
}

pub open spec fn move_of(t: Transition) -> Move {
    match t {
        Transition::Push(s) => Move::Push(s.spec_kind()),
        Transition::Pop => Move::Pop,
        Transition::To(s) => Move::To(s.spec_kind()),
    }
}

/// The stack after pushing screens of the given kinds, in order.
pub open spec fn push_all(v: NavView, kinds: Seq<StateKind>) -> NavView
    decreases kinds.len(),
{
    if kinds.len() == 0 {
        v
    } else {
        nav_step(push_all(v, kinds.drop_last()), Move::Push(kinds.last()))
    }
}

/// The stack after `n` pops.
pub open spec fn pop_all(v: NavView, n: nat) -> NavView
    decreases n,
{
    if n == 0 {
        v
    } else {
        pop_all(nav_step(v, Move::Pop), (n - 1) as nat)
    }
}

/// The kinds of the screens that `n` pops bring back, in order.
pub open spec fn pop_visits(v: NavView, n: nat) -> Seq<StateKind>
    decreases n,
{
    if n == 0 {
        seq![]
    } else {
        seq![nav_step(v, Move::Pop).current] + pop_visits(nav_step(v, Move::Pop), (n - 1) as nat)
    }
}

/// Screens come back in the reverse order of the pushes: after pushing
/// screens of kinds `k0, ..., kn` over a current screen of kind `c`, as many
/// pops bring back screens of kinds `k(n-1), ..., k0, c`, and leave the stack
/// as it was before the pushes.
pub proof fn lemma_pops_reverse_pushes(v: NavView, kinds: Seq<StateKind>)
    requires
        kinds.len() > 0,
    ensures
        pop_visits(push_all(v, kinds), kinds.len()) == (seq![v.current] + kinds.drop_last()).reverse(),
        pop_all(push_all(v, kinds), kinds.len()) == v,
    decreases kinds.len(),
{
    let p = push_all(v, kinds.drop_last());
    assert(p.pushed.push(p.current).drop_last() =~= p.pushed);
    assert(nav_step(push_all(v, kinds), Move::Pop) == p);
    assert(pop_all(push_all(v, kinds), kinds.len()) == pop_all(p, (kinds.len() - 1) as nat));
    if kinds.len() == 1 {
        assert(kinds.drop_last() =~= Seq::<StateKind>::empty());
        assert(p == v);
        assert(pop_visits(p, 0) == Seq::<StateKind>::empty());
        assert(pop_visits(push_all(v, kinds), 1) =~= seq![p.current]);
        assert((seq![v.current] + kinds.drop_last()).reverse() =~= seq![v.current]);
    } else {
        lemma_pops_reverse_pushes(v, kinds.drop_last());
        let front = seq![v.current] + kinds.drop_last().drop_last();
        assert(p.current == kinds.drop_last().last());
        assert(seq![v.current] + kinds.drop_last() =~= front.push(p.current));
        assert(front.push(p.current).reverse() =~= seq![p.current] + front.reverse());
        assert(pop_visits(push_all(v, kinds), kinds.len()) == seq![p.current] + pop_visits(
            p,
            (kinds.len() - 1) as nat,
        ));
    }
}

/// The screen, the stack of slots and the cache are as they were.
pub open spec fn screens_kept(pre: StateMachine, post: StateMachine) -> bool {
    &&& post.current() == pre.current()
    &&& post.slots() == pre.slots()
    &&& post.cached() == pre.cached()
}

/// The outside work asked for while `e` is drained with `reaction`: the end
/// of the application on `Exited`, then the work that the screen asks for.
pub open spec fn drain_effects(e: Event, reaction: ReactionView) -> Seq<EffectView> {
    (if e is Exited {
        seq![EffectView::ExitApp]
    } else {
        seq![]
    }) + match reaction {
        ReactionView::Run(ef) => seq![ef],
        _ => seq![],
    }
}

/// What draining the first event of `queue` did to the machine `pre`, with
/// the timer at `t`, `post` the machine after it and `r` what it asked for.
/// The rest of the queue stays in order ahead of what the screen sent. The
/// current screen's answer decides the rest: nothing changes on `Stay`, on
/// outside work, or while data is loaded; a push caches the screen left and
/// keeps its slot on the stack; a replacement caches the screen left; a pop
/// brings back a fresh screen from the slot on top, and changes nothing on
/// an empty stack. The timer goes on unless the stack changed.
pub open spec fn drained(pre: StateMachine, queue: Seq<Event>, t: u64, post: StateMachine, r: Request) -> bool {
    &&& post.wf()
    &&& !(r is Account)
    &&& r is Load ==> post.waiting() == Pending::Load(r->Load_0)
    &&& !(r is Load) ==> post.waiting() == Pending::Nothing
    &&& queue.len() == 0 ==> r is Nothing && screens_kept(pre, post) && post.queue() == queue
        && post.outbox() == pre.outbox() && post.time() == t
    &&& queue.len() > 0 ==> {
        let e = queue[0];
        let reaction = pre.current()@.reaction(e);
        &&& extends(queue.drop_first(), post.queue())
        &&& effects_view(post.outbox()) == effects_view(pre.outbox()) + drain_effects(e, reaction)
        &&& match reaction {
            ReactionView::Stay => r is Nothing && screens_kept(pre, post) && post.time() == t,
            ReactionView::Run(_) => r is Nothing && screens_kept(pre, post) && post.time() == t,
            ReactionView::Load(n) => r == Request::Load(n) && screens_kept(pre, post) && post.time()
                == t,
            ReactionView::Push(v) => r is Nothing && post.current()@ == v && post.slots().len()
                == pre.slots().len() + 1 && post.slots().drop_last() == pre.slots()
                && post.cached().entries()[post.slots().last() as int] == pre.current()
                && post.nav() == nav_step(pre.nav(), Move::Push(v.kind())) && post.time() == 0,
            ReactionView::To(v) => r is Nothing && post.current()@ == v && post.slots()
                == pre.slots() && post.cached().entries().contains(pre.current()) && post.nav()
                == nav_step(pre.nav(), Move::To(v.kind())) && post.time() == 0,
            ReactionView::Pop => r is Nothing && post.nav() == nav_step(pre.nav(), Move::Pop)
                && post.cached() == pre.cached() && post.time() == 0 && if pre.slots().len() > 0 {
                post.current()@ == pre.cached().entries()[pre.slots().last() as int]@.resumed()
                    && post.slots() == pre.slots().drop_last()
            } else {
                post.current() == pre.current() && post.slots() == pre.slots()
            },
        }
    }
}

/// What the machine waits for from outside before it goes on.
#[derive(Clone, Copy, PartialEq, Eq, Structural, Debug)]
pub enum Pending {
    Nothing,
    Account,
    Load(Need),
}

/// Outside work that the machine needs before it can finish the tick.
pub enum Request {
    /// The tick is done.
    Nothing,
    /// Set up an account from these details, then hand the outcome to `resume_account`.
    Account(AccountRequest),
    /// Load the data, then hand it to `resume_favourites` or `resume_lists`.
    Load(Need),
}

/// The driver of the application: the current screen, the cache of screens
/// left, the stack of cache slots to come back to, the queue of events and
/// the tick counter.
pub struct StateMachine {
    state: AppState,
    cache: Cache,
    stack: Vec<usize>,
    events: Vec<Event>,
    timer: u64,
    pending: Pending,
    effects: Vec<Effect>,
}

impl StateMachine {
    pub closed spec fn current(&self) -> AppState {
        self.state
    }

    pub closed spec fn cached(&self) -> Cache {
        self.cache
    }

    pub closed spec fn slots(&self) -> Seq<usize> {
        self.stack@
    }

    pub closed spec fn queue(&self) -> Seq<Event> {
        self.events@
    }

    pub closed spec fn time(&self) -> u64 {
        self.timer
    }

    pub closed spec fn waiting(&self) -> Pending {
        self.pending
    }

    pub closed spec fn outbox(&self) -> Seq<Effect> {
        self.effects@
    }

    /// The stack of screens by kind.
    pub open spec fn nav(&self) -> NavView {
        NavView {
            current: self.current().spec_kind(),
            pushed: self.slots().map_values(
                |i: usize| self.cached().entries()[i as int].spec_kind(),
            ),
        }
    }

    pub open spec fn wf(&self) -> bool {
        &&& self.current()@.wf()
        &&& self.cached().wf()
        &&& forall|i: int|
            0 <= i < self.slots().len() ==> #[trigger] self.slots()[i]
                < self.cached().entries().len()
    }

    /// The machine of a new session: the start screen, or the account screen
    /// when no account could be loaded.
    pub fn new(account_loaded: bool) -> (r: StateMachine)
        ensures
            r.wf(),
            account_loaded ==> r.current() == AppState::Startup(
                Startup { timer: 0, duration: crate::startup::STARTUP_DURATION },
            ),
            !account_loaded ==> r.current() is AccountMissing,
            r.nav().pushed.len() == 0,
            r.queue().len() == 0,
            r.time() == 0,
            r.waiting() == Pending::Nothing,
            r.outbox().len() == 0,
    {
        let state = if account_loaded {
            AppState::Startup(Startup::default())
        } else {
            AppState::AccountMissing(AccountMissing::default())
        };
        StateMachine {
            state,
            cache: Cache::new(),
            stack: Vec::new(),
            events: Vec::new(),
            timer: 0,
            pending: Pending::Nothing,
            effects: Vec::new(),
        }
    }

    pub fn state(&self) -> (r: &AppState)
        ensures
            *r == self.current(),
    {
        &self.state
    }

    pub fn timer(&self) -> (r: u64)
        ensures
            r == self.time(),
    {
        self.timer
    }

    pub fn events(&self) -> (r: &Vec<Event>)
        ensures
            r@ == self.queue(),
    {
        &self.events
    }

    pub fn stack_len(&self) -> (r: usize)
        ensures
            r == self.nav().pushed.len(),
    {
        self.stack.len()
    }

    pub fn pending(&self) -> (r: Pending)
        ensures
            r == self.waiting(),
    {
        self.pending
    }

    /// Adds an event at the end of the queue.
    pub fn send(&mut self, event: Event)
        ensures
            final(self).queue() == old(self).queue().push(event),
            final(self).current() == old(self).current(),
            final(self).nav() == old(self).nav(),
            final(self).time() == old(self).time(),
            final(self).waiting() == old(self).waiting(),
            final(self).outbox() == old(self).outbox(),
            old(self).wf() ==> final(self).wf(),
    {
        self.events.push(event);
    }

    /// Hands out the outside work asked for so far.
    pub fn take_effects(&mut self) -> (r: Vec<Effect>)
        ensures
            r@ == old(self).outbox(),
            final(self).outbox().len() == 0,
            final(self).current() == old(self).current(),
            final(self).nav() == old(self).nav(),
            final(self).queue() == old(self).queue(),
            final(self).time() == old(self).time(),
            final(self).waiting() == old(self).waiting(),
            old(self).wf() ==> final(self).wf(),
    {
        let mut taken: Vec<Effect> = Vec::new();
        std::mem::swap(&mut taken, &mut self.effects);
        taken
    }

    /// Changes the stack of screens: a push caches the current screen and
    /// keeps its slot on the stack; a pop brings back a fresh screen from the
    /// slot on top, and changes nothing on an empty stack; a replacement
    /// caches the current screen. The timer starts again.
    pub fn apply_transition(&mut self, transition: Transition)
        requires
            old(self).wf(),
            match transition {
                Transition::Push(s) => s@.wf(),
                Transition::To(s) => s@.wf(),
                Transition::Pop => true,
            },
        ensures
            final(self).wf(),
            final(self).nav() == nav_step(old(self).nav(), move_of(transition)),
            final(self).time() == 0,
            final(self).queue() == old(self).queue(),
            final(self).waiting() == old(self).waiting(),
            final(self).outbox() == old(self).outbox(),
            match transition {
                Transition::Push(s) => final(self).current() == s && final(self).slots().len()
                    == old(self).slots().len() + 1 && final(self).slots().drop_last() == old(
                    self).slots() && final(self).cached().entries()[final(self).slots().last() as int]
                    == old(self).current(),
                Transition::To(s) => final(self).current() == s && final(self).slots() == old(
                    self).slots() && final(self).cached().entries().contains(old(self).current()),
                Transition::Pop => final(self).cached() == old(self).cached() && if old(
                    self).slots().len() > 0 {
                    final(self).current()@ == old(self).cached().entries()[old(
                        self).slots().last() as int]@.resumed() && final(self).slots() == old(
                        self).slots().drop_last()
                } else {
                    final(self).current() == old(self).current() && final(self).slots() == old(
                        self).slots()
                },
            },
    {
        let ghost old_nav = self.nav();
        match transition {
            Transition::Push(state) => {
                let mut old_state = state;
                std::mem::swap(&mut self.state, &mut old_state);
                let ghost old_cache = self.cache;
                let index = self.cache.add(old_state);
                self.stack.push(index);
                assert(self.stack@.drop_last() =~= old(self).stack@);
                proof {
                    assert forall|j: int| 0 <= j < old_cache.entries().len() implies #[trigger] self.cache.entries()[j].spec_kind()
                        == old_cache.entries()[j].spec_kind() by {}
                    assert(self.nav().pushed =~= old_nav.pushed.push(old_nav.current));
                }
            },
            Transition::Pop => {
                if let Some(index) = self.stack.pop() {
                    if let Some(state) = self.cache.get(index) {
                        self.state = state;
                    }
                    assert(self.stack@ =~= old(self).stack@.drop_last());
                    assert(self.nav().pushed =~= old_nav.pushed.drop_last());
                }
            },
            Transition::To(state) => {
                let mut old_state = state;
                std::mem::swap(&mut self.state, &mut old_state);
                let ghost old_cache = self.cache;
                let index = self.cache.add(old_state);
                assert(self.cache.entries()[index as int] == old(self).current());
                proof {
                    assert forall|j: int| 0 <= j < old_cache.entries().len() implies #[trigger] self.cache.entries()[j].spec_kind()
                        == old_cache.entries()[j].spec_kind() by {}
                    assert(self.nav().pushed =~= old_nav.pushed);
                }
            },
        }
        self.timer = 0;
    }

    /// Drains the first event of the queue and answers it with the current screen.
    fn step(&mut self) -> (r: Request)
        requires
            old(self).wf(),
            old(self).waiting() == Pending::Nothing,
        ensures
            drained(*old(self), old(self).queue(), old(self).time(), *final(self), r),
    {
        if self.events.len() == 0 {
            return Request::Nothing;
        }
        let ghost pre = *self;
        let event = self.events.remove(0);
        let ghost rest = self.events@;
        assert(rest =~= old(self).queue().drop_first());
        if let Event::Exited = &event {
            self.effects.push(Effect::ExitApp);
        }
        let ghost exit_effects = self.effects@;
        assert(effects_view(exit_effects) =~= effects_view(pre.effects@) + (if event is Exited {
            seq![EffectView::ExitApp]
        } else {
            seq![]
        }));
        assert(self.slots() == old(self).slots());
        assert(self.cached() == old(self).cached());
        let reaction = self.state.transition(event, &mut self.events);
        assert(extends(rest, self.events@));
        match reaction {
            Reaction::Stay => Request::Nothing,
            Reaction::Go(transition) => {
                let ghost tr = transition;
                self.apply_transition(transition);
                proof {
                    match tr {
                        Transition::Push(s) => assert(s@.kind() == s.spec_kind()),
                        Transition::To(s) => assert(s@.kind() == s.spec_kind()),
                        _ => {},
                    }
                }
                Request::Nothing
            },
            Reaction::Run(effect) => {
                self.effects.push(effect);
                assert(effects_view(self.effects@) =~= effects_view(exit_effects).push(
                    effect_view(effect),
                ));
                Request::Nothing
            },
            Reaction::Load(need) => {
                self.pending = Pending::Load(need);
                Request::Load(need)
            },
        }
    }

    /// One frame: the timer advances, the current screen does its work for
    /// the tick, and the first event of the queue is answered. Where that
    /// needs outside work first, the request for it comes back.
    pub fn tick(&mut self) -> (r: Request)
        requires
            old(self).wf(),
            old(self).waiting() == Pending::Nothing,
            old(self).time() < u64::MAX,
        ensures
            final(self).wf(),
            r is Account ==> old(self).current() is AccountMissing && final(self).waiting()
                == Pending::Account && screens_kept(*old(self), *final(self)) && final(self).time()
                == old(self).time() + 1 && final(self).outbox() == old(self).outbox(),
            !(old(self).current() is AccountMissing) ==> drained(
                *old(self),
                old(self).queue() + old(self).current()@.tick_sends((old(self).time() + 1) as u64),
                (old(self).time() + 1) as u64,
                *final(self),
                r,
            ),
            old(self).current() is AccountMissing && !(r is Account) ==> exists|sends: Seq<Event>|
                #[trigger] account_tick_sends(
                    old(self).current()->AccountMissing_0@,
                    (old(self).time() + 1) as u64,
                    sends,
                ) && drained(
                    *old(self),
                    old(self).queue() + sends,
                    (old(self).time() + 1) as u64,
                    *final(self),
                    r,
                ),
    {
        self.timer = self.timer + 1;
        let request = self.state.tick(self.timer, &mut self.events);
        match request {
            Some(details) => {
                self.pending = Pending::Account;
                Request::Account(details)
            },
            None => {
                let ghost mid = *self;
                let ghost sends = self.events@.subrange(
                    old(self).queue().len() as int,
                    self.events@.len() as int,
                );
                proof {
                    assert(self.events@ =~= old(self).queue() + sends);
                    if !(old(self).current() is AccountMissing) {
                        assert(self.events@ == old(self).queue() + old(self).current()@.tick_sends(
                            self.timer,
                        ));
                    }
                    assert(self.slots() == old(self).slots());
                    assert(self.cached() == old(self).cached());
                }
                let r = self.step();
                proof {
                    assert(screens_kept(mid, *old(self)));
                    if old(self).current() is AccountMissing {
                        assert(account_tick_sends(
                            old(self).current()->AccountMissing_0@,
                            (old(self).time() + 1) as u64,
                            sends,
                        ));
                    }
                }
                r
            },
        }
    }

    /// Goes on with the tick once the account is set up, or could not be:
    /// the account screen then hears that the account is configured, or that
    /// the application exits.
    pub fn resume_account(&mut self, account: Option<Account>) -> (r: Request)
        requires
            old(self).wf(),
            old(self).waiting() == Pending::Account,
        ensures
            drained(
                *old(self),
                old(self).queue().push(
                    match account {
                        Some(a) => Event::AccountConfigured(a),
                        None => Event::Exited,
                    },
                ),
                old(self).time(),
                *final(self),
                r,
            ),
    {
        let event = match account {
            Some(a) => Event::AccountConfigured(a),
            None => Event::Exited,
        };
        self.events.push(event);
        assert(self.slots() == old(self).slots());
        assert(self.cached() == old(self).cached());
        self.pending = Pending::Nothing;
        assert(self.wf());
        self.step()
    }

    /// Goes on with the tick once the favourites are loaded: the home screen
    /// over them takes the current screen's place.
    pub fn resume_favourites(&mut self, favourites: &Vec<Channel>)
        requires
            old(self).wf(),
            old(self).waiting() == Pending::Load(Need::Favourites),
        ensures
            final(self).wf(),
            final(self).waiting() == Pending::Nothing,
            final(self).current() is Home,
            final(self).current()@ == crate::state::AppStateView::Home(
                crate::home::HomeView {
                    channel_highlight: 0,
                    favourites: favourites@,
                    typing: false,
                    search_input: Seq::empty(),
                    focused_panel: crate::panel::Home::Favourites,
                },
            ),
            final(self).nav() == nav_step(old(self).nav(), Move::To(StateKind::Home)),
            final(self).time() == 0,
            extends(old(self).queue(), final(self).queue()),
            final(self).outbox() == old(self).outbox(),
    {
        let ghost before = self.events@;
        let home = Home::init(favourites, &mut self.events);
        assert(extends(before, self.events@)) by {
            assert(self.events@.subrange(0, before.len() as int) =~= before);
        }
        self.pending = Pending::Nothing;
        self.apply_transition(Transition::To(AppState::Home(home)));
    }

    /// Goes on with the tick once the channel lists are loaded: the lists
    /// screen over them takes the current screen's place.
    pub fn resume_lists(&mut self, lists: &Vec<List>)
        requires
            old(self).wf(),
            old(self).waiting() == Pending::Load(Need::Lists),
        ensures
            final(self).wf(),
            final(self).waiting() == Pending::Nothing,
            final(self).current() is Lists,
            final(self).current()@ == crate::state::AppStateView::Lists(
                crate::lists::ListsView {
                    lists: lists@.map_values(|l: List| l@),
                    highlight: 0,
                    focused_panel: crate::panel::Lists::Lists,
                    open_list: None,
                    channel_highlight: 0,
                },
            ),
            final(self).nav() == nav_step(old(self).nav(), Move::To(StateKind::Lists)),
            final(self).time() == 0,
            final(self).queue() == old(self).queue(),
            final(self).outbox() == old(self).outbox(),
    {
        let screen = Lists::init(lists);
        self.pending = Pending::Nothing;
        self.apply_transition(Transition::To(AppState::Lists(screen)));
    }

    /// A key chord, turned into an event by the current screen and applied to it at once.
    pub fn handle(&mut self, key_event: KeyEvent)
        requires
            old(self).wf(),
        ensures
            final(self).wf(),
            final(self).slots() == old(self).slots(),
            final(self).cached() == old(self).cached(),
            final(self).time() == old(self).time(),
            final(self).waiting() == old(self).waiting(),
            final(self).outbox() == old(self).outbox(),
            extends(old(self).queue(), final(self).queue()),
            match old(self).current()@.key_action(key_event) {
                Some(action) => final(self).current()@ == old(self).current()@.after(action)
                    && sends(
                    old(self).current()@,
                    action,
                    final(self).queue().subrange(
                        old(self).queue().len() as int,
                        final(self).queue().len() as int,
                    ),
                ),
                None => final(self).current() == old(self).current() && final(self).queue()
                    == old(self).queue(),
            },
    {
        let ghost before = self.events@;
        let ghost pre = self.state@;
        if let Some(action) = self.state.handle(key_event) {
            let ghost a = action;
            self.state.process(action, &mut self.events);
            proof {
                let expected = old(self).current()@.key_action(key_event).unwrap();
                lemma_after_same(
                    pre,
                    a,
                    expected,
                    self.events@.subrange(before.len() as int, self.events@.len() as int),
                );
            }
        }
        assert(self.events@.subrange(0, before.len() as int) =~= before);
        assert(self.slots() == old(self).slots());
        assert(self.cached() == old(self).cached());
    }

    /// Pasted text, applied to the current screen as typed text.
    pub fn paste(&mut self, text: String)
        requires
            old(self).wf(),
        ensures
            final(self).wf(),
            final(self).current()@ == old(self).current()@.after(Event::Paste(text)),
            final(self).slots() == old(self).slots(),
            final(self).cached() == old(self).cached(),
            final(self).time() == old(self).time(),
            final(self).waiting() == old(self).waiting(),
            final(self).outbox() == old(self).outbox(),
            final(self).queue() == old(self).queue(),
    {
        let ghost before = self.events@;
        self.state.process(Event::Paste(text), &mut self.events);
        assert(self.events@ =~= before);
        assert(self.slots() == old(self).slots());
        assert(self.cached() == old(self).cached());
    }

    /// Status results, applied to the current screen and to every cached
    /// screen that shows channels.
    pub fn receive(&mut self, updates: &Vec<StatusUpdate>)
        requires
            old(self).wf(),
        ensures
            final(self).wf(),
            final(self).current()@ == old(self).current()@.received(updates@),
            final(self).current().spec_kind() == old(self).current().spec_kind(),
            final(self).slots() == old(self).slots(),
            final(self).cached().entries().len() == old(self).cached().entries().len(),
            forall|i: int|
                0 <= i < old(self).cached().entries().len() ==> (#[trigger] final(
                    self).cached().entries()[i])@ == old(self).cached().entries()[i]@.received(updates@),
            final(self).nav() == old(self).nav(),
            final(self).time() == old(self).time(),
            final(self).waiting() == old(self).waiting(),
            final(self).outbox() == old(self).outbox(),
            final(self).queue() == old(self).queue(),
    {
        self.state.receive(updates);
        self.cache.receive(updates);
        assert(self.nav().pushed =~= old(self).nav().pushed);
    }
}

} // verus!
